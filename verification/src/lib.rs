//! A device screen-mirroring core: a command dispatcher that serializes
//! device-management commands, a capture loop that decodes screenshots into
//! frames, a presentation controller with a texture-reuse policy, and a
//! sliding-window frame-rate estimator.

pub mod capture;
pub mod dispatcher;
pub mod present;
pub mod queue;
pub mod rate;
pub mod types;
