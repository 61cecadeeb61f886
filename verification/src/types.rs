//! The data model: devices, frames, commands, events, and the error
//! taxonomy shared by the dispatcher, the capture loop and the presentation
//! controller.

use vstd::prelude::*;

verus! {

/// Why a collaborator operation failed.
#[derive(Clone, Copy, Debug, PartialEq, Eq, Structural)]
pub enum DeviceError {
    /// The discovery service could not be reached at all (whole-scan abort).
    TransportUnavailable,
    /// A per-device attribute query failed (that device is skipped).
    ProtocolError,
    /// A capture session could not be established.
    ConnectionError,
    /// The device-side capture service was not found.
    ServiceNotFound,
    /// A capture request failed mid-stream (terminal for the capture loop).
    CaptureError,
    /// One frame could not be decoded (non-terminal; the frame is dropped).
    DecodeError,
}

/// A discovered device: a stable identifier plus a human-readable name.
///
/// The identifier, not the name, keys the device: two devices may share a
/// display name.
#[derive(Clone, Debug)]
pub struct Device {
    pub id: u64,
    pub name: String,
}

/// A decoded frame: tightly packed RGBA pixels, four bytes per pixel, rows
/// top to bottom.
#[derive(Clone, Debug)]
pub struct Frame {
    pub width: u32,
    pub height: u32,
    pub pixels: Vec<u8>,
}

impl Frame {
    /// The pixel buffer holds exactly four bytes for each of the
    /// `width * height` pixels.
    pub open spec fn wf(&self) -> bool {
        self.pixels@.len() == 4 * (self.width as int) * (self.height as int)
    }
}

/// Operator intents, consumed one at a time by the command dispatcher.
#[derive(Clone, Debug)]
pub enum Command {
    RequestDeviceList,
    RequestDeviceInfo(Device),
    StartStreaming(Device),
    StopStreaming,
}

/// What the backend reports to the presentation controller.
#[derive(Clone, Debug)]
pub enum Event {
    /// The discovery service could not be reached.
    DeviceListUnavailable(DeviceError),
    /// A fresh device set, replacing the previous one wholesale.
    DeviceList(Vec<Device>),
    /// Identity attributes of the selected device, as (label, value) pairs.
    DeviceInfoReady(Vec<(String, String)>),
    /// The discovery service was reached but listing devices failed.
    DeviceListFailed(DeviceError),
    /// A decoded frame from the capture loop.
    FrameReady(Frame),
}

/// One discovered device as the collaborator reports it: its identifier and
/// the outcome of its attribute query (`None` when the query failed; the
/// failure is logged by the caller and the device is skipped).
#[derive(Clone, Debug)]
pub struct DeviceScan {
    pub id: u64,
    pub attrs: Option<Vec<(String, String)>>,
}

/// The result of one discovery request, as handed in by the collaborator.
#[derive(Clone, Debug)]
pub enum DiscoveryOutcome {
    /// The discovery service itself could not be reached.
    Unavailable(DeviceError),
    /// The service was reached but the device listing call failed.
    ListFailed(DeviceError),
    /// Devices were listed; each carries its attribute-query outcome.
    Listed(Vec<DeviceScan>),
}

} // verus!
