//! The presentation controller: applies one polled event per tick to the UI
//! state, drives the frame-rate estimator, and decides whether a frame can
//! reuse the existing display texture or needs a fresh allocation.

use vstd::prelude::*;

use crate::rate::{record_spec, FrameRateWindow};
use crate::types::{Command, Device, DeviceError, Event, Frame};

verus! {

/// How a frame reaches the display texture.
#[derive(PartialEq, Eq, Structural)]
pub enum TextureAction {
    /// Allocate a new texture sized to the frame, then write the frame.
    Allocate,
    /// Overwrite the existing texture's contents in place.
    UpdateInPlace,
}

/// The texture-reuse policy: a frame whose dimensions match the existing
/// texture is written in place; the first frame, or a dimension change,
/// allocates anew. Reuse is an optimization — a fresh allocation would also
/// be correct.
pub open spec fn texture_policy(texture: Option<(u32, u32)>, width: u32, height: u32)
    -> TextureAction {
    match texture {
        Some(dims) => if dims == (width, height) {
            TextureAction::UpdateInPlace
        } else {
            TextureAction::Allocate
        },
        None => TextureAction::Allocate,
    }
}

/// Law: texture reuse. Once a frame of some size has been shown, the texture
/// records that size, so a second frame of the same size is written in place
/// — one allocation serves both frames — while a frame of a different size,
/// or the very first frame, forces an allocation.
pub proof fn lemma_texture_reuse(width: u32, height: u32, w2: u32, h2: u32)
    ensures
        texture_policy(None, width, height) == TextureAction::Allocate,
        texture_policy(Some((width, height)), width, height) == TextureAction::UpdateInPlace,
        (w2, h2) != (width, height) ==> texture_policy(Some((width, height)), w2, h2)
            == TextureAction::Allocate,
{
}

/// What the UI must do after one tick's event, beyond repainting.
pub enum TickAction {
    /// Nothing outward; state may have been replaced.
    Idle,
    /// Allocate a display texture for this frame, write it, and repaint now.
    AllocateTexture(Frame),
    /// Write this frame into the existing texture in place and repaint now.
    WriteTexture(Frame),
}

/// The interactive thread's state: the device list, the identity panel, the
/// streaming flag, the display texture's dimensions, and the frame-rate
/// estimator.
pub struct PresenterState {
    /// The last device set received, if any.
    pub devices: Option<Vec<Device>>,
    /// Why no device set is available, when the last request failed.
    pub list_failure: Option<DeviceError>,
    /// The display name of the device the operator picked.
    pub selected: String,
    /// The identity panel for the selected device.
    pub device_info: Option<Vec<(String, String)>>,
    /// Whether a streaming session is believed active.
    pub streaming: bool,
    /// Dimensions of the allocated display texture, if one exists.
    pub texture: Option<(u32, u32)>,
    /// The sliding-window frame-rate estimator.
    pub rate: FrameRateWindow,
}

impl PresenterState {
    pub open spec fn wf(&self) -> bool {
        self.rate.wf()
    }

    pub fn new(window_micros: u64) -> (s: Self)
        requires
            window_micros >= 1,
        ensures
            s.wf(),
            s.devices is None,
            s.list_failure is None,
            s.selected@ == Seq::<char>::empty(),
            s.device_info is None,
            !s.streaming,
            s.texture is None,
            s.rate.window() == window_micros,
            s.rate.times() =~= Seq::<u64>::empty(),
    {
        PresenterState {
            devices: None,
            list_failure: None,
            selected: String::new(),
            device_info: None,
            streaming: false,
            texture: None,
            rate: FrameRateWindow::new(window_micros),
        }
    }

    /// Apply the at-most-one event this tick polled, at instant `now`: state
    /// replaced wholesale per event kind; a frame additionally records its
    /// arrival and yields the texture action the reuse policy picks.
    pub fn apply_event(&mut self, event: Event, now: u64) -> (a: TickAction)
        requires
            old(self).wf(),
            forall|i: int|
                0 <= i < old(self).rate.times().len() ==> old(self).rate.times()[i] <= now,
        ensures
            final(self).wf(),
            final(self).rate.window() == old(self).rate.window(),
            final(self).selected == old(self).selected,
            final(self).streaming == old(self).streaming,
            (match event {
                Event::DeviceList(ds) => {
                    &&& final(self).devices == Some(ds)
                    &&& final(self).list_failure is None
                    &&& final(self).device_info == old(self).device_info
                    &&& final(self).texture == old(self).texture
                    &&& final(self).rate.times() == old(self).rate.times()
                    &&& a is Idle
                },
                Event::DeviceListUnavailable(e) | Event::DeviceListFailed(e) => {
                    &&& final(self).list_failure == Some(e)
                    &&& final(self).devices == old(self).devices
                    &&& final(self).device_info == old(self).device_info
                    &&& final(self).texture == old(self).texture
                    &&& final(self).rate.times() == old(self).rate.times()
                    &&& a is Idle
                },
                Event::DeviceInfoReady(info) => {
                    &&& final(self).device_info == Some(info)
                    &&& final(self).devices == old(self).devices
                    &&& final(self).list_failure == old(self).list_failure
                    &&& final(self).texture == old(self).texture
                    &&& final(self).rate.times() == old(self).rate.times()
                    &&& a is Idle
                },
                Event::FrameReady(f) => {
                    &&& final(self).texture == Some((f.width, f.height))
                    &&& final(self).rate.times() == record_spec(
                        old(self).rate.times(),
                        now,
                        old(self).rate.window(),
                    )
                    &&& final(self).devices == old(self).devices
                    &&& final(self).list_failure == old(self).list_failure
                    &&& final(self).device_info == old(self).device_info
                    &&& (match texture_policy(old(self).texture, f.width, f.height) {
                        TextureAction::Allocate => a == TickAction::AllocateTexture(f),
                        TextureAction::UpdateInPlace => a == TickAction::WriteTexture(f),
                    })
                },
            }),
    {
        match event {
            Event::DeviceList(ds) => {
                self.devices = Some(ds);
                self.list_failure = None;
                TickAction::Idle
            },
            Event::DeviceListUnavailable(e) => {
                self.list_failure = Some(e);
                TickAction::Idle
            },
            Event::DeviceListFailed(e) => {
                self.list_failure = Some(e);
                TickAction::Idle
            },
            Event::DeviceInfoReady(info) => {
                self.device_info = Some(info);
                TickAction::Idle
            },
            Event::FrameReady(f) => {
                self.rate.record_arrival(now);
                let reuse = match self.texture {
                    Some(dims) => dims.0 == f.width && dims.1 == f.height,
                    None => false,
                };
                self.texture = Some((f.width, f.height));
                if reuse {
                    TickAction::WriteTexture(f)
                } else {
                    TickAction::AllocateTexture(f)
                }
            },
        }
    }

    /// The operator picked a device: clear the identity panel and ask for a
    /// fresh one.
    pub fn select_device(&mut self, device: Device) -> (c: Command)
        requires
            old(self).wf(),
        ensures
            final(self).wf(),
            c == Command::RequestDeviceInfo(device),
            final(self).selected@ == device.name@,
            final(self).device_info is None,
            final(self).devices == old(self).devices,
            final(self).list_failure == old(self).list_failure,
            final(self).streaming == old(self).streaming,
            final(self).texture == old(self).texture,
            final(self).rate == old(self).rate,
    {
        self.device_info = None;
        self.selected = device.name.clone();
        Command::RequestDeviceInfo(device)
    }

    /// The operator started streaming: reset the frame-rate record for a
    /// fresh session and emit the start command.
    pub fn start_streaming(&mut self, device: Device) -> (c: Command)
        requires
            old(self).wf(),
        ensures
            final(self).wf(),
            c == Command::StartStreaming(device),
            final(self).streaming,
            final(self).rate.times() =~= Seq::<u64>::empty(),
            final(self).rate.window() == old(self).rate.window(),
            final(self).devices == old(self).devices,
            final(self).list_failure == old(self).list_failure,
            final(self).selected == old(self).selected,
            final(self).device_info == old(self).device_info,
            final(self).texture == old(self).texture,
    {
        self.streaming = true;
        self.rate.reset();
        Command::StartStreaming(device)
    }

    /// The operator stopped streaming: drop the display texture, reset the
    /// frame-rate record, and emit the stop command.
    pub fn stop_streaming(&mut self) -> (c: Command)
        requires
            old(self).wf(),
        ensures
            final(self).wf(),
            c == Command::StopStreaming,
            !final(self).streaming,
            final(self).texture is None,
            final(self).rate.times() =~= Seq::<u64>::empty(),
            final(self).rate.window() == old(self).rate.window(),
            final(self).devices == old(self).devices,
            final(self).list_failure == old(self).list_failure,
            final(self).selected == old(self).selected,
            final(self).device_info == old(self).device_info,
    {
        self.streaming = false;
        self.texture = None;
        self.rate.reset();
        Command::StopStreaming
    }
}

} // verus!
