//! The capture loop's per-iteration decision: decode the captured bytes into
//! a frame and say whether the loop emits, skips, or terminates.
//!
//! The capture request itself suspends and is performed by the surrounding
//! runtime; it hands its outcome in here. A capture failure is terminal; a
//! decode failure only drops that one frame.

use vstd::prelude::*;

use crate::types::{DeviceError, Frame};

verus! {

/// What decoding a PNG byte stream yields: the RGBA pixels with their width
/// and height, or nothing when the bytes are not a well-formed PNG. A
/// function of the bytes alone.
pub uninterp spec fn png_decode(bytes: Seq<u8>) -> Option<(Seq<u8>, u32, u32)>;

/// Relies on `image::load_from_memory_with_format` with the PNG format and
/// `DynamicImage::to_rgba8`: whether the bytes decode, and to which RGBA
/// pixels and dimensions, depends on the bytes alone, and the converted
/// buffer holds exactly four bytes per pixel.
#[verifier::external_body]
fn decode_png(bytes: &Vec<u8>) -> (r: Option<Frame>)
    ensures
        (match r {
            Some(f) => png_decode(bytes@) == Some((f.pixels@, f.width, f.height)) && f.wf(),
            None => png_decode(bytes@) is None,
        }),
{
    match image::load_from_memory_with_format(bytes, image::ImageFormat::Png) {
        Ok(img) => {
            let buf = img.to_rgba8();
            let width = buf.width();
            let height = buf.height();
            Some(Frame { width, height, pixels: buf.into_raw() })
        },
        Err(_) => None,
    }
}

/// What the capture loop does after one capture request.
pub enum CaptureStep {
    /// A decoded frame, to be emitted as a FrameReady event.
    Emit(Frame),
    /// The frame could not be decoded: drop it and continue (non-terminal).
    SkipFrame,
    /// The capture request failed: the loop terminates (terminal; no further
    /// frame is requested).
    Terminate(DeviceError),
}

/// Decide one capture-loop iteration from the capture request's outcome: a
/// request failure terminates the loop, an undecodable frame is skipped, and
/// a decoded frame is emitted.
pub fn capture_step(capture: Result<Vec<u8>, DeviceError>) -> (s: CaptureStep)
    ensures
        (match capture {
            Ok(bytes) => (match png_decode(bytes@) {
                Some(d) => (s matches CaptureStep::Emit(f) && f.pixels@ == d.0 && f.width == d.1
                    && f.height == d.2 && f.wf()),
                None => s == CaptureStep::SkipFrame,
            }),
            Err(e) => s == CaptureStep::Terminate(e),
        }),
{
    match capture {
        Ok(bytes) => match decode_png(&bytes) {
            Some(f) => CaptureStep::Emit(f),
            None => CaptureStep::SkipFrame,
        },
        Err(e) => CaptureStep::Terminate(e),
    }
}

} // verus!
