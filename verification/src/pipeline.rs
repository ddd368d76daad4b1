//! The capture pipeline: permission gate, enumeration, resolution, capture,
//! blank-frame validation, PNG encoding — each step a hard precondition for
//! the next, with no retry anywhere.  Every entity lives for one request;
//! nothing is shared between requests.

use vstd::prelude::*;

use crate::display::ScreenInfo;
use crate::display::lemma_resolve_by_id_err;
use crate::display::resolve_index;
use crate::display::resolve_spec;
use crate::encode::encode_frame;
use crate::encode::png_of;
use crate::errors::CaptureError;
use crate::frame::RawFrame;
use crate::frame::all_zero;
use crate::frame::buffer_is_blank;

verus! {

/// A display handle of the outside capture library, opaque here.
#[verifier::external_type_specification]
#[verifier::external_body]
pub struct ExScreen(screenshots::Screen);

/// Relies on `screenshots::Screen::all`: one handle per attached display,
/// in enumeration order.  Each handle is paired, at the same position, with
/// the record read from its `display_info` field.  On failure the OS error
/// text is handed back.
#[verifier::external_body]
fn enumerate_screens() -> (r: Result<(Vec<screenshots::Screen>, Vec<ScreenInfo>), String>)
    ensures
        r matches Ok(p) ==> p.0@.len() == p.1@.len(),
{
    match screenshots::Screen::all() {
        Ok(screens) => {
            let infos = screens.iter().map(|s: &screenshots::Screen| {
                let d = s.display_info;
                ScreenInfo { id: d.id, x: d.x, y: d.y, width: d.width, height: d.height, is_primary: d.is_primary }
            }).collect();
            Ok((screens, infos))
        },
        Err(e) => Err(format!("{e}")),
    }
}

/// Relies on `screenshots::Screen::capture`: a raw RGBA snapshot of the
/// chosen display.  The image type's constructor admits only buffers of at
/// least four bytes per pixel, which is all that is promised: the pixel
/// values are whatever is on the screen at that moment.
#[verifier::external_body]
fn capture_screen(screens: &Vec<screenshots::Screen>, i: usize) -> (r: Result<
    (u32, u32, Vec<u8>),
    String,
>)
    requires
        i < screens@.len(),
    ensures
        r matches Ok(t) ==> t.2@.len() >= t.0 as int * t.1 as int * 4,
{
    match screens[i].capture() {
        Ok(img) => {
            let (w, h) = (img.width(), img.height());
            Ok((w, h, img.into_raw()))
        },
        Err(e) => Err(format!("{e}")),
    }
}

/// The last two pipeline steps, on one captured buffer: an all-zero buffer
/// is rejected as a silently failed capture, whatever its declared
/// dimensions; the rest is held to the frame invariant and encoded as PNG
/// bytes.  Success is owed exactly for a non-blank buffer whose length
/// matches its dimensions; a non-blank buffer of any other length is the
/// dimension-mismatch rejection of the encoding step.
pub fn validate_and_encode(width: u32, height: u32, data: Vec<u8>) -> (r: Result<
    Vec<u8>,
    CaptureError,
>)
    ensures
        all_zero(data@) <==> r == Err::<Vec<u8>, CaptureError>(CaptureError::BlankFrame),
        !all_zero(data@) && data@.len() == width as int * height as int * 4 ==> (r matches Ok(b)
            && b@ == png_of(data@, width, height)),
        !all_zero(data@) && data@.len() != width as int * height as int * 4 ==> (r matches Err(e)
            && e is EncodingFailed),
{
    if buffer_is_blank(&data) {
        return Err(CaptureError::BlankFrame);
    }
    let frame = match RawFrame::from_parts(width, height, data) {
        Ok(f) => f,
        Err(e) => { return Err(e) },
    };
    proof {
        // A non-blank well-formed frame has at least one byte, hence
        // positive dimensions, so the encoder owes success.
        assert(frame.data@.len() > 0);
        assert(frame.width > 0 && frame.height > 0) by (nonlinear_arith)
            requires
                frame.data@.len() == frame.width as int * frame.height as int * 4,
                frame.data@.len() > 0,
        ;
    }
    encode_frame(&frame)
}

/// Runs one whole capture request: the permission gate, then enumeration,
/// resolution of the requested display, capture, validation and encoding.
/// The permission answer is queried fresh by the caller for each request
/// and handed in; when it is denied, the request fails before any capture
/// is attempted.  Every success carries the PNG encoding of some well-formed,
/// non-blank frame.
pub fn run_capture(permission_granted: bool, requested: Option<u32>) -> (r: Result<
    Vec<u8>,
    CaptureError,
>)
    ensures
        !permission_granted ==> r == Err::<Vec<u8>, CaptureError>(CaptureError::PermissionDenied),
        permission_granted ==> !(r matches Err(e) && e is PermissionDenied),
        requested is None ==> !(r matches Err(e) && e is DisplayNotFound),
        requested is Some ==> !(r matches Err(e) && e is NoDisplays),
        r matches Ok(b) ==> exists|data: Seq<u8>, w: u32, h: u32|
            data.len() == w as int * h as int * 4 && !all_zero(data) && b@ == png_of(data, w, h),
{
    if !permission_granted {
        return Err(CaptureError::PermissionDenied);
    }
    let (screens, infos) = match enumerate_screens() {
        Ok(p) => p,
        Err(e) => { return Err(CaptureError::EnumerationFailed(e)) },
    };
    let idx = match resolve_index(&infos, requested) {
        Ok(i) => i,
        Err(e) => {
            proof {
                if requested is Some {
                    lemma_resolve_by_id_err(infos@, requested->0);
                }
            }
            return Err(e);
        },
    };
    let (w, h, data) = match capture_screen(&screens, idx) {
        Ok(t) => t,
        Err(e) => { return Err(CaptureError::CaptureFailed(e)) },
    };
    validate_and_encode(w, h, data)
}

/// Lists the currently attached displays: one record per display, in
/// enumeration order, or the enumeration failure.
pub fn list_screens() -> (r: Result<Vec<ScreenInfo>, CaptureError>)
    ensures
        r matches Err(e) ==> e is EnumerationFailed,
{
    match enumerate_screens() {
        Ok(p) => Ok(p.1),
        Err(e) => Err(CaptureError::EnumerationFailed(e)),
    }
}

/// Captures the default display — the first enumerated — as PNG bytes.
pub fn capture_screenshot(permission_granted: bool) -> (r: Result<Vec<u8>, CaptureError>)
    ensures
        !permission_granted ==> r == Err::<Vec<u8>, CaptureError>(CaptureError::PermissionDenied),
        permission_granted ==> !(r matches Err(e) && e is PermissionDenied),
        !(r matches Err(e) && e is DisplayNotFound),
        r matches Ok(b) ==> exists|data: Seq<u8>, w: u32, h: u32|
            data.len() == w as int * h as int * 4 && !all_zero(data) && b@ == png_of(data, w, h),
{
    run_capture(permission_granted, None)
}

/// Captures the display with the given identifier as PNG bytes.  A request
/// for an identifier absent from the current enumeration fails during
/// resolution, before any capture is attempted.
pub fn capture_screenshot_by_screen_id(permission_granted: bool, screen_id: u32) -> (r: Result<
    Vec<u8>,
    CaptureError,
>)
    ensures
        !permission_granted ==> r == Err::<Vec<u8>, CaptureError>(CaptureError::PermissionDenied),
        permission_granted ==> !(r matches Err(e) && e is PermissionDenied),
        !(r matches Err(e) && e is NoDisplays),
        r matches Ok(b) ==> exists|data: Seq<u8>, w: u32, h: u32|
            data.len() == w as int * h as int * 4 && !all_zero(data) && b@ == png_of(data, w, h),
{
    run_capture(permission_granted, Some(screen_id))
}

} // verus!
