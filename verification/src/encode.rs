//! PNG serialization of a raw frame, through the outside encoder.

use vstd::prelude::*;

use crate::errors::CaptureError;
use crate::frame::RawFrame;

verus! {

/// The PNG encoding of an 8-bit RGBA buffer with the given dimensions, as
/// the outside encoder produces it.  The bytes depend on the buffer and the
/// dimensions alone, but no short statement pins them down, so the result
/// only carries this name; nothing more is assumed of it.
pub uninterp spec fn png_of(data: Seq<u8>, width: u32, height: u32) -> Seq<u8>;

/// The eight fixed bytes that open every PNG stream.
pub open spec fn png_signature() -> Seq<u8> {
    seq![137u8, 80u8, 78u8, 71u8, 13u8, 10u8, 26u8, 10u8]
}

/// Relies on `image::codecs::png::PngEncoder::write_image`: writes the PNG
/// container for an 8-bit RGBA buffer to the sink.  The encoder panics when
/// the buffer length does not match the dimensions, so those inputs are
/// excluded.  With a vector sink, which cannot give a write error, and the
/// length fixed by the precondition, the encoder's only remaining failures
/// are a zero width and a zero height, so success is owed whenever both
/// dimensions are positive.  On success the collected bytes are the PNG
/// encoding of the buffer and open with the fixed PNG signature; on failure
/// the encoder's error text is handed back.
#[verifier::external_body]
fn png_encode_rgba(data: &Vec<u8>, width: u32, height: u32) -> (r: Result<Vec<u8>, String>)
    requires
        data@.len() == width as int * height as int * 4,
    ensures
        r matches Ok(b) ==> b@ == png_of(data@, width, height),
        r matches Ok(b) ==> b@.len() >= 8 && b@.subrange(0, 8) == png_signature(),
        width > 0 && height > 0 ==> r is Ok,
{
    let mut out: Vec<u8> = Vec::new();
    let encoder = image::codecs::png::PngEncoder::new(&mut out);
    match image::ImageEncoder::write_image(
        encoder,
        data.as_slice(),
        width,
        height,
        image::ExtendedColorType::Rgba8,
    ) {
        Ok(()) => Ok(out),
        Err(e) => Err(format!("{e}")),
    }
}

/// Serializes a well-formed frame as PNG bytes, with 8-bit RGBA color and
/// the source alpha passed through unmodified.  Success is owed for every
/// frame with positive dimensions; a rejection by the encoder — possible
/// only for a zero dimension — is surfaced as an encoding failure.
pub fn encode_frame(frame: &RawFrame) -> (r: Result<Vec<u8>, CaptureError>)
    requires
        frame.wf(),
    ensures
        r matches Ok(b) ==> b@ == png_of(frame.data@, frame.width, frame.height),
        r matches Ok(b) ==> b@.len() >= 8 && b@.subrange(0, 8) == png_signature(),
        r matches Err(e) ==> e is EncodingFailed,
        frame.width > 0 && frame.height > 0 ==> r is Ok,
{
    match png_encode_rgba(&frame.data, frame.width, frame.height) {
        Ok(b) => Ok(b),
        Err(e) => Err(CaptureError::EncodingFailed(e)),
    }
}

} // verus!
