//! The raw frame: one uncompressed RGBA snapshot of a display, owned by the
//! pipeline for the duration of one request.

use vstd::prelude::*;

use crate::errors::CaptureError;

verus! {

/// Every byte of the buffer equals zero.  An all-zero capture is treated as
/// a capture that silently failed (a permission or driver problem), not as
/// a legitimately black image.
pub open spec fn all_zero(s: Seq<u8>) -> bool {
    forall|i: int| 0 <= i < s.len() ==> s[i] == 0
}

/// Whether a captured buffer is zero byte by byte.  This scan is the
/// blank-frame validation of the pipeline and runs on the buffer as it came
/// from the capture, before any dimension bookkeeping.
pub fn buffer_is_blank(data: &Vec<u8>) -> (r: bool)
    ensures
        r == all_zero(data@),
{
    let mut i: usize = 0;
    while i < data.len()
        invariant
            i <= data@.len(),
            forall|k: int| 0 <= k < i ==> data@[k] == 0,
        decreases data@.len() - i,
    {
        if data[i] != 0 {
            assert(!all_zero(data@)) by {
                assert(data@[i as int] != 0);
            }
            return false;
        }
        i = i + 1;
    }
    true
}

/// A pixel buffer tagged with its dimensions: red, green, blue, alpha, one
/// byte each, row-major, no padding.
pub struct RawFrame {
    /// Width in pixels.
    pub width: u32,
    /// Height in pixels.
    pub height: u32,
    /// The pixel bytes, four per pixel.
    pub data: Vec<u8>,
}

impl RawFrame {
    /// The frame invariant: exactly four bytes for each declared pixel.
    pub open spec fn wf(&self) -> bool {
        self.data@.len() == self.width as int * self.height as int * 4
    }

    /// Builds a frame from a captured buffer, establishing the invariant.
    /// A buffer whose length does not match the declared dimensions is the
    /// dimension-mismatch rejection that the encoding step owes an error
    /// for, so it is reported as an encoding failure, never passed on.
    pub fn from_parts(width: u32, height: u32, data: Vec<u8>) -> (r: Result<RawFrame, CaptureError>)
        ensures
            data@.len() == width as int * height as int * 4 ==> (r matches Ok(f) && f.width
                == width && f.height == height && f.data@ == data@ && f.wf()),
            data@.len() != width as int * height as int * 4 ==> (r matches Err(e) && e
                is EncodingFailed),
    {
        proof {
            assert(width as int * height as int * 4 < u128::MAX) by (nonlinear_arith)
                requires
                    width as int <= u32::MAX,
                    height as int <= u32::MAX,
            ;
        }
        let expected: u128 = width as u128 * height as u128 * 4;
        if data.len() as u128 == expected {
            Ok(RawFrame { width, height, data })
        } else {
            Err(
                CaptureError::EncodingFailed(
                    "buffer length does not match the declared dimensions".to_owned(),
                ),
            )
        }
    }

    /// Whether the whole buffer is zero, byte by byte.
    pub fn is_blank(&self) -> (r: bool)
        ensures
            r == all_zero(self.data@),
    {
        buffer_is_blank(&self.data)
    }
}

} // verus!
