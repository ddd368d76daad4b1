//! The failure taxonomy of the capture pipeline.
//!
//! Every failure is detected at its origin and surfaced to the caller as one
//! of these variants; nothing is retried or recovered internally.

use vstd::prelude::*;

verus! {

/// One terminal failure of a directory or capture request.
///
/// The variants that wrap a `String` carry the underlying error text of the
/// operating system or of the encoder, verbatim.
#[derive(Clone, Debug)]
pub enum CaptureError {
    /// The operating-system display query itself failed.
    EnumerationFailed(String),
    /// No display is attached at all.
    NoDisplays,
    /// The requested display identifier is absent from the current enumeration.
    DisplayNotFound,
    /// The operating system denies screen-recording access.
    PermissionDenied,
    /// The capture primitive reported an error.
    CaptureFailed(String),
    /// The captured buffer is entirely zero: treated as a permission or
    /// driver failure that the explicit permission check did not catch.
    BlankFrame,
    /// PNG serialization rejected the frame.
    EncodingFailed(String),
}

impl CaptureError {
    /// The human-readable message owed for each failure kind.  The messages
    /// for denied permission and for a blank frame carry the remediation
    /// guidance, since those are the dominant real-world failures.
    pub open spec fn spec_message(&self) -> Seq<char> {
        match self {
            CaptureError::EnumerationFailed(_) => "Failed to enumerate screens"@,
            CaptureError::NoDisplays => "No screens found"@,
            CaptureError::DisplayNotFound => "Screen not found"@,
            CaptureError::PermissionDenied =>
                "Screen recording permission not granted. Enable it in System Settings > Privacy & Security > Screen Recording."@,
            CaptureError::CaptureFailed(_) => "Failed to capture screen"@,
            CaptureError::BlankFrame =>
                "Captured image is blank. This is likely due to missing Screen Recording permission. Enable it in System Settings > Privacy & Security > Screen Recording."@,
            CaptureError::EncodingFailed(_) => "Failed to encode PNG"@,
        }
    }

    /// The message text for this failure.
    pub fn message(&self) -> (r: &'static str)
        ensures
            r@ == self.spec_message(),
    {
        match self {
            CaptureError::EnumerationFailed(_) => "Failed to enumerate screens",
            CaptureError::NoDisplays => "No screens found",
            CaptureError::DisplayNotFound => "Screen not found",
            CaptureError::PermissionDenied =>
                "Screen recording permission not granted. Enable it in System Settings > Privacy & Security > Screen Recording.",
            CaptureError::CaptureFailed(_) => "Failed to capture screen",
            CaptureError::BlankFrame =>
                "Captured image is blank. This is likely due to missing Screen Recording permission. Enable it in System Settings > Privacy & Security > Screen Recording.",
            CaptureError::EncodingFailed(_) => "Failed to encode PNG",
        }
    }

    /// The underlying outside error text, for the variants that carry one.
    pub fn detail(&self) -> (r: Option<&String>)
        ensures
            match self {
                CaptureError::EnumerationFailed(d) => r == Some(d),
                CaptureError::CaptureFailed(d) => r == Some(d),
                CaptureError::EncodingFailed(d) => r == Some(d),
                _ => r is None,
            },
    {
        match self {
            CaptureError::EnumerationFailed(d) => Some(d),
            CaptureError::CaptureFailed(d) => Some(d),
            CaptureError::EncodingFailed(d) => Some(d),
            _ => None,
        }
    }
}

} // verus!
