use screen_capture::CaptureError;

#[test]
fn permission_denied_message_carries_remediation() {
    let e = CaptureError::PermissionDenied;
    assert_eq!(
        e.message(),
        "Screen recording permission not granted. Enable it in System Settings > Privacy & Security > Screen Recording."
    );
    assert!(e.detail().is_none());
}

#[test]
fn blank_frame_message_carries_remediation() {
    let e = CaptureError::BlankFrame;
    assert_eq!(
        e.message(),
        "Captured image is blank. This is likely due to missing Screen Recording permission. Enable it in System Settings > Privacy & Security > Screen Recording."
    );
    assert!(e.detail().is_none());
}

#[test]
fn blank_frame_reuses_the_permission_remediation_guidance() {
    let guidance = "Enable it in System Settings > Privacy & Security > Screen Recording.";
    assert!(CaptureError::PermissionDenied.message().ends_with(guidance));
    assert!(CaptureError::BlankFrame.message().ends_with(guidance));
}

#[test]
fn wrapping_variants_keep_the_outside_error_text() {
    let e = CaptureError::EnumerationFailed("display subsystem unavailable".to_string());
    assert_eq!(e.message(), "Failed to enumerate screens");
    assert_eq!(e.detail().unwrap(), "display subsystem unavailable");

    let c = CaptureError::CaptureFailed("primitive failed".to_string());
    assert_eq!(c.message(), "Failed to capture screen");
    assert_eq!(c.detail().unwrap(), "primitive failed");

    let enc = CaptureError::EncodingFailed("rejected".to_string());
    assert_eq!(enc.message(), "Failed to encode PNG");
    assert_eq!(enc.detail().unwrap(), "rejected");
}

#[test]
fn directory_failures_have_fixed_messages() {
    assert_eq!(CaptureError::NoDisplays.message(), "No screens found");
    assert_eq!(CaptureError::DisplayNotFound.message(), "Screen not found");
    assert!(CaptureError::NoDisplays.detail().is_none());
    assert!(CaptureError::DisplayNotFound.detail().is_none());
}
