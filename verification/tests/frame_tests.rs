use screen_capture::pipeline::validate_and_encode;
use screen_capture::CaptureError;
use screen_capture::RawFrame;

#[test]
fn blank_frame_rejected_2x2() {
    let r = validate_and_encode(2, 2, vec![0u8; 16]);
    assert!(matches!(r, Err(CaptureError::BlankFrame)));
}

#[test]
fn blank_frame_rejected_regardless_of_dimensions() {
    let tall = validate_and_encode(1, 3, vec![0u8; 12]);
    assert!(matches!(tall, Err(CaptureError::BlankFrame)));
    let wide = validate_and_encode(3, 1, vec![0u8; 12]);
    assert!(matches!(wide, Err(CaptureError::BlankFrame)));
}

#[test]
fn blank_scan_runs_before_the_length_check() {
    // An all-zero buffer longer than the declared dimensions is a blank
    // capture, not a dimension mismatch.
    let r = validate_and_encode(2, 2, vec![0u8; 20]);
    assert!(matches!(r, Err(CaptureError::BlankFrame)));
}

#[test]
fn length_mismatch_is_an_encoding_failure() {
    let r = validate_and_encode(2, 2, vec![1u8; 15]);
    assert!(matches!(r, Err(CaptureError::EncodingFailed(_))));
    let built = RawFrame::from_parts(2, 2, vec![1u8; 15]);
    assert!(matches!(built, Err(CaptureError::EncodingFailed(_))));
}

#[test]
fn single_nonzero_byte_is_not_blank() {
    let mut data = vec![0u8; 16];
    data[11] = 1;
    let frame = RawFrame::from_parts(2, 2, data).unwrap();
    assert!(!frame.is_blank());
}

#[test]
fn all_zero_buffer_is_blank() {
    let frame = RawFrame::from_parts(4, 1, vec![0u8; 16]).unwrap();
    assert!(frame.is_blank());
}
