use screen_capture::pipeline::capture_screenshot;
use screen_capture::pipeline::capture_screenshot_by_screen_id;
use screen_capture::pipeline::list_screens;
use screen_capture::CaptureError;

#[test]
fn denied_permission_fails_default_capture() {
    let r = capture_screenshot(false);
    assert!(matches!(r, Err(CaptureError::PermissionDenied)));
}

#[test]
fn denied_permission_fails_capture_by_id() {
    let r = capture_screenshot_by_screen_id(false, 12345);
    assert!(matches!(r, Err(CaptureError::PermissionDenied)));
}

#[test]
fn listed_records_carry_unique_ids() {
    match list_screens() {
        Ok(infos) => {
            for i in 0..infos.len() {
                for j in (i + 1)..infos.len() {
                    assert_ne!(infos[i].id, infos[j].id);
                }
            }
        }
        Err(e) => {
            assert!(matches!(e, CaptureError::EnumerationFailed(_)));
        }
    }
}
