use screen_capture::display::resolve_display;
use screen_capture::CaptureError;
use screen_capture::ScreenInfo;

fn info(id: u32) -> ScreenInfo {
    ScreenInfo { id, x: 0, y: 0, width: 1920, height: 1080, is_primary: false }
}

#[test]
fn resolve_default_on_empty_list_fails() {
    let screens: Vec<ScreenInfo> = Vec::new();
    let r = resolve_display(&screens, None);
    assert!(matches!(r, Err(CaptureError::NoDisplays)));
}

#[test]
fn resolve_default_returns_first_unchanged() {
    let first = ScreenInfo { id: 3, x: -10, y: 4, width: 800, height: 600, is_primary: true };
    let screens = vec![first, info(9)];
    let r = resolve_display(&screens, None).unwrap();
    assert_eq!(r, first);
}

#[test]
fn resolve_present_id_returns_matching_record() {
    let screens = vec![info(3), info(9), info(12)];
    let r = resolve_display(&screens, Some(9)).unwrap();
    assert_eq!(r, screens[1]);
    let r = resolve_display(&screens, Some(12)).unwrap();
    assert_eq!(r, screens[2]);
}

#[test]
fn resolve_absent_id_fails_not_found() {
    let screens = vec![info(3), info(9)];
    let r = resolve_display(&screens, Some(4));
    assert!(matches!(r, Err(CaptureError::DisplayNotFound)));
}

#[test]
fn resolve_duplicate_ids_returns_first_match() {
    let mut a = info(7);
    a.x = 1;
    let mut b = info(7);
    b.x = 2;
    let screens = vec![info(1), a, b];
    let r = resolve_display(&screens, Some(7)).unwrap();
    assert_eq!(r, a);
}
