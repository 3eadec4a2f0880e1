use mosaic::defaults::{animated_sheet, reel, screenshots, sheet};

#[test]
fn screenshots_has_expected_values() {
    assert_eq!(screenshots::COUNT, 8);
    assert_eq!(screenshots::JPEG_QUALITY, 92);
}

#[test]
fn sheet_has_expected_values() {
    assert_eq!(sheet::COLS, 3);
    assert_eq!(sheet::ROWS, 6);
    assert_eq!(sheet::WIDTH, 1920);
}

#[test]
fn reel_has_expected_values() {
    assert_eq!(reel::COUNT, 15);
    assert_eq!(reel::FPS, 24);
}

#[test]
fn animated_sheet_has_expected_values() {
    assert_eq!(animated_sheet::COLS, 3);
    assert_eq!(animated_sheet::FPS, 12);
}
