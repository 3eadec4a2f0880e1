use mosaic::output_path::{
    candidate_name, name_step, screenshot_name, NameStep, OutputFormat, ReelFormat, SheetTheme, DEFAULT_ANIMATED_SUFFIX,
    DEFAULT_PREVIEW_SUFFIX, DEFAULT_SHEET_SUFFIX, DEFAULT_SHOTS_SUFFIX,
};

#[test]
fn sheet_name_uses_suffix_then_numbers() {
    assert_eq!(candidate_name("movie", "", DEFAULT_SHEET_SUFFIX, 0, "png"), "movie_sheet.png");
    assert_eq!(candidate_name("movie", "_x", DEFAULT_SHEET_SUFFIX, 0, "jpg"), "movie_x.jpg");
    assert_eq!(candidate_name("movie", "", DEFAULT_SHEET_SUFFIX, 2, "png"), "movie_sheet (2).png");
    assert_eq!(candidate_name("m", "", DEFAULT_PREVIEW_SUFFIX, 0, ReelFormat::Webm.ext()), "m_reel.webm");
    assert_eq!(candidate_name("m", "", DEFAULT_ANIMATED_SUFFIX, 10, "webp"), "m_animated_sheet (10).webp");
}

#[test]
fn screenshot_index_padded_to_count_width() {
    assert_eq!(screenshot_name("clip", "", 7, 100, OutputFormat::Png), "clip_screens_007.png");
    assert_eq!(screenshot_name("clip", "", 3, 5, OutputFormat::Jpeg), "clip_screens_03.jpg");
    assert_eq!(screenshot_name("clip", "-", 12, 12, OutputFormat::Png), "clip-12.png");
    assert_eq!(DEFAULT_SHOTS_SUFFIX, "_screens_");
}

#[test]
fn extensions_and_theme_colours() {
    assert_eq!(OutputFormat::Png.ext(), "png");
    assert_eq!(OutputFormat::Jpeg.ext(), "jpg");
    assert_eq!(ReelFormat::Webp.ext(), "webp");
    assert_eq!(ReelFormat::Gif.ext(), "gif");
    assert_eq!(SheetTheme::Dark.bg(), "0x000000");
    assert_eq!(SheetTheme::Light.bg(), "0xFFFFFF");
    assert_eq!(SheetTheme::Light.fontcolor(), "black");
    assert_eq!(SheetTheme::Dark.shadowcolor(), "black");
}

#[test]
fn readme_screenshot_names() {
    let names: Vec<String> = (1..=4).map(|i| screenshot_name("arrival", "", i, 4, OutputFormat::Png)).collect();
    assert_eq!(names, vec!["arrival_screens_01.png", "arrival_screens_02.png", "arrival_screens_03.png", "arrival_screens_04.png"]);
    assert_eq!(candidate_name("arrival", "", DEFAULT_SHEET_SUFFIX, 0, "png"), "arrival_sheet.png");
    assert_eq!(mosaic::options::summary_line(1, 0, 1, false), "1 done · 0 failed · 0 cancelled");
}

#[test]
fn name_search_steps_to_next_number_until_free() {
    assert_eq!(name_step(0, false), NameStep::Use);
    assert_eq!(name_step(0, true), NameStep::Next(1));
    assert_eq!(name_step(7, true), NameStep::Next(8));
    assert_eq!(name_step(7, false), NameStep::Use);
    assert_eq!(name_step(u32::MAX, true), NameStep::Exhausted);
}
