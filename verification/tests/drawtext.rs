use mosaic::drawtext::{
    escape_drawtext, font_for_ffmpeg, format_hms_escaped, format_hms_plain, header_overlay,
    normalise_win_font_path, timestamp_overlay,
};

#[test]
fn escapes_backslash_first() {
    assert_eq!(escape_drawtext(r"a\b"), r"a\\b");
}

#[test]
fn escapes_colon() {
    assert_eq!(escape_drawtext("a:b"), r"a\:b");
}

#[test]
fn escapes_single_quote() {
    assert_eq!(escape_drawtext("it's"), r"it\'s");
}

#[test]
fn escapes_percent() {
    assert_eq!(escape_drawtext("50%"), "50%%");
}

#[test]
fn escapes_combined() {
    assert_eq!(escape_drawtext(r"C:\a'b%"), r"C\:\\a\'b%%");
}

#[test]
fn escapes_comma() {
    assert_eq!(escape_drawtext("a,b"), r"a\,b");
}

#[test]
fn escapes_open_bracket() {
    assert_eq!(escape_drawtext("a[b"), r"a\[b");
}

#[test]
fn escapes_close_bracket() {
    assert_eq!(escape_drawtext("a]b"), r"a\]b");
}

#[test]
fn escapes_semicolon() {
    assert_eq!(escape_drawtext("a;b"), r"a\;b");
}

#[test]
fn escapes_combined_graph_separators() {
    assert_eq!(escape_drawtext("evil',[x];y:z%"), r"evil\'\,\[x\]\;y\:z%%");
}

#[test]
fn escapes_leave_other_characters_alone() {
    assert_eq!(escape_drawtext("Été 2024 (4K).mkv"), "Été 2024 (4K).mkv");
    assert_eq!(escape_drawtext(""), "");
}

#[test]
fn formats_hms_zero() {
    assert_eq!(format_hms_escaped(0), r"00\:00\:00");
    assert_eq!(format_hms_plain(0), "00:00:00");
}

#[test]
fn formats_hms_typical() {
    assert_eq!(format_hms_escaped(3723), r"01\:02\:03");
    assert_eq!(format_hms_plain(3723), "01:02:03");
}

#[test]
fn formats_hms_truncates_fraction() {
    assert_eq!(format_hms_escaped(59.999f64 as u64), r"00\:00\:59");
}

#[test]
fn formats_hms_beyond_99_hours() {
    assert_eq!(format_hms_plain(360000 + 59), "100:00:59");
}

#[test]
fn win_font_plain_drive_path() {
    assert_eq!(normalise_win_font_path(r"C:\Fonts\DejaVu.ttf".into()), r"C\:/Fonts/DejaVu.ttf");
}

#[test]
fn win_font_strips_extended_length_prefix() {
    assert_eq!(
        normalise_win_font_path(r"\\?\F:\Program Files (x86)\mosaic\fonts\DejaVu.ttf".into()),
        r"F\:/Program Files (x86)/mosaic/fonts/DejaVu.ttf"
    );
}

#[test]
fn win_font_preserves_unc_prefix() {
    let input = r"\\?\UNC\server\share\font.ttf".to_string();
    let out = normalise_win_font_path(input);
    assert!(out.starts_with("//?/UNC/"), "got: {}", out);
}

#[test]
fn font_for_ffmpeg_only_normalises_on_windows() {
    assert_eq!(font_for_ffmpeg(r"C:\Fonts\DejaVu.ttf", true), r"C\:/Fonts/DejaVu.ttf");
    assert_eq!(font_for_ffmpeg("/usr/share/fonts/DejaVu.ttf", false), "/usr/share/fonts/DejaVu.ttf");
}

#[test]
fn timestamp_overlay_text() {
    assert_eq!(
        timestamp_overlay(r"01\:02\:03", "/f.ttf", 18, "white", "black"),
        r"drawtext=text='01\:02\:03':fontfile='/f.ttf':fontsize=18:fontcolor=white:shadowcolor=black:shadowx=1:shadowy=1:x=5:y=h-th-5"
    );
}

#[test]
fn header_overlay_single_line_has_no_chain() {
    let s = header_overlay(&["one".into()], "/f.ttf", 20, "white", 10, 26);
    assert!(s.starts_with("drawtext=text='one'"));
    assert!(s.contains(":x=10:y=10"));
    assert!(!s.contains(",drawtext="), "no chained node expected for a single line");
}

#[test]
fn header_overlay_stacks_lines_top_to_bottom() {
    let s = header_overlay(
        &["line1".into(), "line2".into(), "line3".into(), "line4".into()],
        "/f.ttf", 20, "white", 10, 26,
    );
    assert_eq!(s.matches("drawtext=").count(), 4);
    assert!(s.contains(":x=10:y=10"));
    assert!(s.contains(":x=10:y=36"));
    assert!(s.contains(":x=10:y=62"));
    assert!(s.contains(":x=10:y=88"));
    let p1 = s.find("line1").unwrap();
    let p2 = s.find("line2").unwrap();
    let p3 = s.find("line3").unwrap();
    let p4 = s.find("line4").unwrap();
    assert!(p1 < p2 && p2 < p3 && p3 < p4);
}

#[test]
fn header_overlay_empty_input_yields_empty_string() {
    assert_eq!(header_overlay(&[], "/f.ttf", 20, "white", 10, 26), "");
}

#[test]
fn header_overlay_exact_two_lines() {
    assert_eq!(
        header_overlay(&["a".into(), "b".into()], "/f.ttf", 20, "white", 10, 26),
        "drawtext=text='a':fontfile='/f.ttf':fontsize=20:fontcolor=white:x=10:y=10,drawtext=text='b':fontfile='/f.ttf':fontsize=20:fontcolor=white:x=10:y=36"
    );
}
