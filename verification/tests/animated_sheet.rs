use mosaic::animated_sheet::{build_extract_args, build_stitch_args, check_cell_count, HeaderParams};
use mosaic::layout::compute_sheet_layout;
use mosaic::output_path::SheetTheme;

fn has_pair(args: &[String], a: &str, b: &str) -> bool {
    args.windows(2).any(|w| w[0] == a && w[1] == b)
}

fn clips(n: usize) -> Vec<String> {
    (0..n).map(|i| format!("/tmp/c{}.mp4", i)).collect()
}

fn vf_of(args: &[String]) -> String {
    let i = args.iter().position(|a| a == "-vf").unwrap();
    args[i + 1].clone()
}

#[test]
fn extract_args_shape() {
    let args = build_extract_args(
        "/v/movie.mkv", 12_500, 320, 180, 10, 12, 2, true, 18, SheetTheme::Dark, "/f/font.ttf", "/tmp/cell.mp4",
    );
    assert_eq!(args[0], "-hide_banner");
    assert!(has_pair(&args, "-ss", "12.500"));
    assert!(has_pair(&args, "-i", "/v/movie.mkv"));
    assert!(has_pair(&args, "-t", "2"));
    assert!(args.iter().any(|a| a == "-an"));
    assert!(has_pair(&args, "-r", "12"));
    assert!(has_pair(&args, "-c:v", "libx264"));
    assert!(has_pair(&args, "-pix_fmt", "yuv420p"));
    let vf = vf_of(&args);
    assert!(vf.contains("scale=320:180"));
    assert!(vf.contains("drawtext="));
    assert!(vf.contains("pad=330:190:5:5:0x000000"));
    assert_eq!(args.last().unwrap(), "/tmp/cell.mp4");
}

#[test]
fn extract_args_light_theme_uses_white_bg_and_black_text() {
    let args = build_extract_args(
        "/v/movie.mkv", 5_000, 320, 180, 10, 12, 2, true, 18, SheetTheme::Light, "/f/font.ttf", "/tmp/cell.mp4",
    );
    let vf = vf_of(&args);
    assert!(vf.contains("pad=330:190:5:5:0xFFFFFF"));
    assert!(vf.contains("fontcolor=black"));
    assert!(vf.contains("shadowcolor=white"));
}

#[test]
fn extract_args_omits_drawtext_when_timestamps_off() {
    let args = build_extract_args(
        "/v/movie.mkv", 5_000, 320, 180, 10, 12, 2, false, 18, SheetTheme::Dark, "/f/font.ttf", "/tmp/cell.mp4",
    );
    let vf = vf_of(&args);
    assert!(!vf.contains("drawtext"));
    assert_eq!(vf, "scale=320:180,pad=330:190:5:5:0x000000");
}

#[test]
fn extract_args_stamp_text() {
    let args = build_extract_args(
        "/v/m.mkv", 3_723_900, 100, 60, 4, 8, 1, true, 14, SheetTheme::Dark, "/f.ttf", "/c.mp4",
    );
    assert_eq!(
        vf_of(&args),
        "scale=100:60,drawtext=text='01\\:02\\:03':fontfile='/f.ttf':fontsize=14:fontcolor=white:shadowcolor=black:shadowx=1:shadowy=1:x=5:y=h-th-5,pad=104:64:2:2:0x000000"
    );
}

#[test]
fn stitch_args_no_header_maps_grid() {
    let layout = compute_sheet_layout(2, 2, 800, 10);
    let args = build_stitch_args(&clips(4), &layout, 200, 10, SheetTheme::Dark, None, 3, 12, 75, "/out/sheet.webp");
    assert_eq!(args.iter().filter(|a| *a == "-i").count(), 4);
    let fc = args.iter().position(|a| a == "-filter_complex").unwrap();
    let graph = &args[fc + 1];
    assert!(graph.contains("xstack=inputs=4:layout="));
    assert!(graph.contains("pad="));
    assert!(!graph.contains("vstack"));
    assert!(!graph.contains("color=c=0x000000"));
    let map_pos = args.iter().position(|a| a == "-map").unwrap();
    assert_eq!(args[map_pos + 1], "[grid]");
    assert!(has_pair(&args, "-c:v", "libwebp"));
    assert!(has_pair(&args, "-loop", "0"));
    assert!(has_pair(&args, "-quality", "75"));
    assert_eq!(args.last().unwrap(), "/out/sheet.webp");
}

#[test]
fn stitch_args_with_header_maps_out_and_has_vstack() {
    let layout = compute_sheet_layout(2, 2, 800, 10);
    let header = HeaderParams {
        lines: vec!["movie.mkv".into(), "Duration\\: 00\\:01\\:30 | 1920x1080".into()],
        height: 72,
        line_h: 26,
        font_size: 20,
        font_ffmpeg: "/f/font.ttf".into(),
    };
    let args = build_stitch_args(&clips(4), &layout, 200, 10, SheetTheme::Dark, Some(&header), 3, 12, 75, "/out/sheet.webp");
    let fc = args.iter().position(|a| a == "-filter_complex").unwrap();
    let graph = &args[fc + 1];
    assert!(graph.contains("color=c=0x000000"));
    assert!(graph.contains("drawtext=text='movie.mkv'"));
    assert!(graph.contains("vstack"));
    assert!(graph.ends_with("[out]"));
    let map_pos = args.iter().position(|a| a == "-map").unwrap();
    assert_eq!(args[map_pos + 1], "[out]");
}

#[test]
fn stitch_args_light_theme_uses_white_bg() {
    let layout = compute_sheet_layout(2, 2, 800, 10);
    let header = HeaderParams {
        lines: vec!["m.mkv".into(), "x".into()],
        height: 50,
        line_h: 20,
        font_size: 16,
        font_ffmpeg: "/f.ttf".into(),
    };
    let args = build_stitch_args(&clips(4), &layout, 200, 10, SheetTheme::Light, Some(&header), 3, 12, 75, "/out/sheet.webp");
    let fc = args.iter().position(|a| a == "-filter_complex").unwrap();
    let graph = &args[fc + 1];
    assert!(graph.contains("color=c=0xFFFFFF"));
    assert!(graph.contains("pad=798:430:5:5:0xFFFFFF"));
    assert!(graph.contains("fontcolor=black"));
}

#[test]
fn stitch_args_includes_all_cells_as_xstack_inputs() {
    let layout = compute_sheet_layout(3, 2, 900, 10);
    let args = build_stitch_args(&clips(6), &layout, 150, 10, SheetTheme::Dark, None, 2, 10, 75, "/out/sheet.webp");
    let fc = args.iter().position(|a| a == "-filter_complex").unwrap();
    let graph = &args[fc + 1];
    assert!(graph.starts_with("[0:v][1:v][2:v][3:v][4:v][5:v]xstack=inputs=6:"));
}

#[test]
fn stitch_graph_exact_for_two_cells() {
    let layout = compute_sheet_layout(2, 1, 420, 10);
    let args = build_stitch_args(&clips(2), &layout, 100, 10, SheetTheme::Dark, None, 2, 10, 60, "/o.webp");
    let fc = args.iter().position(|a| a == "-filter_complex").unwrap();
    assert_eq!(layout.thumb_w, 194);
    assert_eq!(
        args[fc + 1],
        "[0:v][1:v]xstack=inputs=2:layout=0_0|204_0[xs];[xs]pad=418:120:5:5:0x000000[grid]"
    );
}

#[test]
fn generate_rejects_over_32_cells() {
    let layout = compute_sheet_layout(6, 6, 1280, 4);
    let err = check_cell_count(&layout).unwrap_err();
    assert!(err.contains("requires 2..=32"), "stderr: {}", err);
    assert!(err.contains("requested 36"), "stderr: {}", err);
    assert_eq!(err, "animated contact sheet requires 2..=32 cells; requested 36 (cols=6, rows=6)");
}

#[test]
fn generate_rejects_single_cell() {
    let layout = compute_sheet_layout(1, 1, 1280, 4);
    let err = check_cell_count(&layout).unwrap_err();
    assert!(err.contains("requires 2..=32"), "stderr: {}", err);
    assert!(err.contains("requested 1"), "stderr: {}", err);
}

#[test]
fn cell_count_bounds_are_inclusive() {
    assert!(check_cell_count(&compute_sheet_layout(2, 1, 1280, 4)).is_ok());
    assert!(check_cell_count(&compute_sheet_layout(8, 4, 1280, 4)).is_ok());
    assert!(check_cell_count(&compute_sheet_layout(11, 3, 1280, 4)).is_err());
}
