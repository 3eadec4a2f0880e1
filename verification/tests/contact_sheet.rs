use mosaic::contact_sheet::{
    compose_args, final_name, header_args, jpeg_convert_args, thumb_extract_args, thumb_filter,
    thumb_name, thumb_stamp, tile_args, tile_pattern, total_steps,
};
use mosaic::output_path::{OutputFormat, SheetTheme};
use mosaic::screenshots::screenshot_args;

#[test]
fn thumb_filter_orders_tonemap_scale_stamp() {
    assert_eq!(thumb_filter(None, 626, 352, None), "scale=626:352");
    assert_eq!(thumb_filter(Some("tm"), 626, 352, Some("dt")), "tm,scale=626:352,dt");
    let stamp = thumb_stamp(59_999, "/f.ttf", 18, SheetTheme::Light);
    assert_eq!(
        stamp,
        "drawtext=text='00\\:00\\:59':fontfile='/f.ttf':fontsize=18:fontcolor=black:shadowcolor=white:shadowx=1:shadowy=1:x=5:y=h-th-5"
    );
}

#[test]
fn thumb_extract_args_exact() {
    let args = thumb_extract_args("/v/m.mkv", 42_500, "scale=10:6".into(), "/t/thumb_01.png");
    assert_eq!(
        args,
        vec![
            "-hide_banner", "-loglevel", "error", "-y", "-ss", "42.500", "-copyts", "-i", "/v/m.mkv",
            "-ss", "42.500", "-an", "-frames:v", "1", "-vf", "scale=10:6", "/t/thumb_01.png"
        ]
    );
}

#[test]
fn thumb_files_and_tile_pattern_agree() {
    assert_eq!(thumb_name(7, 2), "thumb_07.png");
    assert_eq!(thumb_name(123, 2), "thumb_123.png");
    assert_eq!(tile_pattern(2), "thumb_%02d.png");
}

#[test]
fn tile_args_exact() {
    let args = tile_args("/t/thumb_%02d.png", 3, 7, 10, SheetTheme::Dark, "/t/grid.png");
    assert_eq!(
        args,
        vec![
            "-hide_banner", "-loglevel", "error", "-y", "-framerate", "1", "-start_number", "1", "-i",
            "/t/thumb_%02d.png", "-vf", "tile=3x7:margin=10:padding=10:color=0x000000", "-frames:v", "1",
            "/t/grid.png"
        ]
    );
}

#[test]
fn header_and_compose_args() {
    let h = header_args(SheetTheme::Light, 1918, 72, "drawtext=x".into(), "/t/header.png");
    assert_eq!(
        h[4..].to_vec(),
        vec!["-f", "lavfi", "-i", "color=c=0xFFFFFF:s=1918x72:d=1", "-vf", "drawtext=x", "-frames:v", "1", "/t/header.png"]
    );
    let png = compose_args("/t/h.png", "/t/g.png", OutputFormat::Png, 92, "/t/final.png");
    assert_eq!(
        png[4..].to_vec(),
        vec!["-i", "/t/h.png", "-i", "/t/g.png", "-filter_complex", "vstack", "-frames:v", "1", "/t/final.png"]
    );
    let jpg = compose_args("/t/h.png", "/t/g.png", OutputFormat::Jpeg, 92, "/t/final.jpg");
    assert_eq!(jpg[12..].to_vec(), vec!["-q:v", "6", "/t/final.jpg"]);
    let conv = jpeg_convert_args("/t/g.png", 100, "/t/final.jpg");
    assert_eq!(conv[4..].to_vec(), vec!["-i", "/t/g.png", "-frames:v", "1", "-q:v", "2", "/t/final.jpg"]);
    assert_eq!(final_name(OutputFormat::Jpeg), "final.jpg");
    assert_eq!(total_steps(21, true), 24);
    assert_eq!(total_steps(21, false), 23);
}

#[test]
fn screenshot_args_by_format() {
    let png = screenshot_args("/v/c.mp4", 1_000, OutputFormat::Png, 92, "/v/c_screens_01.png");
    assert_eq!(
        png,
        vec![
            "-hide_banner", "-loglevel", "error", "-y", "-ss", "1.000", "-copyts", "-i", "/v/c.mp4", "-ss",
            "1.000", "-an", "-frames:v", "1", "/v/c_screens_01.png"
        ]
    );
    let jpg = screenshot_args("/v/c.mp4", 1_000, OutputFormat::Jpeg, 50, "/v/c_screens_01.jpg");
    assert_eq!(jpg[14..].to_vec(), vec!["-q:v", "31", "/v/c_screens_01.jpg"]);
}
