use mosaic::input_scan::{get_video_exts, is_video_ext, is_video_file_name, video_exts, MAX_SCAN_DEPTH};

#[test]
fn known_extensions_match_case_insensitively() {
    assert!(is_video_ext("mkv"));
    assert!(is_video_ext("MKV"));
    assert!(is_video_ext("M2Ts"));
    assert!(is_video_ext("y4m"));
    assert!(!is_video_ext("txt"));
    assert!(!is_video_ext(""));
    assert!(!is_video_ext("mp4 "));
}

#[test]
fn file_names_are_read_by_last_extension() {
    assert!(is_video_file_name("a.mp4"));
    assert!(is_video_file_name("movie.final.MOV"));
    assert!(!is_video_file_name("notes.txt"));
    assert!(!is_video_file_name("mp4"));
    assert!(!is_video_file_name(".mp4"));
    assert!(!is_video_file_name("clip.mp4.part"));
    assert!(!is_video_file_name("clip."));
    assert!(is_video_file_name(".hidden.mkv"));
}

#[test]
fn extension_list_is_complete() {
    let exts = video_exts();
    assert_eq!(exts.len(), 45);
    assert_eq!(exts[0], "mp4");
    assert_eq!(exts[44], "y4m");
    let owned = get_video_exts();
    assert_eq!(owned.len(), 45);
    assert!(owned.iter().zip(exts.iter()).all(|(a, b)| a == b));
    assert_eq!(MAX_SCAN_DEPTH, 16);
}
