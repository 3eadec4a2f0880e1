use mosaic::commands::{out_dir_for_location, reveal_command, resolve_out_dir, OutputLocation, Platform};

#[test]
fn custom_output_location_wins() {
    let custom = OutputLocation::Custom { custom: "/exports".into() };
    assert_eq!(resolve_out_dir("/videos/movie.mkv", &custom), "/exports");
    assert_eq!(out_dir_for_location(&custom, Some("/videos".into())), "/exports");
}

#[test]
fn next_to_source_uses_parent() {
    assert_eq!(resolve_out_dir("/videos/movie.mkv", &OutputLocation::NextToSource), "/videos");
    assert_eq!(out_dir_for_location(&OutputLocation::NextToSource, None), "");
}

#[test]
fn reveal_on_macos_selects_files_only() {
    let c = reveal_command(Platform::MacOs, "/v/a.mkv", false, true, Some("/v".into())).unwrap();
    assert_eq!(c.program, "open");
    assert_eq!(c.args, vec!["-R", "/v/a.mkv"]);
    let d = reveal_command(Platform::MacOs, "/v", true, false, Some("/".into())).unwrap();
    assert_eq!(d.args, vec!["/v"]);
    assert!(!d.raw);
}

#[test]
fn reveal_on_windows_quotes_the_selected_path() {
    let c = reveal_command(Platform::Windows, r"C:\v\foo,bar.mkv", false, true, None).unwrap();
    assert_eq!(c.program, "explorer");
    assert_eq!(c.args, vec![r#"/select,"C:\v\foo,bar.mkv""#]);
    assert!(c.raw);
    let d = reveal_command(Platform::Windows, r"C:\v", true, false, None).unwrap();
    assert_eq!(d.args, vec![r"C:\v"]);
    assert!(!d.raw);
}

#[test]
fn reveal_on_linux_opens_containing_folder() {
    let c = reveal_command(Platform::Linux, "/v/a.mkv", false, true, Some("/v".into())).unwrap();
    assert_eq!(c.program, "xdg-open");
    assert_eq!(c.args, vec!["/v"]);
    let d = reveal_command(Platform::Linux, "/v", true, false, Some("/".into())).unwrap();
    assert_eq!(d.args, vec!["/v"]);
    assert!(reveal_command(Platform::Other, "/v", true, false, None).is_none());
}

#[test]
fn event_names_match_front_end() {
    assert_eq!(mosaic::events::FILE_START, "job:file-start");
    assert_eq!(mosaic::events::STEP, "job:step");
    assert_eq!(mosaic::events::FILE_DONE, "job:file-done");
    assert_eq!(mosaic::events::FILE_FAILED, "job:file-failed");
    assert_eq!(mosaic::events::FINISHED, "job:finished");
}

#[test]
fn cli_output_dir_defaults_next_to_source() {
    use_shared_out_dir();
}

fn use_shared_out_dir() {
    let mut shared = mosaic::cli::Shared { output: None, quiet: false, verbose: false, no_recursive: false, inputs: vec![] };
    assert_eq!(mosaic::paths::out_dir(&shared, "/films/arrival.mkv"), "/films");
    assert_eq!(mosaic::paths::out_dir(&shared, "arrival.mkv"), "");
    assert_eq!(mosaic::paths::out_dir(&shared, "/"), ".");
    shared.output = Some("./out".into());
    assert_eq!(mosaic::paths::out_dir(&shared, "/films/arrival.mkv"), "./out");
}
