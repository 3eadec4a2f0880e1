use mosaic::config::{template, unknown_keys, Config, ConfigError, ConfigSection, ConfigWarning};

#[test]
fn validate_passes_on_empty_config() {
    let cfg = Config::default();
    assert!(cfg.validate().is_ok());
}

#[test]
fn validate_rejects_zero_cols() {
    let mut cfg = Config::default();
    cfg.sheet.cols = Some(0);
    let err = cfg.validate().unwrap_err();
    assert!(err.contains("sheet.cols"), "got: {err}");
    assert!(err.contains("out of range"));
}

#[test]
fn validate_rejects_zero_clip_length() {
    let mut cfg = Config::default();
    cfg.reel.clip_length_secs = Some(0);
    assert!(cfg.validate().is_err());
}

#[test]
fn validate_rejects_over_range_quality() {
    let mut cfg = Config::default();
    cfg.sheet.quality = Some(200);
    assert!(cfg.validate().is_err());
}

#[test]
fn validate_message_is_exact_and_reports_first_failure() {
    let mut cfg = Config::default();
    cfg.sheet.cols = Some(0);
    cfg.reel.fps = Some(500);
    assert_eq!(cfg.validate().unwrap_err(), "config: sheet.cols = 0 out of range (1..=32)");
    cfg.sheet.cols = Some(32);
    assert_eq!(cfg.validate().unwrap_err(), "config: reel.fps = 500 out of range (1..=120)");
}

#[test]
fn validate_accepts_boundary_values() {
    let mut cfg = Config::default();
    cfg.sheet.width = Some(320);
    cfg.animated_sheet.width = Some(8192);
    cfg.reel.quality = Some(0);
    cfg.sheet.gap = Some(0);
    assert!(cfg.validate().is_ok());
    cfg.animated_sheet.header_font = Some(73);
    assert_eq!(cfg.validate().unwrap_err(), "config: animated_sheet.header_font = 73 out of range (8..=72)");
}

#[test]
fn unknown_section_and_key_are_reported_in_order() {
    let sections = vec![
        ConfigSection { name: "sheet".into(), keys: Some(vec!["cols".into(), "bogus".into(), "gap".into()]) },
        ConfigSection { name: "extra".into(), keys: Some(vec!["x".into()]) },
        ConfigSection { name: "reel".into(), keys: None },
        ConfigSection { name: "screenshots".into(), keys: Some(vec!["count".into(), "theme".into()]) },
    ];
    let w = unknown_keys(&sections);
    assert_eq!(
        w,
        vec![
            ConfigWarning::UnknownKey { section: "sheet".into(), key: "bogus".into() },
            ConfigWarning::UnknownSection { section: "extra".into() },
            ConfigWarning::UnknownKey { section: "screenshots".into(), key: "theme".into() },
        ]
    );
    assert_eq!(w[0].message("/h/.mosaic-cli.toml"), "warning: unknown key 'sheet.bogus' in /h/.mosaic-cli.toml");
    assert_eq!(w[1].message("/h/.mosaic-cli.toml"), "warning: unknown section 'extra' in /h/.mosaic-cli.toml");
}

#[test]
fn known_keys_raise_no_warning() {
    let sections = vec![ConfigSection {
        name: "animated_sheet".into(),
        keys: Some(vec!["cols".into(), "clip_length_secs".into(), "theme".into(), "suffix".into()]),
    }];
    assert!(unknown_keys(&sections).is_empty());
}

#[test]
fn template_lists_every_section() {
    let t = template();
    for section in ["[screenshots]", "[sheet]", "[reel]", "[animated_sheet]"] {
        assert!(t.contains(section));
    }
    assert!(t.starts_with("# ~/.mosaic-cli.toml"));
    assert!(t.ends_with("# suffix = \"_animated_sheet\"\n"));
}

#[test]
fn parse_error_message() {
    let e = ConfigError::ParseFailed { path: "/h/c.toml".into(), msg: "bad".into() };
    assert_eq!(e.message(), "config parse failed: /h/c.toml: bad");
}

#[test]
fn unknown_keys_found_in_toml_text() {
    let body = "loose = 2\n\n[sheet]\ncols = 3\nbogus = 1\n\n[extra]\nx = 1\n";
    let w = mosaic::config::warn_unknown_keys(body);
    let msgs: Vec<String> = w.iter().map(|x| x.message("/h/.mosaic-cli.toml")).collect();
    assert_eq!(msgs.len(), 3);
    assert!(msgs.contains(&"warning: unknown key 'sheet.bogus' in /h/.mosaic-cli.toml".to_string()));
    assert!(msgs.contains(&"warning: unknown section 'extra' in /h/.mosaic-cli.toml".to_string()));
    assert!(msgs.contains(&"warning: unknown section 'loose' in /h/.mosaic-cli.toml".to_string()));
}

#[test]
fn unparseable_toml_text_gets_no_warnings() {
    assert!(mosaic::config::warn_unknown_keys("[sheet\ncols = ").is_empty());
    assert!(mosaic::config::warn_unknown_keys(template()).is_empty());
    assert!(mosaic::config::warn_unknown_keys("").is_empty());
}

#[test]
fn template_parses_to_empty_sections() {
    let v: toml::Value = template().parse().unwrap();
    let table = v.as_table().unwrap();
    let names: Vec<&String> = table.keys().collect();
    assert_eq!(names, vec!["animated_sheet", "reel", "screenshots", "sheet"]);
    for (_, section) in table {
        assert!(section.as_table().unwrap().is_empty());
    }
}
