use mosaic::mediainfo::{
    channel_layout_display, collapse_hdr_format, enrichment_from_tracks, parse_enrichment,
    Enrichment, MediaInfoMedia, MediaInfoReport, MediaTrack,
};

fn track(kind: &str, fields: &[(&str, &str)]) -> MediaTrack {
    MediaTrack {
        kind: Some(kind.to_string()),
        fields: fields.iter().map(|(k, v)| (k.to_string(), v.to_string())).collect(),
    }
}

fn report(tracks: Option<Vec<MediaTrack>>) -> MediaInfoReport {
    MediaInfoReport { media: Some(MediaInfoMedia { track: tracks }) }
}

#[test]
fn returns_none_on_missing_media() {
    assert!(parse_enrichment(&MediaInfoReport { media: None }).is_none());
}

#[test]
fn returns_none_on_missing_track_list() {
    assert!(parse_enrichment(&report(None)).is_none());
}

#[test]
fn returns_none_on_empty_tracks() {
    assert!(parse_enrichment(&report(Some(vec![]))).is_none());
}

#[test]
fn default_when_no_fields_of_interest() {
    let e = parse_enrichment(&report(Some(vec![track("General", &[])]))).unwrap();
    assert_eq!(e, Enrichment::default());
}

#[test]
fn parses_dv_track_set() {
    let tracks = vec![
        track("General", &[("Format", "Matroska"), ("Movie", "Awaken (2018) UHD Disc Sample")]),
        track("Video", &[
            ("BitDepth", "10"),
            ("HDR_Format", "Dolby Vision / SMPTE ST 2086"),
            ("HDR_Format_Compatibility", "Blu-ray / HDR10"),
        ]),
        track("Audio", &[
            ("Format", "DTS"),
            ("Format_Commercial_IfAny", "DTS-ES"),
            ("Channels", "7"),
            ("ChannelLayout_Original", "C L R Ls Rs Cb LFE"),
            ("ChannelLayout", "C L R Ls Rs LFE"),
            ("Language", "en"),
        ]),
    ];
    let e = enrichment_from_tracks(&tracks).unwrap();
    assert_eq!(e.container_format.as_deref(), Some("Matroska"));
    assert_eq!(e.title.as_deref(), Some("Awaken (2018) UHD Disc Sample"));
    assert_eq!(e.video_bit_depth, Some(10));
    assert_eq!(e.video_hdr_format.as_deref(), Some("Dolby Vision / HDR10"));
    assert_eq!(e.audio_commercial_name.as_deref(), Some("DTS-ES"));
    assert_eq!(e.audio_channel_layout.as_deref(), Some("6.1"));
    assert_eq!(e.audio_language.as_deref(), Some("en"));
}

#[test]
fn blank_and_unparseable_fields_are_dropped() {
    let tracks = vec![
        track("General", &[("Title", "   "), ("Movie", " Film "), ("Format", "")]),
        track("Video", &[("BitDepth", "ten")]),
        track("Audio", &[("Format", "AAC"), ("Channels", "2")]),
    ];
    let e = enrichment_from_tracks(&tracks).unwrap();
    assert_eq!(e.title.as_deref(), Some("Film"));
    assert_eq!(e.container_format, None);
    assert_eq!(e.video_bit_depth, None);
    assert_eq!(e.audio_commercial_name.as_deref(), Some("AAC"));
    assert_eq!(e.audio_channel_layout.as_deref(), Some("stereo"));
}

#[test]
fn later_track_of_same_kind_wins() {
    let tracks = vec![
        track("Audio", &[("Format", "AC-3"), ("Language", "de")]),
        track("Other", &[("Format", "Timecode")]),
        track("Audio", &[("Format", "AAC")]),
    ];
    let e = enrichment_from_tracks(&tracks).unwrap();
    assert_eq!(e.audio_commercial_name.as_deref(), Some("AAC"));
    assert_eq!(e.audio_language, None);
    assert_eq!(e.container_format, None);
}

#[test]
fn collapse_hdr_adds_hdr10_when_compatibility_includes_it() {
    assert_eq!(
        collapse_hdr_format(Some("Dolby Vision / SMPTE ST 2086"), Some("Blu-ray / HDR10")),
        Some("Dolby Vision / HDR10".into())
    );
}

#[test]
fn collapse_hdr_does_not_duplicate_hdr10() {
    assert_eq!(collapse_hdr_format(Some("HDR10"), Some("HDR10")), Some("HDR10".into()));
}

#[test]
fn collapse_hdr_returns_none_when_empty() {
    assert_eq!(collapse_hdr_format(None, Some("HDR10")), None);
    assert_eq!(collapse_hdr_format(Some(""), None), None);
}

#[test]
fn collapse_hdr_keeps_headline_without_compatibility() {
    assert_eq!(collapse_hdr_format(Some(" HLG / BT.2100 "), None), Some("HLG".into()));
}

#[test]
fn channel_layout_recognises_5_1_via_lfe_token() {
    assert_eq!(channel_layout_display(Some(6), Some("C L R Ls Rs LFE")), Some("5.1".into()));
}

#[test]
fn channel_layout_recognises_6_1_via_back_centre_and_lfe() {
    assert_eq!(channel_layout_display(Some(7), Some("C L R Ls Rs Cb LFE")), Some("6.1".into()));
}

#[test]
fn channel_layout_recognises_stereo() {
    assert_eq!(channel_layout_display(Some(2), Some("L R")), Some("stereo".into()));
}

#[test]
fn channel_layout_falls_back_to_count_when_ambiguous() {
    assert_eq!(channel_layout_display(Some(4), Some("L R Ls Rs")), Some("4 ch".into()));
}

#[test]
fn channel_layout_falls_back_to_count_without_layout() {
    assert_eq!(channel_layout_display(Some(8), None), Some("8 ch".into()));
    assert_eq!(channel_layout_display(Some(1), None), Some("mono".into()));
    assert_eq!(channel_layout_display(None, None), None);
}

#[test]
fn channel_layout_other_named_layouts() {
    assert_eq!(channel_layout_display(None, Some("L C R")), Some("3.0".into()));
    assert_eq!(channel_layout_display(None, Some("c l r ls rs lb rb lfe")), Some("7.1".into()));
    assert_eq!(channel_layout_display(None, Some("L R LFE")), None);
}
