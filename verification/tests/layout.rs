use mosaic::layout::{
    compute_sheet_layout, header_height, line_height, pad_width_for_count, thumb_height, thumb_width,
    xstack_layout,
};

#[test]
fn default_3x7_1920_gap10() {
    let l = compute_sheet_layout(3, 7, 1920, 10);
    assert_eq!(l.total, 21);
    assert_eq!(l.thumb_w, 626);
    assert_eq!(l.grid_w, 1918);
    assert_eq!(l.gap, 10);
}

#[test]
fn odd_gap_rounds_down_to_even() {
    let l = compute_sheet_layout(3, 2, 1920, 9);
    assert_eq!(l.gap, 8);
    let padding = l.gap * (l.cols + 1);
    assert_eq!(l.grid_w, padding + l.cols * l.thumb_w);
}

#[test]
fn thumb_width_forced_even() {
    let l = compute_sheet_layout(4, 2, 1920, 10);
    assert_eq!(l.thumb_w % 2, 0);
}

#[test]
fn header_height_two_line_default() {
    assert_eq!(header_height(20, 10, 2), 72);
}

#[test]
fn header_height_scales_with_line_count() {
    assert_eq!(header_height(20, 10, 3), 98);
    assert_eq!(header_height(20, 10, 4), 124);
}

#[test]
fn pad_width_for_count_floors_at_two() {
    assert_eq!(pad_width_for_count(1), 2);
    assert_eq!(pad_width_for_count(9), 2);
    assert_eq!(pad_width_for_count(99), 2);
    assert_eq!(pad_width_for_count(100), 3);
    assert_eq!(pad_width_for_count(9999), 4);
}

#[test]
fn thumb_height_landscape_16_by_9() {
    assert_eq!(thumb_height(640, 1920, 1080), 360);
}

#[test]
fn layout_thumb_height_rounds_down_to_even() {
    assert_eq!(thumb_height(100, 1000, 601), 60);
    assert_eq!(thumb_height(100, 1000, 603), 60);
    assert_eq!(thumb_height(100, 1000, 613), 60);
}

#[test]
fn thumb_height_portrait_source_gives_tall_thumb() {
    assert_eq!(thumb_height(640, 1080, 1920), 1138);
}

#[test]
fn thumb_height_anamorphic_source_matches_displayed_aspect() {
    assert_eq!(thumb_height(640, 606, 1080), 1140);
}

#[test]
fn layout_thumb_height_handles_zero_source_dims() {
    assert_eq!(thumb_height(100, 0, 0), 100);
}

#[test]
fn thumb_width_is_inverse_of_thumb_height() {
    assert_eq!(thumb_width(360, 1920, 1080), 640);
    assert_eq!(thumb_width(480, 1080, 1920), 270);
}

#[test]
fn xstack_layout_1x1() {
    assert_eq!(xstack_layout(1, 1, 100, 50), "0_0");
}

#[test]
fn xstack_layout_3x2_fills_row_by_row() {
    assert_eq!(xstack_layout(3, 2, 110, 60), "0_0|110_0|220_0|0_60|110_60|220_60");
}

#[test]
fn xstack_layout_4x4_has_16_positions() {
    let s = xstack_layout(4, 4, 100, 80);
    assert_eq!(s.split('|').count(), 16);
    assert!(s.starts_with("0_0|100_0|200_0|300_0|"));
    assert!(s.ends_with("|300_240"));
}

// The animated sheet sizes its cells with the same function.

#[test]
fn thumb_height_16_by_9_source() {
    assert_eq!(thumb_height(640, 1920, 1080), 360);
}

#[test]
fn animated_sheet_thumb_height_rounds_down_to_even() {
    assert_eq!(thumb_height(100, 1000, 601), 60);
    assert_eq!(thumb_height(100, 1000, 603), 60);
    assert_eq!(thumb_height(100, 1000, 613), 60);
}

#[test]
fn animated_sheet_thumb_height_handles_zero_source_dims() {
    assert_eq!(thumb_height(100, 0, 0), 100);
}

#[test]
fn line_height_is_rounded_thirteen_tenths() {
    assert_eq!(line_height(20), 26);
    assert_eq!(line_height(5), 7);
    assert_eq!(line_height(18), 23);
    assert_eq!(line_height(0), 0);
    assert_eq!(line_height(u32::MAX), u32::MAX);
}

#[test]
fn line_height_matches_float_rounding() {
    for font in 0u32..5000 {
        let expected = ((font as f64) * 1.3).round() as u32;
        assert_eq!(line_height(font), expected, "font {}", font);
    }
}

#[test]
fn thumb_height_matches_float_rounding() {
    for (w, sw, sh) in [(640u32, 1920u32, 1080u32), (626, 1920, 1080), (333, 1281, 719), (100, 3, 7), (1, 2, 3), (999, 1000, 1001)] {
        let raw = (w as f64 * sh as f64 / sw as f64).round() as u32;
        let even = (raw - raw % 2).max(2);
        assert_eq!(thumb_height(w, sw, sh), even);
    }
}

#[test]
fn layout_when_padding_exceeds_width() {
    let l = compute_sheet_layout(4, 1, 10, 10);
    assert_eq!(l.thumb_w, 0);
    assert_eq!(l.grid_w, 50);
}

#[test]
fn xstack_layout_empty_grid() {
    assert_eq!(xstack_layout(0, 3, 10, 10), "");
    assert_eq!(xstack_layout(3, 0, 10, 10), "");
}

#[test]
fn timestamps_evenly_spaced_in_open_interval() {
    let ts = mosaic::layout::sample_timestamps(100_000, 4);
    assert_eq!(ts.len(), 4);
    for (i, v) in ts.iter().enumerate() {
        let expected = (i as u64 + 1) * 100_000 / 5;
        assert_eq!(*v, expected, "ts[{}]={} expected {}", i, v, expected);
    }
    assert!(ts[0] > 0);
    assert!(*ts.last().unwrap() < 100_000);
}

#[test]
fn timestamps_zero_count_returns_empty() {
    assert!(mosaic::layout::sample_timestamps(100_000, 0).is_empty());
    assert!(mosaic::layout::sample_timestamps(0, 3).is_empty());
}

#[test]
fn timestamps_round_to_nearest_millisecond() {
    assert_eq!(mosaic::layout::sample_timestamps(10_000, 5), vec![1667, 3333, 5000, 6667, 8333]);
}

#[test]
fn clip_timestamps_leave_room_for_clip_length() {
    let ts = mosaic::layout::sample_clip_timestamps(28_630, 18, 2_000);
    assert_eq!(ts.len(), 18);
    for (i, v) in ts.iter().enumerate() {
        assert!(v + 2_000 <= 28_630, "ts[{}]={} + clip_length overshoots", i, v);
    }
    assert!(ts[0] > 0);
}

#[test]
fn clip_timestamps_return_empty_when_shorter_than_clip() {
    assert!(mosaic::layout::sample_clip_timestamps(1_000, 8, 2_000).is_empty());
    assert!(mosaic::layout::sample_clip_timestamps(2_000, 8, 2_000).is_empty());
}

#[test]
fn degenerate_source_gives_even_height_at_least_two() {
    assert_eq!(thumb_height(1, 0, 0), 2);
    assert_eq!(thumb_height(0, 1920, 0), 2);
    assert_eq!(thumb_height(101, 0, 1080), 100);
    assert_eq!(thumb_height(100, 0, 0), 100);
}
