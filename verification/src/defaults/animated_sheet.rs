//! Defaults of the animated-sheet output.

use vstd::prelude::*;

verus! {

pub const COLS: u32 = 3;
pub const ROWS: u32 = 6;
pub const WIDTH: u32 = 1280;
pub const GAP: u32 = 8;
pub const CLIP_LENGTH_SECS: u32 = 2;
pub const FPS: u32 = 12;
pub const QUALITY: u32 = 75;
pub const THUMB_FONT: u32 = 14;
pub const HEADER_FONT: u32 = 18;
pub const THEME: &'static str = "dark";

} // verus!
