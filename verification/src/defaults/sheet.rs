//! Defaults of the contact-sheet output.

use vstd::prelude::*;

verus! {

pub const COLS: u32 = 3;
pub const ROWS: u32 = 6;
pub const WIDTH: u32 = 1920;
pub const GAP: u32 = 10;
pub const THUMB_FONT: u32 = 18;
pub const HEADER_FONT: u32 = 20;
pub const FORMAT: &'static str = "png";
pub const JPEG_QUALITY: u32 = 92;
pub const THEME: &'static str = "dark";

} // verus!
