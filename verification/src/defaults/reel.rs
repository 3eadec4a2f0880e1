//! Defaults of the preview-reel output.

use vstd::prelude::*;

verus! {

pub const COUNT: u32 = 15;
pub const CLIP_LENGTH_SECS: u32 = 2;
pub const HEIGHT: u32 = 360;
pub const FPS: u32 = 24;
pub const QUALITY: u32 = 75;
pub const FORMAT: &'static str = "webp";

} // verus!
