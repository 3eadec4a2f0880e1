//! Defaults of the `screenshots` output.

use vstd::prelude::*;

verus! {

pub const COUNT: u32 = 8;
pub const FORMAT: &'static str = "png";
pub const JPEG_QUALITY: u32 = 92;

} // verus!
