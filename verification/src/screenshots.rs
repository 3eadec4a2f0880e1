//! Screenshots: full-resolution stills at evenly spaced timestamps.

use vstd::prelude::*;
use crate::contact_sheet::quality_args;
use crate::ffmpeg::{append_args, base_args, seek_input_args, spec_base_args, spec_seek_input_args};
use crate::output_path::{jpeg_qv, OutputFormat};
use crate::text::{push_dec, string_views};

verus! {

/// The arguments that write one screenshot.
pub open spec fn spec_screenshot_args(source: Seq<char>, timestamp_ms: nat, format: OutputFormat, jpeg_quality: nat, output: Seq<char>) -> Seq<Seq<char>> {
    spec_base_args() + spec_seek_input_args(source, timestamp_ms) + seq!["-frames:v"@, "1"@]
        + quality_args(format, jpeg_quality) + seq![output]
}

/// Builds the invocation that writes the frame at `timestamp_ms` to `output`, with the
/// JPEG quality when the format is JPEG.
pub fn screenshot_args(source: &str, timestamp_ms: u64, format: OutputFormat, jpeg_quality: u32, output: &str) -> (args: Vec<String>)
    ensures
        string_views(args@) == spec_screenshot_args(source@, timestamp_ms as nat, format, jpeg_quality as nat, output@),
{
    let mut args = base_args();
    append_args(&mut args, seek_input_args(source, timestamp_ms));
    append_args(&mut args, vec![String::from_str("-frames:v"), String::from_str("1")]);
    let ghost mid = string_views(args@);
    match format {
        OutputFormat::Jpeg => {
            let mut q = String::new();
            push_dec(&mut q, jpeg_qv(jpeg_quality) as u64);
            append_args(&mut args, vec![String::from_str("-q:v"), q]);
        },
        OutputFormat::Png => {},
    }
    assert(string_views(args@) =~= mid + quality_args(format, jpeg_quality as nat));
    append_args(&mut args, vec![String::from_str(output)]);
    assert(string_views(args@) =~= spec_screenshot_args(source@, timestamp_ms as nat, format, jpeg_quality as nat, output@));
    args
}

} // verus!
