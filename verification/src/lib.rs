//! Verified core of a video contact-sheet generator: grid geometry and timestamp
//! sampling, ffmpeg filter-text rendering and the command lines of every pipeline,
//! header composition, interpretation of ffprobe and MediaInfo reports, output naming,
//! the configuration checks, the command-line option rules and batch bookkeeping.

pub mod text;
pub mod chars;
pub mod layout;
pub mod drawtext;
pub mod suffix;
pub mod config;
pub mod output_path;
pub mod cli;
pub mod format;
pub mod mediainfo;
pub mod video_info;
pub mod header;
pub mod ffmpeg;
pub mod defaults;
pub mod jobs;
pub mod paths;
pub mod options;
pub mod commands;
pub mod preview_reel;
pub mod input_scan;
pub mod contact_sheet;
pub mod animated_sheet;
pub mod screenshots;
pub mod events;

pub use ffmpeg::ffmpeg_test_hook_locate;

use vstd::prelude::*;

verus! {

/// Describes a file from its ffprobe report (see [`video_info::parse`]).
pub fn video_info_test_hook_parse(root: &video_info::RawRoot) -> (r: Result<video_info::VideoInfo, video_info::ProbeParseError>)
    ensures
        root.format.duration_ms is None <==> r == Err::<video_info::VideoInfo, video_info::ProbeParseError>(video_info::ProbeParseError::MissingDuration),
        root.format.duration_ms is Some && video_info::none_satisfy(root.streams@, |s: video_info::RawStream| s.codec_type@ == "video"@)
            <==> r == Err::<video_info::VideoInfo, video_info::ProbeParseError>(video_info::ProbeParseError::NoVideo),
        match r {
            Ok(info) => video_info::info_of(info, *root),
            Err(e) => e == video_info::ProbeParseError::MissingDuration || e == video_info::ProbeParseError::NoVideo,
        },
{
    video_info::parse(root)
}

} // verus!
