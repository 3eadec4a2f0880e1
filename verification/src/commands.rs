//! Types of the desktop app's batch commands, and where a batch writes its outputs.

use vstd::prelude::*;
use crate::paths::{opt_view, path_parent, std_path_parent};
use crate::video_info::VideoInfo;

verus! {

/// One queued source file of a batch.
#[derive(Debug, Clone, PartialEq, Eq)]
pub struct QueueItem {
    pub id: String,
    pub path: String,
    /// Probe result cached by the front end; when present the source is not probed again.
    pub info: Option<VideoInfo>,
}

/// Where the desktop app writes a batch's outputs.
#[derive(Debug, Clone, PartialEq, Eq)]
pub enum OutputLocation {
    NextToSource,
    Custom { custom: String },
}

/// The output directory for a source given the parent the platform reports for it: a
/// custom directory as given, else the source's parent, else the empty path.
pub fn out_dir_for_location(output: &OutputLocation, parent: Option<String>) -> (d: String)
    ensures
        d@ == match *output {
            OutputLocation::Custom { custom } => custom@,
            OutputLocation::NextToSource => match opt_view(parent) { Some(p) => p, None => Seq::empty() },
        },
{
    match output {
        OutputLocation::NextToSource => match parent {
            Some(p) => p,
            None => String::new(),
        },
        OutputLocation::Custom { custom } => custom.clone(),
    }
}

/// Resolves the output directory of a queued source for the desktop app.
pub fn resolve_out_dir(source: &str, output: &OutputLocation) -> (d: String)
    ensures
        output is Custom ==> d@ == output->custom@,
        output is NextToSource ==> d@ == match std_path_parent(source@) { Some(p) => p, None => Seq::empty() },
{
    out_dir_for_location(output, path_parent(source))
}

/// The desktop platforms the app tells apart when it reveals a file.
#[derive(Debug, Clone, Copy, PartialEq, Eq, Structural)]
pub enum Platform {
    MacOs,
    Windows,
    Linux,
    Other,
}

/// A file-manager invocation: the program and its arguments. With `raw`, the single
/// argument is handed to the process verbatim, without the platform's own quoting.
#[derive(Debug, Clone, PartialEq, Eq)]
pub struct RevealCommand {
    pub program: String,
    pub args: Vec<String>,
    pub raw: bool,
}

/// What revealing `path` runs. macOS: `open -R <path>` selects a file in its folder,
/// `open <path>` opens a directory itself. Windows: `explorer <dir>` for a directory,
/// else the raw argument `/select,"<path>"` (quoted so a comma in the name cannot split
/// it). Linux: `xdg-open` on the containing directory of a file (the path itself when it
/// has no parent), or on the path. Nothing on other platforms.
pub open spec fn spec_reveal(platform: Platform, path: Seq<char>, is_dir: bool, is_file: bool, parent: Option<Seq<char>>)
    -> Option<(Seq<char>, Seq<Seq<char>>, bool)>
{
    match platform {
        Platform::MacOs => Some(("open"@, if is_dir { seq![path] } else { seq!["-R"@, path] }, false)),
        Platform::Windows => if is_dir {
            Some(("explorer"@, seq![path], false))
        } else {
            Some(("explorer"@, seq!["/select,\""@ + path + "\""@], true))
        },
        Platform::Linux => Some(("xdg-open"@, seq![if is_file { match parent { Some(p) => p, None => path } } else { path }], false)),
        Platform::Other => None,
    }
}

/// Builds the command that shows `path` in the platform's file manager, given whether it
/// is a directory or a file and its parent directory.
pub fn reveal_command(platform: Platform, path: &str, is_dir: bool, is_file: bool, parent: Option<String>) -> (r: Option<RevealCommand>)
    ensures
        match r {
            Some(c) => spec_reveal(platform, path@, is_dir, is_file, opt_view(parent))
                == Some((c.program@, c.args@.map_values(|a: String| a@), c.raw)),
            None => spec_reveal(platform, path@, is_dir, is_file, opt_view(parent)) is None,
        },
{
    let (program, args, raw): (String, Vec<String>, bool) = match platform {
        Platform::MacOs => {
            let args = if is_dir {
                vec![String::from_str(path)]
            } else {
                vec![String::from_str("-R"), String::from_str(path)]
            };
            (String::from_str("open"), args, false)
        },
        Platform::Windows => {
            if is_dir {
                (String::from_str("explorer"), vec![String::from_str(path)], false)
            } else {
                let mut token = String::from_str("/select,\"");
                token.append(path);
                token.append("\"");
                (String::from_str("explorer"), vec![token], true)
            }
        },
        Platform::Linux => {
            let target = if is_file {
                match parent {
                    Some(p) => p,
                    None => String::from_str(path),
                }
            } else {
                String::from_str(path)
            };
            (String::from_str("xdg-open"), vec![target], false)
        },
        Platform::Other => return None,
    };
    let c = RevealCommand { program, args, raw };
    assert(spec_reveal(platform, path@, is_dir, is_file, opt_view(parent))
        == Some((c.program@, c.args@.map_values(|a: String| a@), c.raw)));
    Some(c)
}

} // verus!
