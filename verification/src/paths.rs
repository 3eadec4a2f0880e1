//! Output directories: where a run writes the files it produces.

use vstd::prelude::*;
use crate::cli::Shared;

verus! {

/// What `Path::parent` gives for a path on the platform the crate is built for: the path
/// without its final component, as text, or nothing when it ends in a root or prefix or
/// is empty.
pub uninterp spec fn std_path_parent(p: Seq<char>) -> Option<Seq<char>>;

/// `Path::parent` of `p`, rendered with `to_string_lossy`. Which characters separate
/// components depends on the platform, so the result is only named.
#[verifier::external_body]
pub(crate) fn path_parent(p: &str) -> (r: Option<String>)
    ensures
        opt_view(r) == std_path_parent(p@),
{
    match std::path::Path::new(p).parent() {
        Some(q) => Some(q.to_string_lossy().into_owned()),
        None => None,
    }
}

/// The view of an optional string.
pub open spec fn opt_view(s: Option<String>) -> Option<Seq<char>> {
    match s { Some(x) => Some(x@), None => None }
}

/// The output directory for a source: the explicit `--output` if given, else the source's
/// parent directory, else `.`.
pub fn out_dir_from(output: &Option<String>, parent: Option<String>) -> (d: String)
    ensures
        d@ == match opt_view(*output) {
            Some(o) => o,
            None => match opt_view(parent) { Some(p) => p, None => "."@ },
        },
{
    match output {
        Some(o) => o.clone(),
        None => match parent {
            Some(p) => p,
            None => String::from_str("."),
        },
    }
}

/// Resolves the output directory for `src`: explicit `--output` wins, otherwise the
/// files go next to the source (in `.` when the source has no parent).
pub fn out_dir(shared: &Shared, src: &str) -> (d: String)
    ensures
        shared.output is Some ==> d@ == shared.output->Some_0@,
        shared.output is None ==> d@ == match std_path_parent(src@) { Some(p) => p, None => "."@ },
{
    out_dir_from(&shared.output, path_parent(src))
}

} // verus!
