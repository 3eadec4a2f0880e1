//! Which files count as videos when a folder is scanned: the known container
//! extensions, and how a file name's extension is read.

use vstd::prelude::*;
use crate::chars::{ascii_lower, ascii_upper, to_ascii_lowercase};
use crate::config::str_eq;

verus! {

/// Deepest directory level a scan descends to, a guard against symlink cycles.
pub const MAX_SCAN_DEPTH: u32 = 16;

/// The container extensions that count as video files, lower-case and without the dot.
pub open spec fn spec_video_exts() -> Seq<Seq<char>> {
    seq![
        "mp4"@, "mkv"@, "mov"@, "avi"@, "webm"@, "wmv"@, "flv"@, "m4v"@, "mpg"@, "mpeg"@,
        "ts"@, "m2ts"@, "mts"@, "vob"@, "iso"@, "ogv"@, "ogm"@, "qt"@, "asf"@,
        "3gp"@, "3g2"@, "f4v"@, "mj2"@,
        "rm"@, "rmvb"@, "divx"@, "swf"@, "nsv"@,
        "mxf"@, "gxf"@, "r3d"@,
        "dv"@, "dif"@, "wtv"@, "nuv"@, "pva"@,
        "nut"@, "vro"@, "m1v"@, "m2v"@, "mk3d"@, "fli"@, "flc"@, "ivf"@, "y4m"@
    ]
}

/// The known video container extensions: common containers, the MP4 family, legacy and
/// regional formats, broadcast formats, capture formats and a few others.
pub fn video_exts() -> (v: Vec<&'static str>)
    ensures
        v@.map_values(|e: &str| e@) == spec_video_exts(),
{
    let v = vec![
        "mp4", "mkv", "mov", "avi", "webm", "wmv", "flv", "m4v", "mpg", "mpeg",
        "ts", "m2ts", "mts", "vob", "iso", "ogv", "ogm", "qt", "asf",
        "3gp", "3g2", "f4v", "mj2",
        "rm", "rmvb", "divx", "swf", "nsv",
        "mxf", "gxf", "r3d",
        "dv", "dif", "wtv", "nuv", "pva",
        "nut", "vro", "m1v", "m2v", "mk3d", "fli", "flc", "ivf", "y4m",
    ];
    assert(v@.map_values(|e: &str| e@) =~= spec_video_exts());
    v
}

/// The known video extensions as owned strings, for the front end.
pub fn get_video_exts() -> (v: Vec<String>)
    ensures
        v@.map_values(|e: String| e@) == spec_video_exts(),
{
    let exts = video_exts();
    let ghost ev = exts@.map_values(|e: &str| e@);
    let mut out: Vec<String> = Vec::new();
    let mut i: usize = 0;
    while i < exts.len()
        invariant
            i <= exts@.len(),
            ev == exts@.map_values(|e: &str| e@),
            ev == spec_video_exts(),
            out@.len() == i,
            forall|k: int| 0 <= k < i ==> (#[trigger] out@[k])@ == ev[k],
        decreases exts.len() - i,
    {
        let e = String::from_str(exts[i]);
        assert(e@ == ev[i as int]);
        out.push(e);
        i = i + 1;
    }
    assert(out@.map_values(|e: String| e@) =~= ev);
    out
}

/// Whether an extension, compared case-insensitively, is a known video extension.
pub open spec fn spec_is_video_ext(ext: Seq<char>) -> bool {
    spec_video_exts().contains(ascii_lower(ext))
}

/// Whether an extension names a video container; the comparison ignores ASCII case.
pub fn is_video_ext(ext: &str) -> (b: bool)
    ensures
        b == spec_is_video_ext(ext@),
{
    let lower = to_ascii_lowercase(ext);
    let exts = video_exts();
    let ghost ev = exts@.map_values(|e: &str| e@);
    let mut i: usize = 0;
    while i < exts.len()
        invariant
            i <= exts@.len(),
            ev == exts@.map_values(|e: &str| e@),
            ev == spec_video_exts(),
            lower@ == ascii_lower(ext@),
            forall|k: int| 0 <= k < i ==> ev[k] != lower@,
        decreases exts.len() - i,
    {
        assert(ev[i as int] == exts@[i as int]@);
        if str_eq(exts[i], lower.as_str()) {
            assert(ev.contains(lower@));
            return true;
        }
        i = i + 1;
    }
    proof {
        if ev.contains(lower@) {
            let k = choose|k: int| 0 <= k < ev.len() && ev[k] == lower@;
            assert(ev[k] != lower@);
        }
    }
    false
}

/// Index of the last `.` in `s`, if any.
pub open spec fn last_dot(s: Seq<char>) -> Option<int>
    decreases s.len(),
{
    if s.len() == 0 {
        None
    } else if s.last() == '.' {
        Some(s.len() - 1)
    } else {
        last_dot(s.drop_last())
    }
}

/// `Path::extension` of a file name: what follows the last `.`, when there is one that
/// is not the name's first character.
pub open spec fn spec_extension(name: Seq<char>) -> Option<Seq<char>> {
    match last_dot(name) {
        Some(i) => if i > 0 { Some(name.skip(i + 1)) } else { None },
        None => None,
    }
}

proof fn lemma_last_dot_bounds(s: Seq<char>)
    ensures
        match last_dot(s) {
            Some(i) => 0 <= i < s.len() && s[i] == '.' && forall|k: int| i < k < s.len() ==> s[k] != '.',
            None => forall|k: int| 0 <= k < s.len() ==> s[k] != '.',
        },
    decreases s.len(),
{
    if s.len() > 0 {
        let p = s.drop_last();
        lemma_last_dot_bounds(p);
        if s.last() != '.' {
            assert forall|k: int| 0 <= k < p.len() implies p[k] == s[k] by {}
        }
    }
}

/// Whether a directory entry's file name marks it as a video to pick up: it has an
/// extension and the extension is a known video extension.
pub open spec fn spec_is_video_file_name(name: Seq<char>) -> bool {
    match spec_extension(name) {
        Some(e) => spec_is_video_ext(e),
        None => false,
    }
}

/// Whether a scanned file is kept: its name has an extension that is a known video
/// extension, compared case-insensitively.
pub fn is_video_file_name(name: &str) -> (b: bool)
    ensures
        b == spec_is_video_file_name(name@),
{
    let n = name.unicode_len();
    let mut i: usize = n;
    while i > 0
        invariant
            n == name@.len(),
            i <= n,
            forall|k: int| i <= k < n ==> name@[k] != '.',
        decreases i,
    {
        if name.get_char(i - 1) == '.' {
            proof {
                lemma_last_dot_bounds(name@);
                lemma_last_dot_unique(name@, i - 1);
            }
            if i - 1 == 0 {
                return false;
            }
            let ext = name.substring_char(i, n);
            assert(ext@ =~= name@.skip(i as int));
            return is_video_ext(ext);
        }
        i = i - 1;
    }
    proof {
        lemma_last_dot_bounds(name@);
        if last_dot(name@) is Some {
            let j = last_dot(name@)->Some_0;
            assert(name@[j] == '.');
        }
    }
    false
}

proof fn lemma_last_dot_unique(s: Seq<char>, i: int)
    requires
        0 <= i < s.len(),
        s[i] == '.',
        forall|k: int| i < k < s.len() ==> s[k] != '.',
    ensures
        last_dot(s) == Some(i),
    decreases s.len(),
{
    if i < s.len() - 1 {
        lemma_last_dot_unique(s.drop_last(), i);
    }
}

/// The known extensions are these 45 containers, each recognised as a video: MP4,
/// Matroska, QuickTime, AVI, WebM and the other common containers, the MP4 family,
/// legacy and regional formats, broadcast and capture formats, and a few others.
#[verifier::rlimit(50)]
pub proof fn lemma_known_video_containers()
    ensures
        spec_video_exts().len() == 45,
        spec_is_video_ext("mp4"@),
        spec_is_video_ext("mkv"@),
        spec_is_video_ext("mov"@),
        spec_is_video_ext("avi"@),
        spec_is_video_ext("webm"@),
        spec_is_video_ext("wmv"@),
        spec_is_video_ext("flv"@),
        spec_is_video_ext("m4v"@),
        spec_is_video_ext("mpg"@),
        spec_is_video_ext("mpeg"@),
        spec_is_video_ext("ts"@),
        spec_is_video_ext("m2ts"@),
        spec_is_video_ext("mts"@),
        spec_is_video_ext("vob"@),
        spec_is_video_ext("iso"@),
        spec_is_video_ext("ogv"@),
        spec_is_video_ext("ogm"@),
        spec_is_video_ext("qt"@),
        spec_is_video_ext("asf"@),
        spec_is_video_ext("3gp"@),
        spec_is_video_ext("3g2"@),
        spec_is_video_ext("f4v"@),
        spec_is_video_ext("mj2"@),
        spec_is_video_ext("rm"@),
        spec_is_video_ext("rmvb"@),
        spec_is_video_ext("divx"@),
        spec_is_video_ext("swf"@),
        spec_is_video_ext("nsv"@),
        spec_is_video_ext("mxf"@),
        spec_is_video_ext("gxf"@),
        spec_is_video_ext("r3d"@),
        spec_is_video_ext("dv"@),
        spec_is_video_ext("dif"@),
        spec_is_video_ext("wtv"@),
        spec_is_video_ext("nuv"@),
        spec_is_video_ext("pva"@),
        spec_is_video_ext("nut"@),
        spec_is_video_ext("vro"@),
        spec_is_video_ext("m1v"@),
        spec_is_video_ext("m2v"@),
        spec_is_video_ext("mk3d"@),
        spec_is_video_ext("fli"@),
        spec_is_video_ext("flc"@),
        spec_is_video_ext("ivf"@),
        spec_is_video_ext("y4m"@),
{
    reveal_strlit("mp4");
    assert(spec_video_exts()[0] == "mp4"@);
    assert(ascii_lower("mp4"@) =~= "mp4"@);
    reveal_strlit("mkv");
    assert(spec_video_exts()[1] == "mkv"@);
    assert(ascii_lower("mkv"@) =~= "mkv"@);
    reveal_strlit("mov");
    assert(spec_video_exts()[2] == "mov"@);
    assert(ascii_lower("mov"@) =~= "mov"@);
    reveal_strlit("avi");
    assert(spec_video_exts()[3] == "avi"@);
    assert(ascii_lower("avi"@) =~= "avi"@);
    reveal_strlit("webm");
    assert(spec_video_exts()[4] == "webm"@);
    assert(ascii_lower("webm"@) =~= "webm"@);
    reveal_strlit("wmv");
    assert(spec_video_exts()[5] == "wmv"@);
    assert(ascii_lower("wmv"@) =~= "wmv"@);
    reveal_strlit("flv");
    assert(spec_video_exts()[6] == "flv"@);
    assert(ascii_lower("flv"@) =~= "flv"@);
    reveal_strlit("m4v");
    assert(spec_video_exts()[7] == "m4v"@);
    assert(ascii_lower("m4v"@) =~= "m4v"@);
    reveal_strlit("mpg");
    assert(spec_video_exts()[8] == "mpg"@);
    assert(ascii_lower("mpg"@) =~= "mpg"@);
    reveal_strlit("mpeg");
    assert(spec_video_exts()[9] == "mpeg"@);
    assert(ascii_lower("mpeg"@) =~= "mpeg"@);
    reveal_strlit("ts");
    assert(spec_video_exts()[10] == "ts"@);
    assert(ascii_lower("ts"@) =~= "ts"@);
    reveal_strlit("m2ts");
    assert(spec_video_exts()[11] == "m2ts"@);
    assert(ascii_lower("m2ts"@) =~= "m2ts"@);
    reveal_strlit("mts");
    assert(spec_video_exts()[12] == "mts"@);
    assert(ascii_lower("mts"@) =~= "mts"@);
    reveal_strlit("vob");
    assert(spec_video_exts()[13] == "vob"@);
    assert(ascii_lower("vob"@) =~= "vob"@);
    reveal_strlit("iso");
    assert(spec_video_exts()[14] == "iso"@);
    assert(ascii_lower("iso"@) =~= "iso"@);
    reveal_strlit("ogv");
    assert(spec_video_exts()[15] == "ogv"@);
    assert(ascii_lower("ogv"@) =~= "ogv"@);
    reveal_strlit("ogm");
    assert(spec_video_exts()[16] == "ogm"@);
    assert(ascii_lower("ogm"@) =~= "ogm"@);
    reveal_strlit("qt");
    assert(spec_video_exts()[17] == "qt"@);
    assert(ascii_lower("qt"@) =~= "qt"@);
    reveal_strlit("asf");
    assert(spec_video_exts()[18] == "asf"@);
    assert(ascii_lower("asf"@) =~= "asf"@);
    reveal_strlit("3gp");
    assert(spec_video_exts()[19] == "3gp"@);
    assert(ascii_lower("3gp"@) =~= "3gp"@);
    reveal_strlit("3g2");
    assert(spec_video_exts()[20] == "3g2"@);
    assert(ascii_lower("3g2"@) =~= "3g2"@);
    reveal_strlit("f4v");
    assert(spec_video_exts()[21] == "f4v"@);
    assert(ascii_lower("f4v"@) =~= "f4v"@);
    reveal_strlit("mj2");
    assert(spec_video_exts()[22] == "mj2"@);
    assert(ascii_lower("mj2"@) =~= "mj2"@);
    reveal_strlit("rm");
    assert(spec_video_exts()[23] == "rm"@);
    assert(ascii_lower("rm"@) =~= "rm"@);
    reveal_strlit("rmvb");
    assert(spec_video_exts()[24] == "rmvb"@);
    assert(ascii_lower("rmvb"@) =~= "rmvb"@);
    reveal_strlit("divx");
    assert(spec_video_exts()[25] == "divx"@);
    assert(ascii_lower("divx"@) =~= "divx"@);
    reveal_strlit("swf");
    assert(spec_video_exts()[26] == "swf"@);
    assert(ascii_lower("swf"@) =~= "swf"@);
    reveal_strlit("nsv");
    assert(spec_video_exts()[27] == "nsv"@);
    assert(ascii_lower("nsv"@) =~= "nsv"@);
    reveal_strlit("mxf");
    assert(spec_video_exts()[28] == "mxf"@);
    assert(ascii_lower("mxf"@) =~= "mxf"@);
    reveal_strlit("gxf");
    assert(spec_video_exts()[29] == "gxf"@);
    assert(ascii_lower("gxf"@) =~= "gxf"@);
    reveal_strlit("r3d");
    assert(spec_video_exts()[30] == "r3d"@);
    assert(ascii_lower("r3d"@) =~= "r3d"@);
    reveal_strlit("dv");
    assert(spec_video_exts()[31] == "dv"@);
    assert(ascii_lower("dv"@) =~= "dv"@);
    reveal_strlit("dif");
    assert(spec_video_exts()[32] == "dif"@);
    assert(ascii_lower("dif"@) =~= "dif"@);
    reveal_strlit("wtv");
    assert(spec_video_exts()[33] == "wtv"@);
    assert(ascii_lower("wtv"@) =~= "wtv"@);
    reveal_strlit("nuv");
    assert(spec_video_exts()[34] == "nuv"@);
    assert(ascii_lower("nuv"@) =~= "nuv"@);
    reveal_strlit("pva");
    assert(spec_video_exts()[35] == "pva"@);
    assert(ascii_lower("pva"@) =~= "pva"@);
    reveal_strlit("nut");
    assert(spec_video_exts()[36] == "nut"@);
    assert(ascii_lower("nut"@) =~= "nut"@);
    reveal_strlit("vro");
    assert(spec_video_exts()[37] == "vro"@);
    assert(ascii_lower("vro"@) =~= "vro"@);
    reveal_strlit("m1v");
    assert(spec_video_exts()[38] == "m1v"@);
    assert(ascii_lower("m1v"@) =~= "m1v"@);
    reveal_strlit("m2v");
    assert(spec_video_exts()[39] == "m2v"@);
    assert(ascii_lower("m2v"@) =~= "m2v"@);
    reveal_strlit("mk3d");
    assert(spec_video_exts()[40] == "mk3d"@);
    assert(ascii_lower("mk3d"@) =~= "mk3d"@);
    reveal_strlit("fli");
    assert(spec_video_exts()[41] == "fli"@);
    assert(ascii_lower("fli"@) =~= "fli"@);
    reveal_strlit("flc");
    assert(spec_video_exts()[42] == "flc"@);
    assert(ascii_lower("flc"@) =~= "flc"@);
    reveal_strlit("ivf");
    assert(spec_video_exts()[43] == "ivf"@);
    assert(ascii_lower("ivf"@) =~= "ivf"@);
    reveal_strlit("y4m");
    assert(spec_video_exts()[44] == "y4m"@);
    assert(ascii_lower("y4m"@) =~= "y4m"@);
}

/// Upper-casing an extension does not change whether it is a video extension.
pub proof fn lemma_video_ext_ignores_case(ext: Seq<char>)
    ensures
        spec_is_video_ext(ascii_upper(ext)) == spec_is_video_ext(ext),
{
    assert(ascii_lower(ascii_upper(ext)) =~= ascii_lower(ext));
}

/// A file name `<stem>.<ext>` with a non-empty stem and a dot-free extension is picked
/// up exactly when its extension is a known video extension.
pub proof fn lemma_file_name_uses_extension(stem: Seq<char>, ext: Seq<char>)
    requires
        stem.len() > 0,
        forall|k: int| 0 <= k < ext.len() ==> ext[k] != '.',
    ensures
        spec_is_video_file_name(stem + seq!['.'] + ext) == spec_is_video_ext(ext),
{
    let name = stem + seq!['.'] + ext;
    let i = stem.len() as int;
    assert(name[i] == '.');
    assert forall|k: int| i < k < name.len() implies name[k] != '.' by {
        assert(name[k] == ext[k - i - 1]);
    }
    lemma_last_dot_unique(name, i);
    assert(name.skip(i + 1) =~= ext);
}

} // verus!
