//! Resolution of a setting from its command-line flag, the configuration file and the
//! built-in default, in that order of precedence.

use vstd::prelude::*;
use crate::cli;
use crate::config::str_eq;
use crate::chars::ascii_upper;
use crate::output_path::{OutputFormat, ReelFormat, SheetTheme};

verus! {

/// The image format a configuration word names, if any.
pub open spec fn spec_parse_img_format(s: Option<Seq<char>>) -> Option<OutputFormat> {
    match s {
        Some(w) => if w == "jpeg"@ || w == "Jpeg"@ || w == "JPEG"@ {
            Some(OutputFormat::Jpeg)
        } else if w == "png"@ || w == "Png"@ || w == "PNG"@ {
            Some(OutputFormat::Png)
        } else {
            None
        },
        None => None,
    }
}

/// The view of an optional string.
pub open spec fn opt_view(s: Option<&str>) -> Option<Seq<char>> {
    match s {
        Some(w) => Some(w@),
        None => None,
    }
}

fn parse_img_format(s: Option<&str>) -> (r: Option<OutputFormat>)
    ensures
        r == spec_parse_img_format(opt_view(s)),
{
    match s {
        Some(w) => {
            if str_eq(w, "jpeg") || str_eq(w, "Jpeg") || str_eq(w, "JPEG") {
                Some(OutputFormat::Jpeg)
            } else if str_eq(w, "png") || str_eq(w, "Png") || str_eq(w, "PNG") {
                Some(OutputFormat::Png)
            } else {
                None
            }
        },
        None => None,
    }
}

/// The image format for a run: the flag if given, else the configured word if it names a
/// format, else the fallback word.
pub open spec fn spec_resolve_img_format(arg: Option<cli::ImgFormat>, cfg: Option<Seq<char>>, fallback: Seq<char>) -> OutputFormat {
    match arg {
        Some(cli::ImgFormat::Png) => OutputFormat::Png,
        Some(cli::ImgFormat::Jpeg) => OutputFormat::Jpeg,
        None => match spec_parse_img_format(cfg) {
            Some(f) => f,
            None => spec_parse_img_format(Some(fallback))->Some_0,
        },
    }
}

/// Resolves the still-image format: flag, then configuration, then `fallback`.
pub fn resolve_img_format(arg: &Option<cli::ImgFormat>, cfg: Option<&str>, fallback: &str) -> (f: OutputFormat)
    requires
        arg is Some || spec_parse_img_format(opt_view(cfg)) is Some || spec_parse_img_format(Some(fallback@)) is Some,
    ensures
        f == spec_resolve_img_format(*arg, opt_view(cfg), fallback@),
{
    match arg {
        Some(cli::ImgFormat::Png) => OutputFormat::Png,
        Some(cli::ImgFormat::Jpeg) => OutputFormat::Jpeg,
        None => match parse_img_format(cfg) {
            Some(f) => f,
            None => match parse_img_format(Some(fallback)) {
                Some(f) => f,
                None => {
                    assert(false);
                    OutputFormat::Png
                },
            },
        },
    }
}

/// The theme a configuration word names, if any.
pub open spec fn spec_parse_theme(s: Option<Seq<char>>) -> Option<SheetTheme> {
    match s {
        Some(w) => if w == "light"@ || w == "Light"@ {
            Some(SheetTheme::Light)
        } else if w == "dark"@ || w == "Dark"@ {
            Some(SheetTheme::Dark)
        } else {
            None
        },
        None => None,
    }
}

fn parse_theme(s: Option<&str>) -> (r: Option<SheetTheme>)
    ensures
        r == spec_parse_theme(opt_view(s)),
{
    match s {
        Some(w) => {
            if str_eq(w, "light") || str_eq(w, "Light") {
                Some(SheetTheme::Light)
            } else if str_eq(w, "dark") || str_eq(w, "Dark") {
                Some(SheetTheme::Dark)
            } else {
                None
            }
        },
        None => None,
    }
}

/// The theme for a run: the flag if given, else the configured word if it names a theme,
/// else the fallback word.
pub open spec fn spec_resolve_theme(arg: Option<cli::Theme>, cfg: Option<Seq<char>>, fallback: Seq<char>) -> SheetTheme {
    match arg {
        Some(cli::Theme::Light) => SheetTheme::Light,
        Some(cli::Theme::Dark) => SheetTheme::Dark,
        None => match spec_parse_theme(cfg) {
            Some(t) => t,
            None => spec_parse_theme(Some(fallback))->Some_0,
        },
    }
}

/// Resolves the colour theme: flag, then configuration, then `fallback`.
pub fn resolve_theme(arg: &Option<cli::Theme>, cfg: Option<&str>, fallback: &str) -> (t: SheetTheme)
    requires
        arg is Some || spec_parse_theme(opt_view(cfg)) is Some || spec_parse_theme(Some(fallback@)) is Some,
    ensures
        t == spec_resolve_theme(*arg, opt_view(cfg), fallback@),
{
    match arg {
        Some(cli::Theme::Light) => SheetTheme::Light,
        Some(cli::Theme::Dark) => SheetTheme::Dark,
        None => match parse_theme(cfg) {
            Some(t) => t,
            None => match parse_theme(Some(fallback)) {
                Some(t) => t,
                None => {
                    assert(false);
                    SheetTheme::Dark
                },
            },
        },
    }
}

/// The reel format a configuration word names, if any.
pub open spec fn spec_parse_reel_format(s: Option<Seq<char>>) -> Option<ReelFormat> {
    match s {
        Some(w) => if w == "webp"@ || w == "Webp"@ {
            Some(ReelFormat::Webp)
        } else if w == "webm"@ || w == "Webm"@ {
            Some(ReelFormat::Webm)
        } else if w == "gif"@ || w == "Gif"@ {
            Some(ReelFormat::Gif)
        } else {
            None
        },
        None => None,
    }
}

fn parse_reel_format(s: Option<&str>) -> (r: Option<ReelFormat>)
    ensures
        r == spec_parse_reel_format(opt_view(s)),
{
    match s {
        Some(w) => {
            if str_eq(w, "webp") || str_eq(w, "Webp") {
                Some(ReelFormat::Webp)
            } else if str_eq(w, "webm") || str_eq(w, "Webm") {
                Some(ReelFormat::Webm)
            } else if str_eq(w, "gif") || str_eq(w, "Gif") {
                Some(ReelFormat::Gif)
            } else {
                None
            }
        },
        None => None,
    }
}

/// The reel format for a run: the flag if given, else the configured word if it names a
/// format, else the fallback word.
pub open spec fn spec_resolve_reel_format(arg: Option<cli::ReelFormat>, cfg: Option<Seq<char>>, fallback: Seq<char>) -> ReelFormat {
    match arg {
        Some(cli::ReelFormat::Webp) => ReelFormat::Webp,
        Some(cli::ReelFormat::Webm) => ReelFormat::Webm,
        Some(cli::ReelFormat::Gif) => ReelFormat::Gif,
        None => match spec_parse_reel_format(cfg) {
            Some(f) => f,
            None => spec_parse_reel_format(Some(fallback))->Some_0,
        },
    }
}

/// Resolves the reel format: flag, then configuration, then `fallback`.
pub fn resolve_reel_format(arg: &Option<cli::ReelFormat>, cfg: Option<&str>, fallback: &str) -> (f: ReelFormat)
    requires
        arg is Some || spec_parse_reel_format(opt_view(cfg)) is Some || spec_parse_reel_format(Some(fallback@)) is Some,
    ensures
        f == spec_resolve_reel_format(*arg, opt_view(cfg), fallback@),
{
    match arg {
        Some(cli::ReelFormat::Webp) => ReelFormat::Webp,
        Some(cli::ReelFormat::Webm) => ReelFormat::Webm,
        Some(cli::ReelFormat::Gif) => ReelFormat::Gif,
        None => match parse_reel_format(cfg) {
            Some(f) => f,
            None => match parse_reel_format(Some(fallback)) {
                Some(f) => f,
                None => {
                    assert(false);
                    ReelFormat::Webp
                },
            },
        },
    }
}

/// Three-way boolean resolution for on/off flag pairs: the off flag wins, then the on
/// flag, then the configured value, then `default`.
pub fn resolve_bool(on_flag: bool, off_flag: bool, cfg: Option<bool>, default: bool) -> (b: bool)
    ensures
        b == if off_flag { false } else if on_flag { true } else {
            match cfg { Some(v) => v, None => default }
        },
{
    if off_flag {
        false
    } else if on_flag {
        true
    } else {
        match cfg {
            Some(v) => v,
            None => default,
        }
    }
}

/// A word with its first letter ASCII-capitalised.
pub open spec fn capitalised(w: Seq<char>) -> Seq<char> {
    ascii_upper(w.take(1)) + w.skip(1)
}

/// The lower-case name of an image format, as the `--format` flag spells it.
pub open spec fn img_format_name(f: OutputFormat) -> Seq<char> {
    match f {
        OutputFormat::Png => "png"@,
        OutputFormat::Jpeg => "jpeg"@,
    }
}

/// The lower-case name of a reel format, as the `--format` flag spells it.
pub open spec fn reel_format_name(f: ReelFormat) -> Seq<char> {
    match f {
        ReelFormat::Webp => "webp"@,
        ReelFormat::Webm => "webm"@,
        ReelFormat::Gif => "gif"@,
    }
}

/// The lower-case name of a theme, as the `--theme` flag spells it.
pub open spec fn theme_name(t: SheetTheme) -> Seq<char> {
    match t {
        SheetTheme::Dark => "dark"@,
        SheetTheme::Light => "light"@,
    }
}

proof fn lemma_spellings()
    ensures
        capitalised("png"@) == "Png"@,
        ascii_upper("png"@) == "PNG"@,
        capitalised("jpeg"@) == "Jpeg"@,
        ascii_upper("jpeg"@) == "JPEG"@,
        capitalised("webp"@) == "Webp"@,
        capitalised("webm"@) == "Webm"@,
        capitalised("gif"@) == "Gif"@,
        capitalised("dark"@) == "Dark"@,
        capitalised("light"@) == "Light"@,
{
    reveal_strlit("png");
    reveal_strlit("Png");
    reveal_strlit("PNG");
    reveal_strlit("jpeg");
    reveal_strlit("Jpeg");
    reveal_strlit("JPEG");
    reveal_strlit("webp");
    reveal_strlit("Webp");
    reveal_strlit("webm");
    reveal_strlit("Webm");
    reveal_strlit("gif");
    reveal_strlit("Gif");
    reveal_strlit("dark");
    reveal_strlit("Dark");
    reveal_strlit("light");
    reveal_strlit("Light");
    assert(capitalised("png"@) =~= "Png"@);
    assert(ascii_upper("png"@) =~= "PNG"@);
    assert(capitalised("jpeg"@) =~= "Jpeg"@);
    assert(ascii_upper("jpeg"@) =~= "JPEG"@);
    assert(capitalised("webp"@) =~= "Webp"@);
    assert(capitalised("webm"@) =~= "Webm"@);
    assert(capitalised("gif"@) =~= "Gif"@);
    assert(capitalised("dark"@) =~= "Dark"@);
    assert(capitalised("light"@) =~= "Light"@);
}

/// A configured image format is named by the format's name in lower case, capitalised or
/// in upper case, and by nothing else; so with no flag, any of these spellings in the
/// configuration selects that format, whatever the fallback.
pub proof fn lemma_img_format_spellings(f: OutputFormat, w: Seq<char>, fallback: Seq<char>)
    ensures
        spec_parse_img_format(Some(img_format_name(f))) == Some(f),
        spec_parse_img_format(Some(capitalised(img_format_name(f)))) == Some(f),
        spec_parse_img_format(Some(ascii_upper(img_format_name(f)))) == Some(f),
        spec_parse_img_format(Some(w)) == Some(f) ==> (w == img_format_name(f)
            || w == capitalised(img_format_name(f)) || w == ascii_upper(img_format_name(f))),
        (w == img_format_name(f) || w == capitalised(img_format_name(f)) || w == ascii_upper(img_format_name(f)))
            ==> spec_resolve_img_format(None, Some(w), fallback) == f,
{
    lemma_spellings();
    reveal_strlit("png");
    reveal_strlit("Png");
    reveal_strlit("PNG");
    reveal_strlit("jpeg");
    reveal_strlit("Jpeg");
    reveal_strlit("JPEG");
    assert("png"@.len() == 3 && "Png"@.len() == 3 && "PNG"@.len() == 3);
    assert("jpeg"@.len() == 4 && "Jpeg"@.len() == 4 && "JPEG"@.len() == 4);
}

/// A configured reel format is named by the format's name in lower case or capitalised,
/// and by nothing else; with no flag, such a configured word selects that format.
pub proof fn lemma_reel_format_spellings(f: ReelFormat, w: Seq<char>, fallback: Seq<char>)
    ensures
        spec_parse_reel_format(Some(reel_format_name(f))) == Some(f),
        spec_parse_reel_format(Some(capitalised(reel_format_name(f)))) == Some(f),
        spec_parse_reel_format(Some(w)) == Some(f) ==> (w == reel_format_name(f) || w == capitalised(reel_format_name(f))),
        (w == reel_format_name(f) || w == capitalised(reel_format_name(f)))
            ==> spec_resolve_reel_format(None, Some(w), fallback) == f,
{
    lemma_spellings();
    reveal_strlit("webp");
    reveal_strlit("Webp");
    reveal_strlit("webm");
    reveal_strlit("Webm");
    reveal_strlit("gif");
    reveal_strlit("Gif");
    assert("webp"@.len() == 4 && "Webp"@.len() == 4 && "webm"@.len() == 4 && "Webm"@.len() == 4);
    assert("gif"@.len() == 3 && "Gif"@.len() == 3);
    assert("webp"@[3] == 'p' && "Webp"@[3] == 'p' && "webm"@[3] == 'm' && "Webm"@[3] == 'm');
}

/// A configured theme is named by the theme's name in lower case or capitalised, and by
/// nothing else; with no flag, such a configured word selects that theme.
pub proof fn lemma_theme_spellings(t: SheetTheme, w: Seq<char>, fallback: Seq<char>)
    ensures
        spec_parse_theme(Some(theme_name(t))) == Some(t),
        spec_parse_theme(Some(capitalised(theme_name(t)))) == Some(t),
        spec_parse_theme(Some(w)) == Some(t) ==> (w == theme_name(t) || w == capitalised(theme_name(t))),
        (w == theme_name(t) || w == capitalised(theme_name(t)))
            ==> spec_resolve_theme(None, Some(w), fallback) == t,
{
    lemma_spellings();
    reveal_strlit("dark");
    reveal_strlit("Dark");
    reveal_strlit("light");
    reveal_strlit("Light");
    assert("dark"@.len() == 4 && "Dark"@.len() == 4 && "light"@.len() == 5 && "Light"@.len() == 5);
}

} // verus!
