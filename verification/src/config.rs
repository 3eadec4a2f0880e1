//! Per-user configuration for the command-line tool: the settings it may hold, their
//! range checks, the detection of unknown keys, and the commented template.

use vstd::prelude::*;
use crate::text::{dec, push_dec};

verus! {

/// A configuration file that exists but cannot be parsed.
#[derive(Debug, Clone, PartialEq, Eq)]
pub enum ConfigError {
    ParseFailed { path: String, msg: String },
}

impl ConfigError {
    /// The error message: `config parse failed: <path>: <msg>`.
    pub fn message(&self) -> (m: String)
        ensures
            m@ == "config parse failed: "@ + self->path@ + ": "@ + self->msg@,
    {
        match self {
            ConfigError::ParseFailed { path, msg } => {
                let mut m = String::from_str("config parse failed: ");
                m.append(path.as_str());
                m.append(": ");
                m.append(msg.as_str());
                m
            }
        }
    }
}

/// Defaults for the `screenshots` subcommand.
#[derive(Debug, Default, Clone, PartialEq, Eq)]
pub struct ScreenshotsCfg {
    pub count: Option<u32>,
    pub format: Option<String>,
    pub quality: Option<u32>,
    pub suffix: Option<String>,
}

/// Defaults for the `sheet` subcommand.
#[derive(Debug, Default, Clone, PartialEq, Eq)]
pub struct SheetCfg {
    pub cols: Option<u32>,
    pub rows: Option<u32>,
    pub width: Option<u32>,
    pub gap: Option<u32>,
    pub thumb_font: Option<u32>,
    pub header_font: Option<u32>,
    pub show_timestamps: Option<bool>,
    pub show_header: Option<bool>,
    pub format: Option<String>,
    pub quality: Option<u32>,
    pub theme: Option<String>,
    pub suffix: Option<String>,
}

/// Defaults for the `reel` subcommand.
#[derive(Debug, Default, Clone, PartialEq, Eq)]
pub struct ReelCfg {
    pub count: Option<u32>,
    pub clip_length_secs: Option<u32>,
    pub height: Option<u32>,
    pub fps: Option<u32>,
    pub quality: Option<u32>,
    pub format: Option<String>,
    pub suffix: Option<String>,
}

/// Defaults for the `animated-sheet` subcommand.
#[derive(Debug, Default, Clone, PartialEq, Eq)]
pub struct AnimatedSheetCfg {
    pub cols: Option<u32>,
    pub rows: Option<u32>,
    pub width: Option<u32>,
    pub gap: Option<u32>,
    pub clip_length_secs: Option<u32>,
    pub fps: Option<u32>,
    pub quality: Option<u32>,
    pub thumb_font: Option<u32>,
    pub header_font: Option<u32>,
    pub show_timestamps: Option<bool>,
    pub show_header: Option<bool>,
    pub theme: Option<String>,
    pub suffix: Option<String>,
}

/// The whole configuration file; every setting is optional.
#[derive(Debug, Default, Clone, PartialEq, Eq)]
pub struct Config {
    pub screenshots: ScreenshotsCfg,
    pub sheet: SheetCfg,
    pub reel: ReelCfg,
    pub animated_sheet: AnimatedSheetCfg,
}

/// One bounds check: the setting's dotted key, its value if set, and the inclusive range.
pub struct RangeCheck {
    pub key: &'static str,
    pub value: Option<u32>,
    pub min: u32,
    pub max: u32,
}

/// Whether a check fails: the value is set and outside its range.
pub open spec fn check_fails(c: RangeCheck) -> bool {
    match c.value {
        Some(v) => v < c.min || v > c.max,
        None => false,
    }
}

/// The message of a failing check: `config: <key> = <v> out of range (<min>..=<max>)`.
pub open spec fn range_message(key: Seq<char>, v: u32, min: u32, max: u32) -> Seq<char> {
    "config: "@ + key + " = "@ + dec(v as nat) + " out of range ("@ + dec(min as nat) + "..="@
        + dec(max as nat) + ")"@
}

/// What `check_range` returns.
pub open spec fn spec_check_range(key: Seq<char>, value: Option<u32>, min: u32, max: u32) -> Result<(), Seq<char>> {
    match value {
        Some(v) => if v < min || v > max { Err(range_message(key, v, min, max)) } else { Ok(()) },
        None => Ok(()),
    }
}

/// The view of a `Result` whose error is a string.
pub open spec fn unit_result_view(r: Result<(), String>) -> Result<(), Seq<char>> {
    match r {
        Ok(()) => Ok(()),
        Err(e) => Err(e@),
    }
}

/// Checks that an optional setting lies within `min..=max`.
fn check_range(key: &str, value: Option<u32>, min: u32, max: u32) -> (r: Result<(), String>)
    ensures
        unit_result_view(r) == spec_check_range(key@, value, min, max),
{
    match value {
        Some(v) => {
            if v < min || v > max {
                let mut m = String::from_str("config: ");
                m.append(key);
                m.append(" = ");
                push_dec(&mut m, v as u64);
                m.append(" out of range (");
                push_dec(&mut m, min as u64);
                m.append("..=");
                push_dec(&mut m, max as u64);
                m.append(")");
                assert(m@ =~= range_message(key@, v, min, max));
                Err(m)
            } else {
                Ok(())
            }
        },
        None => Ok(()),
    }
}

/// The checks `Config::validate` makes, in the order it makes them: the same bounds the
/// command-line flags enforce.
pub open spec fn config_checks(c: Config) -> Seq<RangeCheck> {
    seq![
        RangeCheck { key: "screenshots.count", value: c.screenshots.count, min: 1, max: 1000 },
        RangeCheck { key: "screenshots.quality", value: c.screenshots.quality, min: 50, max: 100 },
        RangeCheck { key: "sheet.cols", value: c.sheet.cols, min: 1, max: 32 },
        RangeCheck { key: "sheet.rows", value: c.sheet.rows, min: 1, max: 32 },
        RangeCheck { key: "sheet.width", value: c.sheet.width, min: 320, max: 8192 },
        RangeCheck { key: "sheet.gap", value: c.sheet.gap, min: 0, max: 200 },
        RangeCheck { key: "sheet.thumb_font", value: c.sheet.thumb_font, min: 8, max: 72 },
        RangeCheck { key: "sheet.header_font", value: c.sheet.header_font, min: 8, max: 72 },
        RangeCheck { key: "sheet.quality", value: c.sheet.quality, min: 50, max: 100 },
        RangeCheck { key: "reel.count", value: c.reel.count, min: 1, max: 100 },
        RangeCheck { key: "reel.clip_length_secs", value: c.reel.clip_length_secs, min: 1, max: 60 },
        RangeCheck { key: "reel.height", value: c.reel.height, min: 120, max: 4320 },
        RangeCheck { key: "reel.fps", value: c.reel.fps, min: 1, max: 120 },
        RangeCheck { key: "reel.quality", value: c.reel.quality, min: 0, max: 100 },
        RangeCheck { key: "animated_sheet.cols", value: c.animated_sheet.cols, min: 1, max: 32 },
        RangeCheck { key: "animated_sheet.rows", value: c.animated_sheet.rows, min: 1, max: 32 },
        RangeCheck { key: "animated_sheet.width", value: c.animated_sheet.width, min: 320, max: 8192 },
        RangeCheck { key: "animated_sheet.gap", value: c.animated_sheet.gap, min: 0, max: 200 },
        RangeCheck { key: "animated_sheet.clip_length_secs", value: c.animated_sheet.clip_length_secs, min: 1, max: 60 },
        RangeCheck { key: "animated_sheet.fps", value: c.animated_sheet.fps, min: 1, max: 120 },
        RangeCheck { key: "animated_sheet.quality", value: c.animated_sheet.quality, min: 0, max: 100 },
        RangeCheck { key: "animated_sheet.thumb_font", value: c.animated_sheet.thumb_font, min: 8, max: 72 },
        RangeCheck { key: "animated_sheet.header_font", value: c.animated_sheet.header_font, min: 8, max: 72 }
    ]
}

/// The result of running `checks` in order and stopping at the first failure.
pub open spec fn first_failure(checks: Seq<RangeCheck>) -> Result<(), Seq<char>>
    decreases checks.len(),
{
    if checks.len() == 0 {
        Ok(())
    } else if check_fails(checks[0]) {
        Err(range_message(checks[0].key@, checks[0].value->Some_0, checks[0].min, checks[0].max))
    } else {
        first_failure(checks.skip(1))
    }
}

proof fn lemma_first_failure_prefix(checks: Seq<RangeCheck>, i: int)
    requires
        0 <= i <= checks.len(),
        forall|k: int| 0 <= k < i ==> !check_fails(#[trigger] checks[k]),
    ensures
        first_failure(checks) == first_failure(checks.skip(i)),
    decreases i,
{
    if i > 0 {
        assert(!check_fails(checks[0]));
        lemma_first_failure_prefix(checks.skip(1), i - 1);
        assert(checks.skip(1).skip(i - 1) =~= checks.skip(i));
    } else {
        assert(checks.skip(0) =~= checks);
    }
}

impl Config {
    fn range_checks(&self) -> (v: Vec<RangeCheck>)
        ensures
            v@ == config_checks(*self),
    {
        let v = vec![
            RangeCheck { key: "screenshots.count", value: self.screenshots.count, min: 1, max: 1000 },
            RangeCheck { key: "screenshots.quality", value: self.screenshots.quality, min: 50, max: 100 },
            RangeCheck { key: "sheet.cols", value: self.sheet.cols, min: 1, max: 32 },
            RangeCheck { key: "sheet.rows", value: self.sheet.rows, min: 1, max: 32 },
            RangeCheck { key: "sheet.width", value: self.sheet.width, min: 320, max: 8192 },
            RangeCheck { key: "sheet.gap", value: self.sheet.gap, min: 0, max: 200 },
            RangeCheck { key: "sheet.thumb_font", value: self.sheet.thumb_font, min: 8, max: 72 },
            RangeCheck { key: "sheet.header_font", value: self.sheet.header_font, min: 8, max: 72 },
            RangeCheck { key: "sheet.quality", value: self.sheet.quality, min: 50, max: 100 },
            RangeCheck { key: "reel.count", value: self.reel.count, min: 1, max: 100 },
            RangeCheck { key: "reel.clip_length_secs", value: self.reel.clip_length_secs, min: 1, max: 60 },
            RangeCheck { key: "reel.height", value: self.reel.height, min: 120, max: 4320 },
            RangeCheck { key: "reel.fps", value: self.reel.fps, min: 1, max: 120 },
            RangeCheck { key: "reel.quality", value: self.reel.quality, min: 0, max: 100 },
            RangeCheck { key: "animated_sheet.cols", value: self.animated_sheet.cols, min: 1, max: 32 },
            RangeCheck { key: "animated_sheet.rows", value: self.animated_sheet.rows, min: 1, max: 32 },
            RangeCheck { key: "animated_sheet.width", value: self.animated_sheet.width, min: 320, max: 8192 },
            RangeCheck { key: "animated_sheet.gap", value: self.animated_sheet.gap, min: 0, max: 200 },
            RangeCheck { key: "animated_sheet.clip_length_secs", value: self.animated_sheet.clip_length_secs, min: 1, max: 60 },
            RangeCheck { key: "animated_sheet.fps", value: self.animated_sheet.fps, min: 1, max: 120 },
            RangeCheck { key: "animated_sheet.quality", value: self.animated_sheet.quality, min: 0, max: 100 },
            RangeCheck { key: "animated_sheet.thumb_font", value: self.animated_sheet.thumb_font, min: 8, max: 72 },
            RangeCheck { key: "animated_sheet.header_font", value: self.animated_sheet.header_font, min: 8, max: 72 },
        ];
        assert(v@ =~= config_checks(*self));
        v
    }

    /// Validates the numeric settings against the same ranges the command-line flags
    /// enforce, reporting the first one out of range.
    pub fn validate(&self) -> (r: Result<(), String>)
        ensures
            unit_result_view(r) == first_failure(config_checks(*self)),
    {
        let checks = self.range_checks();
        let n = checks.len();
        let mut i: usize = 0;
        while i < n
            invariant
                n == checks@.len(),
                checks@ == config_checks(*self),
                i <= n,
                forall|k: int| 0 <= k < i ==> !check_fails(#[trigger] checks@[k]),
            decreases n - i,
        {
            let c = &checks[i];
            match check_range(c.key, c.value, c.min, c.max) {
                Ok(()) => {},
                Err(e) => {
                    proof {
                        lemma_first_failure_prefix(checks@, i as int);
                        assert(checks@.skip(i as int)[0] == checks@[i as int]);
                    }
                    return Err(e);
                },
            }
            i = i + 1;
        }
        proof {
            lemma_first_failure_prefix(checks@, n as int);
            assert(checks@.skip(n as int) =~= Seq::<RangeCheck>::empty());
        }
        Ok(())
    }
}


/// A configuration passes validation exactly when every setting that is present lies
/// within its range.
pub proof fn lemma_validate_ok_iff_in_range(c: Config)
    ensures
        first_failure(config_checks(c)) is Ok
            <==> forall|k: int| 0 <= k < config_checks(c).len() ==> !check_fails(#[trigger] config_checks(c)[k]),
{
    lemma_first_failure_ok(config_checks(c));
}

proof fn lemma_first_failure_ok(checks: Seq<RangeCheck>)
    ensures
        first_failure(checks) is Ok <==> forall|k: int| 0 <= k < checks.len() ==> !check_fails(#[trigger] checks[k]),
    decreases checks.len(),
{
    if checks.len() > 0 {
        lemma_first_failure_ok(checks.skip(1));
        if first_failure(checks) is Ok {
            assert forall|k: int| 0 <= k < checks.len() implies !check_fails(#[trigger] checks[k]) by {
                if k > 0 {
                    assert(checks.skip(1)[k - 1] == checks[k]);
                }
            }
        }
        if forall|k: int| 0 <= k < checks.len() ==> !check_fails(#[trigger] checks[k]) {
            assert(!check_fails(checks[0]));
            assert forall|k: int| 0 <= k < checks.skip(1).len() implies !check_fails(#[trigger] checks.skip(1)[k]) by {
                assert(checks.skip(1)[k] == checks[k + 1]);
            }
        }
    }
}

/// The commented configuration template written on first run: every setting appears,
/// commented out, with its built-in default.
pub open spec fn config_template() -> Seq<char> {
    "# ~/.mosaic-cli.toml — per-user defaults for mosaic-cli.\n# Uncomment any key to override the built-in default.\n# CLI flags always override this file.\n\n[screenshots]\n# count = 8\n# format = \"png\"        # png | jpeg\n# quality = 92           # 50-100, JPEG only\n# suffix = \"_screens_\"\n\n[sheet]\n# cols = 3\n# rows = 6\n# width = 1920\n# gap = 10\n# thumb_font = 18\n# header_font = 20\n# show_timestamps = true\n# show_header = true\n# format = \"png\"        # png | jpeg\n# quality = 92\n# theme = \"dark\"        # dark | light\n# suffix = \"_sheet\"\n\n[reel]\n# count = 15\n# clip_length_secs = 2\n# height = 360\n# fps = 24\n# quality = 75\n# format = \"webp\"       # webp | webm | gif\n# suffix = \"_reel\"\n\n[animated_sheet]\n# cols = 3\n# rows = 6\n# width = 1280\n# gap = 8\n# clip_length_secs = 2\n# fps = 12\n# quality = 75\n# thumb_font = 14\n# header_font = 18\n# show_timestamps = true\n# show_header = true\n# theme = \"dark\"\n# suffix = \"_animated_sheet\"\n"@
}

/// The commented template for a new configuration file.
pub fn template() -> (s: &'static str)
    ensures
        s@ == config_template(),
{
    "# ~/.mosaic-cli.toml — per-user defaults for mosaic-cli.\n# Uncomment any key to override the built-in default.\n# CLI flags always override this file.\n\n[screenshots]\n# count = 8\n# format = \"png\"        # png | jpeg\n# quality = 92           # 50-100, JPEG only\n# suffix = \"_screens_\"\n\n[sheet]\n# cols = 3\n# rows = 6\n# width = 1920\n# gap = 10\n# thumb_font = 18\n# header_font = 20\n# show_timestamps = true\n# show_header = true\n# format = \"png\"        # png | jpeg\n# quality = 92\n# theme = \"dark\"        # dark | light\n# suffix = \"_sheet\"\n\n[reel]\n# count = 15\n# clip_length_secs = 2\n# height = 360\n# fps = 24\n# quality = 75\n# format = \"webp\"       # webp | webm | gif\n# suffix = \"_reel\"\n\n[animated_sheet]\n# cols = 3\n# rows = 6\n# width = 1280\n# gap = 8\n# clip_length_secs = 2\n# fps = 12\n# quality = 75\n# thumb_font = 14\n# header_font = 18\n# show_timestamps = true\n# show_header = true\n# theme = \"dark\"\n# suffix = \"_animated_sheet\"\n"
}

/// Whether two strings are equal.
pub fn str_eq(a: &str, b: &str) -> (r: bool)
    ensures
        r == (a@ == b@),
{
    let n = a.unicode_len();
    if n != b.unicode_len() {
        return false;
    }
    let mut i: usize = 0;
    while i < n
        invariant
            n == a@.len(),
            n == b@.len(),
            i <= n,
            forall|k: int| 0 <= k < i ==> a@[k] == b@[k],
        decreases n - i,
    {
        if a.get_char(i) != b.get_char(i) {
            return false;
        }
        i = i + 1;
    }
    assert(a@ =~= b@);
    true
}

/// The keys each known section may hold; `None` for an unknown section.
pub open spec fn known_keys(section: Seq<char>) -> Option<Seq<Seq<char>>> {
    if section == "screenshots"@ {
        Some(seq!["count"@, "format"@, "quality"@, "suffix"@])
    } else if section == "sheet"@ {
        Some(seq!["cols"@, "rows"@, "width"@, "gap"@, "thumb_font"@, "header_font"@,
            "show_timestamps"@, "show_header"@, "format"@, "quality"@, "theme"@, "suffix"@])
    } else if section == "reel"@ {
        Some(seq!["count"@, "clip_length_secs"@, "height"@, "fps"@, "quality"@, "format"@, "suffix"@])
    } else if section == "animated_sheet"@ {
        Some(seq!["cols"@, "rows"@, "width"@, "gap"@, "clip_length_secs"@, "fps"@, "quality"@,
            "thumb_font"@, "header_font"@, "show_timestamps"@, "show_header"@, "theme"@, "suffix"@])
    } else {
        None
    }
}

fn known_keys_of(section: &str) -> (r: Option<Vec<&'static str>>)
    ensures
        match r {
            Some(v) => known_keys(section@) == Some(v@.map_values(|k: &str| k@)),
            None => known_keys(section@) is None,
        },
{
    if str_eq(section, "screenshots") {
        let v = vec!["count", "format", "quality", "suffix"];
        assert(v@.map_values(|k: &str| k@) =~= known_keys(section@)->Some_0);
        Some(v)
    } else if str_eq(section, "sheet") {
        let v = vec!["cols", "rows", "width", "gap", "thumb_font", "header_font",
            "show_timestamps", "show_header", "format", "quality", "theme", "suffix"];
        assert(v@.map_values(|k: &str| k@) =~= known_keys(section@)->Some_0);
        Some(v)
    } else if str_eq(section, "reel") {
        let v = vec!["count", "clip_length_secs", "height", "fps", "quality", "format", "suffix"];
        assert(v@.map_values(|k: &str| k@) =~= known_keys(section@)->Some_0);
        Some(v)
    } else if str_eq(section, "animated_sheet") {
        let v = vec!["cols", "rows", "width", "gap", "clip_length_secs", "fps", "quality",
            "thumb_font", "header_font", "show_timestamps", "show_header", "theme", "suffix"];
        assert(v@.map_values(|k: &str| k@) =~= known_keys(section@)->Some_0);
        Some(v)
    } else {
        None
    }
}

/// One top-level entry of a parsed configuration file: its name, and the keys it holds
/// when it is a table (`None` when its value is not a table).
#[derive(Debug, Clone, PartialEq, Eq)]
pub struct ConfigSection {
    pub name: String,
    pub keys: Option<Vec<String>>,
}

/// Something in a configuration file that no setting corresponds to.
#[derive(Debug, Clone, PartialEq, Eq)]
pub enum ConfigWarning {
    UnknownSection { section: String },
    UnknownKey { section: String, key: String },
}

/// A warning as plain text pieces: the section, and the key for an unknown key.
pub open spec fn warning_view(w: ConfigWarning) -> (Seq<char>, Option<Seq<char>>) {
    match w {
        ConfigWarning::UnknownSection { section } => (section@, None),
        ConfigWarning::UnknownKey { section, key } => (section@, Some(key@)),
    }
}

/// The unknown keys among `keys`, for a known section whose allowed keys are `allowed`.
pub open spec fn unknown_in_section(section: Seq<char>, keys: Seq<Seq<char>>, allowed: Seq<Seq<char>>) -> Seq<(Seq<char>, Option<Seq<char>>)>
    decreases keys.len(),
{
    if keys.len() == 0 {
        Seq::empty()
    } else {
        unknown_in_section(section, keys.drop_last(), allowed)
            + if allowed.contains(keys.last()) { Seq::empty() } else { seq![(section, Some(keys.last()))] }
    }
}

/// The warnings for one top-level entry.
pub open spec fn section_warnings(name: Seq<char>, keys: Option<Seq<Seq<char>>>) -> Seq<(Seq<char>, Option<Seq<char>>)> {
    match known_keys(name) {
        None => seq![(name, None)],
        Some(allowed) => match keys {
            None => Seq::empty(),
            Some(ks) => unknown_in_section(name, ks, allowed),
        },
    }
}

/// The view of a top-level entry.
pub open spec fn section_view(s: ConfigSection) -> (Seq<char>, Option<Seq<Seq<char>>>) {
    (s.name@, match s.keys { Some(v) => Some(v@.map_values(|k: String| k@)), None => None })
}

/// The warnings for a whole file, entry by entry in file order.
pub open spec fn spec_unknown_keys(sections: Seq<(Seq<char>, Option<Seq<Seq<char>>>)>) -> Seq<(Seq<char>, Option<Seq<char>>)>
    decreases sections.len(),
{
    if sections.len() == 0 {
        Seq::empty()
    } else {
        spec_unknown_keys(sections.drop_last()) + section_warnings(sections.last().0, sections.last().1)
    }
}

fn contains_key(allowed: &Vec<&'static str>, key: &str) -> (r: bool)
    ensures
        r == allowed@.map_values(|k: &str| k@).contains(key@),
{
    let ghost views = allowed@.map_values(|k: &str| k@);
    let mut i: usize = 0;
    while i < allowed.len()
        invariant
            i <= allowed@.len(),
            views == allowed@.map_values(|k: &str| k@),
            forall|j: int| 0 <= j < i ==> views[j] != key@,
        decreases allowed.len() - i,
    {
        if str_eq(allowed[i], key) {
            assert(views[i as int] == key@);
            return true;
        }
        i = i + 1;
    }
    false
}

/// Lists the sections and keys of a configuration file that no setting corresponds to:
/// each unknown top-level entry once, and for each known section the keys it may not
/// hold, in file order.
pub fn unknown_keys(sections: &Vec<ConfigSection>) -> (w: Vec<ConfigWarning>)
    ensures
        w@.map_values(|x: ConfigWarning| warning_view(x)) == spec_unknown_keys(sections@.map_values(|s: ConfigSection| section_view(s))),
{
    let ghost sv = sections@.map_values(|s: ConfigSection| section_view(s));
    let mut out: Vec<ConfigWarning> = Vec::new();
    let mut i: usize = 0;
    while i < sections.len()
        invariant
            i <= sections@.len(),
            sv == sections@.map_values(|s: ConfigSection| section_view(s)),
            out@.map_values(|x: ConfigWarning| warning_view(x)) == spec_unknown_keys(sv.take(i as int)),
        decreases sections.len() - i,
    {
        let sec = &sections[i];
        let ghost before = out@.map_values(|x: ConfigWarning| warning_view(x));
        match known_keys_of(sec.name.as_str()) {
            None => {
                out.push(ConfigWarning::UnknownSection { section: sec.name.clone() });
                proof {
                    assert(out@.map_values(|x: ConfigWarning| warning_view(x)) =~= before + seq![(sec.name@, None::<Seq<char>>)]);
                }
            },
            Some(allowed) => {
                match &sec.keys {
                    None => {},
                    Some(keys) => {
                        let ghost kv = keys@.map_values(|k: String| k@);
                        let ghost av = allowed@.map_values(|k: &str| k@);
                        let mut j: usize = 0;
                        while j < keys.len()
                            invariant
                                j <= keys@.len(),
                                kv == keys@.map_values(|k: String| k@),
                                av == allowed@.map_values(|k: &str| k@),
                                out@.map_values(|x: ConfigWarning| warning_view(x))
                                    == before + unknown_in_section(sec.name@, kv.take(j as int), av),
                            decreases keys.len() - j,
                        {
                            let ghost mid = out@.map_values(|x: ConfigWarning| warning_view(x));
                            let k = &keys[j];
                            assert(kv.take(j + 1).drop_last() =~= kv.take(j as int));
                            assert(kv.take(j + 1).last() == k@);
                            if !contains_key(&allowed, k.as_str()) {
                                out.push(ConfigWarning::UnknownKey { section: sec.name.clone(), key: k.clone() });
                                assert(out@.map_values(|x: ConfigWarning| warning_view(x)) =~= mid + seq![(sec.name@, Some(k@))]);
                            } else {
                                assert(out@.map_values(|x: ConfigWarning| warning_view(x)) =~= mid + Seq::<(Seq<char>, Option<Seq<char>>)>::empty());
                            }
                            j = j + 1;
                        }
                        assert(kv.take(keys.len() as int) =~= kv);
                    },
                }
            },
        }
        proof {
            assert(sv.take(i + 1).drop_last() =~= sv.take(i as int));
            assert(sv[i as int] == section_view(*sec));
            assert(out@.map_values(|x: ConfigWarning| warning_view(x)) =~= spec_unknown_keys(sv.take(i + 1)));
        }
        i = i + 1;
    }
    assert(sv.take(sections.len() as int) =~= sv);
    out
}

impl ConfigWarning {
    /// The warning text for a file shown as `path`.
    pub fn message(&self, path: &str) -> (m: String)
        ensures
            m@ == match warning_view(*self) {
                (section, None) => "warning: unknown section '"@ + section + "' in "@ + path@,
                (section, Some(key)) => "warning: unknown key '"@ + section + "."@ + key + "' in "@ + path@,
            },
    {
        match self {
            ConfigWarning::UnknownSection { section } => {
                let mut m = String::from_str("warning: unknown section '");
                m.append(section.as_str());
                m.append("' in ");
                m.append(path);
                m
            },
            ConfigWarning::UnknownKey { section, key } => {
                let mut m = String::from_str("warning: unknown key '");
                m.append(section.as_str());
                m.append(".");
                m.append(key.as_str());
                m.append("' in ");
                m.append(path);
                m
            },
        }
    }
}

/// The top-level entries of a configuration file as `toml` reads them: each entry's name
/// and, when its value is a table, the table's keys; nothing when the text is not a TOML
/// document.
pub uninterp spec fn toml_top_level(body: Seq<char>) -> Option<Seq<(Seq<char>, Option<Seq<Seq<char>>>)>>;

/// The view of a list of top-level entries.
pub open spec fn sections_view(v: Option<Vec<ConfigSection>>) -> Option<Seq<(Seq<char>, Option<Seq<Seq<char>>>)>> {
    match v {
        Some(s) => Some(s@.map_values(|x: ConfigSection| section_view(x))),
        None => None,
    }
}

/// Parses `body` as a TOML document (`str::parse::<toml::Value>`) and lists its
/// top-level entries, in the order the `toml` crate's table yields them, each with the
/// keys of its value when that value is a table. The contract only names the result: the
/// TOML grammar and the table's iteration order are the crate's.
#[verifier::external_body]
fn parse_toml_sections(body: &str) -> (r: Option<Vec<ConfigSection>>)
    ensures
        sections_view(r) == toml_top_level(body@),
{
    let value: toml::Value = body.parse().ok()?;
    match value {
        toml::Value::Table(table) => Some(table.into_iter().map(|(name, v)| ConfigSection {
            name,
            keys: match v {
                toml::Value::Table(sub) => Some(sub.into_iter().map(|(k, _)| k).collect()),
                _ => None,
            },
        }).collect()),
        _ => None,
    }
}

/// The warnings for a configuration file's text: none when it does not parse as TOML
/// (the typed parse reports that), otherwise each unknown section and each unknown key
/// of a known section.
pub fn warn_unknown_keys(body: &str) -> (w: Vec<ConfigWarning>)
    ensures
        w@.map_values(|x: ConfigWarning| warning_view(x)) == match toml_top_level(body@) {
            Some(sections) => spec_unknown_keys(sections),
            None => Seq::empty(),
        },
{
    match parse_toml_sections(body) {
        Some(sections) => unknown_keys(&sections),
        None => {
            let w: Vec<ConfigWarning> = Vec::new();
            assert(w@.map_values(|x: ConfigWarning| warning_view(x)) =~= Seq::<(Seq<char>, Option<Seq<char>>)>::empty());
            w
        },
    }
}

/// The header line of a section in the template, with the line break before it.
pub open spec fn header_line(section: Seq<char>) -> Seq<char> {
    "\n["@ + section + "]\n"@
}

/// The start of a commented setting line in the template: `# <key> = `.
pub open spec fn key_line(key: Seq<char>) -> Seq<char> {
    "\n# "@ + key + " = "@
}

/// The sections of the configuration file, in the order the template lists them.
pub open spec fn config_sections() -> Seq<Seq<char>> {
    seq!["screenshots"@, "sheet"@, "reel"@, "animated_sheet"@]
}

/// Whether the template lists `key` in section number `a`: its commented line comes after
/// the section's header and, unless the section is the last, before the next header.
pub open spec fn template_lists_key(a: int, key: Seq<char>) -> bool {
    exists|i: int, j: int|
        #![trigger crate::chars::occurs_at(config_template(), header_line(config_sections()[a]), i), crate::chars::occurs_at(config_template(), key_line(key), j)]
        crate::chars::occurs_at(config_template(), header_line(config_sections()[a]), i)
        && i < j
        && crate::chars::occurs_at(config_template(), key_line(key), j)
        && (a + 1 < config_sections().len() ==> exists|e: int|
            #[trigger] crate::chars::occurs_at(config_template(), header_line(config_sections()[a + 1]), e) && j < e)
}

proof fn lemma_listed_at(a: int, key: Seq<char>, i: int, j: int, e: int)
    requires
        0 <= a < 4,
        crate::chars::occurs_at(config_template(), header_line(config_sections()[a]), i),
        i < j,
        crate::chars::occurs_at(config_template(), key_line(key), j),
        a + 1 < 4 ==> crate::chars::occurs_at(config_template(), header_line(config_sections()[a + 1]), e) && j < e,
    ensures
        template_lists_key(a, key),
{
}

/// The template lists every setting: each key of each section appears as a commented
/// `# <key> = <default>` line after that section's header and before the next one.
pub proof fn lemma_template_lists_every_setting(a: int, key: Seq<char>)
    requires
        0 <= a < config_sections().len(),
        known_keys(config_sections()[a]) matches Some(ks) && ks.contains(key),
    ensures
        template_lists_key(a, key),
{
    let t = config_template();
    reveal_strlit("# ~/.mosaic-cli.toml — per-user defaults for mosaic-cli.\n# Uncomment any key to override the built-in default.\n# CLI flags always override this file.\n\n[screenshots]\n# count = 8\n# format = \"png\"        # png | jpeg\n# quality = 92           # 50-100, JPEG only\n# suffix = \"_screens_\"\n\n[sheet]\n# cols = 3\n# rows = 6\n# width = 1920\n# gap = 10\n# thumb_font = 18\n# header_font = 20\n# show_timestamps = true\n# show_header = true\n# format = \"png\"        # png | jpeg\n# quality = 92\n# theme = \"dark\"        # dark | light\n# suffix = \"_sheet\"\n\n[reel]\n# count = 15\n# clip_length_secs = 2\n# height = 360\n# fps = 24\n# quality = 75\n# format = \"webp\"       # webp | webm | gif\n# suffix = \"_reel\"\n\n[animated_sheet]\n# cols = 3\n# rows = 6\n# width = 1280\n# gap = 8\n# clip_length_secs = 2\n# fps = 12\n# quality = 75\n# thumb_font = 14\n# header_font = 18\n# show_timestamps = true\n# show_header = true\n# theme = \"dark\"\n# suffix = \"_animated_sheet\"\n");
    reveal_strlit("\n[");
    reveal_strlit("]\n");
    reveal_strlit("\n# ");
    reveal_strlit(" = ");
    reveal_strlit("screenshots");
    reveal_strlit("sheet");
    reveal_strlit("reel");
    reveal_strlit("animated_sheet");
    assert(config_sections()[0] == "screenshots"@);
    assert(t.subrange(150, 165) =~= header_line("screenshots"@));
    assert(config_sections()[1] == "sheet"@);
    assert(t.subrange(282, 291) =~= header_line("sheet"@));
    assert(config_sections()[2] == "reel"@);
    assert(t.subrange(533, 541) =~= header_line("reel"@));
    assert(config_sections()[3] == "animated_sheet"@);
    assert(t.subrange(681, 699) =~= header_line("animated_sheet"@));
    // The witnesses are the character offsets of each header line and setting line.
    let ks = known_keys(config_sections()[a])->Some_0;
    let idx = choose|idx: int| 0 <= idx < ks.len() && ks[idx] == key;
    if a == 0 && idx == 0 {
        reveal_strlit("count");
        assert(key == "count"@);
        assert(t.subrange(164, 175) =~= key_line("count"@));
        lemma_listed_at(0, key, 150, 164, 282);
    } else if a == 0 && idx == 1 {
        reveal_strlit("format");
        assert(key == "format"@);
        assert(t.subrange(176, 188) =~= key_line("format"@));
        lemma_listed_at(0, key, 150, 176, 282);
    } else if a == 0 && idx == 2 {
        reveal_strlit("quality");
        assert(key == "quality"@);
        assert(t.subrange(213, 226) =~= key_line("quality"@));
        lemma_listed_at(0, key, 150, 213, 282);
    } else if a == 0 && idx == 3 {
        reveal_strlit("suffix");
        assert(key == "suffix"@);
        assert(t.subrange(258, 270) =~= key_line("suffix"@));
        lemma_listed_at(0, key, 150, 258, 282);
    } else if a == 1 && idx == 0 {
        reveal_strlit("cols");
        assert(key == "cols"@);
        assert(t.subrange(290, 300) =~= key_line("cols"@));
        lemma_listed_at(1, key, 282, 290, 533);
    } else if a == 1 && idx == 1 {
        reveal_strlit("rows");
        assert(key == "rows"@);
        assert(t.subrange(301, 311) =~= key_line("rows"@));
        lemma_listed_at(1, key, 282, 301, 533);
    } else if a == 1 && idx == 2 {
        reveal_strlit("width");
        assert(key == "width"@);
        assert(t.subrange(312, 323) =~= key_line("width"@));
        lemma_listed_at(1, key, 282, 312, 533);
    } else if a == 1 && idx == 3 {
        reveal_strlit("gap");
        assert(key == "gap"@);
        assert(t.subrange(327, 336) =~= key_line("gap"@));
        lemma_listed_at(1, key, 282, 327, 533);
    } else if a == 1 && idx == 4 {
        reveal_strlit("thumb_font");
        assert(key == "thumb_font"@);
        assert(t.subrange(338, 354) =~= key_line("thumb_font"@));
        lemma_listed_at(1, key, 282, 338, 533);
    } else if a == 1 && idx == 5 {
        reveal_strlit("header_font");
        assert(key == "header_font"@);
        assert(t.subrange(356, 373) =~= key_line("header_font"@));
        lemma_listed_at(1, key, 282, 356, 533);
    } else if a == 1 && idx == 6 {
        reveal_strlit("show_timestamps");
        assert(key == "show_timestamps"@);
        assert(t.subrange(375, 396) =~= key_line("show_timestamps"@));
        lemma_listed_at(1, key, 282, 375, 533);
    } else if a == 1 && idx == 7 {
        reveal_strlit("show_header");
        assert(key == "show_header"@);
        assert(t.subrange(400, 417) =~= key_line("show_header"@));
        lemma_listed_at(1, key, 282, 400, 533);
    } else if a == 1 && idx == 8 {
        reveal_strlit("format");
        assert(key == "format"@);
        assert(t.subrange(421, 433) =~= key_line("format"@));
        lemma_listed_at(1, key, 282, 421, 533);
    } else if a == 1 && idx == 9 {
        reveal_strlit("quality");
        assert(key == "quality"@);
        assert(t.subrange(458, 471) =~= key_line("quality"@));
        lemma_listed_at(1, key, 282, 458, 533);
    } else if a == 1 && idx == 10 {
        reveal_strlit("theme");
        assert(key == "theme"@);
        assert(t.subrange(473, 484) =~= key_line("theme"@));
        lemma_listed_at(1, key, 282, 473, 533);
    } else if a == 1 && idx == 11 {
        reveal_strlit("suffix");
        assert(key == "suffix"@);
        assert(t.subrange(512, 524) =~= key_line("suffix"@));
        lemma_listed_at(1, key, 282, 512, 533);
    } else if a == 2 && idx == 0 {
        reveal_strlit("count");
        assert(key == "count"@);
        assert(t.subrange(540, 551) =~= key_line("count"@));
        lemma_listed_at(2, key, 533, 540, 681);
    } else if a == 2 && idx == 1 {
        reveal_strlit("clip_length_secs");
        assert(key == "clip_length_secs"@);
        assert(t.subrange(553, 575) =~= key_line("clip_length_secs"@));
        lemma_listed_at(2, key, 533, 553, 681);
    } else if a == 2 && idx == 2 {
        reveal_strlit("height");
        assert(key == "height"@);
        assert(t.subrange(576, 588) =~= key_line("height"@));
        lemma_listed_at(2, key, 533, 576, 681);
    } else if a == 2 && idx == 3 {
        reveal_strlit("fps");
        assert(key == "fps"@);
        assert(t.subrange(591, 600) =~= key_line("fps"@));
        lemma_listed_at(2, key, 533, 591, 681);
    } else if a == 2 && idx == 4 {
        reveal_strlit("quality");
        assert(key == "quality"@);
        assert(t.subrange(602, 615) =~= key_line("quality"@));
        lemma_listed_at(2, key, 533, 602, 681);
    } else if a == 2 && idx == 5 {
        reveal_strlit("format");
        assert(key == "format"@);
        assert(t.subrange(617, 629) =~= key_line("format"@));
        lemma_listed_at(2, key, 533, 617, 681);
    } else if a == 2 && idx == 6 {
        reveal_strlit("suffix");
        assert(key == "suffix"@);
        assert(t.subrange(661, 673) =~= key_line("suffix"@));
        lemma_listed_at(2, key, 533, 661, 681);
    } else if a == 3 && idx == 0 {
        reveal_strlit("cols");
        assert(key == "cols"@);
        assert(t.subrange(698, 708) =~= key_line("cols"@));
        lemma_listed_at(3, key, 681, 698, 0);
    } else if a == 3 && idx == 1 {
        reveal_strlit("rows");
        assert(key == "rows"@);
        assert(t.subrange(709, 719) =~= key_line("rows"@));
        lemma_listed_at(3, key, 681, 709, 0);
    } else if a == 3 && idx == 2 {
        reveal_strlit("width");
        assert(key == "width"@);
        assert(t.subrange(720, 731) =~= key_line("width"@));
        lemma_listed_at(3, key, 681, 720, 0);
    } else if a == 3 && idx == 3 {
        reveal_strlit("gap");
        assert(key == "gap"@);
        assert(t.subrange(735, 744) =~= key_line("gap"@));
        lemma_listed_at(3, key, 681, 735, 0);
    } else if a == 3 && idx == 4 {
        reveal_strlit("clip_length_secs");
        assert(key == "clip_length_secs"@);
        assert(t.subrange(745, 767) =~= key_line("clip_length_secs"@));
        lemma_listed_at(3, key, 681, 745, 0);
    } else if a == 3 && idx == 5 {
        reveal_strlit("fps");
        assert(key == "fps"@);
        assert(t.subrange(768, 777) =~= key_line("fps"@));
        lemma_listed_at(3, key, 681, 768, 0);
    } else if a == 3 && idx == 6 {
        reveal_strlit("quality");
        assert(key == "quality"@);
        assert(t.subrange(779, 792) =~= key_line("quality"@));
        lemma_listed_at(3, key, 681, 779, 0);
    } else if a == 3 && idx == 7 {
        reveal_strlit("thumb_font");
        assert(key == "thumb_font"@);
        assert(t.subrange(794, 810) =~= key_line("thumb_font"@));
        lemma_listed_at(3, key, 681, 794, 0);
    } else if a == 3 && idx == 8 {
        reveal_strlit("header_font");
        assert(key == "header_font"@);
        assert(t.subrange(812, 829) =~= key_line("header_font"@));
        lemma_listed_at(3, key, 681, 812, 0);
    } else if a == 3 && idx == 9 {
        reveal_strlit("show_timestamps");
        assert(key == "show_timestamps"@);
        assert(t.subrange(831, 852) =~= key_line("show_timestamps"@));
        lemma_listed_at(3, key, 681, 831, 0);
    } else if a == 3 && idx == 10 {
        reveal_strlit("show_header");
        assert(key == "show_header"@);
        assert(t.subrange(856, 873) =~= key_line("show_header"@));
        lemma_listed_at(3, key, 681, 856, 0);
    } else if a == 3 && idx == 11 {
        reveal_strlit("theme");
        assert(key == "theme"@);
        assert(t.subrange(877, 888) =~= key_line("theme"@));
        lemma_listed_at(3, key, 681, 877, 0);
    } else if a == 3 && idx == 12 {
        reveal_strlit("suffix");
        assert(key == "suffix"@);
        assert(t.subrange(894, 906) =~= key_line("suffix"@));
        lemma_listed_at(3, key, 681, 894, 0);
    }
}

/// Whether an optional setting is absent or lies in `lo..=hi`.
pub open spec fn within(v: Option<u32>, lo: int, hi: int) -> bool {
    match v {
        Some(x) => lo <= x <= hi,
        None => true,
    }
}

/// Validation accepts exactly the values the command-line flags accept: a configuration
/// passes when every numeric setting it holds lies in its flag's range (counts, grid
/// sizes, widths 320..=8192, reel heights 120..=4320, fonts 8..=72, qualities, frame
/// rates and clip lengths), and fails otherwise.
pub proof fn lemma_validate_accepts_flag_ranges(c: Config)
    ensures
        first_failure(config_checks(c)) is Ok <==> ({
            &&& within(c.screenshots.count, 1, 1000)
            &&& within(c.screenshots.quality, 50, 100)
            &&& within(c.sheet.cols, 1, 32)
            &&& within(c.sheet.rows, 1, 32)
            &&& within(c.sheet.width, 320, 8192)
            &&& within(c.sheet.gap, 0, 200)
            &&& within(c.sheet.thumb_font, 8, 72)
            &&& within(c.sheet.header_font, 8, 72)
            &&& within(c.sheet.quality, 50, 100)
            &&& within(c.reel.count, 1, 100)
            &&& within(c.reel.clip_length_secs, 1, 60)
            &&& within(c.reel.height, 120, 4320)
            &&& within(c.reel.fps, 1, 120)
            &&& within(c.reel.quality, 0, 100)
            &&& within(c.animated_sheet.cols, 1, 32)
            &&& within(c.animated_sheet.rows, 1, 32)
            &&& within(c.animated_sheet.width, 320, 8192)
            &&& within(c.animated_sheet.gap, 0, 200)
            &&& within(c.animated_sheet.clip_length_secs, 1, 60)
            &&& within(c.animated_sheet.fps, 1, 120)
            &&& within(c.animated_sheet.quality, 0, 100)
            &&& within(c.animated_sheet.thumb_font, 8, 72)
            &&& within(c.animated_sheet.header_font, 8, 72)
        }),
{
    lemma_first_failure_ok(config_checks(c));
    assert(config_checks(c).len() == 23);
    assert(config_checks(c)[0].value == c.screenshots.count && config_checks(c)[0].min == 1 && config_checks(c)[0].max == 1000);
    assert(config_checks(c)[1].value == c.screenshots.quality && config_checks(c)[1].min == 50 && config_checks(c)[1].max == 100);
    assert(config_checks(c)[2].value == c.sheet.cols && config_checks(c)[2].min == 1 && config_checks(c)[2].max == 32);
    assert(config_checks(c)[3].value == c.sheet.rows && config_checks(c)[3].min == 1 && config_checks(c)[3].max == 32);
    assert(config_checks(c)[4].value == c.sheet.width && config_checks(c)[4].min == 320 && config_checks(c)[4].max == 8192);
    assert(config_checks(c)[5].value == c.sheet.gap && config_checks(c)[5].min == 0 && config_checks(c)[5].max == 200);
    assert(config_checks(c)[6].value == c.sheet.thumb_font && config_checks(c)[6].min == 8 && config_checks(c)[6].max == 72);
    assert(config_checks(c)[7].value == c.sheet.header_font && config_checks(c)[7].min == 8 && config_checks(c)[7].max == 72);
    assert(config_checks(c)[8].value == c.sheet.quality && config_checks(c)[8].min == 50 && config_checks(c)[8].max == 100);
    assert(config_checks(c)[9].value == c.reel.count && config_checks(c)[9].min == 1 && config_checks(c)[9].max == 100);
    assert(config_checks(c)[10].value == c.reel.clip_length_secs && config_checks(c)[10].min == 1 && config_checks(c)[10].max == 60);
    assert(config_checks(c)[11].value == c.reel.height && config_checks(c)[11].min == 120 && config_checks(c)[11].max == 4320);
    assert(config_checks(c)[12].value == c.reel.fps && config_checks(c)[12].min == 1 && config_checks(c)[12].max == 120);
    assert(config_checks(c)[13].value == c.reel.quality && config_checks(c)[13].min == 0 && config_checks(c)[13].max == 100);
    assert(config_checks(c)[14].value == c.animated_sheet.cols && config_checks(c)[14].min == 1 && config_checks(c)[14].max == 32);
    assert(config_checks(c)[15].value == c.animated_sheet.rows && config_checks(c)[15].min == 1 && config_checks(c)[15].max == 32);
    assert(config_checks(c)[16].value == c.animated_sheet.width && config_checks(c)[16].min == 320 && config_checks(c)[16].max == 8192);
    assert(config_checks(c)[17].value == c.animated_sheet.gap && config_checks(c)[17].min == 0 && config_checks(c)[17].max == 200);
    assert(config_checks(c)[18].value == c.animated_sheet.clip_length_secs && config_checks(c)[18].min == 1 && config_checks(c)[18].max == 60);
    assert(config_checks(c)[19].value == c.animated_sheet.fps && config_checks(c)[19].min == 1 && config_checks(c)[19].max == 120);
    assert(config_checks(c)[20].value == c.animated_sheet.quality && config_checks(c)[20].min == 0 && config_checks(c)[20].max == 100);
    assert(config_checks(c)[21].value == c.animated_sheet.thumb_font && config_checks(c)[21].min == 8 && config_checks(c)[21].max == 72);
    assert(config_checks(c)[22].value == c.animated_sheet.header_font && config_checks(c)[22].min == 8 && config_checks(c)[22].max == 72);
}

} // verus!
