//! TUF settings and how they are read from the `RUSTUP_TUF_*` variables.

use vstd::prelude::*;
use crate::time::{date_time_setting, parse_date_time, UtcInstant};
use crate::text::{concat2, ascii_fold, eq_ignore_ascii_case, str_eq_ignore_ascii_case, str_equal};

verus! {

/// How TUF validation behaves.
#[derive(Clone, Copy, Debug, PartialEq, Eq, Structural)]
pub enum TufMode {
    /// Do not touch the TUF repository at all.
    Off,
    /// Synchronize the TUF repository and validate signatures, failing on error.
    On,
    /// Synchronize the TUF repository over the network but skip signature
    /// validation, only reporting what would have failed.
    Warn,
}

/// The name of a mode, as `RUSTUP_TUF_ENABLE` spells it.
pub open spec fn mode_name(m: TufMode) -> Seq<char> {
    match m {
        TufMode::Off => "off"@,
        TufMode::On => "on"@,
        TufMode::Warn => "warn"@,
    }
}

impl TufMode {
    pub fn as_str(&self) -> (s: &'static str)
        ensures
            s@ == mode_name(*self),
    {
        match self {
            TufMode::Off => "off",
            TufMode::On => "on",
            TufMode::Warn => "warn",
        }
    }
}

} // verus!

verus! {

impl Default for TufMode {
    fn default() -> (m: Self)
        ensures
            m == TufMode::Off,
    {
        TufMode::Off
    }
}

/// The mode that a value of `RUSTUP_TUF_ENABLE` selects: `on`, `true` or `1`
/// in any ASCII case turn validation on, `warn` in any case selects warning
/// mode, and anything else, or no value, leaves it off.
pub open spec fn mode_setting(value: Option<Seq<char>>) -> TufMode {
    match value {
        Some(s) => if eq_ignore_ascii_case(s, "on"@) || eq_ignore_ascii_case(s, "true"@)
            || eq_ignore_ascii_case(s, "1"@) {
            TufMode::On
        } else if eq_ignore_ascii_case(s, "warn"@) {
            TufMode::Warn
        } else {
            TufMode::Off
        },
        None => TufMode::Off,
    }
}

/// Reads the mode from a value of `RUSTUP_TUF_ENABLE`.
pub fn parse_mode(value: Option<&str>) -> (m: TufMode)
    ensures
        m == mode_setting(match value {
            Some(s) => Some(s@),
            None => None,
        }),
{
    match value {
        Some(s) => {
            if str_eq_ignore_ascii_case(s, "on") || str_eq_ignore_ascii_case(s, "true")
                || str_eq_ignore_ascii_case(s, "1") {
                TufMode::On
            } else if str_eq_ignore_ascii_case(s, "warn") {
                TufMode::Warn
            } else {
                TufMode::Off
            }
        },
        None => TufMode::Off,
    }
}

/// Reading back the name of a mode gives that mode.
pub proof fn lemma_mode_name_round_trip(m: TufMode)
    ensures
        mode_setting(Some(mode_name(m))) == m,
{
    reveal_strlit("off");
    reveal_strlit("on");
    reveal_strlit("true");
    reveal_strlit("1");
    reveal_strlit("warn");
    match m {
        TufMode::Off => {
            assert(!eq_ignore_ascii_case("off"@, "warn"@));
        },
        TufMode::On => {},
        TufMode::Warn => {
            assert(ascii_fold("warn"@[0]) != ascii_fold("true"@[0]));
            assert(!eq_ignore_ascii_case("warn"@, "true"@));
        },
    }
}

} // verus!

verus! {

/// The values of the `RUSTUP_TUF_*` variables, each `None` where it is unset.
#[derive(Debug, PartialEq, Eq)]
pub struct TufEnvVars {
    /// `RUSTUP_TUF_DIST_SERVER`
    pub dist_server: Option<String>,
    /// `RUSTUP_TUF_UPDATE_SERVER`
    pub update_server: Option<String>,
    /// `RUSTUP_TUF_ROOT`
    pub root: Option<String>,
    /// `RUSTUP_TUF_HOME`
    pub home: Option<String>,
    /// `RUSTUP_TUF_ENABLE`
    pub enable: Option<String>,
    /// `RUSTUP_TUF_IGNORE`
    pub ignore: Option<String>,
    /// `RUSTUP_TUF_IGNOREDATE`
    pub ignore_date: Option<String>,
}

/// The variable names, in the order of the fields of [`TufEnvVars`].
pub open spec fn variable_names() -> Seq<Seq<char>> {
    seq![
        "RUSTUP_TUF_DIST_SERVER"@,
        "RUSTUP_TUF_UPDATE_SERVER"@,
        "RUSTUP_TUF_ROOT"@,
        "RUSTUP_TUF_HOME"@,
        "RUSTUP_TUF_ENABLE"@,
        "RUSTUP_TUF_IGNORE"@,
        "RUSTUP_TUF_IGNOREDATE"@,
    ]
}

pub open spec fn opt_view(o: Option<String>) -> Option<Seq<char>> {
    match o {
        Some(s) => Some(s@),
        None => None,
    }
}

/// The field of `vars` that holds the variable at position `i` of [`variable_names`].
pub open spec fn field_at(vars: TufEnvVars, i: int) -> Option<Seq<char>> {
    if i == 0 {
        opt_view(vars.dist_server)
    } else if i == 1 {
        opt_view(vars.update_server)
    } else if i == 2 {
        opt_view(vars.root)
    } else if i == 3 {
        opt_view(vars.home)
    } else if i == 4 {
        opt_view(vars.enable)
    } else if i == 5 {
        opt_view(vars.ignore)
    } else {
        opt_view(vars.ignore_date)
    }
}

proof fn lemma_variable_names_distinct()
    ensures
        forall|i: int, j: int|
            0 <= i < 7 && 0 <= j < 7 && i != j ==> variable_names()[i] != variable_names()[j],
{
    reveal_strlit("RUSTUP_TUF_DIST_SERVER");
    reveal_strlit("RUSTUP_TUF_UPDATE_SERVER");
    reveal_strlit("RUSTUP_TUF_ROOT");
    reveal_strlit("RUSTUP_TUF_HOME");
    reveal_strlit("RUSTUP_TUF_ENABLE");
    reveal_strlit("RUSTUP_TUF_IGNORE");
    reveal_strlit("RUSTUP_TUF_IGNOREDATE");
    let n = variable_names();
    assert(n[0].len() == 22 && n[1].len() == 24 && n[2].len() == 15 && n[3].len() == 15);
    assert(n[4].len() == 17 && n[5].len() == 17 && n[6].len() == 21);
    assert(n[2][11] != n[3][11]);
    assert(n[4][11] != n[5][11]);
    assert(n[2] != n[3]);
    assert(n[4] != n[5]);
}

impl TufEnvVars {
    /// No variable set.
    pub fn new() -> (v: Self)
        ensures
            forall|i: int| 0 <= i < 7 ==> field_at(v, i) is None,
    {
        TufEnvVars {
            dist_server: None,
            update_server: None,
            root: None,
            home: None,
            enable: None,
            ignore: None,
            ignore_date: None,
        }
    }

    /// The names of the variables that TUF reads.
    pub fn variable_names() -> (names: Vec<&'static str>)
        ensures
            names@.len() == 7,
            forall|i: int| 0 <= i < 7 ==> #[trigger] names@[i]@ == variable_names()[i],
    {
        let mut names: Vec<&'static str> = Vec::new();
        names.push("RUSTUP_TUF_DIST_SERVER");
        names.push("RUSTUP_TUF_UPDATE_SERVER");
        names.push("RUSTUP_TUF_ROOT");
        names.push("RUSTUP_TUF_HOME");
        names.push("RUSTUP_TUF_ENABLE");
        names.push("RUSTUP_TUF_IGNORE");
        names.push("RUSTUP_TUF_IGNOREDATE");
        names
    }

    /// Records `value` for the variable `name`; a name that TUF does not read
    /// changes nothing.
    pub fn set(&mut self, name: &str, value: String)
        ensures
            forall|i: int|
                0 <= i < 7 ==> #[trigger] field_at(*final(self), i) == if name@
                    == variable_names()[i] {
                    Some(value@)
                } else {
                    field_at(*old(self), i)
                },
    {
        proof {
            reveal_strlit("RUSTUP_TUF_DIST_SERVER");
            reveal_strlit("RUSTUP_TUF_UPDATE_SERVER");
            reveal_strlit("RUSTUP_TUF_ROOT");
            reveal_strlit("RUSTUP_TUF_HOME");
            reveal_strlit("RUSTUP_TUF_ENABLE");
            reveal_strlit("RUSTUP_TUF_IGNORE");
            reveal_strlit("RUSTUP_TUF_IGNOREDATE");
            lemma_variable_names_distinct();
        }
        if str_equal(name, "RUSTUP_TUF_DIST_SERVER") {
            self.dist_server = Some(value);
        } else if str_equal(name, "RUSTUP_TUF_UPDATE_SERVER") {
            self.update_server = Some(value);
        } else if str_equal(name, "RUSTUP_TUF_ROOT") {
            self.root = Some(value);
        } else if str_equal(name, "RUSTUP_TUF_HOME") {
            self.home = Some(value);
        } else if str_equal(name, "RUSTUP_TUF_ENABLE") {
            self.enable = Some(value);
        } else if str_equal(name, "RUSTUP_TUF_IGNORE") {
            self.ignore = Some(value);
        } else if str_equal(name, "RUSTUP_TUF_IGNOREDATE") {
            self.ignore_date = Some(value);
        }
    }
}

} // verus!

verus! {

/// `rel` appended to the path `base` with a `/` between them, unless `base`
/// is empty or already ends with one (as `Path::join` does for a relative `rel`).
pub open spec fn path_join(base: Seq<char>, rel: Seq<char>) -> Seq<char> {
    if base.len() == 0 || base.last() == '/' {
        base + rel
    } else {
        base + seq!['/'] + rel
    }
}

/// Appends the relative path `rel` to `base`.
pub fn join_path(base: &str, rel: &str) -> (r: String)
    ensures
        r@ == path_join(base@, rel@),
{
    let n = base.unicode_len();
    if n == 0 || base.get_char(n - 1) == '/' {
        concat2(base, rel)
    } else {
        proof {
            reveal_strlit("/");
        }
        let mut r = concat2(base, "/");
        r.append(rel);
        r
    }
}

/// TUF-related settings, resolved from the `RUSTUP_TUF_*` variables.
#[derive(Clone, Debug, PartialEq, Eq)]
pub struct TufConfig {
    /// URL of the TUF root used to validate signatures of dist files
    /// (`RUSTUP_TUF_DIST_SERVER`).
    pub dist_server: Option<String>,
    /// URL of the TUF root used to validate signatures of rustup itself
    /// (`RUSTUP_TUF_UPDATE_SERVER`).
    pub update_server: Option<String>,
    /// A local `root.json` to use instead of the one shipped with rustup
    /// (`RUSTUP_TUF_ROOT`).
    pub root: Option<String>,
    /// Directory holding the local copy of the TUF repository and key files
    /// (`RUSTUP_TUF_HOME`, default `<RUSTUP_HOME>/tuf`).
    pub home: String,
    /// Whether, and how strictly, TUF validation runs
    /// (`RUSTUP_TUF_ENABLE`, default `off`).
    pub mode: TufMode,
    /// Ignore all validation failures, including metadata expiry
    /// (`RUSTUP_TUF_IGNORE=1`).
    pub ignore_failures: bool,
    /// Ignore metadata expiry failures whose expiry is after this instant
    /// (`RUSTUP_TUF_IGNOREDATE`).
    pub ignore_expiry_after: Option<UtcInstant>,
}

/// Name of the default [`TufConfig::home`] directory under `RUSTUP_HOME`.
pub open spec fn default_home_dir() -> Seq<char> {
    "tuf"@
}

/// The configuration that the variables `vars` give, with `rustup_dir` as
/// `RUSTUP_HOME`.
pub open spec fn config_from(rustup_dir: Seq<char>, vars: TufEnvVars, c: TufConfig) -> bool {
    &&& opt_view(c.dist_server) == opt_view(vars.dist_server)
    &&& opt_view(c.update_server) == opt_view(vars.update_server)
    &&& opt_view(c.root) == opt_view(vars.root)
    &&& c.home@ == match vars.home {
        Some(h) => h@,
        None => path_join(rustup_dir, default_home_dir()),
    }
    &&& c.mode == mode_setting(opt_view(vars.enable))
    &&& c.ignore_failures == (opt_view(vars.ignore) == Some("1"@))
    &&& c.ignore_expiry_after == match vars.ignore_date {
        Some(d) => date_time_setting(d@),
        None => None,
    }
}

impl TufConfig {
    pub fn enabled(&self) -> (r: bool)
        ensures
            r == (self.mode != TufMode::Off),
    {
        match self.mode {
            TufMode::Off => false,
            _ => true,
        }
    }

    /// Resolves every `RUSTUP_TUF_*` variable in `vars`.
    ///
    /// `rustup_dir` is the resolved `RUSTUP_HOME`, used for the default
    /// [`TufConfig::home`]. Unparsable values fall back to their defaults.
    pub fn from_env(rustup_dir: &str, vars: TufEnvVars) -> (c: TufConfig)
        ensures
            config_from(rustup_dir@, vars, c),
    {
        let TufEnvVars { dist_server, update_server, root, home, enable, ignore, ignore_date } =
            vars;
        let home = match home {
            Some(path) => path,
            None => join_path(rustup_dir, "tuf"),
        };
        let mode = match &enable {
            Some(s) => parse_mode(Some(s.as_str())),
            None => parse_mode(None),
        };
        let ignore_failures = match &ignore {
            Some(s) => str_equal(s.as_str(), "1"),
            None => false,
        };
        let ignore_expiry_after = match &ignore_date {
            Some(s) => parse_date_time(s.as_str()),
            None => None,
        };
        TufConfig {
            dist_server,
            update_server,
            root,
            home,
            mode,
            ignore_failures,
            ignore_expiry_after,
        }
    }
}

} // verus!

verus! {

proof fn lemma_eq_ignore_case_replace(a: Seq<char>, b: Seq<char>, c: Seq<char>)
    requires
        eq_ignore_ascii_case(a, b),
    ensures
        eq_ignore_ascii_case(a, c) == eq_ignore_ascii_case(b, c),
{
    if eq_ignore_ascii_case(a, c) {
        assert forall|i: int| 0 <= i < b.len() implies #[trigger] ascii_fold(b[i]) == ascii_fold(c[i]) by {
            assert(ascii_fold(a[i]) == ascii_fold(b[i]));
            assert(ascii_fold(a[i]) == ascii_fold(c[i]));
        }
    }
    if eq_ignore_ascii_case(b, c) {
        assert forall|i: int| 0 <= i < a.len() implies #[trigger] ascii_fold(a[i]) == ascii_fold(c[i]) by {
            assert(ascii_fold(a[i]) == ascii_fold(b[i]));
            assert(ascii_fold(b[i]) == ascii_fold(c[i]));
        }
    }
}

/// `RUSTUP_TUF_ENABLE` is read without regard to the case of ASCII letters:
/// two values that differ only in case select the same mode.
pub proof fn lemma_mode_setting_ignores_case(a: Seq<char>, b: Seq<char>)
    requires
        eq_ignore_ascii_case(a, b),
    ensures
        mode_setting(Some(a)) == mode_setting(Some(b)),
{
    lemma_eq_ignore_case_replace(a, b, "on"@);
    lemma_eq_ignore_case_replace(a, b, "true"@);
    lemma_eq_ignore_case_replace(a, b, "1"@);
    lemma_eq_ignore_case_replace(a, b, "warn"@);
}

/// With no variable set, TUF is off, nothing is ignored, and the home is
/// `tuf` under `RUSTUP_HOME`.
pub proof fn lemma_unset_variables_give_defaults(rustup_dir: Seq<char>, c: TufConfig)
    requires
        config_from(
            rustup_dir,
            TufEnvVars {
                dist_server: None,
                update_server: None,
                root: None,
                home: None,
                enable: None,
                ignore: None,
                ignore_date: None,
            },
            c,
        ),
    ensures
        c.dist_server is None,
        c.update_server is None,
        c.root is None,
        c.home@ == path_join(rustup_dir, "tuf"@),
        c.mode == TufMode::Off,
        !c.ignore_failures,
        c.ignore_expiry_after is None,
{
}

} // verus!

verus! {

/// `RUSTUP_TUF_ENABLE` turns validation on exactly for `on`, `true` and `1`
/// (code point 49) with ASCII letters in either case, selects warning mode exactly for
/// `warn` in either case, and leaves it off for every other value, `0`,
/// `off` and the empty value among them.
pub proof fn lemma_mode_setting_values(s: Seq<char>)
    ensures
        (mode_setting(Some(s)) == TufMode::On) <==> ((s.len() == 2 && ascii_fold(s[0]) == 111
            && ascii_fold(s[1]) == 110) || (s.len() == 4 && ascii_fold(s[0]) == 116 && ascii_fold(
            s[1],
        ) == 114 && ascii_fold(s[2]) == 117 && ascii_fold(s[3]) == 101) || (s.len() == 1 && (s[0]
            as u32) == 49)),
        (mode_setting(Some(s)) == TufMode::Warn) <==> (s.len() == 4 && ascii_fold(s[0]) == 119
            && ascii_fold(s[1]) == 97 && ascii_fold(s[2]) == 114 && ascii_fold(s[3]) == 110),
{
    reveal_strlit("on");
    reveal_strlit("true");
    reveal_strlit("1");
    reveal_strlit("warn");
    let on = "on"@;
    let tr = "true"@;
    let one = "1"@;
    let warn = "warn"@;
    assert(ascii_fold(on[0]) == 111 && ascii_fold(on[1]) == 110);
    assert(ascii_fold(tr[0]) == 116 && ascii_fold(tr[1]) == 114 && ascii_fold(tr[2]) == 117
        && ascii_fold(tr[3]) == 101);
    assert(ascii_fold(one[0]) == 49);
    assert(ascii_fold(warn[0]) == 119 && ascii_fold(warn[1]) == 97 && ascii_fold(warn[2]) == 114
        && ascii_fold(warn[3]) == 110);
    if s.len() == 1 {
        assert(ascii_fold(s[0]) == 49 <==> (s[0] as u32) == 49);
    }
    if s.len() == 2 && ascii_fold(s[0]) == 111 && ascii_fold(s[1]) == 110 {
        assert(eq_ignore_ascii_case(s, on));
    }
    if s.len() == 4 && ascii_fold(s[0]) == 116 && ascii_fold(s[1]) == 114 && ascii_fold(s[2])
        == 117 && ascii_fold(s[3]) == 101 {
        assert(eq_ignore_ascii_case(s, tr));
    }
    if s.len() == 1 && (s[0] as u32) == 49 {
        assert(eq_ignore_ascii_case(s, one));
    }
    if s.len() == 4 && ascii_fold(s[0]) == 119 && ascii_fold(s[1]) == 97 && ascii_fold(s[2])
        == 114 && ascii_fold(s[3]) == 110 {
        assert(eq_ignore_ascii_case(s, warn));
    }
    if eq_ignore_ascii_case(s, on) {
        assert(ascii_fold(s[0]) == ascii_fold(on[0]) && ascii_fold(s[1]) == ascii_fold(on[1]));
    }
    if eq_ignore_ascii_case(s, tr) {
        assert(ascii_fold(s[0]) == ascii_fold(tr[0]) && ascii_fold(s[1]) == ascii_fold(tr[1])
            && ascii_fold(s[2]) == ascii_fold(tr[2]) && ascii_fold(s[3]) == ascii_fold(tr[3]));
    }
    if eq_ignore_ascii_case(s, one) {
        assert(ascii_fold(s[0]) == ascii_fold(one[0]));
    }
    if eq_ignore_ascii_case(s, warn) {
        assert(ascii_fold(s[0]) == ascii_fold(warn[0]) && ascii_fold(s[1]) == ascii_fold(warn[1])
            && ascii_fold(s[2]) == ascii_fold(warn[2]) && ascii_fold(s[3]) == ascii_fold(warn[3]));
    }
}

} // verus!
