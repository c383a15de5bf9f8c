//! Settings of the daemon: command-line options over the config file over
//! the defaults.
//!
//! The config file is plain `key=value` text, one setting per line. Blank
//! lines and lines starting with `#` are skipped, unknown keys and values
//! that do not parse leave a setting as it was, and a later line overrides
//! an earlier one. The refresh interval is always kept between 300 and
//! 3000 ms, since the display falls back to its default screen when it is
//! not refreshed for a few seconds.

use vstd::prelude::*;
use crate::text::{
    lemma_index_of_found, is_white_space, trim_start, trim_end,
    chars_of, find_char, last_newline, lines, opt_chars, opt_string_chars, parse_u64, parse_u64_str,
    split_once, str_eq, trim, trim_range,
};

verus! {

/// What the display shows.
#[derive(Clone, Copy, Debug, PartialEq, Eq, Structural)]
pub enum Mode {
    /// CPU temperature only.
    Temp,
    /// CPU usage only.
    Usage,
    /// Temperature and usage in turn.
    Auto,
}

/// Default refresh interval in milliseconds.
pub const DEFAULT_INTERVAL_MS: u64 = 1000;

/// Shortest refresh interval kept.
pub const MIN_INTERVAL_MS: u64 = 300;

/// Longest refresh interval kept (the display's watchdog fires after a few seconds).
pub const MAX_INTERVAL_MS: u64 = 3000;

/// Default time that auto mode stays on one metric, in seconds.
pub const DEFAULT_AUTO_SWITCH_S: u64 = 5;

/// The daemon's settings.
///
/// The alarm threshold is a temperature in degrees Celsius held as a float,
/// which this library does not hold: `alarm_c_values` keeps every value that
/// the config file gives for `alarm_c`, in file order, and the threshold is
/// the last of them that reads as a number (90 when none does), unless the
/// command line sets it.
pub struct Config {
    pub mode: Mode,
    /// Temperatures in degrees Fahrenheit.
    pub fahrenheit: bool,
    /// Refresh period in milliseconds.
    pub interval_ms: u64,
    /// The `alarm_c` values of the config file, in order.
    pub alarm_c_values: Vec<String>,
    /// Seconds that auto mode stays on one metric.
    pub auto_switch_s: u64,
    /// Whether the temperature is shown at all.
    pub show_temp: bool,
    /// Whether the usage is shown at all.
    pub show_usage: bool,
}

/// The settings as plain values.
pub struct Settings {
    pub mode: Mode,
    pub fahrenheit: bool,
    pub interval_ms: u64,
    pub alarm_c_values: Seq<Seq<char>>,
    pub auto_switch_s: u64,
    pub show_temp: bool,
    pub show_usage: bool,
}

impl View for Config {
    type V = Settings;

    open spec fn view(&self) -> Settings {
        Settings {
            mode: self.mode,
            fahrenheit: self.fahrenheit,
            interval_ms: self.interval_ms,
            alarm_c_values: self.alarm_c_values@.map_values(|s: String| s@),
            auto_switch_s: self.auto_switch_s,
            show_temp: self.show_temp,
            show_usage: self.show_usage,
        }
    }
}

/// Options given on the command line; `None` leaves a setting to the file.
///
/// The alarm threshold option is a float and stays with the caller.
#[derive(Clone, Copy, Debug)]
pub struct CliOverrides {
    pub mode: Option<Mode>,
    pub fahrenheit: Option<bool>,
    pub interval_ms: Option<u64>,
    pub auto_switch_s: Option<u64>,
    pub show_temp: Option<bool>,
    pub show_usage: Option<bool>,
}

impl Default for CliOverrides {
    fn default() -> (r: Self)
        ensures
            r.mode is None,
            r.fahrenheit is None,
            r.interval_ms is None,
            r.auto_switch_s is None,
            r.show_temp is None,
            r.show_usage is None,
    {
        CliOverrides {
            mode: None,
            fahrenheit: None,
            interval_ms: None,
            auto_switch_s: None,
            show_temp: None,
            show_usage: None,
        }
    }
}

/// The defaults: auto mode in Celsius, a 1 s period, 5 s per metric in
/// auto mode, both metrics shown.
pub open spec fn default_settings() -> Settings {
    Settings {
        mode: Mode::Auto,
        fahrenheit: false,
        interval_ms: 1000,
        alarm_c_values: Seq::empty(),
        auto_switch_s: 5,
        show_temp: true,
        show_usage: true,
    }
}

impl Default for Config {
    fn default() -> (r: Self)
        ensures
            r@ == default_settings(),
    {
        let r = Config {
            mode: Mode::Auto,
            fahrenheit: false,
            interval_ms: DEFAULT_INTERVAL_MS,
            alarm_c_values: Vec::new(),
            auto_switch_s: DEFAULT_AUTO_SWITCH_S,
            show_temp: true,
            show_usage: true,
        };
        assert(r@.alarm_c_values =~= Seq::<Seq<char>>::empty());
        r
    }
}

/// The mode that a config or command value names.
pub open spec fn mode_named(v: Seq<char>) -> Option<Mode> {
    if v == "temp"@ || v == "temperature"@ {
        Some(Mode::Temp)
    } else if v == "usage"@ {
        Some(Mode::Usage)
    } else if v == "auto"@ {
        Some(Mode::Auto)
    } else {
        None
    }
}

/// A show switch in the config file is on for `true`, `1` and `on`, off otherwise.
pub open spec fn switch_on(v: Seq<char>) -> bool {
    v == "true"@ || v == "1"@ || v == "on"@
}

/// The settings after one `key=value` line, key and value already trimmed.
pub open spec fn setting_applied(c: Settings, k: Seq<char>, v: Seq<char>) -> Settings {
    if k == "mode"@ {
        match mode_named(v) {
            Some(m) => Settings { mode: m, ..c },
            None => c,
        }
    } else if k == "unit"@ {
        Settings { fahrenheit: v == "f"@ || v == "F"@ || v == "fahrenheit"@, ..c }
    } else if k == "fahrenheit"@ {
        Settings { fahrenheit: v == "true"@, ..c }
    } else if k == "interval_ms"@ {
        match parse_u64(v) {
            Some(n) => Settings { interval_ms: n, ..c },
            None => c,
        }
    } else if k == "alarm_c"@ {
        Settings { alarm_c_values: c.alarm_c_values.push(v), ..c }
    } else if k == "auto_switch_s"@ {
        match parse_u64(v) {
            Some(n) => Settings { auto_switch_s: n, ..c },
            None => c,
        }
    } else if k == "show_temp"@ {
        Settings { show_temp: switch_on(v), ..c }
    } else if k == "show_usage"@ {
        Settings { show_usage: switch_on(v), ..c }
    } else {
        c
    }
}

/// The settings after one line of the config file.
pub open spec fn line_applied(c: Settings, line: Seq<char>) -> Settings {
    let t = trim(line);
    if t.len() == 0 || t[0] == '#' {
        c
    } else {
        match split_once(t, '=') {
            Some((k, v)) => setting_applied(c, trim(k), trim(v)),
            None => c,
        }
    }
}

/// The settings after the given lines, in order.
pub open spec fn lines_applied(c: Settings, ls: Seq<Seq<char>>) -> Settings
    decreases ls.len(),
{
    if ls.len() == 0 {
        c
    } else {
        line_applied(lines_applied(c, ls.drop_last()), ls.last())
    }
}

/// The settings that a config file gives, on top of the defaults.
pub open spec fn file_settings(text: Seq<char>) -> Settings {
    lines_applied(default_settings(), lines(text))
}

/// The interval kept for a requested one.
pub open spec fn kept_interval(ms: u64) -> u64 {
    if ms > 3000 {
        3000
    } else if ms < 300 {
        300
    } else {
        ms
    }
}

/// The settings with the command-line options on top.
pub open spec fn with_overrides(c: Settings, o: CliOverrides) -> Settings {
    Settings {
        mode: match o.mode { Some(m) => m, None => c.mode },
        fahrenheit: match o.fahrenheit { Some(f) => f, None => c.fahrenheit },
        interval_ms: match o.interval_ms { Some(i) => i, None => c.interval_ms },
        alarm_c_values: c.alarm_c_values,
        auto_switch_s: match o.auto_switch_s { Some(s) => s, None => c.auto_switch_s },
        show_temp: match o.show_temp { Some(t) => t, None => c.show_temp },
        show_usage: match o.show_usage { Some(u) => u, None => c.show_usage },
    }
}

/// The settings that the daemon runs with.
pub open spec fn loaded_settings(file_text: Option<Seq<char>>, o: CliOverrides) -> Settings {
    let base = match file_text {
        Some(t) => file_settings(t),
        None => default_settings(),
    };
    let c = with_overrides(base, o);
    Settings { interval_ms: kept_interval(c.interval_ms), ..c }
}

/// Applies one trimmed `key=value` pair to the settings.
fn apply_kv(cfg: &mut Config, k: &str, v: &str)
    ensures
        final(cfg)@ == setting_applied(old(cfg)@, k@, v@),
{
    if str_eq(k, "mode") {
        if str_eq(v, "temp") || str_eq(v, "temperature") {
            cfg.mode = Mode::Temp;
        } else if str_eq(v, "usage") {
            cfg.mode = Mode::Usage;
        } else if str_eq(v, "auto") {
            cfg.mode = Mode::Auto;
        }
    } else if str_eq(k, "unit") {
        cfg.fahrenheit = str_eq(v, "f") || str_eq(v, "F") || str_eq(v, "fahrenheit");
    } else if str_eq(k, "fahrenheit") {
        cfg.fahrenheit = str_eq(v, "true");
    } else if str_eq(k, "interval_ms") {
        if let Some(n) = parse_u64_str(v) {
            cfg.interval_ms = n;
        }
    } else if str_eq(k, "alarm_c") {
        let ghost before = cfg.alarm_c_values@;
        cfg.alarm_c_values.push(v.to_owned());
        assert(cfg.alarm_c_values@.map_values(|s: String| s@) =~= before.map_values(
            |s: String| s@,
        ).push(v@));
    } else if str_eq(k, "auto_switch_s") {
        if let Some(n) = parse_u64_str(v) {
            cfg.auto_switch_s = n;
        }
    } else if str_eq(k, "show_temp") {
        cfg.show_temp = str_eq(v, "true") || str_eq(v, "1") || str_eq(v, "on");
    } else if str_eq(k, "show_usage") {
        cfg.show_usage = str_eq(v, "true") || str_eq(v, "1") || str_eq(v, "on");
    }
}

/// Applies the line `text[lo..hi]` (counted in characters) to the settings.
fn apply_line(cfg: &mut Config, text: &str, cs: &Vec<char>, lo: usize, hi: usize)
    requires
        cs@ == text@,
        lo <= hi <= cs.len(),
    ensures
        final(cfg)@ == line_applied(old(cfg)@, cs@.subrange(lo as int, hi as int)),
{
    let (a, b) = trim_range(cs, lo, hi);
    let ghost t = cs@.subrange(a as int, b as int);
    if a == b || cs[a] == '#' {
        return;
    }
    match find_char(cs, a, b, '=') {
        Some(e) => {
            assert(t.subrange(0, e - a) =~= cs@.subrange(a as int, e as int));
            assert(t.subrange(e - a + 1, t.len() as int) =~= cs@.subrange(e + 1, b as int));
            let (ka, kb) = trim_range(cs, a, e);
            let (va, vb) = trim_range(cs, e + 1, b);
            let k = text.substring_char(ka, kb);
            let v = text.substring_char(va, vb);
            apply_kv(cfg, k, v);
        },
        None => {},
    }
}

proof fn lemma_last_newline_at(s: Seq<char>, j: int)
    requires
        0 <= j < s.len(),
        s[j] == '\n',
        forall|k: int| j < k < s.len() ==> s[k] != '\n',
    ensures
        last_newline(s) == Some(j),
    decreases s.len(),
{
    if j < s.len() - 1 {
        lemma_last_newline_at(s.drop_last(), j);
    }
}

proof fn lemma_no_newline(s: Seq<char>)
    requires
        forall|k: int| 0 <= k < s.len() ==> s[k] != '\n',
    ensures
        last_newline(s) is None,
    decreases s.len(),
{
    if s.len() > 0 {
        lemma_no_newline(s.drop_last());
    }
}

/// The settings after the lines that end before `start`.
spec fn settings_before(s: Seq<char>, start: int) -> Settings {
    if start == 0 {
        default_settings()
    } else {
        file_settings(s.subrange(0, start - 1))
    }
}

proof fn lemma_next_line(s: Seq<char>, start: int, i: int)
    requires
        0 <= start <= i <= s.len(),
        start > 0 ==> s[start - 1] == '\n',
        forall|k: int| start <= k < i ==> s[k] != '\n',
    ensures
        file_settings(s.subrange(0, i)) == line_applied(
            settings_before(s, start),
            s.subrange(start, i),
        ),
{
    let p = s.subrange(0, i);
    if start > 0 {
        lemma_last_newline_at(p, start - 1);
        assert(p.subrange(0, start - 1) =~= s.subrange(0, start - 1));
        assert(p.subrange(start, i) =~= s.subrange(start, i));
        let ls = lines(p);
        assert(ls == lines(s.subrange(0, start - 1)).push(s.subrange(start, i)));
        assert(ls.drop_last() =~= lines(s.subrange(0, start - 1)));
        assert(lines_applied(default_settings(), ls) == line_applied(
            lines_applied(default_settings(), ls.drop_last()),
            ls.last(),
        ));
    } else {
        lemma_no_newline(p);
        assert(lines(p) == seq![p]);
        assert(p =~= s.subrange(start, i));
        assert(lines(p).drop_last() =~= Seq::<Seq<char>>::empty());
        assert(lines_applied(default_settings(), lines(p)) == line_applied(
            lines_applied(default_settings(), lines(p).drop_last()),
            lines(p).last(),
        ));
        assert(lines(p).drop_last() =~= Seq::<Seq<char>>::empty());
    }
}

/// Reads the settings from the config text (when there is one), then applies
/// the command-line options and keeps the interval between 300 and 3000 ms.
pub fn load_from(file_text: Option<&str>, cli_overrides: CliOverrides) -> (cfg: Config)
    ensures
        cfg@ == loaded_settings(opt_chars(file_text), cli_overrides),
{
    let mut cfg = Config::default();
    if let Some(text) = file_text {
        let cs = chars_of(text);
        let n = cs.len();
        let mut start: usize = 0;
        let mut i: usize = 0;
        while i < n
            invariant
                cs@ == text@,
                n == cs.len(),
                start <= i <= n,
                start > 0 ==> cs@[start - 1] == '\n',
                forall|k: int| start <= k < i ==> cs@[k] != '\n',
                cfg@ == settings_before(cs@, start as int),
            decreases n - i,
        {
            if cs[i] == '\n' {
                proof {
                    lemma_next_line(cs@, start as int, i as int);
                }
                apply_line(&mut cfg, text, &cs, start, i);
                start = i + 1;
            }
            i = i + 1;
        }
        proof {
            lemma_next_line(cs@, start as int, n as int);
            assert(cs@.subrange(0, n as int) =~= cs@);
        }
        apply_line(&mut cfg, text, &cs, start, n);
    }
    if let Some(m) = cli_overrides.mode {
        cfg.mode = m;
    }
    if let Some(f) = cli_overrides.fahrenheit {
        cfg.fahrenheit = f;
    }
    if let Some(i) = cli_overrides.interval_ms {
        cfg.interval_ms = i;
    }
    if let Some(s) = cli_overrides.auto_switch_s {
        cfg.auto_switch_s = s;
    }
    if let Some(t) = cli_overrides.show_temp {
        cfg.show_temp = t;
    }
    if let Some(u) = cli_overrides.show_usage {
        cfg.show_usage = u;
    }
    if cfg.interval_ms > MAX_INTERVAL_MS {
        cfg.interval_ms = MAX_INTERVAL_MS;
    }
    if cfg.interval_ms < MIN_INTERVAL_MS {
        cfg.interval_ms = MIN_INTERVAL_MS;
    }
    cfg
}


/// `base` joined with a relative path component, as `Path::join` does on Unix:
/// a `/` goes between them unless `base` is empty or already ends in one.
pub open spec fn joined(base: Seq<char>, comp: Seq<char>) -> Seq<char> {
    if base.len() == 0 || base.last() == '/' {
        base + comp
    } else {
        base + seq!['/'] + comp
    }
}

/// The directory of the config file: `$XDG_CONFIG_HOME/ak500s-mac` when that
/// variable is set and not empty, else `$HOME/.config/ak500s-mac`, else none.
pub open spec fn config_dir_of(xdg_config_home: Option<Seq<char>>, home: Option<Seq<char>>) -> Option<
    Seq<char>,
> {
    let from_home = match home {
        Some(h) => Some(joined(joined(h, ".config"@), "ak500s-mac"@)),
        None => None,
    };
    match xdg_config_home {
        Some(x) => if x.len() > 0 {
            Some(joined(x, "ak500s-mac"@))
        } else {
            from_home
        },
        None => from_home,
    }
}

/// The config file's path for the given values of the two environment
/// variables (`None` where a variable is unset).
pub open spec fn config_path_of(xdg_config_home: Option<Seq<char>>, home: Option<Seq<char>>) -> Option<
    Seq<char>,
> {
    match config_dir_of(xdg_config_home, home) {
        Some(d) => Some(joined(d, "config"@)),
        None => None,
    }
}

/// Appends a relative path component to `base`.
fn join_path(base: String, comp: &str) -> (r: String)
    ensures
        r@ == joined(base@, comp@),
{
    let n = base.as_str().unicode_len();
    let mut r = base;
    if n > 0 && r.as_str().get_char(n - 1) != '/' {
        r.append("/");
        proof {
            reveal_strlit("/");
        }
    }
    r.append(comp);
    r
}

/// The config directory for the given environment values.
fn config_dir(xdg_config_home: Option<&str>, home: Option<&str>) -> (r: Option<String>)
    ensures
        opt_string_chars(r) == config_dir_of(opt_chars(xdg_config_home), opt_chars(home)),
{
    if let Some(x) = xdg_config_home {
        if x.unicode_len() > 0 {
            return Some(join_path(String::from_str(x), "ak500s-mac"));
        }
    }
    match home {
        Some(h) => Some(join_path(join_path(String::from_str(h), ".config"), "ak500s-mac")),
        None => None,
    }
}

/// Path of the config file, given the values of `XDG_CONFIG_HOME` and `HOME`.
pub fn config_path(xdg_config_home: Option<&str>, home: Option<&str>) -> (r: Option<String>)
    ensures
        opt_string_chars(r) == config_path_of(opt_chars(xdg_config_home), opt_chars(home)),
{
    match config_dir(xdg_config_home, home) {
        Some(d) => Some(join_path(d, "config")),
        None => None,
    }
}


/// Command-line options win over the config file and the defaults: each
/// option that is given is the setting (the interval within its bounds), and
/// each one that is not leaves the file's setting, or the default when there
/// is no file.
pub proof fn lemma_command_line_wins(file_text: Option<Seq<char>>, o: CliOverrides)
    ensures
        ({
            let r = loaded_settings(file_text, o);
            let base = match file_text {
                Some(t) => file_settings(t),
                None => default_settings(),
            };
            &&& r.mode == (match o.mode { Some(m) => m, None => base.mode })
            &&& r.fahrenheit == (match o.fahrenheit { Some(f) => f, None => base.fahrenheit })
            &&& r.interval_ms == kept_interval(
                match o.interval_ms { Some(i) => i, None => base.interval_ms },
            )
            &&& r.auto_switch_s == (match o.auto_switch_s {
                Some(a) => a,
                None => base.auto_switch_s,
            })
            &&& r.show_temp == (match o.show_temp { Some(t) => t, None => base.show_temp })
            &&& r.show_usage == (match o.show_usage { Some(u) => u, None => base.show_usage })
            &&& r.alarm_c_values == base.alarm_c_values
        }),
{
}

/// Whatever the file and the options say, the refresh interval is kept
/// between 300 and 3000 ms, and an interval already in that range is kept as
/// it is.
pub proof fn lemma_interval_in_bounds(file_text: Option<Seq<char>>, o: CliOverrides)
    ensures
        300 <= loaded_settings(file_text, o).interval_ms <= 3000,
        forall|ms: u64| 300 <= ms <= 3000 ==> #[trigger] kept_interval(ms) == ms,
{
}

/// Blank lines, comments, lines without `=` and lines with an unknown key
/// leave the settings as they are.
pub proof fn lemma_ignored_lines(c: Settings, line: Seq<char>)
    requires
        ({
            let t = trim(line);
            ||| t.len() == 0
            ||| t[0] == '#'
            ||| split_once(t, '=') is None
            ||| (split_once(t, '=') matches Some((k, v)) && {
                let key = trim(k);
                &&& key != "mode"@
                &&& key != "unit"@
                &&& key != "fahrenheit"@
                &&& key != "interval_ms"@
                &&& key != "alarm_c"@
                &&& key != "auto_switch_s"@
                &&& key != "show_temp"@
                &&& key != "show_usage"@
            })
        }),
    ensures
        line_applied(c, line) == c,
{
}

proof fn lemma_last_newline_concat(a: Seq<char>, b: Seq<char>)
    ensures
        last_newline(a + seq!['\n'] + b) == (match last_newline(b) {
            Some(j) => Some(a.len() + 1 + j),
            None => Some(a.len() as int),
        }),
        last_newline(b) matches Some(j) ==> 0 <= j < b.len() && b[j] == '\n',
    decreases b.len(),
{
    let s = a + seq!['\n'] + b;
    if b.len() == 0 {
        assert(s.last() == '\n');
    } else {
        assert(s.drop_last() =~= a + seq!['\n'] + b.drop_last());
        lemma_last_newline_concat(a, b.drop_last());
    }
}

proof fn lemma_lines_concat(a: Seq<char>, b: Seq<char>)
    ensures
        lines(a + seq!['\n'] + b) == lines(a) + lines(b),
    decreases b.len(),
{
    let s = a + seq!['\n'] + b;
    lemma_last_newline_concat(a, b);
    match last_newline(b) {
        Some(j) => {
            assert(s.subrange(0, a.len() + 1 + j) =~= a + seq!['\n'] + b.subrange(0, j));
            assert(s.subrange(a.len() + 1 + j + 1, s.len() as int) =~= b.subrange(
                j + 1,
                b.len() as int,
            ));
            lemma_lines_concat(a, b.subrange(0, j));
            assert(lines(b) == lines(b.subrange(0, j)).push(b.subrange(j + 1, b.len() as int)));
            assert(lines(s) =~= lines(a) + lines(b));
        },
        None => {
            assert(s.subrange(0, a.len() as int) =~= a);
            assert(s.subrange(a.len() + 1int, s.len() as int) =~= b);
            assert(lines(b) == seq![b]);
            assert(lines(s) =~= lines(a) + lines(b));
        },
    }
}

proof fn lemma_lines_applied_concat(c: Settings, x: Seq<Seq<char>>, y: Seq<Seq<char>>)
    ensures
        lines_applied(c, x + y) == lines_applied(lines_applied(c, x), y),
    decreases y.len(),
{
    if y.len() == 0 {
        assert(x + y =~= x);
    } else {
        assert((x + y).drop_last() =~= x + y.drop_last());
        lemma_lines_applied_concat(c, x, y.drop_last());
    }
}

/// The lines of a config file take effect in order: the settings of two
/// pieces of text joined by a newline are those of the first piece with
/// the lines of the second applied on top, so a later line overrides an
/// earlier one.
pub proof fn lemma_later_lines_override(a: Seq<char>, b: Seq<char>)
    ensures
        file_settings(a + seq!['\n'] + b) == lines_applied(file_settings(a), lines(b)),
{
    lemma_lines_concat(a, b);
    lemma_lines_applied_concat(default_settings(), lines(a), lines(b));
}


/// Where the config file is: with `XDG_CONFIG_HOME` set to a non-empty `x`
/// it is `x/ak500s-mac/config`; with it unset or empty and `HOME` set to `h`
/// it is `h/.config/ak500s-mac/config` (each `/` added only where the
/// directory does not already end in one); an empty `XDG_CONFIG_HOME`
/// counts as unset; with neither variable there is no path.
pub proof fn lemma_config_path_layout(x: Seq<char>, h: Seq<char>)
    ensures
        config_path_of(None, Some(h)) == config_path_of(Some(Seq::<char>::empty()), Some(h)),
        config_path_of(None, None) is None,
        config_path_of(Some(Seq::<char>::empty()), None) is None,
        h.len() > 0 && h.last() != '/' ==> config_path_of(None, Some(h)) == Some(
            h + "/.config/ak500s-mac/config"@,
        ),
        h.len() > 0 && h.last() == '/' ==> config_path_of(None, Some(h)) == Some(
            h + ".config/ak500s-mac/config"@,
        ),
        x.len() > 0 && x.last() != '/' ==> config_path_of(Some(x), Some(h)) == Some(
            x + "/ak500s-mac/config"@,
        ) && config_path_of(Some(x), None) == Some(x + "/ak500s-mac/config"@),
        x.len() > 0 && x.last() == '/' ==> config_path_of(Some(x), Some(h)) == Some(
            x + "ak500s-mac/config"@,
        ),
{
    reveal_strlit(".config");
    reveal_strlit("ak500s-mac");
    reveal_strlit("config");
    reveal_strlit("/.config/ak500s-mac/config");
    reveal_strlit(".config/ak500s-mac/config");
    reveal_strlit("/ak500s-mac/config");
    reveal_strlit("ak500s-mac/config");
    if h.len() > 0 {
        let h1 = joined(h, ".config"@);
        let h2 = joined(h1, "ak500s-mac"@);
        assert(h1.last() == 'g');
        assert(h2.last() == 'c');
        if h.last() != '/' {
            assert(joined(h2, "config"@) =~= h + "/.config/ak500s-mac/config"@);
        } else {
            assert(joined(h2, "config"@) =~= h + ".config/ak500s-mac/config"@);
        }
    }
    if x.len() > 0 {
        let x1 = joined(x, "ak500s-mac"@);
        assert(x1.last() == 'c');
        if x.last() != '/' {
            assert(joined(x1, "config"@) =~= x + "/ak500s-mac/config"@);
        } else {
            assert(joined(x1, "config"@) =~= x + "ak500s-mac/config"@);
        }
    }
}


/// A line `k=v` whose key and value carry no white space at their ends, whose
/// key has no `=` and starts with no `#`, and which holds no newline, is one
/// line of the file and applies its key and value.
proof fn lemma_key_value_line(c: Settings, k: Seq<char>, v: Seq<char>)
    requires
        k.len() > 0,
        v.len() > 0,
        !is_white_space(k[0]),
        k[0] != '#',
        !is_white_space(k.last()),
        !is_white_space(v[0]),
        !is_white_space(v.last()),
        forall|i: int| 0 <= i < k.len() ==> k[i] != '=' && k[i] != '\n',
        forall|i: int| 0 <= i < v.len() ==> v[i] != '\n',
    ensures
        lines(k + seq!['='] + v) == seq![k + seq!['='] + v],
        line_applied(c, k + seq!['='] + v) == setting_applied(c, k, v),
{
    let l = k + seq!['='] + v;
    assert forall|i: int| 0 <= i < l.len() implies l[i] != '\n' by {
        if i < k.len() {
            assert(l[i] == k[i]);
        } else if i > k.len() {
            assert(l[i] == v[i - k.len() - 1]);
        }
    }
    lemma_no_newline(l);
    assert(trim_start(l) == l);
    assert(l.last() == v.last());
    assert(trim_end(l) == l);
    assert(trim(l) == l);
    assert forall|j: int| 0 <= j < k.len() implies l[j] != '=' by {
        assert(l[j] == k[j]);
    }
    lemma_index_of_found(l, '=', k.len() as int);
    assert(l.subrange(0, k.len() as int) =~= k);
    assert(l.subrange(k.len() + 1int, l.len() as int) =~= v);
    assert(trim_start(k) == k);
    assert(trim_end(k) == k);
    assert(trim_start(v) == v);
    assert(trim_end(v) == v);
}

proof fn lemma_file_of_line(a: Seq<char>, l: Seq<char>)
    requires
        lines(l) == seq![l],
    ensures
        file_settings(l) == line_applied(default_settings(), l),
        file_settings(a + seq!['\n'] + l) == line_applied(file_settings(a), l),
{
    lemma_lines_concat(a, l);
    assert(seq![l].drop_last() =~= Seq::<Seq<char>>::empty());
    assert(lines_applied(default_settings(), seq![l]) == line_applied(
        lines_applied(default_settings(), seq![l].drop_last()),
        seq![l].last(),
    ));
    let ls = lines(a) + seq![l];
    assert(ls.drop_last() =~= lines(a));
    assert(ls.last() == l);
}

/// A show switch line turns its metric on for the value `true`, `1` or
/// `on` and off for `false`, `off` or `0`: alone in the file, and as the last
/// line after anything else.
pub proof fn lemma_switch_lines(a: Seq<char>, v: Seq<char>)
    requires
        v == "true"@ || v == "1"@ || v == "on"@ || v == "false"@ || v == "off"@ || v == "0"@,
    ensures
        (v == "true"@ || v == "1"@ || v == "on"@) ==> {
            &&& file_settings("show_temp"@ + seq!['='] + v).show_temp
            &&& file_settings(a + seq!['\n'] + ("show_temp"@ + seq!['='] + v)).show_temp
            &&& file_settings("show_usage"@ + seq!['='] + v).show_usage
            &&& file_settings(a + seq!['\n'] + ("show_usage"@ + seq!['='] + v)).show_usage
        },
        (v == "false"@ || v == "off"@ || v == "0"@) ==> {
            &&& !file_settings("show_temp"@ + seq!['='] + v).show_temp
            &&& !file_settings(a + seq!['\n'] + ("show_temp"@ + seq!['='] + v)).show_temp
            &&& !file_settings("show_usage"@ + seq!['='] + v).show_usage
            &&& !file_settings(a + seq!['\n'] + ("show_usage"@ + seq!['='] + v)).show_usage
        },
{
    reveal_strlit("true");
    reveal_strlit("1");
    reveal_strlit("on");
    reveal_strlit("false");
    reveal_strlit("off");
    reveal_strlit("0");
    reveal_strlit("show_temp");
    reveal_strlit("show_usage");
    reveal_strlit("mode");
    reveal_strlit("unit");
    reveal_strlit("fahrenheit");
    reveal_strlit("interval_ms");
    reveal_strlit("alarm_c");
    reveal_strlit("auto_switch_s");
    assert("show_usage"@[0] != "fahrenheit"@[0]);
    assert("false"@.len() != "true"@.len());
    assert("off"@.len() != "on"@.len());
    assert("0"@[0] != "1"@[0]);
    assert(v.len() > 0);
    assert forall|i: int| 0 <= i < v.len() implies v[i] != '\n' by {}
    let kt = "show_temp"@;
    let ku = "show_usage"@;
    assert forall|i: int| 0 <= i < kt.len() implies kt[i] != '=' && kt[i] != '\n' by {}
    assert forall|i: int| 0 <= i < ku.len() implies ku[i] != '=' && ku[i] != '\n' by {}
    let ds = default_settings();
    lemma_key_value_line(ds, kt, v);
    lemma_key_value_line(file_settings(a), kt, v);
    lemma_key_value_line(ds, ku, v);
    lemma_key_value_line(file_settings(a), ku, v);
    lemma_file_of_line(a, kt + seq!['='] + v);
    lemma_file_of_line(a, ku + seq!['='] + v);
}

} // verus!
