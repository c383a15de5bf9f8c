//! Decisions of the command-line front end: reading option values and
//! judging the daemon's replies.

use vstd::prelude::*;
use crate::config::{mode_named, Mode};
use crate::protocol::{MODE_TEMP_C, MODE_USAGE};
use crate::text::{contains_seq, contains_str, parse_u64, parse_u64_str, str_eq, trim, trim_str};

verus! {

/// A word that an option does not accept (trimmed).
pub struct UnknownWord(pub String);

/// Reads the `--mode` option: absent or blank means no override, otherwise
/// `temp`, `temperature`, `usage` or `auto` (surrounding white space aside).
pub fn parse_mode(s: Option<&str>) -> (r: Result<Option<Mode>, UnknownWord>)
    ensures
        match s {
            None => r == Ok::<Option<Mode>, UnknownWord>(None),
            Some(t) => if trim(t@).len() == 0 {
                r == Ok::<Option<Mode>, UnknownWord>(None)
            } else {
                match mode_named(trim(t@)) {
                    Some(m) => r == Ok::<Option<Mode>, UnknownWord>(Some(m)),
                    None => r matches Err(e) && e.0@ == trim(t@),
                }
            },
        },
{
    match s {
        None => Ok(None),
        Some(t) => {
            let m = trim_str(t);
            if m.unicode_len() == 0 {
                Ok(None)
            } else if str_eq(m, "temp") || str_eq(m, "temperature") {
                Ok(Some(Mode::Temp))
            } else if str_eq(m, "usage") {
                Ok(Some(Mode::Usage))
            } else if str_eq(m, "auto") {
                Ok(Some(Mode::Auto))
            } else {
                Err(UnknownWord(m.to_owned()))
            }
        },
    }
}

/// The value of an on/off option: `true`, `on`, `1` or `false`, `off`, `0`.
pub open spec fn switch_word(v: Seq<char>) -> Option<bool> {
    if v == "true"@ || v == "on"@ || v == "1"@ {
        Some(true)
    } else if v == "false"@ || v == "off"@ || v == "0"@ {
        Some(false)
    } else {
        None
    }
}

/// Reads one on/off option (surrounding white space aside); absent means unchanged.
pub fn parse_switch(s: Option<&str>) -> (r: Result<Option<bool>, UnknownWord>)
    ensures
        match s {
            None => r == Ok::<Option<bool>, UnknownWord>(None),
            Some(t) => match switch_word(trim(t@)) {
                Some(b) => r == Ok::<Option<bool>, UnknownWord>(Some(b)),
                None => r matches Err(e) && e.0@ == trim(t@),
            },
        },
{
    match s {
        None => Ok(None),
        Some(t) => {
            let v = trim_str(t);
            if str_eq(v, "true") || str_eq(v, "on") || str_eq(v, "1") {
                Ok(Some(true))
            } else if str_eq(v, "false") || str_eq(v, "off") || str_eq(v, "0") {
                Ok(Some(false))
            } else {
                Err(UnknownWord(v.to_owned()))
            }
        },
    }
}

/// Why the switch options of the `config` subcommand were refused.
pub enum SwitchArgsError {
    /// `--show-temp` has an unknown value.
    BadShowTemp(String),
    /// `--show-usage` has an unknown value.
    BadShowUsage(String),
    /// Neither option is given.
    NoneGiven,
}

/// Reads the two switch options of the `config` subcommand: a bad value of
/// `--show-temp` is reported first, then one of `--show-usage`, and at least
/// one of the two must be given.
pub fn switch_args(show_temp: Option<&str>, show_usage: Option<&str>) -> (r: Result<
    (Option<bool>, Option<bool>),
    SwitchArgsError,
>)
    ensures
        ({
            let t = match show_temp {
                Some(x) => Some(switch_word(trim(x@))),
                None => None,
            };
            let u = match show_usage {
                Some(x) => Some(switch_word(trim(x@))),
                None => None,
            };
            if t matches Some(None) {
                r matches Err(SwitchArgsError::BadShowTemp(w)) && w@ == trim(show_temp->0@)
            } else if u matches Some(None) {
                r matches Err(SwitchArgsError::BadShowUsage(w)) && w@ == trim(show_usage->0@)
            } else if t is None && u is None {
                r matches Err(SwitchArgsError::NoneGiven)
            } else {
                r matches Ok((a, b)) && a == (match t {
                    Some(x) => x,
                    None => None,
                }) && b == (match u {
                    Some(x) => x,
                    None => None,
                })
            }
        }),
{
    let t = match parse_switch(show_temp) {
        Ok(t) => t,
        Err(UnknownWord(w)) => {
            return Err(SwitchArgsError::BadShowTemp(w));
        },
    };
    let u = match parse_switch(show_usage) {
        Ok(u) => u,
        Err(UnknownWord(w)) => {
            return Err(SwitchArgsError::BadShowUsage(w));
        },
    };
    if t.is_none() && u.is_none() {
        return Err(SwitchArgsError::NoneGiven);
    }
    Ok((t, u))
}

/// The mode byte that the `test` subcommand sends for its `--mode` value.
pub fn test_mode_byte(mode: &str) -> (r: Option<u8>)
    ensures
        r == (if mode@ == "temp"@ || mode@ == "temperature"@ {
            Some(MODE_TEMP_C)
        } else if mode@ == "usage"@ {
            Some(MODE_USAGE)
        } else {
            None
        }),
{
    if str_eq(mode, "temp") || str_eq(mode, "temperature") {
        Some(MODE_TEMP_C)
    } else if str_eq(mode, "usage") {
        Some(MODE_USAGE)
    } else {
        None
    }
}

/// The `--bar` option of the `show` subcommand.
pub enum BarArg {
    /// Not given: the bar stays off.
    Absent,
    /// `usage`: the bar follows the CPU usage.
    Usage,
    /// A level that reads as a `u8`.
    Level(u8),
    /// Anything else, passed on for the daemon to refuse.
    Word(String),
}

/// `u8::from_str`.
pub open spec fn parse_u8(s: Seq<char>) -> Option<u8> {
    match parse_u64(s) {
        Some(n) => if n <= 255 {
            Some(n as u8)
        } else {
            None
        },
        None => None,
    }
}

/// Reads the `--bar` option (surrounding white space aside).
pub fn bar_arg(s: Option<&str>) -> (r: BarArg)
    ensures
        match s {
            None => r is Absent,
            Some(t) => {
                let v = trim(t@);
                if v == "usage"@ {
                    r is Usage
                } else {
                    match parse_u8(v) {
                        Some(n) => r == BarArg::Level(n),
                        None => r matches BarArg::Word(w) && w@ == v,
                    }
                }
            },
        },
{
    match s {
        None => BarArg::Absent,
        Some(t) => {
            let v = trim_str(t);
            if str_eq(v, "usage") {
                BarArg::Usage
            } else {
                match parse_u64_str(v) {
                    Some(n) => if n <= 255 {
                        BarArg::Level(n as u8)
                    } else {
                        BarArg::Word(v.to_owned())
                    },
                    None => BarArg::Word(v.to_owned()),
                }
            }
        },
    }
}

/// The exit code for a reply line of the daemon: 1 when the daemon refused
/// the request (the line holds `"ok":false`), else 0.
pub fn reply_exit_code(resp: &str) -> (r: i32)
    ensures
        r == (if contains_seq(resp@, "\"ok\":false"@) { 1i32 } else { 0i32 }),
{
    if contains_str(resp, "\"ok\":false") {
        1
    } else {
        0
    }
}


/// The verdict of the `doctor` self-check: it passes when at least one
/// display was found and some temperature key gave a reading.
pub fn doctor_passed(displays_found: usize, temperature_key_found: bool) -> (r: bool)
    ensures
        r == (displays_found > 0 && temperature_key_found),
{
    displays_found > 0 && temperature_key_found
}

} // verus!
