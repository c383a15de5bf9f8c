//! The local API through which other programs drive the display.
//!
//! Only the daemon writes to the device. Other programs send it one request
//! per line; a `show` request puts an external frame in front of the
//! built-in metrics until its time-to-live runs out, after which the display
//! falls back to the built-in metrics. `mode` and `config` override the
//! built-in display mode and metric switches, and `release` drops every
//! override. Times are milliseconds on the daemon's monotonic clock.

use vstd::prelude::*;
use crate::config::{mode_named, Mode};
use crate::protocol::{MODE_TEMP_C, MODE_TEMP_F, MODE_USAGE};
use crate::text::str_eq;

verus! {

/// Version of the request protocol, answered to `ping`.
pub const PROTOCOL_V: u32 = 1;

/// Time-to-live of a `show` frame when the request gives none, in seconds.
pub const DEFAULT_TTL_S: u64 = 10;

/// Longest time-to-live of a `show` frame, in seconds.
pub const MAX_TTL_S: u64 = 3600;

/// Latest clock reading at which a request can be handled: an expiry time
/// later than this would not fit the clock.
pub const LATEST_NOW_MS: u64 = u64::MAX - MAX_TTL_S * 1000;

/// A frame published through the API.
#[derive(Clone, Copy, Debug, PartialEq, Eq, Structural)]
pub struct ExternalFrame {
    /// Mode byte, which picks the unit icon (degrees C, degrees F or percent).
    pub mode_byte: u8,
    /// Status-bar level; `None` means: follow the current CPU usage.
    pub bar: Option<u8>,
    /// Value to show, at most 999.
    pub value: u16,
    /// Alarm flag.
    pub alarm: bool,
    /// Clock reading (ms) from which on the frame is no longer shown.
    pub expires: u64,
}

/// State shared by the API and the display loop.
#[derive(Clone, Copy, Debug, PartialEq, Eq, Structural)]
pub struct SharedState {
    /// The last published frame, if any.
    pub external: Option<ExternalFrame>,
    /// Display mode set through the API; `None` keeps the configured one.
    pub mode_override: Option<Mode>,
    /// Temperature switch set through the API; `None` keeps the configured one.
    pub show_temp_override: Option<bool>,
    /// Usage switch set through the API; `None` keeps the configured one.
    pub show_usage_override: Option<bool>,
}

impl SharedState {
    /// No frame and no override.
    pub open spec fn released() -> SharedState {
        SharedState {
            external: None,
            mode_override: None,
            show_temp_override: None,
            show_usage_override: None,
        }
    }

    /// A state with no frame and no override.
    pub fn new() -> (r: SharedState)
        ensures
            r == SharedState::released(),
    {
        SharedState {
            external: None,
            mode_override: None,
            show_temp_override: None,
            show_usage_override: None,
        }
    }
}

impl Default for SharedState {
    fn default() -> (r: SharedState)
        ensures
            r == SharedState::released(),
    {
        SharedState::new()
    }
}

/// The `bar` field of a request: a level, or a word (only `usage` is valid).
pub enum Bar {
    Level(u8),
    Usage(String),
}

/// One request, as decoded from its JSON line.
pub struct Request {
    /// `ping`, `show`, `mode`, `config` or `release`.
    pub cmd: String,
    /// `show`: the value to display.
    pub value: Option<u16>,
    /// `show`: the status bar, 0 to 10 or `usage`; off when absent.
    pub bar: Option<Bar>,
    /// `show`: the unit icon, `pct`, `c` or `f`; `pct` when absent.
    pub unit: Option<String>,
    /// `show`: the alarm flag; off when absent.
    pub alarm: Option<bool>,
    /// `show`: time-to-live in seconds, kept between 1 and 3600; 10 when absent.
    pub ttl_s: Option<u64>,
    /// `mode`: `temp`, `temperature`, `usage` or `auto`.
    pub mode: Option<String>,
    /// `config`: the temperature switch.
    pub show_temp: Option<bool>,
    /// `config`: the usage switch.
    pub show_usage: Option<bool>,
}

/// A successful reply.
#[derive(Clone, Copy, Debug, PartialEq, Eq, Structural)]
pub enum Reply {
    /// Answer to `ping`, with the protocol version.
    Pong(u32),
    /// The request took effect.
    Done,
}

/// Why a request was refused.
pub enum ApiError {
    /// `show` without a value.
    MissingValue,
    /// `show` with a unit other than `pct`, `c`, `f`.
    UnknownUnit(String),
    /// `show` with a bar word other than `usage`.
    UnknownBarWord(String),
    /// `show` with a bar level above 10.
    BarOutOfRange(u8),
    /// `mode` without a mode.
    MissingMode,
    /// `mode` naming no mode.
    UnknownMode(String),
    /// `config` with neither switch.
    MissingSwitch,
    /// A command other than the five known ones.
    UnknownCommand(String),
}

/// The mode byte for a unit name.
pub open spec fn unit_mode_byte(unit: Seq<char>) -> Option<u8> {
    if unit == "pct"@ {
        Some(MODE_USAGE)
    } else if unit == "c"@ {
        Some(MODE_TEMP_C)
    } else if unit == "f"@ {
        Some(MODE_TEMP_F)
    } else {
        None
    }
}

/// The time-to-live in seconds that a request gets.
pub open spec fn kept_ttl_s(ttl_s: Option<u64>) -> u64 {
    let t = match ttl_s {
        Some(t) => t,
        None => DEFAULT_TTL_S,
    };
    if t < 1 {
        1
    } else if t > MAX_TTL_S {
        MAX_TTL_S
    } else {
        t
    }
}

/// The frame that a `show` request publishes at clock reading `now`, or why
/// it is refused. The checks come in this order: value, unit, bar.
pub open spec fn show_frame(req: Request, now: u64) -> Result<ExternalFrame, ApiError> {
    match req.value {
        None => Err(ApiError::MissingValue),
        Some(value) => {
            let unit_ok = match req.unit {
                Some(u) => unit_mode_byte(u@) is Some,
                None => true,
            };
            let mode_byte = match req.unit {
                Some(u) => unit_mode_byte(u@)->0,
                None => MODE_USAGE,
            };
            if !unit_ok {
                Err(ApiError::UnknownUnit(req.unit->0))
            } else {
                let bar: Result<Option<u8>, ApiError> = match req.bar {
                    None => Ok(Some(0u8)),
                    Some(Bar::Usage(s)) => if s@ == "usage"@ {
                        Ok(None)
                    } else {
                        Err(ApiError::UnknownBarWord(s))
                    },
                    Some(Bar::Level(n)) => if n <= 10 {
                        Ok(Some(n))
                    } else {
                        Err(ApiError::BarOutOfRange(n))
                    },
                };
                match bar {
                    Err(e) => Err(e),
                    Ok(bar) => Ok(
                        ExternalFrame {
                            mode_byte,
                            bar,
                            value: if value <= 999 { value } else { 999 },
                            alarm: match req.alarm {
                                Some(a) => a,
                                None => false,
                            },
                            expires: (now + kept_ttl_s(req.ttl_s) * 1000) as u64,
                        },
                    ),
                }
            }
        },
    }
}

/// The state after a request and the reply to it.
pub open spec fn dispatched(s: SharedState, req: Request, now: u64) -> (SharedState, Result<Reply, ApiError>) {
    let c = req.cmd@;
    if c == "ping"@ {
        (s, Ok(Reply::Pong(PROTOCOL_V)))
    } else if c == "show"@ {
        match show_frame(req, now) {
            Ok(f) => (SharedState { external: Some(f), ..s }, Ok(Reply::Done)),
            Err(e) => (s, Err(e)),
        }
    } else if c == "mode"@ {
        match req.mode {
            None => (s, Err(ApiError::MissingMode)),
            Some(m) => match mode_named(m@) {
                Some(md) => (SharedState { mode_override: Some(md), ..s }, Ok(Reply::Done)),
                None => (s, Err(ApiError::UnknownMode(m))),
            },
        }
    } else if c == "config"@ {
        if req.show_temp is None && req.show_usage is None {
            (s, Err(ApiError::MissingSwitch))
        } else {
            (
                SharedState {
                    show_temp_override: match req.show_temp {
                        Some(t) => Some(t),
                        None => s.show_temp_override,
                    },
                    show_usage_override: match req.show_usage {
                        Some(u) => Some(u),
                        None => s.show_usage_override,
                    },
                    ..s
                },
                Ok(Reply::Done),
            )
        }
    } else if c == "release"@ {
        (SharedState::released(), Ok(Reply::Done))
    } else {
        (s, Err(ApiError::UnknownCommand(req.cmd)))
    }
}

/// The published frame while it is live at clock reading `now`.
pub open spec fn live_frame(s: SharedState, now: u64) -> Option<ExternalFrame> {
    match s.external {
        Some(e) => if e.expires > now {
            Some(e)
        } else {
            None
        },
        None => None,
    }
}

proof fn lemma_command_words_differ()
    ensures
        "ping"@ != "show"@,
        "ping"@ != "mode"@,
        "ping"@ != "config"@,
        "show"@ != "mode"@,
        "show"@ != "config"@,
        "mode"@ != "config"@,
{
    reveal_strlit("ping");
    reveal_strlit("show");
    reveal_strlit("mode");
    reveal_strlit("config");
    assert("ping"@[1] != "show"@[1]);
    assert("ping"@[0] != "mode"@[0]);
    assert("ping"@.len() != "config"@.len());
    assert("show"@[0] != "mode"@[0]);
    assert("show"@.len() != "config"@.len());
    assert("mode"@.len() != "config"@.len());
}

fn cmd_show(state: &mut SharedState, req: &Request, now: u64) -> (r: Result<Reply, ApiError>)
    requires
        req.cmd@ == "show"@,
        now <= LATEST_NOW_MS,
    ensures
        (*final(state), r) == dispatched(*old(state), *req, now),
{
    proof {
        lemma_command_words_differ();
    }
    let value = match req.value {
        Some(v) => v,
        None => {
            return Err(ApiError::MissingValue);
        },
    };
    let value = if value <= 999 { value } else { 999 };
    let mode_byte = match &req.unit {
        None => MODE_USAGE,
        Some(u) => {
            if str_eq(u.as_str(), "pct") {
                MODE_USAGE
            } else if str_eq(u.as_str(), "c") {
                MODE_TEMP_C
            } else if str_eq(u.as_str(), "f") {
                MODE_TEMP_F
            } else {
                return Err(ApiError::UnknownUnit(u.clone()));
            }
        },
    };
    let bar = match &req.bar {
        None => Some(0),
        Some(Bar::Usage(s)) => {
            if str_eq(s.as_str(), "usage") {
                None
            } else {
                return Err(ApiError::UnknownBarWord(s.clone()));
            }
        },
        Some(Bar::Level(n)) => {
            if *n <= 10 {
                Some(*n)
            } else {
                return Err(ApiError::BarOutOfRange(*n));
            }
        },
    };
    let t = match req.ttl_s {
        Some(t) => t,
        None => DEFAULT_TTL_S,
    };
    let ttl = if t < 1 {
        1
    } else if t > MAX_TTL_S {
        MAX_TTL_S
    } else {
        t
    };
    let frame = ExternalFrame {
        mode_byte,
        bar,
        value,
        alarm: match req.alarm {
            Some(a) => a,
            None => false,
        },
        expires: now + ttl * 1000,
    };
    state.external = Some(frame);
    Ok(Reply::Done)
}

fn cmd_mode(state: &mut SharedState, req: &Request) -> (r: Result<Reply, ApiError>)
    requires
        req.cmd@ == "mode"@,
    ensures
        (*final(state), r) == dispatched(*old(state), *req, 0),
{
    proof {
        lemma_command_words_differ();
    }
    let m = match &req.mode {
        Some(m) => m,
        None => {
            return Err(ApiError::MissingMode);
        },
    };
    let parsed = if str_eq(m.as_str(), "temp") || str_eq(m.as_str(), "temperature") {
        Mode::Temp
    } else if str_eq(m.as_str(), "usage") {
        Mode::Usage
    } else if str_eq(m.as_str(), "auto") {
        Mode::Auto
    } else {
        return Err(ApiError::UnknownMode(m.clone()));
    };
    state.mode_override = Some(parsed);
    Ok(Reply::Done)
}

fn cmd_config(state: &mut SharedState, req: &Request) -> (r: Result<Reply, ApiError>)
    requires
        req.cmd@ == "config"@,
    ensures
        (*final(state), r) == dispatched(*old(state), *req, 0),
{
    proof {
        lemma_command_words_differ();
    }
    if req.show_temp.is_none() && req.show_usage.is_none() {
        return Err(ApiError::MissingSwitch);
    }
    if let Some(t) = req.show_temp {
        state.show_temp_override = Some(t);
    }
    if let Some(u) = req.show_usage {
        state.show_usage_override = Some(u);
    }
    Ok(Reply::Done)
}

/// Handles one request: updates the shared state and gives the reply.
/// A refused request leaves the state as it was.
pub fn dispatch(state: &mut SharedState, req: &Request, now: u64) -> (r: Result<Reply, ApiError>)
    requires
        now <= LATEST_NOW_MS,
    ensures
        (*final(state), r) == dispatched(*old(state), *req, now),
{
    let cmd = req.cmd.as_str();
    if str_eq(cmd, "ping") {
        Ok(Reply::Pong(PROTOCOL_V))
    } else if str_eq(cmd, "show") {
        cmd_show(state, req, now)
    } else if str_eq(cmd, "mode") {
        cmd_mode(state, req)
    } else if str_eq(cmd, "config") {
        cmd_config(state, req)
    } else if str_eq(cmd, "release") {
        *state = SharedState::new();
        Ok(Reply::Done)
    } else {
        Err(ApiError::UnknownCommand(req.cmd.clone()))
    }
}

/// Takes the published frame for the display loop while it is live; an
/// expired frame is dropped from the state.
pub fn take_live_external(state: &mut SharedState, now: u64) -> (r: Option<ExternalFrame>)
    ensures
        r == live_frame(*old(state), now),
        *final(state) == (SharedState { external: r, ..*old(state) }),
{
    let live = match state.external {
        Some(e) => if e.expires > now {
            Some(e)
        } else {
            None
        },
        None => None,
    };
    if live.is_none() {
        state.external = None;
    }
    live
}


/// A refused request leaves the shared state as it was, and `ping` never
/// changes it.
pub proof fn lemma_refused_request_changes_nothing(s: SharedState, req: Request, now: u64)
    ensures
        dispatched(s, req, now).1 is Err ==> dispatched(s, req, now).0 == s,
        req.cmd@ == "ping"@ ==> dispatched(s, req, now) == (s, Ok::<Reply, ApiError>(Reply::Pong(PROTOCOL_V))),
{
}

/// A published frame is what the display loop gets back: after a successful
/// `show` at clock reading `now`, the loop is handed exactly that frame at
/// every reading before its expiry and nothing from then on. The expiry lies
/// between 1 s and 1 h after `now`, and the value is at most 999.
pub proof fn lemma_shown_frame_is_taken_until_expiry(s: SharedState, req: Request, now: u64)
    requires
        req.cmd@ == "show"@,
        now <= LATEST_NOW_MS,
        dispatched(s, req, now).1 is Ok,
    ensures
        ({
            let s1 = dispatched(s, req, now).0;
            let f = s1.external->0;
            &&& s1.external is Some
            &&& show_frame(req, now) == Ok::<ExternalFrame, ApiError>(f)
            &&& s1.mode_override == s.mode_override
            &&& s1.show_temp_override == s.show_temp_override
            &&& s1.show_usage_override == s.show_usage_override
            &&& now + 1000 <= f.expires <= now + 3600000
            &&& f.value <= 999
            &&& forall|t: u64| now <= t < f.expires ==> #[trigger] live_frame(s1, t) == Some(f)
            &&& forall|t: u64| f.expires <= t ==> #[trigger] live_frame(s1, t) is None
        }),
{
    lemma_command_words_differ();
}

/// `release` drops the frame and every override, whatever the state.
pub proof fn lemma_release_clears_everything(s: SharedState, req: Request, now: u64)
    requires
        req.cmd@ == "release"@,
    ensures
        dispatched(s, req, now) == (SharedState::released(), Ok::<Reply, ApiError>(Reply::Done)),
{
    reveal_strlit("release");
    reveal_strlit("ping");
    reveal_strlit("show");
    reveal_strlit("mode");
    reveal_strlit("config");
    assert("release"@.len() != "ping"@.len());
    assert("release"@.len() != "show"@.len());
    assert("release"@.len() != "mode"@.len());
    assert("release"@.len() != "config"@.len());
}


/// The unit picks the icon of a published frame: with a value and a valid
/// bar, a `show` request succeeds with the percent icon when the unit is
/// `pct` or absent (the two requests publish the same frame), with degrees
/// Celsius for `c` and degrees Fahrenheit for `f`; any other unit is refused
/// by name and publishes nothing.
pub proof fn lemma_show_unit_icon(s: SharedState, req: Request, now: u64)
    requires
        req.cmd@ == "show"@,
        now <= LATEST_NOW_MS,
        req.value is Some,
        match req.bar {
            None => true,
            Some(Bar::Level(n)) => n <= 10,
            Some(Bar::Usage(w)) => w@ == "usage"@,
        },
    ensures
        (req.unit is None || req.unit->0@ == "pct"@) ==> {
            &&& dispatched(s, req, now).1 == Ok::<Reply, ApiError>(Reply::Done)
            &&& dispatched(s, req, now).0.external->0.mode_byte == MODE_USAGE
            &&& dispatched(s, req, now) == dispatched(s, Request { unit: None, ..req }, now)
        },
        req.unit matches Some(u) && u@ == "c"@ ==> dispatched(s, req, now).1 == Ok::<
            Reply,
            ApiError,
        >(Reply::Done) && dispatched(s, req, now).0.external->0.mode_byte == MODE_TEMP_C,
        req.unit matches Some(u) && u@ == "f"@ ==> dispatched(s, req, now).1 == Ok::<
            Reply,
            ApiError,
        >(Reply::Done) && dispatched(s, req, now).0.external->0.mode_byte == MODE_TEMP_F,
        (req.unit is Some && req.unit->0@ != "pct"@ && req.unit->0@ != "c"@ && req.unit->0@ != "f"@)
            ==> dispatched(s, req, now) == (s, Err::<Reply, ApiError>(ApiError::UnknownUnit(req.unit->0))),
{
    lemma_command_words_differ();
    reveal_strlit("pct");
    reveal_strlit("c");
    reveal_strlit("f");
    assert("pct"@.len() != "c"@.len());
    assert("pct"@.len() != "f"@.len());
    assert("c"@[0] != "f"@[0]);
}

/// A `config` request sets exactly the switches that it gives and leaves the
/// override of a switch that it does not give as it was, together with the
/// published frame and the mode override.
pub proof fn lemma_config_sets_only_given_switches(s: SharedState, req: Request, now: u64)
    requires
        req.cmd@ == "config"@,
        req.show_temp is Some || req.show_usage is Some,
    ensures
        dispatched(s, req, now).1 == Ok::<Reply, ApiError>(Reply::Done),
        req.show_temp matches Some(t) ==> dispatched(s, req, now).0.show_temp_override == Some(t),
        req.show_temp is None ==> dispatched(s, req, now).0.show_temp_override == s.show_temp_override,
        req.show_usage matches Some(u) ==> dispatched(s, req, now).0.show_usage_override == Some(u),
        req.show_usage is None ==> dispatched(s, req, now).0.show_usage_override
            == s.show_usage_override,
        dispatched(s, req, now).0.external == s.external,
        dispatched(s, req, now).0.mode_override == s.mode_override,
{
    lemma_command_words_differ();
}

/// A `mode` request naming a mode makes it the override (`temp` and
/// `temperature` both name temperature mode) and touches nothing else.
pub proof fn lemma_mode_request_sets_override(s: SharedState, req: Request, now: u64)
    requires
        req.cmd@ == "mode"@,
        req.mode is Some,
    ensures
        (req.mode->0@ == "temp"@ || req.mode->0@ == "temperature"@) ==> dispatched(s, req, now) == (
            SharedState { mode_override: Some(Mode::Temp), ..s },
            Ok::<Reply, ApiError>(Reply::Done),
        ),
        req.mode->0@ == "usage"@ ==> dispatched(s, req, now) == (
            SharedState { mode_override: Some(Mode::Usage), ..s },
            Ok::<Reply, ApiError>(Reply::Done),
        ),
        req.mode->0@ == "auto"@ ==> dispatched(s, req, now) == (
            SharedState { mode_override: Some(Mode::Auto), ..s },
            Ok::<Reply, ApiError>(Reply::Done),
        ),
{
    lemma_command_words_differ();
    reveal_strlit("temp");
    reveal_strlit("temperature");
    reveal_strlit("usage");
    reveal_strlit("auto");
    assert("usage"@.len() != "temp"@.len());
    assert("usage"@.len() != "temperature"@.len());
    assert("auto"@[0] != "temp"@[0]);
    assert("auto"@.len() != "temperature"@.len());
    assert("auto"@.len() != "usage"@.len());
}

} // verus!
