//! Decisions of the display loop, one refresh at a time.
//!
//! On each refresh the loop samples the CPU, then a live frame published
//! through the API takes the display; otherwise the metric that the mode
//! prefers is shown when it is switched on and available, the other metric
//! when the preferred one is not, and nothing at all (the display's watchdog
//! then shows its default screen) when neither is. In auto mode the
//! preferred metric alternates after each period of `auto_switch_s` seconds.

use vstd::prelude::*;
use crate::api::{
    dispatched, lemma_shown_frame_is_taken_until_expiry, live_frame, ExternalFrame, Request,
    SharedState, LATEST_NOW_MS,
};
use crate::config::{Config, Mode};

verus! {

/// What the loop does on one refresh.
#[derive(Clone, Copy, Debug, PartialEq, Eq, Structural)]
pub enum Action {
    /// Send the published frame.
    External(ExternalFrame),
    /// Send the CPU temperature.
    Temperature,
    /// Send the CPU usage.
    Usage,
    /// Send nothing this time.
    Skip,
}

/// The state that the loop keeps between refreshes (auto mode only).
#[derive(Clone, Copy, Debug, PartialEq, Eq, Structural)]
pub struct DisplayState {
    /// Whether auto mode currently prefers the temperature.
    pub auto_show_temp: bool,
    /// Clock reading (ms) of the last switch.
    pub auto_last_switch: u64,
}

/// What the API and the loop's own state say about one refresh.
#[derive(Clone, Copy, Debug, PartialEq, Eq, Structural)]
pub struct FrameInputs {
    /// Display mode set through the API.
    pub mode_override: Option<Mode>,
    /// Temperature switch set through the API.
    pub show_temp_override: Option<bool>,
    /// Usage switch set through the API.
    pub show_usage_override: Option<bool>,
    /// The live published frame, if any.
    pub external: Option<ExternalFrame>,
    /// Whether a temperature was read on this refresh.
    pub temp_read: bool,
}

/// The mode in force: the API's, else the configured one.
pub open spec fn effective_mode(configured: Mode, over: Option<Mode>) -> Mode {
    match over {
        Some(m) => m,
        None => configured,
    }
}

/// A switch in force: the API's, else the configured one.
pub open spec fn switch_in_force(configured: bool, over: Option<bool>) -> bool {
    match over {
        Some(b) => b,
        None => configured,
    }
}

/// Whether the mode prefers the temperature on this refresh.
pub open spec fn prefers_temperature(mode: Mode, auto_show_temp: bool) -> bool {
    match mode {
        Mode::Temp => true,
        Mode::Usage => false,
        Mode::Auto => auto_show_temp,
    }
}

/// The action for one refresh.
pub open spec fn planned_action(
    mode: Mode,
    show_temp: bool,
    show_usage: bool,
    st: DisplayState,
    inp: FrameInputs,
) -> Action {
    let temp_on = switch_in_force(show_temp, inp.show_temp_override);
    let usage_on = switch_in_force(show_usage, inp.show_usage_override);
    let temp_ok = temp_on && inp.temp_read;
    let prefer_temp = prefers_temperature(effective_mode(mode, inp.mode_override), st.auto_show_temp);
    let render_temp = if prefer_temp { temp_ok } else { !usage_on && temp_ok };
    match inp.external {
        Some(f) => Action::External(f),
        None => if render_temp {
            Action::Temperature
        } else if usage_on {
            Action::Usage
        } else {
            Action::Skip
        },
    }
}

/// The state after a metric was sent at clock reading `now`: in auto mode
/// the preference flips once at least `auto_switch_s` seconds (at least one)
/// have passed since the last flip.
pub open spec fn state_after_send(st: DisplayState, mode: Mode, auto_switch_s: u64, now: u64) -> DisplayState {
    let period: int = if auto_switch_s < 1 { 1000 } else { auto_switch_s * 1000 };
    let elapsed: int = if now >= st.auto_last_switch { now - st.auto_last_switch } else { 0 };
    if mode == Mode::Auto && elapsed >= period {
        DisplayState { auto_show_temp: !st.auto_show_temp, auto_last_switch: now }
    } else {
        st
    }
}

/// The loop's state when it starts at clock reading `now`: auto mode starts
/// on the temperature.
pub fn start_state(now: u64) -> (r: DisplayState)
    ensures
        r == (DisplayState { auto_show_temp: true, auto_last_switch: now }),
{
    DisplayState { auto_show_temp: true, auto_last_switch: now }
}

/// Chooses what to send on this refresh.
pub fn plan_refresh(cfg: &Config, st: &DisplayState, inp: &FrameInputs) -> (r: Action)
    ensures
        r == planned_action(cfg.mode, cfg.show_temp, cfg.show_usage, *st, *inp),
{
    let temp_on = match inp.show_temp_override {
        Some(b) => b,
        None => cfg.show_temp,
    };
    let usage_on = match inp.show_usage_override {
        Some(b) => b,
        None => cfg.show_usage,
    };
    if let Some(f) = inp.external {
        return Action::External(f);
    }
    let mode = match inp.mode_override {
        Some(m) => m,
        None => cfg.mode,
    };
    let prefer_temp = match mode {
        Mode::Temp => true,
        Mode::Usage => false,
        Mode::Auto => st.auto_show_temp,
    };
    let temp_ok = temp_on && inp.temp_read;
    let render_temp = if prefer_temp { temp_ok } else { !usage_on && temp_ok };
    if render_temp {
        Action::Temperature
    } else if usage_on {
        Action::Usage
    } else {
        Action::Skip
    }
}

/// Updates the auto-mode state after a metric was sent at clock reading `now`.
pub fn after_send(st: &DisplayState, cfg: &Config, mode_override: Option<Mode>, now: u64) -> (r: DisplayState)
    ensures
        r == state_after_send(*st, effective_mode(cfg.mode, mode_override), cfg.auto_switch_s, now),
{
    let mode = match mode_override {
        Some(m) => m,
        None => cfg.mode,
    };
    let period_s = if cfg.auto_switch_s < 1 { 1 } else { cfg.auto_switch_s };
    let elapsed = if now >= st.auto_last_switch { now - st.auto_last_switch } else { 0 };
    if mode == Mode::Auto && elapsed / 1000 >= period_s {
        DisplayState { auto_show_temp: !st.auto_show_temp, auto_last_switch: now }
    } else {
        *st
    }
}

/// The mode to run in: without a temperature source, temperature mode falls
/// back to usage mode (auto mode keeps running and shows usage only).
pub fn mode_for_sources(mode: Mode, has_temperature: bool) -> (r: Mode)
    ensures
        r == (if !has_temperature && mode == Mode::Temp { Mode::Usage } else { mode }),
{
    if !has_temperature && mode == Mode::Temp {
        Mode::Usage
    } else {
        mode
    }
}

/// How a refresh is chosen. A live published frame always takes the
/// display. Otherwise a metric is sent only when it is switched on (and the
/// temperature only when one was read); the preferred metric is sent when
/// it can be, the other one when the preferred one cannot; and nothing is
/// sent exactly when neither metric can be.
pub proof fn lemma_refresh_choice(mode: Mode, show_temp: bool, show_usage: bool, st: DisplayState, inp: FrameInputs)
    ensures
        ({
            let a = planned_action(mode, show_temp, show_usage, st, inp);
            let temp_ok = switch_in_force(show_temp, inp.show_temp_override) && inp.temp_read;
            let usage_ok = switch_in_force(show_usage, inp.show_usage_override);
            let prefer_temp = prefers_temperature(effective_mode(mode, inp.mode_override), st.auto_show_temp);
            &&& inp.external matches Some(f) ==> a == Action::External(f)
            &&& inp.external is None ==> {
                &&& a == Action::Temperature ==> temp_ok
                &&& a == Action::Usage ==> usage_ok
                &&& prefer_temp && temp_ok ==> a == Action::Temperature
                &&& !prefer_temp && usage_ok ==> a == Action::Usage
                &&& (a == Action::Skip <==> !temp_ok && !usage_ok)
                &&& a !is External
            }
        }),
{
}

/// Auto mode alternates: a flip happens only in auto mode, only once the
/// period has passed, and then starts a new period at `now`; in the other
/// modes the state never changes.
pub proof fn lemma_auto_alternates(st: DisplayState, mode: Mode, auto_switch_s: u64, now: u64)
    ensures
        mode != Mode::Auto ==> state_after_send(st, mode, auto_switch_s, now) == st,
        state_after_send(st, mode, auto_switch_s, now) != st ==> state_after_send(st, mode, auto_switch_s, now) == (DisplayState { auto_show_temp: !st.auto_show_temp, auto_last_switch: now }),
        now < st.auto_last_switch + 1000 ==> state_after_send(st, mode, auto_switch_s, now) == st,
{
}


/// A frame published through the API takes the display: after a
/// successful `show` at clock reading `now`, every refresh that the loop
/// plans before the frame expires sends that frame, whatever the mode and
/// the switches.
pub proof fn lemma_published_frame_takes_display(
    s: SharedState,
    req: Request,
    now: u64,
    t: u64,
    mode: Mode,
    show_temp: bool,
    show_usage: bool,
    st: DisplayState,
    inp: FrameInputs,
)
    requires
        req.cmd@ == "show"@,
        now <= LATEST_NOW_MS,
        dispatched(s, req, now).1 is Ok,
        now <= t < dispatched(s, req, now).0.external->0.expires,
        inp.external == live_frame(dispatched(s, req, now).0, t),
    ensures
        planned_action(mode, show_temp, show_usage, st, inp) == Action::External(
            dispatched(s, req, now).0.external->0,
        ),
{
    lemma_shown_frame_is_taken_until_expiry(s, req, now);
}


/// A mode set through the API is the mode in force, whatever mode is
/// configured, auto mode included. Without a published frame: with the API's
/// auto mode and both metrics available the refresh follows the auto state
/// (temperature on its temperature half, usage on its usage half); the API's
/// temperature mode sends the temperature and its usage mode the usage
/// whenever they can be sent; the refresh does not depend on the configured
/// mode at all; and after a send the auto state flips once the period has
/// passed under the API's auto mode and never under its other modes.
pub proof fn lemma_api_mode_is_in_force(
    configured: Mode,
    other: Mode,
    show_temp: bool,
    show_usage: bool,
    st: DisplayState,
    inp: FrameInputs,
    auto_switch_s: u64,
    now: u64,
)
    requires
        inp.external is None,
        inp.mode_override is Some,
    ensures
        ({
            let temp_ok = switch_in_force(show_temp, inp.show_temp_override) && inp.temp_read;
            let usage_ok = switch_in_force(show_usage, inp.show_usage_override);
            let a = planned_action(configured, show_temp, show_usage, st, inp);
            &&& (inp.mode_override == Some(Mode::Auto) && temp_ok && usage_ok) ==> a == (if st.auto_show_temp {
                Action::Temperature
            } else {
                Action::Usage
            })
            &&& (inp.mode_override == Some(Mode::Temp) && temp_ok) ==> a == Action::Temperature
            &&& (inp.mode_override == Some(Mode::Usage) && usage_ok) ==> a == Action::Usage
            &&& a == planned_action(other, show_temp, show_usage, st, inp)
        }),
        ({
            let period: int = if auto_switch_s < 1 { 1000 } else { auto_switch_s * 1000 };
            let after = state_after_send(st, effective_mode(configured, inp.mode_override), auto_switch_s, now);
            &&& (inp.mode_override == Some(Mode::Auto) && now >= st.auto_last_switch + period) ==> after == (DisplayState {
                auto_show_temp: !st.auto_show_temp,
                auto_last_switch: now,
            })
            &&& inp.mode_override != Some(Mode::Auto) ==> after == st
        }),
{
}

} // verus!
