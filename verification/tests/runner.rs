use ak500s_mac::api::ExternalFrame;
use ak500s_mac::config::{load_from, CliOverrides, Config, Mode};
use ak500s_mac::runner::{after_send, mode_for_sources, plan_refresh, start_state, Action, DisplayState, FrameInputs};

fn cfg(mode: Mode, show_temp: bool, show_usage: bool) -> Config {
    load_from(
        None,
        CliOverrides { mode: Some(mode), show_temp: Some(show_temp), show_usage: Some(show_usage), ..Default::default() },
    )
}

fn inputs(temp_read: bool) -> FrameInputs {
    FrameInputs { mode_override: None, show_temp_override: None, show_usage_override: None, external: None, temp_read }
}

#[test]
fn external_frame_takes_the_display() {
    let f = ExternalFrame { mode_byte: 76, bar: None, value: 12, alarm: false, expires: 9 };
    let st = start_state(0);
    let inp = FrameInputs { external: Some(f), ..inputs(true) };
    assert_eq!(plan_refresh(&cfg(Mode::Temp, false, false), &st, &inp), Action::External(f));
}

#[test]
fn preferred_metric_then_fallback_then_nothing() {
    let st = start_state(0);
    assert_eq!(plan_refresh(&cfg(Mode::Temp, true, true), &st, &inputs(true)), Action::Temperature);
    assert_eq!(plan_refresh(&cfg(Mode::Temp, true, true), &st, &inputs(false)), Action::Usage);
    assert_eq!(plan_refresh(&cfg(Mode::Usage, true, true), &st, &inputs(true)), Action::Usage);
    assert_eq!(plan_refresh(&cfg(Mode::Usage, true, false), &st, &inputs(true)), Action::Temperature);
    assert_eq!(plan_refresh(&cfg(Mode::Temp, false, true), &st, &inputs(true)), Action::Usage);
    assert_eq!(plan_refresh(&cfg(Mode::Temp, true, false), &st, &inputs(false)), Action::Skip);
    assert_eq!(plan_refresh(&cfg(Mode::Auto, false, false), &st, &inputs(true)), Action::Skip);
}

#[test]
fn api_overrides_take_precedence() {
    let st = start_state(0);
    let c = cfg(Mode::Temp, true, true);
    let inp = FrameInputs { mode_override: Some(Mode::Usage), ..inputs(true) };
    assert_eq!(plan_refresh(&c, &st, &inp), Action::Usage);
    let inp = FrameInputs { show_usage_override: Some(false), show_temp_override: Some(false), ..inputs(true) };
    assert_eq!(plan_refresh(&c, &st, &inp), Action::Skip);
    let off = cfg(Mode::Usage, false, false);
    let inp = FrameInputs { show_temp_override: Some(true), ..inputs(true) };
    assert_eq!(plan_refresh(&off, &st, &inp), Action::Temperature);
}

#[test]
fn auto_mode_alternates() {
    let c = load_from(Some("auto_switch_s=5"), CliOverrides::default());
    let st = start_state(1000);
    assert_eq!(st, DisplayState { auto_show_temp: true, auto_last_switch: 1000 });
    assert_eq!(plan_refresh(&c, &st, &inputs(true)), Action::Temperature);
    let st = after_send(&st, &c, None, 5999);
    assert!(st.auto_show_temp);
    let st = after_send(&st, &c, None, 6000);
    assert_eq!(st, DisplayState { auto_show_temp: false, auto_last_switch: 6000 });
    assert_eq!(plan_refresh(&c, &st, &inputs(true)), Action::Usage);
    let st2 = after_send(&st, &c, Some(Mode::Temp), 60_000);
    assert_eq!(st2, st);
    let st3 = after_send(&st, &c, None, 100);
    assert_eq!(st3, st);
}

#[test]
fn auto_switch_of_zero_counts_as_one_second() {
    let c = load_from(Some("auto_switch_s=0"), CliOverrides::default());
    let st = start_state(0);
    assert_eq!(after_send(&st, &c, None, 999), st);
    assert!(!after_send(&st, &c, None, 1000).auto_show_temp);
}

#[test]
fn temperature_mode_without_sensor_falls_back() {
    assert_eq!(mode_for_sources(Mode::Temp, false), Mode::Usage);
    assert_eq!(mode_for_sources(Mode::Temp, true), Mode::Temp);
    assert_eq!(mode_for_sources(Mode::Auto, false), Mode::Auto);
    assert_eq!(mode_for_sources(Mode::Usage, false), Mode::Usage);
}
