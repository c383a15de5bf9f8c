use ak500s_mac::api::{dispatch, take_live_external, ApiError, Bar, ExternalFrame, Reply, Request, SharedState, DEFAULT_TTL_S, MAX_TTL_S, PROTOCOL_V};
use ak500s_mac::config::Mode;
use ak500s_mac::protocol;

const NOW: u64 = 5_000_000;

fn request(cmd: &str) -> Request {
    Request {
        cmd: cmd.to_string(),
        value: None,
        bar: None,
        unit: None,
        alarm: None,
        ttl_s: None,
        mode: None,
        show_temp: None,
        show_usage: None,
    }
}

fn show(value: u16) -> Request {
    Request { value: Some(value), ..request("show") }
}

fn ok(r: &Result<Reply, ApiError>) -> bool {
    r.is_ok()
}

#[test]
fn ping_ok() {
    let mut sh = SharedState::new();
    let r = dispatch(&mut sh, &request("ping"), NOW);
    assert!(ok(&r));
    assert!(matches!(r, Ok(Reply::Pong(1))));
    assert_eq!(PROTOCOL_V, 1);
    assert_eq!(sh, SharedState::new());
}

#[test]
fn show_basic_and_defaults() {
    let mut sh = SharedState::new();
    let r = dispatch(&mut sh, &show(123), NOW);
    assert!(ok(&r));
    let f = sh.external.as_ref().unwrap();
    assert_eq!(f.value, 123);
    assert_eq!(f.bar, Some(0));
    assert_eq!(f.mode_byte, protocol::MODE_USAGE);
    assert!(!f.alarm);
    assert_eq!(f.expires, NOW + DEFAULT_TTL_S * 1000);
}

#[test]
fn show_clamps_and_bar_usage() {
    let mut sh = SharedState::new();
    let req = Request {
        value: Some(4567),
        bar: Some(Bar::Usage("usage".to_string())),
        unit: Some("c".to_string()),
        alarm: Some(true),
        ..request("show")
    };
    let r = dispatch(&mut sh, &req, NOW);
    assert!(ok(&r));
    let f = sh.external.as_ref().unwrap();
    assert_eq!(f.value, 999);
    assert_eq!(f.bar, None);
    assert_eq!(f.mode_byte, protocol::MODE_TEMP_C);
    assert!(f.alarm);
}

#[test]
fn show_validation_errors() {
    let mut sh = SharedState::new();
    assert!(matches!(dispatch(&mut sh, &request("show"), NOW), Err(ApiError::MissingValue)));
    let r = dispatch(&mut sh, &Request { bar: Some(Bar::Level(11)), ..show(1) }, NOW);
    assert!(matches!(r, Err(ApiError::BarOutOfRange(11))));
    let r = dispatch(&mut sh, &Request { unit: Some("k".to_string()), ..show(1) }, NOW);
    assert!(matches!(r, Err(ApiError::UnknownUnit(ref u)) if u == "k"));
    let r = dispatch(&mut sh, &Request { bar: Some(Bar::Usage("fast".to_string())), ..show(1) }, NOW);
    assert!(matches!(r, Err(ApiError::UnknownBarWord(ref w)) if w == "fast"));
    let r = dispatch(&mut sh, &request("bogus"), NOW);
    assert!(matches!(r, Err(ApiError::UnknownCommand(ref c)) if c == "bogus"));
    assert_eq!(sh, SharedState::new());
}

#[test]
fn expiry_and_release() {
    let mut sh = SharedState::new();
    dispatch(&mut sh, &Request { ttl_s: Some(3600), ..show(42) }, NOW).ok();
    assert!(take_live_external(&mut sh, NOW).is_some());

    sh.external = Some(ExternalFrame { mode_byte: 19, bar: Some(1), value: 1, alarm: false, expires: NOW - 1000 });
    assert!(take_live_external(&mut sh, NOW).is_none());
    assert!(sh.external.is_none());

    dispatch(&mut sh, &show(42), NOW).ok();
    dispatch(&mut sh, &request("release"), NOW).ok();
    assert!(sh.external.is_none());
    assert!(sh.mode_override.is_none());
}

#[test]
fn mode_override() {
    let mut sh = SharedState::new();
    let r = dispatch(&mut sh, &Request { mode: Some("auto".to_string()), ..request("mode") }, NOW);
    assert!(ok(&r));
    assert_eq!(sh.mode_override, Some(Mode::Auto));
    let r = dispatch(&mut sh, &Request { mode: Some("zzz".to_string()), ..request("mode") }, NOW);
    assert!(!ok(&r));
}

#[test]
fn config_switches() {
    let mut sh = SharedState::new();
    assert!(ok(&dispatch(&mut sh, &Request { show_temp: Some(false), ..request("config") }, NOW)));
    assert_eq!(sh.show_temp_override, Some(false));
    assert_eq!(sh.show_usage_override, None);
    assert!(ok(&dispatch(&mut sh, &Request { show_temp: Some(true), ..request("config") }, NOW)));
    assert_eq!(sh.show_temp_override, Some(true));
    assert!(!ok(&dispatch(&mut sh, &request("config"), NOW)));
    dispatch(&mut sh, &Request { show_usage: Some(false), ..request("config") }, NOW).ok();
    dispatch(&mut sh, &request("release"), NOW).ok();
    assert!(sh.external.is_none());
    assert!(sh.mode_override.is_none());
    assert!(sh.show_temp_override.is_none());
    assert!(sh.show_usage_override.is_none());
}

#[test]
fn show_frame_is_taken_until_expiry() {
    let mut sh = SharedState::new();
    let req = Request { ttl_s: Some(5), unit: Some("f".to_string()), bar: Some(Bar::Level(10)), ..show(77) };
    assert!(ok(&dispatch(&mut sh, &req, NOW)));
    let expected = ExternalFrame { mode_byte: protocol::MODE_TEMP_F, bar: Some(10), value: 77, alarm: false, expires: NOW + 5000 };
    assert_eq!(take_live_external(&mut sh, NOW), Some(expected));
    assert_eq!(take_live_external(&mut sh, NOW + 4999), Some(expected));
    assert_eq!(sh.external, Some(expected));
    assert_eq!(take_live_external(&mut sh, NOW + 5000), None);
    assert_eq!(sh.external, None);
    assert_eq!(take_live_external(&mut sh, NOW), None);
}

#[test]
fn ttl_is_kept_between_one_second_and_one_hour() {
    let mut sh = SharedState::new();
    dispatch(&mut sh, &Request { ttl_s: Some(0), ..show(1) }, NOW).ok();
    assert_eq!(sh.external.unwrap().expires, NOW + 1000);
    dispatch(&mut sh, &Request { ttl_s: Some(u64::MAX), ..show(1) }, NOW).ok();
    assert_eq!(sh.external.unwrap().expires, NOW + MAX_TTL_S * 1000);
}

#[test]
fn show_checks_value_then_unit_then_bar() {
    let mut sh = SharedState::new();
    let bad_all = Request { unit: Some("x".to_string()), bar: Some(Bar::Level(12)), ..request("show") };
    assert!(matches!(dispatch(&mut sh, &bad_all, NOW), Err(ApiError::MissingValue)));
    let bad_unit_bar = Request { value: Some(3), ..bad_all };
    assert!(matches!(dispatch(&mut sh, &bad_unit_bar, NOW), Err(ApiError::UnknownUnit(_))));
    assert_eq!(sh, SharedState::new());
}

#[test]
fn mode_words_and_errors() {
    let mut sh = SharedState::new();
    dispatch(&mut sh, &Request { mode: Some("temperature".to_string()), ..request("mode") }, NOW).ok();
    assert_eq!(sh.mode_override, Some(Mode::Temp));
    dispatch(&mut sh, &Request { mode: Some("usage".to_string()), ..request("mode") }, NOW).ok();
    assert_eq!(sh.mode_override, Some(Mode::Usage));
    assert!(matches!(dispatch(&mut sh, &request("mode"), NOW), Err(ApiError::MissingMode)));
    let r = dispatch(&mut sh, &Request { mode: Some("Temp".to_string()), ..request("mode") }, NOW);
    assert!(matches!(r, Err(ApiError::UnknownMode(ref m)) if m == "Temp"));
    assert_eq!(sh.mode_override, Some(Mode::Usage));
    assert!(matches!(dispatch(&mut sh, &request("config"), NOW), Err(ApiError::MissingSwitch)));
}

#[test]
fn release_after_everything() {
    let mut sh = SharedState::new();
    dispatch(&mut sh, &show(9), NOW).ok();
    dispatch(&mut sh, &Request { mode: Some("temp".to_string()), ..request("mode") }, NOW).ok();
    dispatch(&mut sh, &Request { show_temp: Some(false), show_usage: Some(true), ..request("config") }, NOW).ok();
    assert_eq!(sh.show_usage_override, Some(true));
    assert!(matches!(dispatch(&mut sh, &request("release"), NOW), Ok(Reply::Done)));
    assert_eq!(sh, SharedState::default());
}
