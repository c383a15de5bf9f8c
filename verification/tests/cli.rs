use ak500s_mac::cli::{bar_arg, doctor_passed, parse_mode, parse_switch, reply_exit_code, switch_args, test_mode_byte, BarArg, SwitchArgsError, UnknownWord};
use ak500s_mac::config::Mode;
use ak500s_mac::protocol::{MODE_TEMP_C, MODE_USAGE};

#[test]
fn mode_option() {
    assert!(matches!(parse_mode(None), Ok(None)));
    assert!(matches!(parse_mode(Some("   ")), Ok(None)));
    assert!(matches!(parse_mode(Some(" temp ")), Ok(Some(Mode::Temp))));
    assert!(matches!(parse_mode(Some("temperature")), Ok(Some(Mode::Temp))));
    assert!(matches!(parse_mode(Some("usage")), Ok(Some(Mode::Usage))));
    assert!(matches!(parse_mode(Some("auto\n")), Ok(Some(Mode::Auto))));
    assert!(matches!(parse_mode(Some(" loud ")), Err(UnknownWord(ref w)) if w == "loud"));
}

#[test]
fn switch_option() {
    assert!(matches!(parse_switch(None), Ok(None)));
    for w in ["true", "on", "1", " on "] {
        assert!(matches!(parse_switch(Some(w)), Ok(Some(true))));
    }
    for w in ["false", "off", "0"] {
        assert!(matches!(parse_switch(Some(w)), Ok(Some(false))));
    }
    assert!(matches!(parse_switch(Some("yes")), Err(UnknownWord(ref w)) if w == "yes"));
}

#[test]
fn config_subcommand_switches() {
    assert!(matches!(switch_args(Some("off"), None), Ok((Some(false), None))));
    assert!(matches!(switch_args(None, Some("1")), Ok((None, Some(true)))));
    assert!(matches!(switch_args(None, None), Err(SwitchArgsError::NoneGiven)));
    assert!(matches!(switch_args(Some("x"), Some("y")), Err(SwitchArgsError::BadShowTemp(ref w)) if w == "x"));
    assert!(matches!(switch_args(Some("on"), Some("y")), Err(SwitchArgsError::BadShowUsage(ref w)) if w == "y"));
}

#[test]
fn test_subcommand_mode() {
    assert_eq!(test_mode_byte("temp"), Some(MODE_TEMP_C));
    assert_eq!(test_mode_byte("temperature"), Some(MODE_TEMP_C));
    assert_eq!(test_mode_byte("usage"), Some(MODE_USAGE));
    assert_eq!(test_mode_byte("auto"), None);
    assert_eq!(test_mode_byte(" temp"), None);
}

#[test]
fn bar_option() {
    assert!(matches!(bar_arg(None), BarArg::Absent));
    assert!(matches!(bar_arg(Some(" usage")), BarArg::Usage));
    assert!(matches!(bar_arg(Some("7")), BarArg::Level(7)));
    assert!(matches!(bar_arg(Some("+11")), BarArg::Level(11)));
    assert!(matches!(bar_arg(Some("255")), BarArg::Level(255)));
    assert!(matches!(bar_arg(Some("256")), BarArg::Word(ref w) if w == "256"));
    assert!(matches!(bar_arg(Some(" fast ")), BarArg::Word(ref w) if w == "fast"));
}

#[test]
fn reply_exit_codes() {
    assert_eq!(reply_exit_code(r#"{"ok":true}"#), 0);
    assert_eq!(reply_exit_code(r#"{"ok":true,"v":1}"#), 0);
    assert_eq!(reply_exit_code(r#"{"err":"x","ok":false}"#), 1);
    assert_eq!(reply_exit_code(""), 0);
}

#[test]
fn doctor_verdict() {
    assert!(doctor_passed(1, true));
    assert!(doctor_passed(2, true));
    assert!(!doctor_passed(0, true));
    assert!(!doctor_passed(1, false));
    assert!(!doctor_passed(0, false));
}
