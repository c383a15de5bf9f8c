use ak500s_mac::config::{config_path, load_from, CliOverrides, Config, Mode};

fn load_with(text: &str) -> Config {
    load_from(Some(text), CliOverrides::default())
}

#[test]
fn defaults_and_unknown_keys() {
    let c = load_with("# 注释\nunknown=1\n");
    assert!(c.show_temp && c.show_usage);
    assert_eq!(c.mode, Mode::Auto);
}

#[test]
fn show_switches() {
    let c = load_with("show_temp=false\nshow_usage=off\nmode=usage\n");
    assert!(!c.show_temp);
    assert!(!c.show_usage);
    assert_eq!(c.mode, Mode::Usage);
}

#[test]
fn show_switches_on_forms() {
    let c = load_with("show_temp=1\nshow_usage=on\n");
    assert!(c.show_temp && c.show_usage);
}

#[test]
fn cli_overrides_win() {
    let cfg = load_from(None, CliOverrides { show_temp: Some(false), interval_ms: Some(750), ..Default::default() });
    assert!(!cfg.show_temp);
    assert_eq!(cfg.interval_ms, 750);
}

#[test]
fn default_settings() {
    let c = Config::default();
    assert_eq!(c.mode, Mode::Auto);
    assert!(!c.fahrenheit);
    assert_eq!(c.interval_ms, 1000);
    assert!(c.alarm_c_values.is_empty());
    assert_eq!(c.auto_switch_s, 5);
    assert!(c.show_temp && c.show_usage);
    let c = load_from(None, CliOverrides::default());
    assert_eq!(c.interval_ms, 1000);
}

#[test]
fn every_key_is_read() {
    let c = load_with("  mode = temperature \r\nunit=F\ninterval_ms=+1500\nalarm_c=85.5\nauto_switch_s=7\nshow_temp=on\nshow_usage=0");
    assert_eq!(c.mode, Mode::Temp);
    assert!(c.fahrenheit);
    assert_eq!(c.interval_ms, 1500);
    assert_eq!(c.alarm_c_values, vec!["85.5".to_string()]);
    assert_eq!(c.auto_switch_s, 7);
    assert!(c.show_temp);
    assert!(!c.show_usage);
}

#[test]
fn bad_values_keep_the_setting() {
    let c = load_with("mode=loud\ninterval_ms=fast\ninterval_ms=-5\nauto_switch_s=99999999999999999999\nno equals sign\n=3");
    assert_eq!(c.mode, Mode::Auto);
    assert_eq!(c.interval_ms, 1000);
    assert_eq!(c.auto_switch_s, 5);
}

#[test]
fn later_lines_override_earlier() {
    let c = load_with("mode=usage\nfahrenheit=true\nmode=temp\nunit=c\nalarm_c=80\nalarm_c=x");
    assert_eq!(c.mode, Mode::Temp);
    assert!(!c.fahrenheit);
    assert_eq!(c.alarm_c_values, vec!["80".to_string(), "x".to_string()]);
}

#[test]
fn interval_is_kept_in_bounds() {
    assert_eq!(load_with("interval_ms=50").interval_ms, 300);
    assert_eq!(load_with("interval_ms=300").interval_ms, 300);
    assert_eq!(load_with("interval_ms=3000").interval_ms, 3000);
    assert_eq!(load_with("interval_ms=60000").interval_ms, 3000);
    let c = load_from(Some("interval_ms=500"), CliOverrides { interval_ms: Some(10), ..Default::default() });
    assert_eq!(c.interval_ms, 300);
}

#[test]
fn command_line_over_file_over_defaults() {
    let o = CliOverrides { mode: Some(Mode::Temp), fahrenheit: Some(false), show_usage: Some(true), ..Default::default() };
    let c = load_from(Some("mode=usage\nunit=f\nshow_usage=false\nshow_temp=false\nauto_switch_s=3"), o);
    assert_eq!(c.mode, Mode::Temp);
    assert!(!c.fahrenheit);
    assert!(c.show_usage);
    assert!(!c.show_temp);
    assert_eq!(c.auto_switch_s, 3);
}

#[test]
fn comments_and_blank_lines_are_skipped() {
    let c = load_with("\n\n   \n# mode=usage\n   # show_temp=false\n");
    assert_eq!(c.mode, Mode::Auto);
    assert!(c.show_temp);
}

#[test]
fn config_path_from_environment() {
    assert_eq!(config_path(Some("/x/cfg"), Some("/home/u")).as_deref(), Some("/x/cfg/ak500s-mac/config"));
    assert_eq!(config_path(Some("/x/cfg/"), None).as_deref(), Some("/x/cfg/ak500s-mac/config"));
    assert_eq!(config_path(Some(""), Some("/home/u")).as_deref(), Some("/home/u/.config/ak500s-mac/config"));
    assert_eq!(config_path(None, Some("/home/u/")).as_deref(), Some("/home/u/.config/ak500s-mac/config"));
    assert_eq!(config_path(None, Some("")).as_deref(), Some(".config/ak500s-mac/config"));
    assert_eq!(config_path(Some(""), None), None);
    assert_eq!(config_path(None, None), None);
}
