use x32_vor_adapter::settings::{flag_from_name, AppSettings, SendFlag, VorFlag};

#[test]
fn vor_flag_switch_flips_and_returns() {
    assert_eq!(VorFlag::Include.switch(), VorFlag::Skip);
    assert_eq!(VorFlag::Skip.switch(), VorFlag::Include);
    assert_eq!(VorFlag::Include.switch().switch(), VorFlag::Include);
    assert_eq!(VorFlag::Skip.switch().switch(), VorFlag::Skip);
}

#[test]
fn vor_flag_bool_conversions() {
    let t: bool = VorFlag::Include.into();
    let f: bool = VorFlag::Skip.into();
    assert!(t);
    assert!(!f);
    assert_eq!(VorFlag::from(true), VorFlag::Include);
    assert_eq!(VorFlag::from(false), VorFlag::Skip);
    for flag in [VorFlag::Include, VorFlag::Skip] {
        let b: bool = flag.into();
        assert_eq!(VorFlag::from(b), flag);
        let s: bool = flag.switch().into();
        assert_eq!(s, !b);
    }
}

#[test]
fn vor_flag_default_is_skip() {
    assert_eq!(VorFlag::default(), VorFlag::Skip);
}

#[test]
fn default_settings_values() {
    let s = AppSettings::default();
    assert_eq!(s.x32_ip, "");
    assert_eq!(s.vor_ip, "127.0.0.1");
    assert_eq!(s.vor_port, "3333");
    assert_eq!(s.send_cue, VorFlag::Include);
    assert_eq!(s.send_aux, VorFlag::Skip);
    assert_eq!(s.send_bus, VorFlag::Skip);
    assert_eq!(s.send_dca, VorFlag::Include);
    assert_eq!(s.send_channel, VorFlag::Skip);
    assert_eq!(s.send_main, VorFlag::Skip);
    assert_eq!(s.send_matrix, VorFlag::Skip);
}

#[test]
fn flag_names() {
    assert_eq!(flag_from_name("aux"), Some(SendFlag::Aux));
    assert_eq!(flag_from_name("bus"), Some(SendFlag::Bus));
    assert_eq!(flag_from_name("channel"), Some(SendFlag::Channel));
    assert_eq!(flag_from_name("cue"), Some(SendFlag::Cue));
    assert_eq!(flag_from_name("dca"), Some(SendFlag::Dca));
    assert_eq!(flag_from_name("main"), Some(SendFlag::Main));
    assert_eq!(flag_from_name("matrix"), Some(SendFlag::Matrix));
    assert_eq!(flag_from_name("Aux"), None);
    assert_eq!(flag_from_name(""), None);
    assert_eq!(flag_from_name("mains"), None);
    assert_eq!(flag_from_name("mai"), None);
}

#[test]
fn set_flag_switches_only_the_named_flag() {
    let mut s = AppSettings::default();
    assert_eq!(s.set_flag("matrix"), Some(SendFlag::Matrix));
    assert_eq!(s.send_matrix, VorFlag::Include);
    let mut expected = AppSettings::default();
    expected.send_matrix = VorFlag::Include;
    assert_eq!(s, expected);

    assert_eq!(s.set_flag("cue"), Some(SendFlag::Cue));
    assert_eq!(s.send_cue, VorFlag::Skip);
    assert_eq!(s.flag(SendFlag::Cue), VorFlag::Skip);
}

#[test]
fn set_flag_twice_restores() {
    for name in ["aux", "bus", "channel", "cue", "dca", "main", "matrix"] {
        let mut s = AppSettings::default();
        s.set_flag(name);
        assert_ne!(s, AppSettings::default());
        s.set_flag(name);
        assert_eq!(s, AppSettings::default());
    }
}

#[test]
fn set_flag_unknown_changes_nothing() {
    let mut s = AppSettings::default();
    assert_eq!(s.set_flag("volume"), None);
    assert_eq!(s, AppSettings::default());
}

#[test]
fn toggle_by_kind() {
    let mut s = AppSettings::default();
    s.toggle(SendFlag::Dca);
    assert_eq!(s.send_dca, VorFlag::Skip);
    s.toggle(SendFlag::Channel);
    assert_eq!(s.send_channel, VorFlag::Include);
}

#[test]
fn set_x32_accepts_ipv4_only() {
    let mut s = AppSettings::default();
    assert!(s.set_x32("192.168.1.10"));
    assert_eq!(s.x32_ip, "192.168.1.10");

    for bad in ["192.168.1.300", "abc", "", "192.168.1", "192.168.1.10:10023", "::1"] {
        let before = s.clone();
        assert!(!s.set_x32(bad), "{bad}");
        assert_eq!(s, before);
    }
}

#[test]
fn accept_x32_ip_follows_validity() {
    let mut s = AppSettings::default();
    assert!(!s.accept_x32_ip("10.0.0.1", false));
    assert_eq!(s, AppSettings::default());
    assert!(s.accept_x32_ip("10.0.0.1", true));
    assert_eq!(s.x32_ip, "10.0.0.1");
}

#[test]
fn set_vor_ip_accepts_ipv4_only() {
    let mut s = AppSettings::default();
    assert!(s.set_vor_ip("10.1.2.3"));
    assert_eq!(s.vor_ip, "10.1.2.3");
    assert!(!s.set_vor_ip("localhost"));
    assert_eq!(s.vor_ip, "10.1.2.3");
    assert!(s.accept_vor_ip("10.9.9.9", true));
    assert_eq!(s.vor_ip, "10.9.9.9");
    assert!(!s.accept_vor_ip("10.8.8.8", false));
    assert_eq!(s.vor_ip, "10.9.9.9");
}

#[test]
fn set_vor_port_range() {
    let mut s = AppSettings::default();
    assert!(s.set_vor_port("1024"));
    assert_eq!(s.vor_port, "1024");
    assert!(s.set_vor_port("65535"));
    assert_eq!(s.vor_port, "65535");
    for bad in ["1023", "65536", "80", "0", "abc", "", "-5", "99999999999999999999999"] {
        let before = s.clone();
        assert!(!s.set_vor_port(bad), "{bad}");
        assert_eq!(s, before);
    }
}

#[test]
fn accept_vor_port_checks_the_parsed_value() {
    let mut s = AppSettings::default();
    assert!(s.accept_vor_port("4000", Some(4000)));
    assert_eq!(s.vor_port, "4000");
    assert!(!s.accept_vor_port("80", Some(80)));
    assert!(!s.accept_vor_port("x", None));
    assert_eq!(s.vor_port, "4000");
}

#[test]
fn resolve_loaded_prefers_stored_settings() {
    let mut stored = AppSettings::default();
    stored.x32_ip = String::from("10.0.0.7");
    let (s, write_back) = AppSettings::resolve_loaded(Some(stored.clone()));
    assert_eq!(s, stored);
    assert!(!write_back);

    let (s, write_back) = AppSettings::resolve_loaded(None);
    assert_eq!(s, AppSettings::default());
    assert!(write_back);
}
