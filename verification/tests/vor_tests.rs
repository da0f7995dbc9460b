use x32_vor_adapter::listener::{route_report, ConsoleEvent, ConsoleReport};
use x32_vor_adapter::osc::cue_packet;
use x32_vor_adapter::settings::{AppSettings, VorFlag};
use x32_vor_adapter::vor::{plan_vor_update, vor_plan, vor_target, vor_update_for, FaderGroup, VorItem};

#[test]
fn default_plan_is_cue_then_dca() {
    let s = AppSettings::default();
    assert_eq!(vor_plan(&s), vec![VorItem::CurrentCue, VorItem::Faders(FaderGroup::Dca)]);
    assert_eq!(plan_vor_update(&s), vec![VorItem::CurrentCue, VorItem::Faders(FaderGroup::Dca)]);
}

#[test]
fn full_plan_order() {
    let mut s = AppSettings::default();
    s.send_aux = VorFlag::Include;
    s.send_bus = VorFlag::Include;
    s.send_channel = VorFlag::Include;
    s.send_main = VorFlag::Include;
    s.send_matrix = VorFlag::Include;
    assert_eq!(
        vor_plan(&s),
        vec![
            VorItem::CurrentCue,
            VorItem::Faders(FaderGroup::Dca),
            VorItem::Faders(FaderGroup::Main),
            VorItem::Faders(FaderGroup::Matrix),
            VorItem::Faders(FaderGroup::Aux),
            VorItem::Faders(FaderGroup::Bus),
            VorItem::Faders(FaderGroup::Channel),
        ]
    );
}

#[test]
fn empty_plan_when_everything_skipped() {
    let mut s = AppSettings::default();
    s.send_cue = VorFlag::Skip;
    s.send_dca = VorFlag::Skip;
    assert!(vor_plan(&s).is_empty());
}

#[test]
fn no_update_without_target() {
    let mut s = AppSettings::default();
    s.vor_ip = String::new();
    assert!(plan_vor_update(&s).is_empty());

    let mut s = AppSettings::default();
    s.vor_port = String::new();
    assert!(plan_vor_update(&s).is_empty());

    let mut s = AppSettings::default();
    s.vor_port = String::from("abc");
    assert!(plan_vor_update(&s).is_empty());
}

#[test]
fn vor_target_text() {
    assert_eq!(vor_target(&AppSettings::default()), "127.0.0.1:3333");
}

#[test]
fn cue_packet_bytes() {
    let bytes = cue_packet("Cue: 1");
    let mut expected: Vec<u8> = b"/currentCue\0".to_vec();
    expected.extend_from_slice(b",s\0\0");
    expected.extend_from_slice(b"Cue: 1\0\0");
    assert_eq!(bytes, expected);
    assert_eq!(bytes.len() % 4, 0);
}

#[test]
fn cue_packet_pads_a_full_word() {
    let bytes = cue_packet("abcd");
    let mut expected: Vec<u8> = b"/currentCue\0".to_vec();
    expected.extend_from_slice(b",s\0\0");
    expected.extend_from_slice(b"abcd\0\0\0\0");
    assert_eq!(bytes, expected);
}

#[test]
fn cue_packet_empty_name() {
    let bytes = cue_packet("");
    let mut expected: Vec<u8> = b"/currentCue\0".to_vec();
    expected.extend_from_slice(b",s\0\0");
    expected.extend_from_slice(b"\0\0\0\0");
    assert_eq!(bytes, expected);
}

#[test]
fn routing_of_reports() {
    assert!(route_report(ConsoleReport::NoOperation).is_none());
    assert!(matches!(route_report(ConsoleReport::Fader), Some(ConsoleEvent::SingleFader)));
    assert!(matches!(route_report(ConsoleReport::Meters(0)), Some(ConsoleEvent::MeterUpdate0)));
    assert!(matches!(route_report(ConsoleReport::Meters(5)), Some(ConsoleEvent::MeterUpdate5)));
    assert!(route_report(ConsoleReport::Meters(1)).is_none());
    match route_report(ConsoleReport::CurrentCue(String::from("Cue: 1.0.0"))) {
        Some(ConsoleEvent::CueCurrent(s)) => assert_eq!(s, "Cue: 1.0.0"),
        _ => panic!("expected a cue event"),
    }
}

#[test]
fn event_names() {
    assert_eq!(ConsoleEvent::MeterUpdate0.name(), "meter-update-0");
    assert_eq!(ConsoleEvent::MeterUpdate5.name(), "meter-update-5");
    assert_eq!(ConsoleEvent::SingleFader.name(), "single-fader");
    assert_eq!(ConsoleEvent::CueCurrent(String::new()).name(), "cue-current");
}

#[test]
fn update_for_target_result() {
    let s = AppSettings::default();
    assert_eq!(vor_update_for(&s, true), vec![VorItem::CurrentCue, VorItem::Faders(FaderGroup::Dca)]);
    assert!(vor_update_for(&s, false).is_empty());
    let mut t = AppSettings::default();
    t.vor_ip = String::new();
    assert!(vor_update_for(&t, true).is_empty());
}

#[test]
fn toggling_a_flag_moves_one_item() {
    let mut s = AppSettings::default();
    s.set_flag("bus");
    assert_eq!(vor_plan(&s), vec![VorItem::CurrentCue, VorItem::Faders(FaderGroup::Dca), VorItem::Faders(FaderGroup::Bus)]);
    s.set_flag("cue");
    assert_eq!(vor_plan(&s), vec![VorItem::Faders(FaderGroup::Dca), VorItem::Faders(FaderGroup::Bus)]);
}
