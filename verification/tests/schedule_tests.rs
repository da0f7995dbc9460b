use x32_vor_adapter::refresh::{packet_status, x32_target, RefreshAction, RefreshSchedule, FULL_UPDATE_PERIOD};

#[test]
fn first_step_requests_everything() {
    let mut s = RefreshSchedule::new();
    assert_eq!(s.steps(), 0);
    assert_eq!(s.step(false, true, true), RefreshAction::SubscribeAndFullUpdate);
    assert_eq!(s.steps(), 1);
}

#[test]
fn subscription_every_fifth_step_full_update_every_300() {
    let mut s = RefreshSchedule::new();
    let mut actions = Vec::new();
    for _ in 0..601 {
        actions.push(s.step(false, true, true));
    }
    for (i, a) in actions.iter().enumerate() {
        let expected = if i % 300 == 0 {
            RefreshAction::SubscribeAndFullUpdate
        } else if i % 5 == 0 {
            RefreshAction::Subscribe
        } else {
            RefreshAction::Idle
        };
        assert_eq!(*a, expected, "step {i}");
        assert!(s.steps() <= FULL_UPDATE_PERIOD);
    }
}

#[test]
fn forced_step_restarts_the_cycle() {
    let mut s = RefreshSchedule::new();
    for _ in 0..7 {
        s.step(false, true, true);
    }
    assert_eq!(s.step(true, true, true), RefreshAction::SubscribeAndFullUpdate);
    assert_eq!(s.steps(), 1);
    for _ in 0..4 {
        assert_eq!(s.step(false, true, true), RefreshAction::Idle);
    }
    assert_eq!(s.step(false, true, true), RefreshAction::Subscribe);
}

#[test]
fn nothing_without_address() {
    let mut s = RefreshSchedule::new();
    assert_eq!(s.step(false, false, true), RefreshAction::Idle);
    let mut s = RefreshSchedule::new();
    assert_eq!(s.step(true, true, false), RefreshAction::Idle);
    assert_eq!(s.steps(), 1);
}

#[test]
fn poll_builds_the_target() {
    let mut s = RefreshSchedule::new();
    assert_eq!(s.poll(false, "192.168.0.64"), RefreshAction::SubscribeAndFullUpdate);
    let mut s = RefreshSchedule::new();
    assert_eq!(s.poll(false, ""), RefreshAction::Idle);
    let mut s = RefreshSchedule::new();
    assert_eq!(s.poll(false, "not-an-address"), RefreshAction::Idle);
    assert_eq!(s.steps(), 1);
}

#[test]
fn x32_target_text() {
    assert_eq!(x32_target("10.0.0.1"), "10.0.0.1:10023");
    assert_eq!(x32_target(""), ":10023");
}

#[test]
fn packet_status_thresholds() {
    assert_eq!(packet_status(0), 2);
    assert_eq!(packet_status(6), 2);
    assert_eq!(packet_status(7), 1);
    assert_eq!(packet_status(30), 1);
    assert_eq!(packet_status(31), 0);
    assert_eq!(packet_status(u64::MAX), 0);
}
