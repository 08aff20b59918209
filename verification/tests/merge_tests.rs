use audio_helper::merge::{mute_changed_event, republish, AppEvent, MergeLoop, NotificationEvent};
use audio_helper::poll::SlowPoll;
use audio_helper::query::create_device;
use audio_helper::snapshot::{DeviceState, SystemSnapshot};

fn snap() -> SystemSnapshot {
    let mut s = SystemSnapshot::new(Some(3), Some(4));
    s.add_device(DeviceState {
        id: 3,
        name: Some("Mic".to_string()),
        supports_input: Some(true),
        mute: Some(false),
    });
    s.add_device(DeviceState {
        id: 4,
        name: Some("Speakers".to_string()),
        supports_input: Some(false),
        mute: None,
    });
    s
}

#[test]
fn republished_default_change_reflects_requery() {
    let s = snap();
    let ra = republish(NotificationEvent::DefaultDeviceChanged(999), &s);
    let rb = republish(NotificationEvent::DefaultDeviceChanged(3), &s);
    match (ra, rb) {
        (Some(AppEvent::InputDeviceChanged(da)), Some(AppEvent::InputDeviceChanged(db))) => {
            assert_eq!(da.id, 3);
            assert_eq!(da.name, "Mic");
            assert!(da.is_current);
            assert_eq!(da, db);
        },
        _ => panic!("expected input-device-changed events"),
    }
}

#[test]
fn republished_default_change_without_default_is_dropped() {
    let s = SystemSnapshot::new(None, None);
    assert_eq!(republish(NotificationEvent::DefaultDeviceChanged(3), &s), None);
}

#[test]
fn republished_mute_change_reads_fresh_flag() {
    let e = mute_changed_event(3, 1);
    assert_eq!(e, NotificationEvent::MuteChanged(3, true));
    let s = snap();
    assert_eq!(republish(e, &s), Some(AppEvent::MuteChanged(3, false)));
    assert_eq!(mute_changed_event(3, 0), NotificationEvent::MuteChanged(3, false));
    assert_eq!(
        republish(NotificationEvent::MuteChanged(9, false), &s),
        Some(AppEvent::MuteChanged(9, false))
    );
}

#[test]
fn loop_stops_only_when_all_channels_close() {
    let mut m = MergeLoop::new();
    assert!(!m.should_stop());
    m.note_default_closed();
    assert!(!m.should_stop());
    m.note_mute_closed();
    assert!(m.should_stop());
}

#[test]
fn poll_reports_change_once_per_reading() {
    let mut p = SlowPoll::new();
    assert!(p.observe(Some(4)));
    assert!(!p.observe(Some(4)));
    assert!(p.observe(Some(5)));
    assert!(!p.observe(None));
    assert!(p.observe(Some(5)));
}

#[test]
fn both_paths_may_report_the_same_change() {
    let s = snap();
    let via_listener = republish(NotificationEvent::DefaultDeviceChanged(3), &s).unwrap();
    let mut poll = SlowPoll::new();
    assert!(poll.observe(s.default_input));
    let via_poll = AppEvent::InputDeviceChanged(create_device(&s, 3));
    let delivered = vec![via_listener, via_poll];
    assert_eq!(delivered[0], delivered[1]);
    assert_eq!(delivered.len(), 2);
}
