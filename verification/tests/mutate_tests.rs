use audio_helper::device::AudioDeviceType;
use audio_helper::mutate::{
    encode_mute, mute, set_current_device, set_mute_command, write_result, MutationError,
};
use audio_helper::properties::{STATUS_BAD_OBJECT, STATUS_OK, STATUS_UNKNOWN_PROPERTY};
use audio_helper::query::is_muted;
use audio_helper::snapshot::{DeviceState, SystemSnapshot};

fn snap() -> SystemSnapshot {
    let mut s = SystemSnapshot::new(Some(1), Some(2));
    s.add_device(DeviceState {
        id: 1,
        name: Some("Mic".to_string()),
        supports_input: Some(true),
        mute: Some(false),
    });
    s.add_device(DeviceState {
        id: 2,
        name: Some("Speakers".to_string()),
        supports_input: Some(false),
        mute: None,
    });
    s
}

#[test]
fn mute_round_trip() {
    for m in [true, false] {
        let mut s = snap();
        assert_eq!(mute(&mut s, 1, m), Ok(()));
        assert_eq!(is_muted(&s, 1), Ok(m));
    }
}

#[test]
fn mute_twice_stays_muted() {
    let mut s = snap();
    assert_eq!(mute(&mut s, 1, true), Ok(()));
    assert_eq!(mute(&mut s, 1, true), Ok(()));
    assert_eq!(is_muted(&s, 1), Ok(true));
}

#[test]
fn mute_leaves_other_state_alone() {
    let mut s = snap();
    mute(&mut s, 1, true).unwrap();
    assert_eq!(s.default_input, Some(1));
    assert_eq!(s.default_output, Some(2));
    assert_eq!(s.devices.len(), 2);
    assert_eq!(s.devices[1].mute, None);
}

#[test]
fn mute_errors_carry_the_status() {
    let mut s = snap();
    assert_eq!(mute(&mut s, 99, true), Err(MutationError::WriteFailed(STATUS_BAD_OBJECT)));
    assert_eq!(mute(&mut s, 2, true), Err(MutationError::WriteFailed(STATUS_UNKNOWN_PROPERTY)));
    assert_eq!(is_muted(&s, 1), Ok(false));
}

#[test]
fn set_current_device_switches_one_direction() {
    let mut s = snap();
    assert_eq!(set_current_device(&mut s, 2, true), Ok(()));
    assert_eq!(s.default_input, Some(2));
    assert_eq!(s.default_output, Some(2));
    assert_eq!(set_current_device(&mut s, 1, false), Ok(()));
    assert_eq!(s.default_input, Some(2));
    assert_eq!(s.default_output, Some(1));
}

#[test]
fn set_current_device_rejects_unknown_id() {
    let mut s = snap();
    assert_eq!(
        set_current_device(&mut s, 99, true),
        Err(MutationError::WriteFailed(STATUS_BAD_OBJECT))
    );
    assert_eq!(s.default_input, Some(1));
    assert_eq!(s.default_output, Some(2));
}

#[test]
fn set_mute_command_returns_requeried_device() {
    let mut s = snap();
    let d = set_mute_command(&mut s, 1, true).unwrap();
    assert_eq!(d.id, 1);
    assert!(d.is_muted);
    assert_eq!(d.name, "Mic");
    assert_eq!(d.device_type, AudioDeviceType::Input);
    assert!(d.is_current);
    let d = set_mute_command(&mut s, 1, false).unwrap();
    assert!(!d.is_muted);
    assert_eq!(
        set_mute_command(&mut s, 99, true),
        Err(MutationError::WriteFailed(STATUS_BAD_OBJECT))
    );
}

#[test]
fn raw_write_helpers() {
    assert_eq!(encode_mute(true), 1);
    assert_eq!(encode_mute(false), 0);
    assert_eq!(write_result(STATUS_OK), Ok(()));
    assert_eq!(write_result(-4), Err(MutationError::WriteFailed(-4)));
    assert_eq!(
        write_result(STATUS_UNKNOWN_PROPERTY),
        Err(MutationError::WriteFailed(STATUS_UNKNOWN_PROPERTY))
    );
}
