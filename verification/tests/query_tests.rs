use audio_helper::device::AudioDeviceType;
use audio_helper::properties::STATUS_OK;
use audio_helper::query::{
    create_device, get_current_device, get_device_list, is_muted, mute_size_result,
    mute_value_result, QueryError,
};
use audio_helper::snapshot::{DeviceState, SystemSnapshot};

fn state(id: u32, name: &str, input: bool, mute: Option<bool>) -> DeviceState {
    DeviceState { id, name: Some(name.to_string()), supports_input: Some(input), mute }
}

#[test]
fn device_list_ids_unique() {
    let mut snap = SystemSnapshot::new(Some(1), Some(2));
    snap.add_device(state(1, "Mic", true, Some(false)));
    snap.add_device(state(2, "Speakers", false, None));
    snap.add_device(state(1, "Mic again", true, Some(true)));
    let list = get_device_list(&snap);
    assert_eq!(list.len(), 2);
    for i in 0..list.len() {
        for j in 0..list.len() {
            if i != j {
                assert_ne!(list[i].id, list[j].id);
            }
        }
    }
    assert_eq!(list[0].name, "Mic");
    assert_eq!(list[1].name, "Speakers");
}

#[test]
fn device_list_of_empty_snapshot_is_empty() {
    let snap = SystemSnapshot::new(None, None);
    assert!(get_device_list(&snap).is_empty());
}

#[test]
fn device_fields_built_best_effort() {
    let mut snap = SystemSnapshot::new(Some(7), None);
    snap.add_device(DeviceState { id: 7, name: None, supports_input: Some(true), mute: None });
    let d = create_device(&snap, 7);
    assert_eq!(d.id, 7);
    assert_eq!(d.name, "N/A");
    assert_eq!(d.device_type, AudioDeviceType::Input);
    assert!(d.is_current);
    assert!(!d.is_muted);
}

#[test]
fn unknown_device_gets_placeholder_fields() {
    let snap = SystemSnapshot::new(None, None);
    let d = create_device(&snap, 42);
    assert_eq!(d.id, 42);
    assert_eq!(d.name, "N/A");
    assert_eq!(d.device_type, AudioDeviceType::Output);
    assert!(!d.is_current);
    assert!(!d.is_muted);
}

#[test]
fn current_device_is_marked_current() {
    let mut snap = SystemSnapshot::new(Some(3), Some(4));
    snap.add_device(state(3, "Mic", true, Some(false)));
    snap.add_device(state(4, "Speakers", false, None));
    let din = get_current_device(&snap, true).unwrap();
    assert_eq!(din.id, 3);
    assert_eq!(din.device_type, AudioDeviceType::Input);
    assert!(din.is_current);
    let dout = get_current_device(&snap, false).unwrap();
    assert_eq!(dout.id, 4);
    assert_eq!(dout.device_type, AudioDeviceType::Output);
    assert!(dout.is_current);
}

#[test]
fn no_default_yields_none() {
    let snap = SystemSnapshot::new(None, None);
    assert!(get_current_device(&snap, true).is_none());
    assert!(get_current_device(&snap, false).is_none());
}

#[test]
fn strict_mute_read_results() {
    let mut snap = SystemSnapshot::new(None, None);
    snap.add_device(state(5, "Mic", true, Some(true)));
    snap.add_device(state(6, "Other", true, None));
    assert_eq!(is_muted(&snap, 5), Ok(true));
    assert_eq!(is_muted(&snap, 6), Err(QueryError::PropertyUnavailable));
    assert_eq!(is_muted(&snap, 9), Err(QueryError::PropertyUnavailable));
}

#[test]
fn raw_mute_read_steps() {
    assert_eq!(mute_size_result(STATUS_OK, 4), Ok(4));
    assert_eq!(mute_size_result(STATUS_OK, 0), Err(QueryError::PropertyUnavailable));
    assert_eq!(mute_size_result(-50, 4), Err(QueryError::PropertyUnavailable));
    assert_eq!(mute_value_result(STATUS_OK, 1), Ok(true));
    assert_eq!(mute_value_result(STATUS_OK, 2), Ok(true));
    assert_eq!(mute_value_result(STATUS_OK, 0), Ok(false));
    assert_eq!(mute_value_result(-50, 1), Err(QueryError::ReadFailed(-50)));
}
