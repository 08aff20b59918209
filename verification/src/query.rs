//! Stateless device queries over a snapshot.
//!
//! Every operation here is best-effort in the same way the OS path is: a
//! field whose read failed degrades to a default (placeholder name, output
//! classification, unmuted) instead of failing the call. The one exception is
//! the strict mute read, which the mutation-result path depends on and which
//! therefore surfaces a real error.

use vstd::prelude::*;

use crate::device::{AudioDevice, AudioDeviceType};
use crate::properties::STATUS_OK;
use crate::snapshot::SystemSnapshot;

verus! {

/// Why a strict property read failed.
#[derive(Clone, Copy, Debug, PartialEq, Eq, Structural)]
pub enum QueryError {
    /// The size query failed or reported nothing to read: the device is gone
    /// or does not carry the property.
    PropertyUnavailable,
    /// The value read itself came back with this non-success status.
    ReadFailed(i32),
}

/// What a correctly built device value reports about a snapshot and an id:
/// identity, best-effort name, derived direction, default-ness for that
/// derived direction, and the display mute flag.
pub open spec fn is_device_for(d: AudioDevice, s: SystemSnapshot, id: u32) -> bool {
    &&& d.id == id
    &&& d.name@ == s.spec_name(id)
    &&& d.device_type == (if s.spec_is_input(id) {
        AudioDeviceType::Input
    } else {
        AudioDeviceType::Output
    })
    &&& d.is_current == s.spec_is_current(id)
    &&& d.is_muted == s.spec_mute_display(id)
}

/// The placeholder used where the OS would not report a name.
fn placeholder_name() -> (r: String)
    ensures
        r@ == "N/A"@,
{
    "N/A".to_string()
}

/// Builds the device value for one id from the snapshot, degrading each
/// unavailable field to its default rather than failing.
pub fn create_device(snapshot: &SystemSnapshot, device_id: u32) -> (d: AudioDevice)
    ensures
        is_device_for(d, *snapshot, device_id),
{
    let name: String;
    let supports_input: bool;
    let muted: bool;
    match snapshot.find_state(device_id) {
        Some(state) => {
            name = match &state.name {
                Some(n) => n.clone(),
                None => placeholder_name(),
            };
            supports_input = match state.supports_input {
                Some(b) => b,
                None => false,
            };
            muted = match state.mute {
                Some(b) => b,
                None => false,
            };
        },
        None => {
            name = placeholder_name();
            supports_input = false;
            muted = false;
        },
    }
    let is_current = match snapshot.default_id(supports_input) {
        Some(cur) => cur == device_id,
        None => false,
    };
    AudioDevice {
        id: device_id,
        name,
        device_type: if supports_input {
            AudioDeviceType::Input
        } else {
            AudioDeviceType::Output
        },
        is_current,
        is_muted: muted,
    }
}

/// Maps every recorded device to its reported value. Enumeration failure is
/// represented by an empty snapshot, so this never errors; and since a
/// well-formed snapshot carries one record per id, the ids in the result are
/// unique within one call's result set.
pub fn get_device_list(snapshot: &SystemSnapshot) -> (r: Vec<AudioDevice>)
    ensures
        r@.len() == snapshot.devices@.len(),
        forall|i: int|
            0 <= i < r@.len() ==> r@[i].id == snapshot.devices@[i].id && is_device_for(
                r@[i],
                *snapshot,
                snapshot.devices@[i].id,
            ),
        snapshot.wf() ==> (forall|i: int, j: int|
            0 <= i < j < r@.len() ==> r@[i].id != r@[j].id),
{
    let mut out: Vec<AudioDevice> = Vec::new();
    let n = snapshot.devices.len();
    let mut i: usize = 0;
    while i < n
        invariant
            n == snapshot.devices@.len(),
            i <= n,
            out@.len() == i,
            forall|k: int|
                0 <= k < i ==> out@[k].id == snapshot.devices@[k].id && is_device_for(
                    out@[k],
                    *snapshot,
                    snapshot.devices@[k].id,
                ),
        decreases n - i,
    {
        let id = snapshot.devices[i].id;
        let d = create_device(snapshot, id);
        out.push(d);
        i = i + 1;
    }
    out
}

/// The default device for the requested direction, fully built; `None` where
/// the OS reports no default.
pub fn get_current_device(snapshot: &SystemSnapshot, input: bool) -> (r: Option<AudioDevice>)
    ensures
        r is Some <==> snapshot.spec_default(input) is Some,
        r matches Some(d) ==> snapshot.spec_default(input) == Some(d.id) && is_device_for(
            d,
            *snapshot,
            d.id,
        ),
{
    match snapshot.default_id(input) {
        Some(id) => Some(create_device(snapshot, id)),
        None => None,
    }
}

/// The strict mute read: succeeds exactly where the snapshot carries a
/// readable mute switch for the device, and errs otherwise.
pub fn is_muted(snapshot: &SystemSnapshot, device_id: u32) -> (r: Result<bool, QueryError>)
    ensures
        match snapshot.spec_mute_read(device_id) {
            Some(m) => r == Ok::<bool, QueryError>(m),
            None => r == Err::<bool, QueryError>(QueryError::PropertyUnavailable),
        },
{
    match snapshot.find_state(device_id) {
        Some(state) => match state.mute {
            Some(m) => Ok(m),
            None => Err(QueryError::PropertyUnavailable),
        },
        None => Err(QueryError::PropertyUnavailable),
    }
}

/// First step of the raw two-step mute read: the size query. The read goes on
/// only when the OS reported success and a non-empty value.
pub fn mute_size_result(status: i32, data_size: u32) -> (r: Result<u32, QueryError>)
    ensures
        status == STATUS_OK && data_size != 0 ==> r == Ok::<u32, QueryError>(data_size),
        status != STATUS_OK || data_size == 0 ==> r == Err::<u32, QueryError>(
            QueryError::PropertyUnavailable,
        ),
{
    if status == STATUS_OK && data_size != 0 {
        Ok(data_size)
    } else {
        Err(QueryError::PropertyUnavailable)
    }
}

/// Second step of the raw mute read: decode the 32-bit value the OS wrote,
/// where any non-zero value means muted.
pub fn mute_value_result(status: i32, raw: u32) -> (r: Result<bool, QueryError>)
    ensures
        status == STATUS_OK ==> r == Ok::<bool, QueryError>(raw != 0),
        status != STATUS_OK ==> r == Err::<bool, QueryError>(QueryError::ReadFailed(status)),
{
    if status == STATUS_OK {
        Ok(raw != 0)
    } else {
        Err(QueryError::ReadFailed(status))
    }
}

/// A device the current-device query returns is marked current, provided the
/// default the snapshot names for the queried direction classifies to that
/// same direction. (A device that is the default for one direction but
/// classifies to the other is reported with `is_current` false.)
pub proof fn lemma_current_device_is_current(s: SystemSnapshot, input: bool, d: AudioDevice)
    requires
        is_device_for(d, s, d.id),
        s.spec_default(input) == Some(d.id),
        s.spec_is_input(d.id) == input,
    ensures
        d.is_current,
{
}

} // verus!
