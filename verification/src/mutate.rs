//! Property writes: set a device's mute switch, switch the default device.
//!
//! Both operations are single synchronous writes with no retry and no
//! read-after-write verification; a caller that needs confirmed post-state
//! re-queries. The snapshot operations here state what an applied write does
//! to the recorded state, and the round-trip lemmas below connect a write to
//! the strict mute read.

use vstd::prelude::*;

use crate::device::AudioDevice;
use crate::properties::{STATUS_BAD_OBJECT, STATUS_OK, STATUS_UNKNOWN_PROPERTY};
use crate::query::{create_device, is_device_for};
use crate::snapshot::{
    find_device, lemma_find_device_id, DeviceState, SystemSnapshot,
};

verus! {

/// Why a property write failed; carries the status the OS reported.
#[derive(Clone, Copy, Debug, PartialEq, Eq, Structural)]
pub enum MutationError {
    WriteFailed(i32),
}

/// Encodes a mute flag as the 4-byte integer the OS property store takes:
/// one to mute, zero to unmute.
pub fn encode_mute(mute: bool) -> (v: u32)
    ensures
        v == (if mute {
            1u32
        } else {
            0u32
        }),
        (v != 0) == mute,
{
    if mute {
        1
    } else {
        0
    }
}

/// Interprets the status an OS property write returned.
pub fn write_result(status: i32) -> (r: Result<(), MutationError>)
    ensures
        status == STATUS_OK ==> r == Ok::<(), MutationError>(()),
        status != STATUS_OK ==> r == Err::<(), MutationError>(MutationError::WriteFailed(status)),
{
    if status == STATUS_OK {
        Ok(())
    } else {
        Err(MutationError::WriteFailed(status))
    }
}

/// How one record looks after a mute write for `id` with value `m`: the
/// switch of a record with that id reads `m`, every other field stays.
pub open spec fn mute_updated(pre: DeviceState, post: DeviceState, id: u32, m: bool) -> bool {
    &&& post.id == pre.id
    &&& post.name == pre.name
    &&& post.supports_input == pre.supports_input
    &&& post.mute == (if pre.id == id {
        Some(m)
    } else {
        pre.mute
    })
}

/// How a mute write for `id` with value `m` relates the snapshot before the
/// write to the snapshot after it: record for record as `mute_updated`, with
/// the default-device selections untouched.
pub open spec fn mute_transition(
    pre: SystemSnapshot,
    post: SystemSnapshot,
    id: u32,
    m: bool,
) -> bool {
    &&& post.default_input == pre.default_input
    &&& post.default_output == pre.default_output
    &&& post.devices@.len() == pre.devices@.len()
    &&& forall|i: int|
        0 <= i < pre.devices@.len() ==> mute_updated(pre.devices@[i], post.devices@[i], id, m)
}

/// Writes the mute switch of one device. Succeeds exactly where the snapshot
/// carries a readable switch for the id; a write to an unknown device or to a
/// device without the property fails with the status the OS reports for it.
pub fn mute(snapshot: &mut SystemSnapshot, device_id: u32, on: bool) -> (r: Result<
    (),
    MutationError,
>)
    requires
        old(snapshot).wf(),
    ensures
        final(snapshot).wf(),
        old(snapshot).spec_mute_read(device_id) is Some ==> r == Ok::<(), MutationError>(())
            && mute_transition(*old(snapshot), *final(snapshot), device_id, on),
        old(snapshot).spec_find(device_id) is None ==> r == Err::<(), MutationError>(
            MutationError::WriteFailed(STATUS_BAD_OBJECT),
        ) && *final(snapshot) == *old(snapshot),
        (old(snapshot).spec_find(device_id) is Some && old(snapshot).spec_mute_read(device_id)
            is None) ==> r == Err::<(), MutationError>(
            MutationError::WriteFailed(STATUS_UNKNOWN_PROPERTY),
        ) && *final(snapshot) == *old(snapshot),
{
    match snapshot.find_index(device_id) {
        None => Err(MutationError::WriteFailed(STATUS_BAD_OBJECT)),
        Some(i) => {
            if snapshot.devices[i].mute.is_none() {
                Err(MutationError::WriteFailed(STATUS_UNKNOWN_PROPERTY))
            } else {
                let dev = &mut snapshot.devices[i];
                dev.mute = Some(on);
                proof {
                    assert forall|k: int|
                        0 <= k < old(snapshot).devices@.len() implies mute_updated(
                        old(snapshot).devices@[k],
                        snapshot.devices@[k],
                        device_id,
                        on,
                    ) by {
                        if k != i as int {
                            assert(snapshot.devices@[k] == old(snapshot).devices@[k]);
                        }
                    }
                    assert(final(snapshot).wf());
                }
                Ok(())
            }
        },
    }
}

/// Makes one device the system default for the given direction. Succeeds
/// exactly where the snapshot knows the device; the other direction's default
/// and every device record stay as they were.
pub fn set_current_device(snapshot: &mut SystemSnapshot, device_id: u32, input: bool) -> (r: Result<
    (),
    MutationError,
>)
    ensures
        old(snapshot).wf() ==> final(snapshot).wf(),
        old(snapshot).spec_find(device_id) is Some ==> r == Ok::<(), MutationError>(())
            && final(snapshot).spec_default(input) == Some(device_id)
            && final(snapshot).spec_default(!input) == old(snapshot).spec_default(!input)
            && final(snapshot).devices@ == old(snapshot).devices@,
        old(snapshot).spec_find(device_id) is None ==> r == Err::<(), MutationError>(
            MutationError::WriteFailed(STATUS_BAD_OBJECT),
        ) && *final(snapshot) == *old(snapshot),
{
    match snapshot.find_index(device_id) {
        None => Err(MutationError::WriteFailed(STATUS_BAD_OBJECT)),
        Some(_) => {
            if input {
                snapshot.default_input = Some(device_id);
            } else {
                snapshot.default_output = Some(device_id);
            }
            Ok(())
        },
    }
}

/// The boundary form of the mute command: writes the switch, then rebuilds
/// the device from the state after the write, so the caller sees actual
/// post-mutation state rather than assumed success. On an applied write the
/// returned device reports exactly the written flag.
pub fn set_mute_command(snapshot: &mut SystemSnapshot, device_id: u32, on: bool) -> (r: Result<
    AudioDevice,
    MutationError,
>)
    requires
        old(snapshot).wf(),
    ensures
        final(snapshot).wf(),
        old(snapshot).spec_mute_read(device_id) is Some ==> mute_transition(
            *old(snapshot),
            *final(snapshot),
            device_id,
            on,
        ) && (r matches Ok(d) && is_device_for(d, *final(snapshot), device_id) && d.is_muted
            == on),
        old(snapshot).spec_find(device_id) is None ==> r == Err::<AudioDevice, MutationError>(
            MutationError::WriteFailed(STATUS_BAD_OBJECT),
        ) && *final(snapshot) == *old(snapshot),
        (old(snapshot).spec_find(device_id) is Some && old(snapshot).spec_mute_read(device_id)
            is None) ==> r == Err::<AudioDevice, MutationError>(
            MutationError::WriteFailed(STATUS_UNKNOWN_PROPERTY),
        ) && *final(snapshot) == *old(snapshot),
{
    match mute(snapshot, device_id, on) {
        Ok(()) => {
            proof {
                lemma_mute_round_trip(*old(snapshot), *snapshot, device_id, on);
            }
            Ok(create_device(snapshot, device_id))
        },
        Err(e) => Err(e),
    }
}

/// Scanning for any id after a mute write finds the written-over form of
/// exactly the record the scan found before the write.
proof fn lemma_find_after_mute(
    pre: Seq<DeviceState>,
    post: Seq<DeviceState>,
    target: u32,
    m: bool,
    id: u32,
)
    requires
        post.len() == pre.len(),
        forall|i: int| 0 <= i < pre.len() ==> mute_updated(pre[i], post[i], target, m),
    ensures
        match (find_device(pre, id), find_device(post, id)) {
            (Some(a), Some(b)) => mute_updated(a, b, target, m),
            (None, None) => true,
            _ => false,
        },
    decreases pre.len(),
{
    if pre.len() > 0 {
        assert(mute_updated(pre[0], post[0], target, m));
        if pre[0].id != id {
            assert forall|i: int|
                0 <= i < pre.drop_first().len() implies mute_updated(
                pre.drop_first()[i],
                post.drop_first()[i],
                target,
                m,
            ) by {
                assert(pre.drop_first()[i] == pre[i + 1]);
                assert(post.drop_first()[i] == post[i + 1]);
            }
            lemma_find_after_mute(pre.drop_first(), post.drop_first(), target, m, id);
        }
    }
}

/// Round trip: a mute write that applied is what the strict mute read then
/// returns, absent concurrent external mutation.
pub proof fn lemma_mute_round_trip(pre: SystemSnapshot, post: SystemSnapshot, id: u32, m: bool)
    requires
        pre.spec_mute_read(id) is Some,
        mute_transition(pre, post, id, m),
    ensures
        post.spec_mute_read(id) == Some(m),
{
    lemma_find_device_id(pre.devices@, id);
    lemma_find_after_mute(pre.devices@, post.devices@, id, m, id);
}

/// Writing the mute switch twice in succession leaves it at the written
/// value: the second write neither toggles nor clears it.
pub proof fn lemma_mute_idempotent(
    s0: SystemSnapshot,
    s1: SystemSnapshot,
    s2: SystemSnapshot,
    id: u32,
    m: bool,
)
    requires
        s0.spec_mute_read(id) is Some,
        mute_transition(s0, s1, id, m),
        mute_transition(s1, s2, id, m),
    ensures
        s2.spec_mute_read(id) == Some(m),
{
    lemma_mute_round_trip(s0, s1, id, m);
    lemma_mute_round_trip(s1, s2, id, m);
}

} // verus!
