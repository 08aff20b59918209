//! The registry that owns the active listeners.
//!
//! It holds the single default-device listener and one mute listener per
//! watched input device. Only registered listeners are held, so everything in
//! the registry is an active producer on its notification channel; a listener
//! whose registration failed never enters. The mute-listener set is replaced
//! as a whole when the input-device set changes: the old set is handed back
//! for teardown and, of the new candidates, exactly the registered mute
//! listeners are installed, one per device id, so a candidate that failed to
//! register reduces coverage for its device without blocking the rest.

use vstd::prelude::*;

use crate::device::{AudioDevice, AudioDeviceType};
use crate::listener::PropertyListener;
use crate::properties::{
    mute_address, spec_default_device_address, spec_mute_address, SYSTEM_OBJECT_ID,
};

verus! {

/// Whether a listener is fit to be held as a mute listener: registered, and
/// watching the mute property.
pub open spec fn mute_candidate(l: PropertyListener) -> bool {
    l.registered && l.address == spec_mute_address()
}

/// Whether some listener in the sequence watches the given object.
pub open spec fn seq_has_listener_for(s: Seq<PropertyListener>, id: u32) -> bool {
    exists|i: int| 0 <= i < s.len() && s[i].object_id == id
}

/// The registry owning the active listeners.
pub struct ListenerRegistry {
    /// The one default-device listener, present once registered at startup.
    pub default_listener: Option<PropertyListener>,
    /// The mute listeners, at most one per watched input device.
    pub mute_listeners: Vec<PropertyListener>,
}

impl ListenerRegistry {
    /// Whether a mute listener for the device is installed.
    pub open spec fn spec_has_mute_listener(self, id: u32) -> bool {
        seq_has_listener_for(self.mute_listeners@, id)
    }

    /// Well-formed: every held listener is registered and watches what its
    /// slot says, and no two mute listeners watch the same device.
    pub open spec fn wf(self) -> bool {
        &&& self.default_listener matches Some(l) ==> l.registered && l.object_id
            == SYSTEM_OBJECT_ID && l.address == spec_default_device_address(true)
        &&& forall|i: int|
            0 <= i < self.mute_listeners@.len() ==> mute_candidate(self.mute_listeners@[i])
        &&& forall|i: int, j: int|
            0 <= i < j < self.mute_listeners@.len() ==> self.mute_listeners@[i].object_id
                != self.mute_listeners@[j].object_id
    }

    /// An empty registry.
    pub fn new() -> (r: Self)
        ensures
            r.wf(),
            r.default_listener is None,
            r.mute_listeners@.len() == 0,
    {
        ListenerRegistry { default_listener: None, mute_listeners: Vec::new() }
    }

    /// Installs the one default-device listener, handing back whichever was
    /// installed before for teardown. Only a registered listener watching the
    /// default-input property is accepted, so a failed registration can never
    /// make the registry present an inactive producer.
    pub fn install_default_listener(&mut self, l: PropertyListener) -> (prev: Option<
        PropertyListener,
    >)
        requires
            l.registered,
            l.object_id == SYSTEM_OBJECT_ID,
            l.address == spec_default_device_address(true),
        ensures
            prev == old(self).default_listener,
            final(self).default_listener == Some(l),
            final(self).mute_listeners@ == old(self).mute_listeners@,
            old(self).wf() ==> final(self).wf(),
    {
        let prev = self.default_listener.take();
        self.default_listener = Some(l);
        prev
    }

    /// Whether a mute listener for the device is installed.
    pub fn has_mute_listener(&self, id: u32) -> (r: bool)
        ensures
            r == self.spec_has_mute_listener(id),
    {
        let n = self.mute_listeners.len();
        let mut i: usize = 0;
        while i < n
            invariant
                n == self.mute_listeners@.len(),
                i <= n,
                forall|k: int| 0 <= k < i ==> self.mute_listeners@[k].object_id != id,
            decreases n - i,
        {
            if self.mute_listeners[i].object_id == id {
                return true;
            }
            i = i + 1;
        }
        false
    }

    /// Replaces the whole mute-listener set. The old set is removed and
    /// handed back for teardown; of the candidates, exactly the registered
    /// mute listeners are installed, the first one per device id. The
    /// default-device listener is untouched.
    pub fn replace_mute_listeners(&mut self, candidates: Vec<PropertyListener>) -> (removed: Vec<
        PropertyListener,
    >)
        ensures
            removed@ == old(self).mute_listeners@,
            final(self).default_listener == old(self).default_listener,
            forall|i: int|
                0 <= i < final(self).mute_listeners@.len() ==> mute_candidate(
                    final(self).mute_listeners@[i],
                ),
            forall|i: int, j: int|
                0 <= i < j < final(self).mute_listeners@.len()
                    ==> final(self).mute_listeners@[i].object_id
                    != final(self).mute_listeners@[j].object_id,
            forall|d: u32|
                final(self).spec_has_mute_listener(d) <==> (exists|k: int|
                    0 <= k < candidates@.len() && mute_candidate(candidates@[k])
                        && candidates@[k].object_id == d),
            old(self).wf() ==> final(self).wf(),
    {
        let mut removed: Vec<PropertyListener> = Vec::new();
        core::mem::swap(&mut self.mute_listeners, &mut removed);
        let watched = mute_address();
        let n = candidates.len();
        let mut i: usize = 0;
        while i < n
            invariant
                n == candidates@.len(),
                i <= n,
                watched == spec_mute_address(),
                self.default_listener == old(self).default_listener,
                forall|k: int|
                    0 <= k < self.mute_listeners@.len() ==> mute_candidate(
                        self.mute_listeners@[k],
                    ),
                forall|k: int, l: int|
                    0 <= k < l < self.mute_listeners@.len() ==> self.mute_listeners@[k].object_id
                        != self.mute_listeners@[l].object_id,
                forall|d: u32|
                    seq_has_listener_for(self.mute_listeners@, d) <==> (exists|k: int|
                        0 <= k < i && mute_candidate(candidates@[k]) && candidates@[k].object_id
                            == d),
            decreases n - i,
        {
            let c = candidates[i];
            let selectable = c.is_registered() && c.address == watched;
            if selectable {
                if !self.has_mute_listener(c.object_id) {
                    let ghost pre = self.mute_listeners@;
                    self.mute_listeners.push(c);
                    proof {
                        assert(mute_candidate(candidates@[i as int]));
                        assert forall|d: u32|
                            seq_has_listener_for(self.mute_listeners@, d) implies (exists|k: int|
                            0 <= k < i + 1 && mute_candidate(candidates@[k])
                                && candidates@[k].object_id == d) by {
                            let t = choose|t: int|
                                0 <= t < self.mute_listeners@.len()
                                    && self.mute_listeners@[t].object_id == d;
                            if t < pre.len() {
                                assert(pre[t].object_id == d);
                                assert(seq_has_listener_for(pre, d));
                            } else {
                                assert(candidates@[i as int].object_id == d);
                            }
                        }
                        assert forall|d: u32|
                            (exists|k: int|
                                0 <= k < i + 1 && mute_candidate(candidates@[k])
                                    && candidates@[k].object_id == d) implies seq_has_listener_for(
                            self.mute_listeners@,
                            d,
                        ) by {
                            let k = choose|k: int|
                                0 <= k < i + 1 && mute_candidate(candidates@[k])
                                    && candidates@[k].object_id == d;
                            if k < i {
                                assert(seq_has_listener_for(pre, d));
                                let t = choose|t: int|
                                    0 <= t < pre.len() && pre[t].object_id == d;
                                assert(self.mute_listeners@[t].object_id == d);
                            } else {
                                assert(self.mute_listeners@[pre.len() as int].object_id == d);
                            }
                        }
                        assert forall|k: int, l: int|
                            0 <= k < l < self.mute_listeners@.len() implies self
                            .mute_listeners@[k].object_id != self.mute_listeners@[l].object_id by {
                            if l == self.mute_listeners@.len() - 1 {
                                if pre[k].object_id == c.object_id {
                                    assert(seq_has_listener_for(pre, c.object_id));
                                }
                            }
                        }
                    }
                } else {
                    proof {
                        assert forall|d: u32|
                            (exists|k: int|
                                0 <= k < i + 1 && mute_candidate(candidates@[k])
                                    && candidates@[k].object_id == d) implies seq_has_listener_for(
                            self.mute_listeners@,
                            d,
                        ) by {
                            let k = choose|k: int|
                                0 <= k < i + 1 && mute_candidate(candidates@[k])
                                    && candidates@[k].object_id == d;
                            if k == i {
                                assert(d == c.object_id);
                            }
                        }
                    }
                }
            } else {
                proof {
                    assert(!mute_candidate(candidates@[i as int]));
                    assert forall|d: u32|
                        (exists|k: int|
                            0 <= k < i + 1 && mute_candidate(candidates@[k])
                                && candidates@[k].object_id == d) implies seq_has_listener_for(
                        self.mute_listeners@,
                        d,
                    ) by {
                        let k = choose|k: int|
                            0 <= k < i + 1 && mute_candidate(candidates@[k])
                                && candidates@[k].object_id == d;
                        assert(k < i);
                    }
                }
            }
            i = i + 1;
        }
        removed
    }
}

/// One listener per device: in a well-formed registry, two mute-listener
/// slots watching the same device are the same slot.
pub proof fn lemma_mute_listener_unique(r: ListenerRegistry, i: int, j: int)
    requires
        r.wf(),
        0 <= i < r.mute_listeners@.len(),
        0 <= j < r.mute_listeners@.len(),
        r.mute_listeners@[i].object_id == r.mute_listeners@[j].object_id,
    ensures
        i == j,
{
}

/// The ids of the input devices in a device list, in order: these are the
/// devices that get a mute listener.
pub open spec fn spec_input_ids(s: Seq<AudioDevice>) -> Seq<u32>
    decreases s.len(),
{
    if s.len() == 0 {
        Seq::empty()
    } else if s[0].device_type is Input {
        seq![s[0].id] + spec_input_ids(s.drop_first())
    } else {
        spec_input_ids(s.drop_first())
    }
}

/// Appending a device extends the input-id selection by its id exactly when
/// it is an input device.
proof fn lemma_input_ids_push(s: Seq<AudioDevice>, x: AudioDevice)
    ensures
        x.device_type is Input ==> spec_input_ids(s.push(x)) == spec_input_ids(s) + seq![x.id],
        !(x.device_type is Input) ==> spec_input_ids(s.push(x)) == spec_input_ids(s),
    decreases s.len(),
{
    if s.len() == 0 {
        assert(s.push(x)[0] == x);
        assert(s.push(x).drop_first() =~= Seq::<AudioDevice>::empty());
        assert(s =~= Seq::<AudioDevice>::empty());
        assert(spec_input_ids(Seq::<AudioDevice>::empty()) =~= Seq::<u32>::empty());
        if x.device_type is Input {
            assert(spec_input_ids(s.push(x)) =~= spec_input_ids(s) + seq![x.id]);
        } else {
            assert(spec_input_ids(s.push(x)) =~= spec_input_ids(s));
        }
    } else {
        assert(s.push(x)[0] == s[0]);
        assert(s.push(x).drop_first() =~= s.drop_first().push(x));
        lemma_input_ids_push(s.drop_first(), x);
        if x.device_type is Input {
            assert(spec_input_ids(s.push(x)) =~= spec_input_ids(s) + seq![x.id]);
        } else {
            assert(spec_input_ids(s.push(x)) =~= spec_input_ids(s));
        }
    }
}

/// Selects the ids of the input devices in a device list, in order.
pub fn input_device_ids(devices: &Vec<AudioDevice>) -> (ids: Vec<u32>)
    ensures
        ids@ == spec_input_ids(devices@),
{
    let mut ids: Vec<u32> = Vec::new();
    let n = devices.len();
    let mut i: usize = 0;
    while i < n
        invariant
            n == devices@.len(),
            i <= n,
            ids@ == spec_input_ids(devices@.subrange(0, i as int)),
        decreases n - i,
    {
        proof {
            assert(devices@.subrange(0, i as int + 1) =~= devices@.subrange(0, i as int).push(
                devices@[i as int],
            ));
            lemma_input_ids_push(devices@.subrange(0, i as int), devices@[i as int]);
        }
        let is_input = match devices[i].device_type {
            AudioDeviceType::Input => true,
            AudioDeviceType::Output => false,
        };
        if is_input {
            let id = devices[i].id;
            ids.push(id);
            proof {
                assert(ids@ =~= spec_input_ids(devices@.subrange(0, i as int)) + seq![
                    devices@[i as int].id,
                ]);
            }
        }
        i = i + 1;
    }
    proof {
        assert(devices@.subrange(0, n as int) =~= devices@);
    }
    ids
}

} // verus!
