//! A value-level snapshot of the OS audio state.
//!
//! The surrounding application reads the raw properties of every connected
//! device and records them here; the library's query and mutation logic then
//! works on this plain data. A field read that the OS refused is recorded as
//! `None`, so the best-effort defaults of the query layer stay visible in the
//! model. Device records with a repeated id are dropped on entry, so a
//! snapshot always carries one record per device id.

use vstd::prelude::*;

verus! {

/// The raw per-device readings one enumeration pass produced.
pub struct DeviceState {
    /// The OS-assigned handle of the device.
    pub id: u32,
    /// The device's reported name; `None` where the read failed.
    pub name: Option<String>,
    /// Whether the device supports the input scope; `None` where unknown.
    pub supports_input: Option<bool>,
    /// The mute switch; `None` where the property is absent or unreadable.
    pub mute: Option<bool>,
}

/// Everything one query pass learned from the OS: the device records and the
/// two default-device selections.
pub struct SystemSnapshot {
    pub devices: Vec<DeviceState>,
    /// The OS default input device, if the OS reports one.
    pub default_input: Option<u32>,
    /// The OS default output device, if the OS reports one.
    pub default_output: Option<u32>,
}

/// The first record with the given id, scanning from the front.
pub open spec fn find_device(s: Seq<DeviceState>, id: u32) -> Option<DeviceState>
    decreases s.len(),
{
    if s.len() == 0 {
        None
    } else if s[0].id == id {
        Some(s[0])
    } else {
        find_device(s.drop_first(), id)
    }
}

/// The scan comes back empty exactly when no record carries the id.
pub proof fn lemma_find_device_none(s: Seq<DeviceState>, id: u32)
    ensures
        find_device(s, id) is None <==> (forall|k: int| 0 <= k < s.len() ==> s[k].id != id),
    decreases s.len(),
{
    if s.len() > 0 && s[0].id != id {
        lemma_find_device_none(s.drop_first(), id);
        if forall|k: int| 0 <= k < s.len() ==> s[k].id != id {
            assert forall|k: int| 0 <= k < s.drop_first().len() implies s.drop_first()[k].id
                != id by {
                assert(s.drop_first()[k] == s[k + 1]);
                assert(s[k + 1].id != id);
            }
        } else {
            let k = choose|k: int| 0 <= k < s.len() && s[k].id == id;
            assert(s.drop_first()[k - 1].id == id);
        }
    }
}

/// A found record carries the id that was looked up.
pub proof fn lemma_find_device_id(s: Seq<DeviceState>, id: u32)
    ensures
        find_device(s, id) matches Some(d) ==> d.id == id,
    decreases s.len(),
{
    if s.len() > 0 && s[0].id != id {
        lemma_find_device_id(s.drop_first(), id);
    }
}

/// A record that is first among those with its id is what the scan returns.
pub proof fn lemma_find_device_first(s: Seq<DeviceState>, id: u32, i: int)
    requires
        0 <= i < s.len(),
        s[i].id == id,
        forall|k: int| 0 <= k < i ==> s[k].id != id,
    ensures
        find_device(s, id) == Some(s[i]),
    decreases i,
{
    if i > 0 {
        assert(forall|k: int| 0 <= k < s.drop_first().len() ==> s.drop_first()[k] == s[k + 1]);
        lemma_find_device_first(s.drop_first(), id, i - 1);
    }
}

impl SystemSnapshot {
    /// Well-formed: no two records share an id.
    pub open spec fn wf(self) -> bool {
        forall|i: int, j: int|
            0 <= i < j < self.devices@.len() ==> self.devices@[i].id != self.devices@[j].id
    }

    /// The record for the id, if the snapshot has one.
    pub open spec fn spec_find(self, id: u32) -> Option<DeviceState> {
        find_device(self.devices@, id)
    }

    /// The default device recorded for the given direction.
    pub open spec fn spec_default(self, input: bool) -> Option<u32> {
        if input {
            self.default_input
        } else {
            self.default_output
        }
    }

    /// The name a best-effort read yields for the id: the recorded name, or
    /// the placeholder where the device or its name is unavailable.
    pub open spec fn spec_name(self, id: u32) -> Seq<char> {
        match self.spec_find(id) {
            Some(d) => match d.name {
                Some(n) => n@,
                None => "N/A"@,
            },
            None => "N/A"@,
        }
    }

    /// Whether a best-effort read classifies the device as an input device:
    /// only a device whose input-scope support was read as true counts.
    pub open spec fn spec_is_input(self, id: u32) -> bool {
        self.spec_find(id) matches Some(d) && d.supports_input == Some(true)
    }

    /// Whether the device is the default for its own derived direction.
    pub open spec fn spec_is_current(self, id: u32) -> bool {
        self.spec_default(self.spec_is_input(id)) == Some(id)
    }

    /// The mute flag a best-effort display read yields: false where the
    /// device or the property is unavailable.
    pub open spec fn spec_mute_display(self, id: u32) -> bool {
        self.spec_find(id) matches Some(d) && d.mute == Some(true)
    }

    /// The mute switch as the strict query sees it: `None` where the device
    /// is missing or the property is unreadable.
    pub open spec fn spec_mute_read(self, id: u32) -> Option<bool> {
        match self.spec_find(id) {
            Some(d) => d.mute,
            None => None,
        }
    }

    /// An empty snapshot holding only the default-device selections.
    pub fn new(default_input: Option<u32>, default_output: Option<u32>) -> (s: Self)
        ensures
            s.wf(),
            s.devices@.len() == 0,
            s.default_input == default_input,
            s.default_output == default_output,
    {
        SystemSnapshot { devices: Vec::new(), default_input, default_output }
    }

    /// The position of the record with the given id, if any.
    pub fn find_index(&self, id: u32) -> (r: Option<usize>)
        ensures
            r matches Some(i) ==> i < self.devices@.len() && self.devices@[i as int].id == id
                && self.spec_find(id) == Some(self.devices@[i as int]),
            r is None ==> self.spec_find(id) is None,
    {
        let n = self.devices.len();
        let mut i: usize = 0;
        while i < n
            invariant
                n == self.devices@.len(),
                i <= n,
                forall|k: int| 0 <= k < i ==> self.devices@[k].id != id,
            decreases n - i,
        {
            if self.devices[i].id == id {
                proof {
                    lemma_find_device_first(self.devices@, id, i as int);
                }
                return Some(i);
            }
            i = i + 1;
        }
        proof {
            lemma_find_device_none(self.devices@, id);
        }
        None
    }

    /// A borrow of the record with the given id, if any.
    pub fn find_state(&self, id: u32) -> (r: Option<&DeviceState>)
        ensures
            match r {
                Some(d) => self.spec_find(id) == Some(*d),
                None => self.spec_find(id) is None,
            },
    {
        match self.find_index(id) {
            Some(i) => Some(&self.devices[i]),
            None => None,
        }
    }

    /// The recorded default device for the given direction.
    pub fn default_id(&self, input: bool) -> (r: Option<u32>)
        ensures
            r == self.spec_default(input),
    {
        if input {
            self.default_input
        } else {
            self.default_output
        }
    }

    /// Record one device reading. A reading whose id the snapshot already
    /// carries is dropped, so ids stay unique.
    pub fn add_device(&mut self, d: DeviceState)
        ensures
            final(self).default_input == old(self).default_input,
            final(self).default_output == old(self).default_output,
            old(self).spec_find(d.id) is Some ==> *final(self) == *old(self),
            old(self).spec_find(d.id) is None ==> final(self).devices@ == old(self).devices@.push(
                d,
            ),
            old(self).wf() ==> final(self).wf(),
    {
        match self.find_index(d.id) {
            Some(_) => {},
            None => {
                proof {
                    lemma_find_device_none(self.devices@, d.id);
                }
                self.devices.push(d);
                proof {
                    if old(self).wf() {
                        assert forall|i: int, j: int|
                            0 <= i < j < self.devices@.len() implies self.devices@[i].id
                            != self.devices@[j].id by {
                            if j < self.devices@.len() - 1 {
                                assert(old(self).wf());
                            } else {
                                assert(self.devices@[i] == old(self).devices@[i]);
                                assert(self.devices@[j] == d);
                            }
                        }
                    }
                }
            },
        }
    }
}

} // verus!
