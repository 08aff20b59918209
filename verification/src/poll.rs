//! The slow-poll fallback for missed default-device notifications.
//!
//! A background task re-reads the current default input device on a
//! multi-second interval and reports a change when the reading differs from
//! the last one seen. It is deliberately redundant with the listener-driven
//! path: both may fire for one underlying change, and the application
//! boundary must tolerate the duplicate rather than rely on either path
//! alone.

use vstd::prelude::*;

verus! {

/// The poll task's state: the last default input device it saw.
pub struct SlowPoll {
    pub last_seen: Option<u32>,
}

impl SlowPoll {
    /// A poll that has not read anything yet.
    pub fn new() -> (p: Self)
        ensures
            p.last_seen is None,
    {
        SlowPoll { last_seen: None }
    }

    /// Takes one fresh reading of the current default input device. Reports a
    /// change exactly when the reading names a device and differs from the
    /// last one seen; either way the reading becomes the new last-seen value.
    pub fn observe(&mut self, current: Option<u32>) -> (changed: bool)
        ensures
            final(self).last_seen == current,
            changed == (current is Some && current != old(self).last_seen),
    {
        let changed = match (current, self.last_seen) {
            (Some(c), Some(l)) => c != l,
            (Some(_), None) => true,
            (None, _) => false,
        };
        self.last_seen = current;
        changed
    }
}

} // verus!
