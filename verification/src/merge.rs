//! The merge loop: serializing notification channels into application events.
//!
//! A background task drains the listeners' channels with a bounded timeout
//! each, so one silent channel never starves another. Whatever a callback
//! pushed is treated as a hint that something changed, never as current
//! state: the republished event is rebuilt from a fresh snapshot taken at
//! emission time. The loop ends only when every channel has reported
//! permanent closure; a timeout is not an error and duplicate notifications
//! are republished again, not deduplicated.

use vstd::prelude::*;

use crate::device::AudioDevice;
use crate::query::{create_device, is_device_for};
use crate::snapshot::SystemSnapshot;

verus! {

/// A normalized notification as a listener callback pushes it onto its
/// channel: enough to know what to re-query, never trusted as current state.
#[derive(Clone, Copy, Debug, PartialEq, Eq, Structural)]
pub enum NotificationEvent {
    /// The system default input device changed; carries the id read inside
    /// the callback, which may already be stale on arrival.
    DefaultDeviceChanged(u32),
    /// The mute switch of a device changed; carries the device id and the
    /// raw switch value read inside the callback, which may be stale too.
    MuteChanged(u32, bool),
}

/// The event republished to the application boundary.
#[derive(Debug, PartialEq)]
pub enum AppEvent {
    /// The default input device changed; carries the freshly rebuilt device.
    InputDeviceChanged(AudioDevice),
    /// The mute switch of the device changed; carries the fresh flag.
    MuteChanged(u32, bool),
}

/// Decodes, inside a mute callback, the raw 32-bit property value into the
/// normalized notification: any non-zero value means muted.
pub fn mute_changed_event(device_id: u32, raw: u32) -> (e: NotificationEvent)
    ensures
        e == NotificationEvent::MuteChanged(device_id, raw != 0),
{
    NotificationEvent::MuteChanged(device_id, raw != 0)
}

/// What the republished value for one received notification must look like:
/// everything in it is re-queried from the fresh snapshot at emission time.
/// Of the stale payload only a mute notification's device identity is used;
/// the id baked into a default-device notification is ignored entirely.
pub open spec fn republish_ok(
    event: NotificationEvent,
    s: SystemSnapshot,
    r: Option<AppEvent>,
) -> bool {
    match event {
        NotificationEvent::DefaultDeviceChanged(_) => match s.spec_default(true) {
            Some(cur) => r matches Some(AppEvent::InputDeviceChanged(d)) && d.id == cur
                && is_device_for(d, s, cur),
            None => r is None,
        },
        NotificationEvent::MuteChanged(id, _) => r == Some(
            AppEvent::MuteChanged(id, s.spec_mute_display(id)),
        ),
    }
}

/// Builds the application event for one received notification from a fresh
/// snapshot. A default-device notification republishes the device that is the
/// default input now — or nothing when the OS reports no default any more; a
/// mute notification republishes the switch as it reads now. Every received
/// notification is handled the same way every time: an event identical to an
/// earlier one is emitted again, not deduplicated.
pub fn republish(event: NotificationEvent, snapshot: &SystemSnapshot) -> (r: Option<AppEvent>)
    ensures
        republish_ok(event, *snapshot, r),
{
    match event {
        NotificationEvent::DefaultDeviceChanged(_) => match snapshot.default_id(true) {
            Some(cur) => Some(AppEvent::InputDeviceChanged(create_device(snapshot, cur))),
            None => None,
        },
        NotificationEvent::MuteChanged(id, _) => {
            let muted = match snapshot.find_state(id) {
                Some(state) => match state.mute {
                    Some(m) => m,
                    None => false,
                },
                None => false,
            };
            Some(AppEvent::MuteChanged(id, muted))
        },
    }
}

/// The merge loop's own state: which notification channels are still open.
pub struct MergeLoop {
    /// Whether the default-device channel still has a live sender.
    pub default_open: bool,
    /// Whether the mute channel still has a live sender.
    pub mute_open: bool,
}

impl MergeLoop {
    /// A loop over two freshly opened channels.
    pub fn new() -> (m: Self)
        ensures
            m.default_open,
            m.mute_open,
    {
        MergeLoop { default_open: true, mute_open: true }
    }

    /// Records that the default-device channel reported permanent closure.
    pub fn note_default_closed(&mut self)
        ensures
            !final(self).default_open,
            final(self).mute_open == old(self).mute_open,
    {
        self.default_open = false;
    }

    /// Records that the mute channel reported permanent closure.
    pub fn note_mute_closed(&mut self)
        ensures
            final(self).default_open == old(self).default_open,
            !final(self).mute_open,
    {
        self.mute_open = false;
    }

    /// Whether the loop is done: only when every channel has closed. A
    /// timeout on one channel never stops the loop.
    pub fn should_stop(&self) -> (r: bool)
        ensures
            r == (!self.default_open && !self.mute_open),
    {
        !self.default_open && !self.mute_open
    }
}

/// What is republished for a default-device notification does not depend on
/// the id baked into the callback payload: against one fresh snapshot, two
/// notifications carrying different stale ids yield events that agree on
/// every field of the emitted device.
pub proof fn lemma_republish_ignores_stale_payload(
    s: SystemSnapshot,
    stale_a: u32,
    stale_b: u32,
    ra: Option<AppEvent>,
    rb: Option<AppEvent>,
)
    requires
        republish_ok(NotificationEvent::DefaultDeviceChanged(stale_a), s, ra),
        republish_ok(NotificationEvent::DefaultDeviceChanged(stale_b), s, rb),
    ensures
        ra is Some <==> rb is Some,
        ra matches Some(AppEvent::InputDeviceChanged(da)) ==> rb matches Some(
            AppEvent::InputDeviceChanged(db),
        ) ==> da.id == db.id && da.name@ == db.name@ && da.device_type == db.device_type
            && da.is_current == db.is_current && da.is_muted == db.is_muted,
{
    if let Some(cur) = s.spec_default(true) {
        if let (Some(AppEvent::InputDeviceChanged(da)), Some(AppEvent::InputDeviceChanged(db))) = (
            ra,
            rb,
        ) {
            assert(is_device_for(da, s, cur));
            assert(is_device_for(db, s, cur));
        }
    }
}

} // verus!
