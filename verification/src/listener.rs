//! The property-listener primitive: lifecycle of one OS change callback.
//!
//! A listener binds one OS object and one property address to one
//! notification channel. It is either Unregistered (not receiving callbacks)
//! or Registered (the OS may fire its callback at any time until it is
//! explicitly removed). The OS calls that install and remove the callback are
//! made by the surrounding application; the listener records the attempt's
//! outcome and enforces the lifecycle: a failed installation leaves it
//! Unregistered, removing an Unregistered listener is a success without side
//! effect, and a failed removal keeps it Registered, since the OS may still
//! fire the callback.

use vstd::prelude::*;

use crate::properties::{
    mute_address, spec_default_device_address, spec_mute_address, PropertyAddress, STATUS_OK,
    SYSTEM_OBJECT_ID,
};

verus! {

/// Why a registration or unregistration failed; carries the status the OS
/// reported.
#[derive(Clone, Copy, Debug, PartialEq, Eq, Structural)]
pub enum ListenerError {
    RegisterFailed(i32),
    UnregisterFailed(i32),
}

/// One OS property listener: the watched (object, property) pair and whether
/// a callback is currently installed with the OS.
#[derive(Clone, Copy, Debug, PartialEq, Eq, Structural)]
pub struct PropertyListener {
    /// The audio object whose property is watched.
    pub object_id: u32,
    /// The property being watched.
    pub address: PropertyAddress,
    /// True iff the OS holds an installed callback for this listener.
    pub registered: bool,
}

impl PropertyListener {
    /// A listener for the given property. Construction performs no OS
    /// interaction and leaves the listener Unregistered.
    pub fn new(object_id: u32, address: PropertyAddress) -> (l: Self)
        ensures
            l == (PropertyListener { object_id, address, registered: false }),
    {
        PropertyListener { object_id, address, registered: false }
    }

    /// The listener watching the system-wide default input device.
    pub fn for_default_input_device() -> (l: Self)
        ensures
            !l.registered,
            l.object_id == SYSTEM_OBJECT_ID,
            l.address == spec_default_device_address(true),
    {
        PropertyListener {
            object_id: SYSTEM_OBJECT_ID,
            address: crate::properties::default_device_address(true),
            registered: false,
        }
    }

    /// The mute listener for one input device.
    pub fn for_mute(device_id: u32) -> (l: Self)
        ensures
            !l.registered,
            l.object_id == device_id,
            l.address == spec_mute_address(),
    {
        PropertyListener { object_id: device_id, address: mute_address(), registered: false }
    }

    /// Whether the OS currently holds a callback for this listener.
    pub fn is_registered(&self) -> (r: bool)
        ensures
            r == self.registered,
    {
        self.registered
    }

    /// Records the outcome of asking the OS to install the callback for this
    /// listener's (object, property) pair. On a non-success status the
    /// listener stays Unregistered and holds no OS-side resource.
    pub fn register(&mut self, os_status: i32) -> (r: Result<(), ListenerError>)
        requires
            !old(self).registered,
        ensures
            final(self).object_id == old(self).object_id,
            final(self).address == old(self).address,
            final(self).registered == (os_status == STATUS_OK),
            os_status == STATUS_OK ==> r == Ok::<(), ListenerError>(()),
            os_status != STATUS_OK ==> r == Err::<(), ListenerError>(
                ListenerError::RegisterFailed(os_status),
            ),
    {
        if os_status == STATUS_OK {
            self.registered = true;
            Ok(())
        } else {
            Err(ListenerError::RegisterFailed(os_status))
        }
    }

    /// Records the outcome of an unregistration attempt. An Unregistered
    /// listener needs no OS call (`os_status` is `None`) and reports success
    /// with no observable side effect. A Registered one transitions to
    /// Unregistered only when the OS acknowledged the removal; on a
    /// non-success status it stays Registered, since the OS may still invoke
    /// the callback, and the caller must escalate.
    pub fn unregister(&mut self, os_status: Option<i32>) -> (r: Result<(), ListenerError>)
        requires
            old(self).registered <==> os_status is Some,
        ensures
            final(self).object_id == old(self).object_id,
            final(self).address == old(self).address,
            !old(self).registered ==> r == Ok::<(), ListenerError>(())
                && *final(self) == *old(self),
            os_status == Some(STATUS_OK) ==> r == Ok::<(), ListenerError>(())
                && !final(self).registered,
            (os_status matches Some(s) && s != STATUS_OK) ==> r == Err::<(), ListenerError>(
                ListenerError::UnregisterFailed(os_status->0),
            ) && final(self).registered,
    {
        match os_status {
            None => Ok(()),
            Some(s) => {
                if s == STATUS_OK {
                    self.registered = false;
                    Ok(())
                } else {
                    Err(ListenerError::UnregisterFailed(s))
                }
            },
        }
    }
}

} // verus!
