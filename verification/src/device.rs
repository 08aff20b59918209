//! The device value type handed to the application boundary.

use vstd::prelude::*;

verus! {

/// Whether a device sits on the input or the output signal path. The
/// classification is derived from whether the device supports the input
/// scope.
#[derive(Clone, Copy, Debug, PartialEq, Eq, Structural)]
pub enum AudioDeviceType {
    Input,
    Output,
}

/// One audio device as reported to the application: a value rebuilt on every
/// query, never cached. Identity is the OS-assigned `id`; every other field
/// is a best-effort read taken at query time.
#[derive(Clone, Debug, PartialEq)]
pub struct AudioDevice {
    /// The opaque integer handle the OS assigned to the device.
    pub id: u32,
    /// The device's name, or a placeholder where the OS would not report one.
    pub name: String,
    /// Input or output, derived from input-scope support.
    pub device_type: AudioDeviceType,
    /// True iff the device is the OS default for its own direction.
    pub is_current: bool,
    /// The mute switch as last read; false where the property is unreadable.
    pub is_muted: bool,
}

} // verus!
