//! Property addresses and status codes of the OS audio ABI.
//!
//! A property address is the (selector, scope, element) triple that names one
//! readable, writable or observable attribute of an OS audio object. The
//! four-character codes below are fixed by the operating system's audio ABI
//! and are not under this library's control.

use vstd::prelude::*;

verus! {

/// Names one attribute of an OS audio object: which property (selector),
/// which signal path it belongs to (scope), and which channel element.
#[derive(Clone, Copy, Debug, PartialEq, Eq, Structural)]
pub struct PropertyAddress {
    pub selector: u32,
    pub scope: u32,
    pub element: u32,
}

/// Selector of a device's mute switch (four-character code `mute`).
pub const SELECTOR_MUTE: u32 = 0x6D75_7465;

/// Selector of the system-wide default input device (`dIn `).
pub const SELECTOR_DEFAULT_INPUT: u32 = 0x6449_6E20;

/// Selector of the system-wide default output device (`dOut`).
pub const SELECTOR_DEFAULT_OUTPUT: u32 = 0x644F_7574;

/// Scope of properties that apply to the whole object (`glob`).
pub const SCOPE_GLOBAL: u32 = 0x676C_6F62;

/// Scope of properties on the input signal path (`inpt`).
pub const SCOPE_INPUT: u32 = 0x696E_7074;

/// The main element of a scope.
pub const ELEMENT_MAIN: u32 = 0;

/// The object id under which the OS exposes system-wide audio properties.
pub const SYSTEM_OBJECT_ID: u32 = 1;

/// The status code with which every OS audio call reports success.
pub const STATUS_OK: i32 = 0;

/// The status code for a call that names an audio object the OS does not
/// know (`!obj`).
pub const STATUS_BAD_OBJECT: i32 = 0x216F_626A;

/// The status code for a property the addressed object does not have
/// (`who?`).
pub const STATUS_UNKNOWN_PROPERTY: i32 = 0x7768_6F3F;

/// The spec-level address of a device's mute switch on its input path.
pub open spec fn spec_mute_address() -> PropertyAddress {
    PropertyAddress { selector: SELECTOR_MUTE, scope: SCOPE_INPUT, element: ELEMENT_MAIN }
}

/// The address of a device's mute switch on its input path.
pub fn mute_address() -> (a: PropertyAddress)
    ensures
        a == spec_mute_address(),
{
    PropertyAddress { selector: SELECTOR_MUTE, scope: SCOPE_INPUT, element: ELEMENT_MAIN }
}

/// The spec-level address of the system default device for one direction.
pub open spec fn spec_default_device_address(input: bool) -> PropertyAddress {
    PropertyAddress {
        selector: if input {
            SELECTOR_DEFAULT_INPUT
        } else {
            SELECTOR_DEFAULT_OUTPUT
        },
        scope: SCOPE_GLOBAL,
        element: ELEMENT_MAIN,
    }
}

/// The address of the system default device for the given direction.
pub fn default_device_address(input: bool) -> (a: PropertyAddress)
    ensures
        a == spec_default_device_address(input),
{
    PropertyAddress {
        selector: if input {
            SELECTOR_DEFAULT_INPUT
        } else {
            SELECTOR_DEFAULT_OUTPUT
        },
        scope: SCOPE_GLOBAL,
        element: ELEMENT_MAIN,
    }
}

} // verus!
