//! Verified core of a desktop audio-device helper.
//!
//! The library models the host's audio subsystem as plain data: a snapshot of
//! the connected devices and the two default-device selections. On top of that
//! model it verifies the logic that the surrounding application drives:
//! building device descriptions with best-effort field defaults, reading and
//! writing mute state, switching the default device, the lifecycle of
//! OS property-change listeners, the registry that owns them, and the merge
//! loop that turns raw change notifications into application events. All
//! operating-system calls stay outside this crate; their integer results and
//! payloads are handed in as arguments.

pub mod device;
pub mod listener;
pub mod merge;
pub mod mutate;
pub mod poll;
pub mod properties;
pub mod query;
pub mod registry;
pub mod snapshot;
