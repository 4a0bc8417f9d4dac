//! Verified core of a system-wide hotkey listener.
//!
//! The library models raw keyboard input as plain values (key codes, press
//! phases), tracks the live modifier state, matches key presses against a
//! table of registered chords, and hands detected triggers to a consumer
//! through an ordered channel.  A poller state machine governs recovery from
//! device failures.  All device, process and network I/O lives outside this
//! crate; callers feed the library plain values read at those edges.

pub mod channel;
pub mod chords;
pub mod devices;
pub mod errors;
pub mod events;
pub mod keys;
pub mod modifiers;
pub mod parse;
pub mod poller;
