//! Core logic of a laptop docking daemon.
//!
//! The daemon reacts to lid open/close events and keeps the monitor layout
//! consistent by running externally configured shell commands.  Everything
//! that decides *which* commands run, and in what order, lives here as pure,
//! verified functions: a handler turns an event plus the live probe results
//! into a plan, a sequence of abstract actions.  The surrounding binary reads
//! the event socket, runs the monitor-listing query, and executes the plan by
//! spawning processes; none of that I/O is part of this crate.

pub mod action;
pub mod dock;
pub mod text;

use vstd::prelude::*;

verus! {

/// The settle delay, in milliseconds, inserted after switching to the
/// external-only layout so the display backend finishes the mode switch
/// before wallpaper and bar are restarted.
pub const SETTLE_DELAY_MS: u64 = 1000;

} // verus!
