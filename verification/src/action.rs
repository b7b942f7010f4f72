//! The abstract actions a plan is made of.
//!
//! Each action except [`Action::Wait`] stands for one configured command
//! line; [`Action::Wait`] is a timed pause between commands.  Handlers and
//! actuator operations return plans (`Vec<Action>`), and the executing
//! binary maps each action back to its configured command string.

use vstd::prelude::*;

verus! {

/// One step of a plan: a configured command to spawn, or a pause.
#[derive(Clone, Copy, Debug, PartialEq, Eq, Structural)]
pub enum Action {
    /// Open the status bar.
    OpenBar,
    /// Close the status bar.
    CloseBar,
    /// Reload the status bar in place.
    ReloadBar,
    /// Suspend the system.
    Suspend,
    /// Lock the screen.
    Lock,
    /// Pause media playback.
    MediaPause,
    /// Enable the internal monitor.
    EnableInternal,
    /// Disable the internal monitor.
    DisableInternal,
    /// Enable the external monitor.
    EnableExternal,
    /// Disable the external monitor.
    DisableExternal,
    /// Extend the desktop across both monitors.
    Extend,
    /// Mirror the desktop on both monitors.
    Mirror,
    /// Restart the wallpaper process.
    Wallpaper,
    /// Pause for the given number of milliseconds.
    Wait(u64),
}

/// The actions that change the monitor layout, as opposed to restarting
/// dependent processes, controlling power or media, or pausing.
pub open spec fn is_layout_action(a: Action) -> bool {
    ||| a is EnableInternal
    ||| a is DisableInternal
    ||| a is EnableExternal
    ||| a is DisableExternal
    ||| a is Extend
    ||| a is Mirror
}

} // verus!
