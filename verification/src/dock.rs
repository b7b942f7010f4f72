//! The docking controller: configuration record, monitor classification,
//! and the plans issued for lid events and layout operations.
//!
//! Every operation returns a plan — a sequence of [`Action`] values — rather
//! than spawning anything itself.  The probe results ("is the internal
//! monitor active?", "is an external monitor present?") are recomputed live
//! by the caller right before each decision and passed in as booleans, so no
//! stale state is ever consulted.

use vstd::prelude::*;

use crate::action::{is_layout_action, Action};
use crate::text::{contains_substring, is_substring, split_command, str_eq, tokens_of};
use crate::SETTLE_DELAY_MS;

verus! {

/// The configuration record: the internal monitor's identifying name and the
/// command lines for every side effect the daemon can issue.
///
/// Invariant ([`HyprDock::wf`]): the monitor name is non-empty and every
/// command field splits into at least one whitespace-delimited token.  The
/// record is loaded once at startup and read-only afterwards.
pub struct HyprDock {
    pub monitor_name: String,
    pub open_bar_command: String,
    pub close_bar_command: String,
    pub reload_bar_command: String,
    pub suspend_command: String,
    pub lock_command: String,
    pub utility_command: String,
    pub get_monitors_command: String,
    pub enable_internal_monitor_command: String,
    pub disable_internal_monitor_command: String,
    pub enable_external_monitor_command: String,
    pub disable_external_monitor_command: String,
    pub extend_command: String,
    pub mirror_command: String,
    pub wallpaper_command: String,
}

/// Plan of the lock-then-suspend sequence: lock first, suspend immediately
/// after, with no wait for the lock to complete.
pub open spec fn lock_plan() -> Seq<Action> {
    seq![Action::Lock, Action::Suspend]
}

/// Plan of a status-bar restart: close must precede open so no duplicate bar
/// instance is left running.
pub open spec fn bar_restart_plan() -> Seq<Action> {
    seq![Action::CloseBar, Action::OpenBar]
}

/// Plan of the internal-monitor restart sequence: enable the internal
/// monitor, then restart wallpaper and bar, then reload the bar.
pub open spec fn restart_internal_plan() -> Seq<Action> {
    seq![
        Action::EnableInternal,
        Action::Wallpaper,
        Action::CloseBar,
        Action::OpenBar,
        Action::ReloadBar,
    ]
}

/// Plan of switching to the internal monitor only.  Bar and wallpaper are
/// restarted only when the internal monitor was not already active, because
/// they must be recreated on a topology change but a redundant restart only
/// causes visible flicker.
pub open spec fn internal_only_plan(internal_active: bool) -> Seq<Action> {
    seq![Action::EnableInternal, Action::DisableExternal] + if !internal_active {
        seq![Action::CloseBar, Action::OpenBar, Action::Wallpaper]
    } else {
        Seq::<Action>::empty()
    }
}

/// Plan of switching to the external monitor only: nothing happens when no
/// external monitor is present; otherwise bar and wallpaper are restarted
/// only when the internal monitor was active beforehand (the mirrored
/// topology-change rule of [`internal_only_plan`]).
pub open spec fn external_only_plan(internal_active: bool, external_present: bool) -> Seq<
    Action,
> {
    if !external_present {
        Seq::<Action>::empty()
    } else {
        seq![Action::DisableInternal, Action::EnableExternal] + if internal_active {
            seq![Action::CloseBar, Action::OpenBar, Action::Wallpaper]
        } else {
            Seq::<Action>::empty()
        }
    }
}

/// Plan of extending the desktop: the internal monitor is brought up first
/// (full restart sequence) when it is not yet active, then the extend
/// command is issued.
pub open spec fn extend_plan(internal_active: bool) -> Seq<Action> {
    (if internal_active {
        Seq::<Action>::empty()
    } else {
        restart_internal_plan()
    }) + seq![Action::Extend]
}

/// Plan of mirroring the desktop, gated exactly as [`extend_plan`].
pub open spec fn mirror_plan(internal_active: bool) -> Seq<Action> {
    (if internal_active {
        Seq::<Action>::empty()
    } else {
        restart_internal_plan()
    }) + seq![Action::Mirror]
}

/// Plan of a lid-close event.  With an external monitor present the layout
/// switches to external-only, then — after the settle delay — wallpaper and
/// bar are restarted.  Without one, media is paused and the system is locked
/// and suspended; no monitor-layout command is issued.
pub open spec fn close_plan(external_present: bool) -> Seq<Action> {
    if external_present {
        seq![
            Action::DisableInternal,
            Action::EnableExternal,
            Action::Wait(SETTLE_DELAY_MS),
            Action::Wallpaper,
            Action::CloseBar,
            Action::OpenBar,
        ]
    } else {
        seq![Action::MediaPause, Action::Lock, Action::Suspend]
    }
}

/// Plan of a lid-open event.  A no-op when the internal monitor is already
/// active.  With no external monitor present the layout switches to
/// internal-only followed by wallpaper, bar restart and bar reload.  With
/// one present, the internal-restart sequence runs, then the extend command
/// exactly once, then wallpaper, bar restart and bar reload.
pub open spec fn open_plan(internal_active: bool, external_present: bool) -> Seq<Action> {
    if internal_active {
        Seq::<Action>::empty()
    } else if !external_present {
        seq![
            Action::EnableInternal,
            Action::DisableExternal,
            Action::Wallpaper,
            Action::CloseBar,
            Action::OpenBar,
            Action::ReloadBar,
        ]
    } else {
        restart_internal_plan() + seq![Action::Extend] + seq![
            Action::Wallpaper,
            Action::CloseBar,
            Action::OpenBar,
            Action::ReloadBar,
        ]
    }
}

/// Plan of one decoded event record: the lid-close record triggers
/// [`close_plan`], the lid-open record triggers [`open_plan`], and any other
/// record is ignored.
pub open spec fn event_plan(
    event: Seq<char>,
    internal_active: bool,
    external_present: bool,
) -> Seq<Action> {
    if event == "button/lid LID close\n"@ {
        close_plan(external_present)
    } else if event == "button/lid LID open\n"@ {
        open_plan(internal_active, external_present)
    } else {
        Seq::<Action>::empty()
    }
}

/// With the internal monitor inactive and an external monitor present, the
/// lid-open plan issues the extend command exactly once, and only after the
/// internal monitor was enabled.
pub proof fn lemma_open_plan_extends_once(internal_active: bool, external_present: bool)
    requires
        !internal_active,
        external_present,
    ensures
        ({
            let plan = open_plan(internal_active, external_present);
            &&& exists|e: int| 0 <= e < plan.len() && plan[e] == Action::Extend
            &&& forall|e1: int, e2: int|
                0 <= e1 < plan.len() && plan[e1] == Action::Extend && 0 <= e2 < plan.len()
                    && plan[e2] == Action::Extend ==> e1 == e2
            &&& forall|e: int|
                0 <= e < plan.len() && #[trigger] plan[e] == Action::Extend ==> exists|b: int|
                    0 <= b < e && plan[b] == Action::EnableInternal
        }),
{
    let plan = open_plan(internal_active, external_present);
    assert(plan =~= seq![
        Action::EnableInternal,
        Action::Wallpaper,
        Action::CloseBar,
        Action::OpenBar,
        Action::ReloadBar,
        Action::Extend,
        Action::Wallpaper,
        Action::CloseBar,
        Action::OpenBar,
        Action::ReloadBar,
    ]);
    assert(plan[5] == Action::Extend);
    assert(forall|e: int| 0 <= e < plan.len() && plan[e] == Action::Extend ==> e == 5);
    assert(plan[0] == Action::EnableInternal);
}

impl HyprDock {
    /// Well-formedness of the configuration: a non-empty monitor name and a
    /// shell-splittable (at least one token) command line in every field.
    pub open spec fn wf(&self) -> bool {
        &&& self.monitor_name@.len() > 0
        &&& tokens_of(self.open_bar_command@).len() > 0
        &&& tokens_of(self.close_bar_command@).len() > 0
        &&& tokens_of(self.reload_bar_command@).len() > 0
        &&& tokens_of(self.suspend_command@).len() > 0
        &&& tokens_of(self.lock_command@).len() > 0
        &&& tokens_of(self.utility_command@).len() > 0
        &&& tokens_of(self.get_monitors_command@).len() > 0
        &&& tokens_of(self.enable_internal_monitor_command@).len() > 0
        &&& tokens_of(self.disable_internal_monitor_command@).len() > 0
        &&& tokens_of(self.enable_external_monitor_command@).len() > 0
        &&& tokens_of(self.disable_external_monitor_command@).len() > 0
        &&& tokens_of(self.extend_command@).len() > 0
        &&& tokens_of(self.mirror_command@).len() > 0
        &&& tokens_of(self.wallpaper_command@).len() > 0
    }

    /// Check the configuration invariant: used once at startup, where a
    /// failing configuration is a fatal operator error.
    pub fn check_wf(&self) -> (ok: bool)
        ensures
            ok == self.wf(),
    {
        !self.monitor_name.as_str().is_empty()
            && !split_command(self.open_bar_command.as_str()).is_empty()
            && !split_command(self.close_bar_command.as_str()).is_empty()
            && !split_command(self.reload_bar_command.as_str()).is_empty()
            && !split_command(self.suspend_command.as_str()).is_empty()
            && !split_command(self.lock_command.as_str()).is_empty()
            && !split_command(self.utility_command.as_str()).is_empty()
            && !split_command(self.get_monitors_command.as_str()).is_empty()
            && !split_command(self.enable_internal_monitor_command.as_str()).is_empty()
            && !split_command(self.disable_internal_monitor_command.as_str()).is_empty()
            && !split_command(self.enable_external_monitor_command.as_str()).is_empty()
            && !split_command(self.disable_external_monitor_command.as_str()).is_empty()
            && !split_command(self.extend_command.as_str()).is_empty()
            && !split_command(self.mirror_command.as_str()).is_empty()
            && !split_command(self.wallpaper_command.as_str()).is_empty()
    }

    /// The internal monitor counts as active iff the listing output contains
    /// the configured monitor name as a substring.  This is a heuristic
    /// match, not structured parsing: the name occurring elsewhere in the
    /// output also counts (a documented limitation of the listing format).
    pub fn is_internal_active(&self, listing: &str) -> (active: bool)
        ensures
            active == is_substring(self.monitor_name@, listing@),
    {
        contains_substring(listing, self.monitor_name.as_str())
    }

    /// An external monitor counts as present iff the listing output contains
    /// the literal marker `"ID 1"`: the listing tool numbers a second
    /// display device ID 1.  Topologies beyond two monitors are out of
    /// scope.
    pub fn has_external_monitor(&self, listing: &str) -> (present: bool)
        ensures
            present == is_substring("ID 1"@, listing@),
    {
        contains_substring(listing, "ID 1")
    }

    /// The configured command line behind an action; `None` only for the
    /// timed pause, which runs no command.
    pub fn command_for(&self, action: Action) -> (cmd: Option<&String>)
        ensures
            match action {
                Action::OpenBar => cmd == Some(&self.open_bar_command),
                Action::CloseBar => cmd == Some(&self.close_bar_command),
                Action::ReloadBar => cmd == Some(&self.reload_bar_command),
                Action::Suspend => cmd == Some(&self.suspend_command),
                Action::Lock => cmd == Some(&self.lock_command),
                Action::MediaPause => cmd == Some(&self.utility_command),
                Action::EnableInternal => cmd == Some(&self.enable_internal_monitor_command),
                Action::DisableInternal => cmd == Some(&self.disable_internal_monitor_command),
                Action::EnableExternal => cmd == Some(&self.enable_external_monitor_command),
                Action::DisableExternal => cmd == Some(&self.disable_external_monitor_command),
                Action::Extend => cmd == Some(&self.extend_command),
                Action::Mirror => cmd == Some(&self.mirror_command),
                Action::Wallpaper => cmd == Some(&self.wallpaper_command),
                Action::Wait(_) => cmd is None,
            },
    {
        match action {
            Action::OpenBar => Some(&self.open_bar_command),
            Action::CloseBar => Some(&self.close_bar_command),
            Action::ReloadBar => Some(&self.reload_bar_command),
            Action::Suspend => Some(&self.suspend_command),
            Action::Lock => Some(&self.lock_command),
            Action::MediaPause => Some(&self.utility_command),
            Action::EnableInternal => Some(&self.enable_internal_monitor_command),
            Action::DisableInternal => Some(&self.disable_internal_monitor_command),
            Action::EnableExternal => Some(&self.enable_external_monitor_command),
            Action::DisableExternal => Some(&self.disable_external_monitor_command),
            Action::Extend => Some(&self.extend_command),
            Action::Mirror => Some(&self.mirror_command),
            Action::Wallpaper => Some(&self.wallpaper_command),
            Action::Wait(_) => None,
        }
    }

    /// Lock the screen, then suspend immediately after.
    pub fn lock_system(&self) -> (plan: Vec<Action>)
        ensures
            plan@ == lock_plan(),
    {
        let mut plan: Vec<Action> = Vec::new();
        plan.push(Action::Lock);
        plan.push(Action::Suspend);
        proof {
            assert(plan@ =~= lock_plan());
        }
        plan
    }

    /// Pause media playback.
    pub fn stop_music(&self) -> (plan: Vec<Action>)
        ensures
            plan@ == seq![Action::MediaPause],
    {
        let mut plan: Vec<Action> = Vec::new();
        plan.push(Action::MediaPause);
        proof {
            assert(plan@ =~= seq![Action::MediaPause]);
        }
        plan
    }

    /// Re-issue the wallpaper command unconditionally.
    pub fn restart_hyprpaper(&self) -> (plan: Vec<Action>)
        ensures
            plan@ == seq![Action::Wallpaper],
    {
        let mut plan: Vec<Action> = Vec::new();
        plan.push(Action::Wallpaper);
        proof {
            assert(plan@ =~= seq![Action::Wallpaper]);
        }
        plan
    }

    /// Close, then re-open the status bar.
    pub fn restart_eww_bar(&self) -> (plan: Vec<Action>)
        ensures
            plan@ == bar_restart_plan(),
    {
        let mut plan: Vec<Action> = Vec::new();
        plan.push(Action::CloseBar);
        plan.push(Action::OpenBar);
        proof {
            assert(plan@ =~= bar_restart_plan());
        }
        plan
    }

    /// Reload the status bar in place, fixing stale layout state.
    pub fn fix_eww_bar(&self) -> (plan: Vec<Action>)
        ensures
            plan@ == seq![Action::ReloadBar],
    {
        let mut plan: Vec<Action> = Vec::new();
        plan.push(Action::ReloadBar);
        proof {
            assert(plan@ =~= seq![Action::ReloadBar]);
        }
        plan
    }

    /// The internal-monitor restart sequence.
    pub fn restart_internal(&self) -> (plan: Vec<Action>)
        ensures
            plan@ == restart_internal_plan(),
    {
        let mut plan: Vec<Action> = Vec::new();
        plan.push(Action::EnableInternal);
        plan.push(Action::Wallpaper);
        plan.push(Action::CloseBar);
        plan.push(Action::OpenBar);
        plan.push(Action::ReloadBar);
        proof {
            assert(plan@ =~= restart_internal_plan());
        }
        plan
    }

    /// Switch to the internal monitor only.
    pub fn internal_monitor(&self, internal_active: bool) -> (plan: Vec<Action>)
        ensures
            plan@ == internal_only_plan(internal_active),
    {
        let mut plan: Vec<Action> = Vec::new();
        plan.push(Action::EnableInternal);
        plan.push(Action::DisableExternal);
        if !internal_active {
            plan.push(Action::CloseBar);
            plan.push(Action::OpenBar);
            plan.push(Action::Wallpaper);
        }
        proof {
            assert(plan@ =~= internal_only_plan(internal_active));
        }
        plan
    }

    /// Switch to the external monitor only.
    pub fn external_monitor(&self, internal_active: bool, external_present: bool) -> (plan: Vec<
        Action,
    >)
        ensures
            plan@ == external_only_plan(internal_active, external_present),
    {
        let mut plan: Vec<Action> = Vec::new();
        if !external_present {
            proof {
                assert(plan@ =~= external_only_plan(internal_active, external_present));
            }
            return plan;
        }
        plan.push(Action::DisableInternal);
        plan.push(Action::EnableExternal);
        if internal_active {
            plan.push(Action::CloseBar);
            plan.push(Action::OpenBar);
            plan.push(Action::Wallpaper);
        }
        proof {
            assert(plan@ =~= external_only_plan(internal_active, external_present));
        }
        plan
    }

    /// Extend the desktop across both monitors.
    pub fn extend_monitor(&self, internal_active: bool) -> (plan: Vec<Action>)
        ensures
            plan@ == extend_plan(internal_active),
    {
        let mut plan: Vec<Action> = Vec::new();
        if !internal_active {
            plan.push(Action::EnableInternal);
            plan.push(Action::Wallpaper);
            plan.push(Action::CloseBar);
            plan.push(Action::OpenBar);
            plan.push(Action::ReloadBar);
        }
        plan.push(Action::Extend);
        proof {
            assert(plan@ =~= extend_plan(internal_active));
        }
        plan
    }

    /// Mirror the desktop on both monitors.
    pub fn mirror_monitor(&self, internal_active: bool) -> (plan: Vec<Action>)
        ensures
            plan@ == mirror_plan(internal_active),
    {
        let mut plan: Vec<Action> = Vec::new();
        if !internal_active {
            plan.push(Action::EnableInternal);
            plan.push(Action::Wallpaper);
            plan.push(Action::CloseBar);
            plan.push(Action::OpenBar);
            plan.push(Action::ReloadBar);
        }
        plan.push(Action::Mirror);
        proof {
            assert(plan@ =~= mirror_plan(internal_active));
        }
        plan
    }

    /// Decide the lid-close sequence from the live external-monitor probe.
    pub fn handle_close(&self, external_present: bool) -> (plan: Vec<Action>)
        ensures
            plan@ == close_plan(external_present),
            external_present ==> plan@ == seq![
                Action::DisableInternal,
                Action::EnableExternal,
                Action::Wait(SETTLE_DELAY_MS),
                Action::Wallpaper,
                Action::CloseBar,
                Action::OpenBar,
            ],
            !external_present ==> plan@ == seq![Action::MediaPause, Action::Lock, Action::Suspend],
            !external_present ==> forall|k: int|
                0 <= k < plan@.len() ==> !is_layout_action(#[trigger] plan@[k]),
    {
        let mut plan: Vec<Action> = Vec::new();
        if external_present {
            plan.push(Action::DisableInternal);
            plan.push(Action::EnableExternal);
            plan.push(Action::Wait(SETTLE_DELAY_MS));
            plan.push(Action::Wallpaper);
            plan.push(Action::CloseBar);
            plan.push(Action::OpenBar);
        } else {
            plan.push(Action::MediaPause);
            plan.push(Action::Lock);
            plan.push(Action::Suspend);
        }
        proof {
            assert(plan@ =~= close_plan(external_present));
        }
        plan
    }

    /// Decide the lid-open sequence from the live probe results.
    pub fn handle_open(&self, internal_active: bool, external_present: bool) -> (plan: Vec<
        Action,
    >)
        ensures
            plan@ == open_plan(internal_active, external_present),
            internal_active ==> plan@ == Seq::<Action>::empty(),
            !internal_active && !external_present ==> plan@ == seq![
                Action::EnableInternal,
                Action::DisableExternal,
                Action::Wallpaper,
                Action::CloseBar,
                Action::OpenBar,
                Action::ReloadBar,
            ],
            !internal_active && external_present ==> plan@ == restart_internal_plan() + seq![
                Action::Extend,
            ] + seq![Action::Wallpaper, Action::CloseBar, Action::OpenBar, Action::ReloadBar],
            !internal_active && !external_present ==> forall|k: int|
                0 <= k < plan@.len() ==> !(#[trigger] plan@[k] is Extend) && !(plan@[k] is Mirror),
    {
        let mut plan: Vec<Action> = Vec::new();
        if internal_active {
            proof {
                assert(plan@ =~= open_plan(internal_active, external_present));
            }
            return plan;
        }
        if !external_present {
            plan.push(Action::EnableInternal);
            plan.push(Action::DisableExternal);
            plan.push(Action::Wallpaper);
            plan.push(Action::CloseBar);
            plan.push(Action::OpenBar);
            plan.push(Action::ReloadBar);
        } else {
            plan.push(Action::EnableInternal);
            plan.push(Action::Wallpaper);
            plan.push(Action::CloseBar);
            plan.push(Action::OpenBar);
            plan.push(Action::ReloadBar);
            plan.push(Action::Extend);
            plan.push(Action::Wallpaper);
            plan.push(Action::CloseBar);
            plan.push(Action::OpenBar);
            plan.push(Action::ReloadBar);
        }
        proof {
            assert(plan@ =~= open_plan(internal_active, external_present));
        }
        plan
    }

    /// Dispatch one decoded event record: the two lid records map to their
    /// handlers, anything else is ignored.
    pub fn handle_event(
        &self,
        event: &str,
        internal_active: bool,
        external_present: bool,
    ) -> (plan: Vec<Action>)
        ensures
            plan@ == event_plan(event@, internal_active, external_present),
    {
        if str_eq(event, "button/lid LID close\n") {
            self.handle_close(external_present)
        } else if str_eq(event, "button/lid LID open\n") {
            self.handle_open(internal_active, external_present)
        } else {
            Vec::new()
        }
    }
}

} // verus!
