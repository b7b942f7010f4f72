use hyprdock::action::Action;
use hyprdock::dock::HyprDock;
use hyprdock::SETTLE_DELAY_MS;

fn sample_dock() -> HyprDock {
    HyprDock {
        monitor_name: String::from("eDP-1"),
        open_bar_command: String::from("eww open bar"),
        close_bar_command: String::from("eww close-all"),
        reload_bar_command: String::from("eww reload"),
        suspend_command: String::from("systemctl suspend"),
        lock_command: String::from("swaylock -c 000000"),
        utility_command: String::from("playerctl --all-players -a pause"),
        get_monitors_command: String::from("hyprctl monitors"),
        enable_internal_monitor_command: String::from("hyprctl keyword monitor eDP-1,highrr,0x0,1"),
        disable_internal_monitor_command: String::from("hyprctl keyword monitor eDP-1,disabled"),
        enable_external_monitor_command: String::from("hyprctl keyword monitor ,highrr,0x0,1"),
        disable_external_monitor_command: String::from("hyprctl keyword monitor ,disabled"),
        extend_command: String::from("hyprctl keyword monitor ,highrr,1920x0,1"),
        mirror_command: String::from("hyprctl keyword monitor ,highrr,0x0,1"),
        wallpaper_command: String::from("hyprctl dispatch hyprpaper"),
    }
}

#[test]
fn open_is_noop_when_internal_active() {
    let dock = sample_dock();
    assert_eq!(dock.handle_open(true, false), vec![]);
    assert_eq!(dock.handle_open(true, true), vec![]);
}

#[test]
fn open_without_external_switches_to_internal_only() {
    let dock = sample_dock();
    assert_eq!(
        dock.handle_open(false, false),
        vec![
            Action::EnableInternal,
            Action::DisableExternal,
            Action::Wallpaper,
            Action::CloseBar,
            Action::OpenBar,
            Action::ReloadBar,
        ]
    );
}

#[test]
fn open_with_external_extends_after_internal_restart() {
    let dock = sample_dock();
    let plan = dock.handle_open(false, true);
    assert_eq!(
        plan,
        vec![
            Action::EnableInternal,
            Action::Wallpaper,
            Action::CloseBar,
            Action::OpenBar,
            Action::ReloadBar,
            Action::Extend,
            Action::Wallpaper,
            Action::CloseBar,
            Action::OpenBar,
            Action::ReloadBar,
        ]
    );
    // The extend command appears exactly once, after internal enablement.
    let extends: Vec<usize> = plan
        .iter()
        .enumerate()
        .filter(|(_, a)| **a == Action::Extend)
        .map(|(i, _)| i)
        .collect();
    assert_eq!(extends.len(), 1);
    assert!(plan[..extends[0]].contains(&Action::EnableInternal));
}

#[test]
fn close_with_external_switches_then_waits_then_restarts() {
    let dock = sample_dock();
    assert_eq!(
        dock.handle_close(true),
        vec![
            Action::DisableInternal,
            Action::EnableExternal,
            Action::Wait(SETTLE_DELAY_MS),
            Action::Wallpaper,
            Action::CloseBar,
            Action::OpenBar,
        ]
    );
}

#[test]
fn close_without_external_pauses_media_then_locks_and_suspends() {
    let dock = sample_dock();
    let plan = dock.handle_close(false);
    assert_eq!(plan, vec![Action::MediaPause, Action::Lock, Action::Suspend]);
    for action in &plan {
        assert!(!matches!(
            action,
            Action::EnableInternal
                | Action::DisableInternal
                | Action::EnableExternal
                | Action::DisableExternal
                | Action::Extend
                | Action::Mirror
        ));
    }
}

#[test]
fn handle_event_dispatches_the_two_lid_records() {
    let dock = sample_dock();
    assert_eq!(
        dock.handle_event("button/lid LID close\n", false, false),
        dock.handle_close(false)
    );
    assert_eq!(
        dock.handle_event("button/lid LID close\n", true, true),
        dock.handle_close(true)
    );
    assert_eq!(
        dock.handle_event("button/lid LID open\n", false, true),
        dock.handle_open(false, true)
    );
}

#[test]
fn handle_event_ignores_unrecognized_records() {
    let dock = sample_dock();
    assert_eq!(dock.handle_event("battery PNP0C0A:00 00000080\n", false, false), vec![]);
    assert_eq!(dock.handle_event("", false, false), vec![]);
    // A record missing its newline is not a lid event.
    assert_eq!(dock.handle_event("button/lid LID close", false, false), vec![]);
}

#[test]
fn is_internal_active_matches_monitor_name_substring() {
    let dock = sample_dock();
    assert!(dock.is_internal_active("Monitor eDP-1 (ID 0):\n\t1920x1080@60"));
    assert!(!dock.is_internal_active("Monitor DP-3 (ID 0):\n\t2560x1440@144"));
    assert!(!dock.is_internal_active(""));
    // Heuristic match: the name occurring inside another identifier counts.
    assert!(dock.is_internal_active("Monitor eDP-11 (ID 0)"));
}

#[test]
fn has_external_monitor_matches_id_1_marker() {
    let dock = sample_dock();
    assert!(dock.has_external_monitor("Monitor eDP-1 (ID 0):\nMonitor DP-3 (ID 1):"));
    assert!(!dock.has_external_monitor("Monitor eDP-1 (ID 0):"));
    assert!(!dock.has_external_monitor(""));
    assert!(!dock.has_external_monitor("ID1 ID 2 D 1"));
    assert!(dock.has_external_monitor("ID 10"));
}

#[test]
fn actuator_plans_follow_the_gating_rules() {
    let dock = sample_dock();
    assert_eq!(
        dock.internal_monitor(false),
        vec![
            Action::EnableInternal,
            Action::DisableExternal,
            Action::CloseBar,
            Action::OpenBar,
            Action::Wallpaper,
        ]
    );
    assert_eq!(
        dock.internal_monitor(true),
        vec![Action::EnableInternal, Action::DisableExternal]
    );
    assert_eq!(dock.external_monitor(false, false), vec![]);
    assert_eq!(dock.external_monitor(true, false), vec![]);
    assert_eq!(
        dock.external_monitor(false, true),
        vec![Action::DisableInternal, Action::EnableExternal]
    );
    assert_eq!(
        dock.external_monitor(true, true),
        vec![
            Action::DisableInternal,
            Action::EnableExternal,
            Action::CloseBar,
            Action::OpenBar,
            Action::Wallpaper,
        ]
    );
}

#[test]
fn extend_and_mirror_bring_up_internal_first() {
    let dock = sample_dock();
    assert_eq!(dock.extend_monitor(true), vec![Action::Extend]);
    assert_eq!(
        dock.extend_monitor(false),
        vec![
            Action::EnableInternal,
            Action::Wallpaper,
            Action::CloseBar,
            Action::OpenBar,
            Action::ReloadBar,
            Action::Extend,
        ]
    );
    assert_eq!(dock.mirror_monitor(true), vec![Action::Mirror]);
    assert_eq!(
        dock.mirror_monitor(false),
        vec![
            Action::EnableInternal,
            Action::Wallpaper,
            Action::CloseBar,
            Action::OpenBar,
            Action::ReloadBar,
            Action::Mirror,
        ]
    );
}

#[test]
fn small_plans_are_exact() {
    let dock = sample_dock();
    assert_eq!(dock.lock_system(), vec![Action::Lock, Action::Suspend]);
    assert_eq!(dock.stop_music(), vec![Action::MediaPause]);
    assert_eq!(dock.restart_hyprpaper(), vec![Action::Wallpaper]);
    assert_eq!(dock.restart_eww_bar(), vec![Action::CloseBar, Action::OpenBar]);
    assert_eq!(dock.fix_eww_bar(), vec![Action::ReloadBar]);
    assert_eq!(
        dock.restart_internal(),
        vec![
            Action::EnableInternal,
            Action::Wallpaper,
            Action::CloseBar,
            Action::OpenBar,
            Action::ReloadBar,
        ]
    );
}

#[test]
fn command_for_maps_each_action_to_its_field() {
    let dock = sample_dock();
    assert_eq!(dock.command_for(Action::OpenBar), Some(&dock.open_bar_command));
    assert_eq!(dock.command_for(Action::CloseBar), Some(&dock.close_bar_command));
    assert_eq!(dock.command_for(Action::ReloadBar), Some(&dock.reload_bar_command));
    assert_eq!(dock.command_for(Action::Suspend), Some(&dock.suspend_command));
    assert_eq!(dock.command_for(Action::Lock), Some(&dock.lock_command));
    assert_eq!(dock.command_for(Action::MediaPause), Some(&dock.utility_command));
    assert_eq!(
        dock.command_for(Action::EnableInternal),
        Some(&dock.enable_internal_monitor_command)
    );
    assert_eq!(
        dock.command_for(Action::DisableInternal),
        Some(&dock.disable_internal_monitor_command)
    );
    assert_eq!(
        dock.command_for(Action::EnableExternal),
        Some(&dock.enable_external_monitor_command)
    );
    assert_eq!(
        dock.command_for(Action::DisableExternal),
        Some(&dock.disable_external_monitor_command)
    );
    assert_eq!(dock.command_for(Action::Extend), Some(&dock.extend_command));
    assert_eq!(dock.command_for(Action::Mirror), Some(&dock.mirror_command));
    assert_eq!(dock.command_for(Action::Wallpaper), Some(&dock.wallpaper_command));
    assert_eq!(dock.command_for(Action::Wait(250)), None);
}

#[test]
fn check_wf_accepts_the_default_configuration() {
    let dock = sample_dock();
    assert!(dock.check_wf());
}

#[test]
fn check_wf_rejects_empty_or_blank_fields() {
    let mut dock = sample_dock();
    dock.suspend_command = String::from("");
    assert!(!dock.check_wf());

    let mut dock = sample_dock();
    dock.lock_command = String::from("   ");
    assert!(!dock.check_wf());

    let mut dock = sample_dock();
    dock.monitor_name = String::from("");
    assert!(!dock.check_wf());
}
