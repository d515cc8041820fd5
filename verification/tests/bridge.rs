use gpu_temp_watch::tray::{
    menu_id_to_message, tray_action_for, BridgeCommand, DuplicateFilter, IconState, IconTracker,
    TrayAction, TrayMessage,
};

#[test]
fn maps_known_menu_ids() {
    assert_eq!(menu_id_to_message("about"), Some(TrayMessage::About));
    assert_eq!(menu_id_to_message("pause"), Some(TrayMessage::Pause));
    assert_eq!(
        menu_id_to_message("settings"),
        Some(TrayMessage::OpenWebInterface)
    );
    assert_eq!(menu_id_to_message("exit"), Some(TrayMessage::Exit));
}

#[test]
fn unknown_menu_id_returns_none() {
    assert_eq!(menu_id_to_message("nope"), None);
}

#[test]
fn maps_remaining_menu_ids() {
    assert_eq!(menu_id_to_message("resume"), Some(TrayMessage::Resume));
    assert_eq!(menu_id_to_message("show_logs"), Some(TrayMessage::ShowLogs));
    assert_eq!(
        menu_id_to_message("open_config"),
        Some(TrayMessage::OpenConfig)
    );
    assert_eq!(
        menu_id_to_message("open_logs_folder"),
        Some(TrayMessage::OpenLogsFolder)
    );
    assert_eq!(
        menu_id_to_message("autostart_install"),
        Some(TrayMessage::InstallAutostart)
    );
    assert_eq!(
        menu_id_to_message("autostart_remove"),
        Some(TrayMessage::UninstallAutostart)
    );
}

#[test]
fn duplicate_within_window_is_dropped() {
    let mut filter = DuplicateFilter::new();
    assert!(filter.accept(TrayMessage::OpenWebInterface, 0));
    assert!(!filter.accept(TrayMessage::OpenWebInterface, 100));
}

#[test]
fn duplicate_outside_window_is_delivered() {
    let mut filter = DuplicateFilter::new();
    assert!(filter.accept(TrayMessage::OpenWebInterface, 0));
    assert!(filter.accept(TrayMessage::OpenWebInterface, 600));
}

#[test]
fn different_event_is_never_suppressed() {
    let mut filter = DuplicateFilter::new();
    assert!(filter.accept(TrayMessage::OpenWebInterface, 0));
    assert!(filter.accept(TrayMessage::Exit, 50));
}

#[test]
fn icon_states_follow_temperature_bands() {
    let mut tracker = IconTracker::new();
    assert_eq!(tracker.current_icon_state, IconState::Cool);
    // 65.0 over a 60.0 threshold: hot.
    assert_eq!(
        tracker.update_icon_for_temperature(650, 600),
        Some(BridgeCommand::UpdateIcon(IconState::Hot))
    );
    // Same classification again: no command.
    assert_eq!(tracker.update_icon_for_temperature(700, 600), None);
    // 55.0: within ten degrees below the threshold, warm.
    assert_eq!(
        tracker.update_icon_for_temperature(550, 600),
        Some(BridgeCommand::UpdateIcon(IconState::Warm))
    );
    // 45.0: cool again.
    assert_eq!(
        tracker.update_icon_for_temperature(450, 600),
        Some(BridgeCommand::UpdateIcon(IconState::Cool))
    );
}

#[test]
fn tray_actions_route_events() {
    assert_eq!(tray_action_for(TrayMessage::Exit), TrayAction::Quit);
    assert_eq!(
        tray_action_for(TrayMessage::OpenWebInterface),
        TrayAction::OpenDashboard
    );
    assert_eq!(
        tray_action_for(TrayMessage::ShowLogs),
        TrayAction::OpenLogFile
    );
    assert_eq!(
        tray_action_for(TrayMessage::OpenConfig),
        TrayAction::OpenConfigFile
    );
    assert_eq!(
        tray_action_for(TrayMessage::Pause),
        TrayAction::PauseMonitoring
    );
}
