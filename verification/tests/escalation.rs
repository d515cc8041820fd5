use gpu_temp_watch::notifications::NotificationManager;
use std::time::{SystemTime, UNIX_EPOCH};

fn unix_now() -> u64 {
    SystemTime::now()
        .duration_since(UNIX_EPOCH)
        .unwrap()
        .as_secs()
}

#[test]
fn cooldown_prevents_immediate_repeat() {
    let mut manager = NotificationManager::new();
    let now = unix_now();
    assert!(manager.should_notify(true, now));

    manager.test_set_last_notification_time(Some(now));
    manager.test_set_cooldown_level(0);

    assert!(!manager.should_notify(true, now));

    manager.test_set_last_notification_time(Some(0));
    assert!(manager.should_notify(true, now));
}

#[test]
fn reset_on_normal_temperature() {
    let mut manager = NotificationManager::new();
    manager.test_set_last_notification_time(Some(123));
    manager.test_set_cooldown_level(3);

    assert!(!manager.should_notify(false, unix_now()));
    assert_eq!(manager.test_cooldown_level(), 0);
    assert_eq!(manager.test_last_notification_time(), None);
}

#[test]
fn first_crossing_always_fires_after_reset() {
    let mut manager = NotificationManager::new();
    assert!(manager.should_notify(true, 1000));
    assert!(manager.should_notify(true, 1100));
    assert!(!manager.should_notify(false, 1200));
    assert_eq!(manager.test_cooldown_level(), 0);
    assert!(manager.should_notify(true, 1201));
}

#[test]
fn cooldown_formula_doubles_to_ceiling() {
    let mut manager = NotificationManager::new();
    let expected: [u64; 7] = [20, 40, 80, 160, 320, 320, 320];
    for (level, want) in expected.iter().enumerate() {
        manager.test_set_cooldown_level(level as u32);
        assert_eq!(manager.calculate_cooldown_duration(), *want);
    }
}

#[test]
fn cooldown_boundary_is_exact() {
    let mut manager = NotificationManager::new();
    // First crossing fires and opens a 20 second window.
    assert!(manager.should_notify(true, 1000));
    assert_eq!(manager.test_cooldown_level(), 1);
    // One second before the window closes: suppressed.
    assert!(!manager.should_notify(true, 1019));
    // The instant it closes: fires, and the next window is 40 seconds.
    assert!(manager.should_notify(true, 1020));
    assert_eq!(manager.test_cooldown_level(), 2);
    assert!(!manager.should_notify(true, 1059));
    assert!(manager.should_notify(true, 1060));
}

#[test]
fn status_notification_dialog_only_for_errors() {
    let manager = NotificationManager::new();
    assert!(manager.send_status_notification_sync("NVML Error: no device"));
    assert!(manager.send_status_notification_sync("Startup Failed"));
    assert!(!manager.send_status_notification_sync("GPU Temperature Monitor started"));
}
