use gpu_temp_watch::config::Config;
use gpu_temp_watch::monitor::{
    monitor_temperatures_cycle, summarize_readings, temperature_reading_in_range, GpuTempReading,
};
use gpu_temp_watch::notifications::NotificationManager;
use gpu_temp_watch::web_server::AppState;

fn test_config() -> Config {
    Config {
        temperature_threshold_tenths: 600,
        poll_interval_sec: 20,
        base_cooldown_sec: 20,
        enable_logging: true,
        log_file_path: None,
    }
}

fn reading(name: &str, tenths: i32) -> GpuTempReading {
    GpuTempReading {
        sensor_name: name.to_string(),
        temperature: tenths,
        min_temp: None,
        max_temp: None,
    }
}

#[test]
fn escalation_scenario_over_a_whole_excursion() {
    // Threshold 60.0 degrees, base cooldown 20 seconds.
    let config = test_config();
    let mut state = AppState::new(config.clone(), false);
    let mut notifications = NotificationManager::new();

    // 65 degrees at t=0: fires, level 1.
    let readings = vec![reading("GPU 0", 650)];
    let actions =
        monitor_temperatures_cycle(&readings, &config, &mut state, &mut notifications, 0, "t0");
    assert!(actions.any_over_threshold);
    let alert = actions.alert.expect("first crossing must fire");
    assert_eq!(alert.sensor_name, "GPU 0");
    assert_eq!(alert.temperature, 650);
    assert_eq!(alert.threshold, 600);
    assert_eq!(notifications.test_cooldown_level(), 1);

    // 66 degrees at t=10: suppressed, the 20 second cooldown has not elapsed.
    let readings = vec![reading("GPU 0", 660)];
    let actions =
        monitor_temperatures_cycle(&readings, &config, &mut state, &mut notifications, 10, "t10");
    assert!(actions.any_over_threshold);
    assert!(actions.alert.is_none());
    assert_eq!(notifications.test_cooldown_level(), 1);

    // 67 degrees at t=25: fires, level 2, next cooldown 40 seconds.
    let readings = vec![reading("GPU 0", 670)];
    let actions =
        monitor_temperatures_cycle(&readings, &config, &mut state, &mut notifications, 25, "t25");
    assert!(actions.alert.is_some());
    assert_eq!(notifications.test_cooldown_level(), 2);

    // 50 degrees at t=30: the condition clears, level resets, memory clears.
    let readings = vec![reading("GPU 0", 500)];
    let actions =
        monitor_temperatures_cycle(&readings, &config, &mut state, &mut notifications, 30, "t30");
    assert!(!actions.any_over_threshold);
    assert!(actions.alert.is_none());
    assert_eq!(notifications.test_cooldown_level(), 0);
    assert_eq!(notifications.test_last_notification_time(), None);

    // 65 degrees at t=31: a fresh crossing fires immediately.
    let readings = vec![reading("GPU 0", 650)];
    let actions =
        monitor_temperatures_cycle(&readings, &config, &mut state, &mut notifications, 31, "t31");
    assert!(actions.alert.is_some());
    assert_eq!(notifications.test_cooldown_level(), 1);
}

#[test]
fn cycle_updates_dashboard_before_deciding() {
    let config = test_config();
    let mut state = AppState::new(config.clone(), false);
    let mut notifications = NotificationManager::new();

    let readings = vec![reading("GPU 0", 450), reading("GPU 1", 651)];
    let actions = monitor_temperatures_cycle(
        &readings,
        &config,
        &mut state,
        &mut notifications,
        0,
        "2024-01-01 10:00:00",
    );

    assert_eq!(state.current_temperature, Some(651));
    assert_eq!(state.gpu_connection_status, "Connected");
    assert_eq!(state.last_update, "2024-01-01 10:00:00");
    assert_eq!(state.recent_logs.len(), 2);
    assert_eq!(state.recent_logs[0].level, "INFO");
    assert_eq!(state.recent_logs[0].message, "GPU 0: 45.0°C");
    assert_eq!(state.recent_logs[1].level, "WARN");
    assert_eq!(state.recent_logs[1].message, "GPU 1: 65.1°C");

    let icon = actions.icon_update.expect("an icon update every cycle");
    assert_eq!(icon.temperature, 651);
    assert_eq!(icon.threshold, 600);
    let alert = actions.alert.expect("over threshold and first crossing");
    assert_eq!(alert.sensor_name, "GPU 1");
    assert_eq!(alert.temperature, 651);
    assert_eq!(actions.next_poll_interval_sec, 20);
}

#[test]
fn empty_readings_skip_the_cycle() {
    let config = test_config();
    let mut state = AppState::new(config.clone(), false);
    let mut notifications = NotificationManager::new();

    let readings: Vec<GpuTempReading> = Vec::new();
    let actions =
        monitor_temperatures_cycle(&readings, &config, &mut state, &mut notifications, 0, "t0");
    assert!(!actions.any_over_threshold);
    assert!(actions.icon_update.is_none());
    assert!(actions.alert.is_none());
    assert_eq!(actions.next_poll_interval_sec, 20);
    assert_eq!(state.recent_logs.len(), 0);
    assert_eq!(state.current_temperature, None);
}

#[test]
fn summary_keeps_first_of_equal_maxima() {
    let readings = vec![
        reading("GPU 0", 700),
        reading("GPU 1", 700),
        reading("GPU 2", 500),
    ];
    let summary = summarize_readings(&readings, 600);
    assert!(summary.any_over_threshold);
    assert_eq!(summary.max_temp, 700);
    assert_eq!(summary.hottest_sensor, "GPU 0");
    assert_eq!(summary.actual_max, 700);
}

#[test]
fn summary_of_no_readings_is_empty() {
    let readings: Vec<GpuTempReading> = Vec::new();
    let summary = summarize_readings(&readings, 600);
    assert!(!summary.any_over_threshold);
    assert_eq!(summary.max_temp, 0);
    assert_eq!(summary.hottest_sensor, "");
    assert_eq!(summary.actual_max, 0);
}

#[test]
fn plausible_temperature_range() {
    assert!(!temperature_reading_in_range(0));
    assert!(temperature_reading_in_range(1));
    assert!(temperature_reading_in_range(1999));
    assert!(!temperature_reading_in_range(2000));
    assert!(!temperature_reading_in_range(-5));
}
