use gpu_temp_watch::config::{Config, ValidationError};
use gpu_temp_watch::web_server::{
    decide_action, AppState, FullLogEntry, LogsQuery, WebAction, WebConfig,
};

fn test_config() -> Config {
    Config {
        temperature_threshold_tenths: 600,
        poll_interval_sec: 20,
        base_cooldown_sec: 20,
        enable_logging: true,
        log_file_path: None,
    }
}

fn entry(timestamp: &str, level: &str, message: &str) -> FullLogEntry {
    FullLogEntry {
        timestamp: timestamp.to_string(),
        level: level.to_string(),
        message: message.to_string(),
        correlation_id: None,
        context: None,
        module: None,
        thread_id: None,
        process_id: None,
    }
}

#[test]
fn negative_threshold_is_rejected_naming_the_field() {
    let config = Config {
        temperature_threshold_tenths: -10,
        ..test_config()
    };
    match config.validate() {
        Err(ValidationError::Threshold { value, min, max }) => {
            assert_eq!(value, -10);
            assert_eq!(min, 0);
            assert_eq!(max, 1500);
        }
        other => panic!("expected a threshold rejection, got {:?}", other),
    }
}

#[test]
fn rejected_update_leaves_config_untouched() {
    let mut state = AppState::new(test_config(), false);
    let candidate = Config {
        temperature_threshold_tenths: -10,
        ..test_config()
    };
    let result = state.update_config(candidate);
    assert!(matches!(result, Err(ValidationError::Threshold { .. })));
    assert_eq!(state.config.temperature_threshold_tenths, 600);
    assert_eq!(state.config.poll_interval_sec, 20);
}

#[test]
fn accepted_update_commits_and_rollback_restores() {
    let mut state = AppState::new(test_config(), false);
    let previous = state.config.clone();
    let candidate = Config {
        temperature_threshold_tenths: 700,
        poll_interval_sec: 30,
        ..test_config()
    };
    assert!(state.update_config(candidate).is_ok());
    assert_eq!(state.config.temperature_threshold_tenths, 700);
    assert_eq!(state.config.poll_interval_sec, 30);
    // Persistence failed outside: the caller rolls back.
    state.rollback_config(previous);
    assert_eq!(state.config.temperature_threshold_tenths, 600);
    assert_eq!(state.config.poll_interval_sec, 20);
}

#[test]
fn interval_and_cooldown_bounds_are_enforced() {
    let too_fast = Config {
        poll_interval_sec: 4,
        ..test_config()
    };
    assert!(matches!(
        too_fast.validate(),
        Err(ValidationError::PollInterval { value: 4, min: 5, max: 3600 })
    ));
    let no_cooldown = Config {
        base_cooldown_sec: 0,
        ..test_config()
    };
    assert!(matches!(
        no_cooldown.validate(),
        Err(ValidationError::BaseCooldown { value: 0, min: 1, max: 600 })
    ));
    assert!(test_config().validate().is_ok());
}

#[test]
fn update_threshold_validates_before_writing() {
    let mut config = test_config();
    assert!(config.update_threshold(1501).is_err());
    assert_eq!(config.temperature_threshold_tenths, 600);
    assert!(config.update_threshold(750).is_ok());
    assert_eq!(config.temperature_threshold_tenths, 750);
    assert!(config.update_poll_interval(3601).is_err());
    assert_eq!(config.poll_interval_sec, 20);
    assert!(config.update_poll_interval(60).is_ok());
    assert_eq!(config.poll_interval_sec, 60);
}

#[test]
fn temperature_and_status_change_together() {
    let mut state = AppState::new(test_config(), false);
    assert_eq!(state.current_temperature, None);
    assert_eq!(state.gpu_connection_status, "Unknown");
    state.update_temperature(Some(651), "Connected");
    let snapshot = state.status_response();
    assert_eq!(snapshot.temperature, Some(651));
    assert_eq!(snapshot.gpu_connection_status, "Connected");
    state.update_temperature(None, "Error reading temperature");
    let snapshot = state.status_response();
    assert_eq!(snapshot.temperature, None);
    assert_eq!(snapshot.gpu_connection_status, "Error reading temperature");
}

#[test]
fn log_ring_caps_at_one_hundred() {
    let mut state = AppState::new(test_config(), false);
    for i in 0..105u32 {
        state.add_log("INFO", &format!("line {}", i));
    }
    assert_eq!(state.recent_logs.len(), 100);
    assert_eq!(state.recent_logs[0].message, "line 5");
    assert_eq!(state.recent_logs[99].message, "line 104");
}

#[test]
fn paginated_logs_sort_newest_first() {
    let logs = vec![
        entry("2024-01-01 10:00:00", "INFO", "oldest"),
        entry("2024-01-03 10:00:00", "WARN", "newest"),
        entry("2024-01-02 10:00:00", "INFO", "middle"),
    ];
    let query = LogsQuery {
        page: None,
        limit: None,
        before_timestamp: None,
        level_filter: None,
    };
    let page = AppState::read_paginated_logs(logs, &query);
    assert_eq!(page.total_count, 3);
    assert!(!page.has_more);
    assert_eq!(page.logs[0].message, "newest");
    assert_eq!(page.logs[1].message, "middle");
    assert_eq!(page.logs[2].message, "oldest");
    assert_eq!(page.oldest_timestamp.as_deref(), Some("2024-01-01 10:00:00"));
}

#[test]
fn paginated_logs_window_and_filters() {
    let logs = vec![
        entry("2024-01-01 10:00:00", "INFO", "a"),
        entry("2024-01-02 10:00:00", "WARN", "b"),
        entry("2024-01-03 10:00:00", "INFO", "c"),
        entry("2024-01-04 10:00:00", "ERROR", "d"),
    ];
    let query = LogsQuery {
        page: Some(0),
        limit: Some(2),
        before_timestamp: None,
        level_filter: None,
    };
    let page = AppState::read_paginated_logs(logs, &query);
    assert_eq!(page.total_count, 4);
    assert!(page.has_more);
    assert_eq!(page.logs.len(), 2);
    assert_eq!(page.logs[0].message, "d");
    assert_eq!(page.logs[1].message, "c");

    let logs = vec![
        entry("2024-01-01 10:00:00", "INFO", "a"),
        entry("2024-01-02 10:00:00", "WARN", "b"),
        entry("2024-01-03 10:00:00", "INFO", "c"),
        entry("2024-01-04 10:00:00", "ERROR", "d"),
    ];
    let query = LogsQuery {
        page: None,
        limit: None,
        before_timestamp: Some("2024-01-03 10:00:00".to_string()),
        level_filter: Some("info".to_string()),
    };
    let page = AppState::read_paginated_logs(logs, &query);
    assert_eq!(page.total_count, 1);
    assert_eq!(page.logs[0].message, "a");
}

#[test]
fn web_config_round_trips() {
    let config = test_config();
    let web: WebConfig = WebConfig::from(config);
    assert_eq!(web.temperature_threshold_tenths, 600);
    let back: Config = Config::from(web);
    assert_eq!(back.temperature_threshold_tenths, 600);
    assert_eq!(back.poll_interval_sec, 20);
    assert_eq!(back.base_cooldown_sec, 20);
    assert!(back.enable_logging);
}

#[test]
fn action_decisions_follow_autostart_state() {
    assert_eq!(
        decide_action("toggle_autostart", true),
        WebAction::DisableAutostart
    );
    assert_eq!(
        decide_action("toggle_autostart", false),
        WebAction::EnableAutostart
    );
    assert_eq!(decide_action("reboot", false), WebAction::Unknown);
}
