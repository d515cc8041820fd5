use gpu_temp_watch::app_paths::AppPaths;
use gpu_temp_watch::config::Config;
use gpu_temp_watch::logger_service::{init_logger, LogFormat, LogLevel, LogOutput, LoggerConfig};
use gpu_temp_watch::logging::FileLogger;
use gpu_temp_watch::notifications::alert_message;
use gpu_temp_watch::strutil::{format_tenths, str_contains, str_eq_ignore_ascii_case, str_lt, u64_to_string};
use gpu_temp_watch::universal_logger::{self, UniversalLogger};

#[test]
fn decimal_rendering_is_exact() {
    assert_eq!(u64_to_string(0), "0");
    assert_eq!(u64_to_string(7), "7");
    assert_eq!(u64_to_string(40), "40");
    assert_eq!(u64_to_string(12345), "12345");
    assert_eq!(format_tenths(653), "65.3");
    assert_eq!(format_tenths(600), "60.0");
    assert_eq!(format_tenths(5), "0.5");
    assert_eq!(format_tenths(-123), "-12.3");
}

#[test]
fn alert_text_names_sensor_value_and_threshold() {
    assert_eq!(
        alert_message("GPU 0", 651, 600),
        "GPU 0: 65.1°C (Threshold: 60.0°C)"
    );
}

#[test]
fn string_order_and_search() {
    assert!(str_lt("2024-01-01", "2024-01-02"));
    assert!(!str_lt("2024-01-02", "2024-01-02"));
    assert!(str_lt("abc", "abcd"));
    assert!(str_contains("fan Error detected", "Error"));
    assert!(!str_contains("all good", "Error"));
    assert!(str_eq_ignore_ascii_case("WARN", "warn"));
    assert!(!str_eq_ignore_ascii_case("WARN", "info"));
}

#[test]
fn file_logger_lines_are_exact() {
    let config = Config {
        temperature_threshold_tenths: 600,
        poll_interval_sec: 20,
        base_cooldown_sec: 20,
        enable_logging: true,
        log_file_path: Some("log.txt".to_string()),
    };
    let logger = FileLogger::new(&config);
    assert_eq!(
        logger.log_temperature_reading("GPU 0", 651, 600).as_deref(),
        Some("HOT 🔥 GPU 0: 65.1°C (Threshold: 60.0°C)")
    );
    assert_eq!(
        logger.log_temperature_reading("GPU 0", 550, 600).as_deref(),
        Some("WARM 🟡 GPU 0: 55.0°C (Threshold: 60.0°C)")
    );
    assert_eq!(
        logger.log_temperature_reading("GPU 0", 400, 600).as_deref(),
        Some("COOL 🟢 GPU 0: 40.0°C (Threshold: 60.0°C)")
    );
    assert_eq!(
        logger.log_alert("GPU 0", 651, 600, 0).as_deref(),
        Some("🚨 ALERT #1: GPU 0 reached 65.1°C (Threshold: 60.0°C)")
    );
    assert_eq!(
        logger.log_status("monitoring resumed").as_deref(),
        Some("ℹ️ monitoring resumed")
    );
    assert_eq!(
        logger.log_error("sensor lost").as_deref(),
        Some("❌ ERROR: sensor lost")
    );
}

#[test]
fn disabled_file_logger_produces_nothing() {
    let config = Config {
        temperature_threshold_tenths: 600,
        poll_interval_sec: 20,
        base_cooldown_sec: 20,
        enable_logging: false,
        log_file_path: None,
    };
    let logger = FileLogger::new(&config);
    assert!(logger.log_temperature_reading("GPU 0", 651, 600).is_none());
    assert!(logger.log_alert("GPU 0", 651, 600, 0).is_none());
    assert!(logger.log_status("x").is_none());
    assert!(logger.log_error("x").is_none());
}

#[test]
fn logger_service_filters_by_level() {
    let logger = init_logger(LoggerConfig {
        min_level: LogLevel::Info,
        output: LogOutput::Both,
        console_format: LogFormat::Human,
        file_format: LogFormat::Json,
        file_path: None,
        max_file_size: Some(10 * 1024 * 1024),
        max_files: Some(5),
        colored_output: true,
        enabled: true,
    });
    assert!(logger.should_log(LogLevel::Info));
    assert!(logger.should_log(LogLevel::Error));
    assert!(!logger.should_log(LogLevel::Debug));
    logger.flush();
    assert!(matches!(logger.get_config().min_level, LogLevel::Info));
}

#[test]
fn logger_service_update_config_replaces() {
    let mut logger = init_logger(LoggerConfig {
        min_level: LogLevel::Info,
        output: LogOutput::Console,
        console_format: LogFormat::Human,
        file_format: LogFormat::Json,
        file_path: None,
        max_file_size: None,
        max_files: None,
        colored_output: false,
        enabled: true,
    });
    let mut next = logger.get_config().clone();
    next.enabled = false;
    logger.update_config(next);
    assert!(!logger.should_log(LogLevel::Error));
}

#[test]
fn log_level_names_and_decorations() {
    assert_eq!(LogLevel::Trace.as_str(), "TRACE");
    assert_eq!(LogLevel::Warn.as_str(), "WARN");
    assert_eq!(LogLevel::Error.as_str(), "ERROR");
    assert_eq!(LogLevel::Info.emoji(), "ℹ️");
    assert_eq!(LogLevel::Error.color_code(), "\x1b[31m");
    assert_eq!(universal_logger::LogLevel::Warn.as_str(), "WARN");
}

#[test]
fn universal_logger_keeps_its_settings() {
    let logger = UniversalLogger::new(Some("watch.log"), true);
    assert!(logger.enabled);
    assert_eq!(logger.file_path.as_deref(), Some("watch.log"));
    let silent = UniversalLogger::new(None, false);
    assert!(!silent.enabled);
    assert!(silent.file_path.is_none());
}

#[test]
fn application_paths_are_composed() {
    assert_eq!(
        AppPaths::get_config_path("/home/u/.local/share/GpuTempWatch"),
        "/home/u/.local/share/GpuTempWatch/config.json"
    );
    assert_eq!(
        AppPaths::get_log_path("/data"),
        "/data/gpu-temp-watch.log"
    );
    assert_eq!(
        AppPaths::get_log_file_path("/data/Logs"),
        "/data/Logs/gpu-temp-watch.log"
    );
}

#[test]
fn tooltip_names_status_temperature_and_autostart() {
    let mut manager = gpu_temp_watch::gui::GuiManager::new();
    manager.update_temperature(653);
    manager.set_autostart_enabled(true);
    assert_eq!(
        manager.get_status_tooltip(),
        "GPU Temperature Monitor\nStatus: ACTIVE\nTemperature: 65.3°C\nAutostart: ON"
    );
    manager.set_monitoring_paused(true);
    assert_eq!(
        manager.get_status_tooltip(),
        "GPU Temperature Monitor\nStatus: PAUSED\nTemperature: 65.3°C\nAutostart: ON"
    );
}
