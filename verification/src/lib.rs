//! Core of a GPU temperature monitoring agent: the notification escalation
//! state machine, the shared configuration and dashboard state with its
//! validation rules, the tray event-bridge protocol (menu decoding, icon
//! classification, duplicate-event suppression), and the per-cycle
//! sample/decide/notify logic.
//!
//! Temperatures are carried as integer tenths of a degree Celsius, so a
//! reading of 65.0 degrees is the value 650.
pub mod app_paths;
pub mod clock;
pub mod config;
pub mod monitor;
pub mod gui;
pub mod logger_service;
pub mod logging;
pub mod notifications;
pub mod strutil;
pub mod tray;
pub mod universal_logger;
pub mod web_server;
