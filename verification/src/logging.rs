//! The plain file logger: which lines it produces, for readings, alerts,
//! status notes and errors. Stamping the lines and appending them to the
//! file happens outside the library; a disabled logger produces nothing.
use vstd::prelude::*;

verus! {

use crate::config::Config;
use crate::strutil::{format_tenths, spec_decimal, spec_tenths, u64_to_string};

/// Writes human-readable lines to the configured log file.
#[derive(Debug)]
pub struct FileLogger {
    pub log_file_path: Option<String>,
    pub enabled: bool,
}

/// The status word a reading is labelled with: hot over the threshold,
/// warm within ten degrees below it, cool otherwise.
pub open spec fn spec_temp_status(temperature: int, threshold: int) -> Seq<char> {
    if temperature > threshold {
        "HOT 🔥"@
    } else if temperature > threshold - 100 {
        "WARM 🟡"@
    } else {
        "COOL 🟢"@
    }
}

/// The log line for one reading.
pub open spec fn spec_reading_line(sensor: Seq<char>, temperature: int, threshold: int) -> Seq<
    char,
> {
    spec_temp_status(temperature, threshold) + " "@ + sensor + ": "@ + spec_tenths(temperature)
        + "°C (Threshold: "@ + spec_tenths(threshold) + "°C)"@
}

/// The log line for one fired alert, numbered from one.
pub open spec fn spec_alert_line(
    sensor: Seq<char>,
    temperature: int,
    threshold: int,
    cooldown_level: int,
) -> Seq<char> {
    "🚨 ALERT #"@ + spec_decimal(cooldown_level + 1) + ": "@ + sensor + " reached "@
        + spec_tenths(temperature) + "°C (Threshold: "@ + spec_tenths(threshold) + "°C)"@
}

impl FileLogger {
    /// A logger taking its file and switch from the configuration.
    pub fn new(config: &Config) -> (logger: FileLogger)
        ensures
            logger.enabled == config.enable_logging,
            logger.log_file_path == config.log_file_path,
    {
        FileLogger {
            log_file_path: match &config.log_file_path {
                None => None,
                Some(p) => Some(p.clone()),
            },
            enabled: config.enable_logging,
        }
    }

    /// The line recording one temperature reading, or nothing while the
    /// logger is disabled.
    pub fn log_temperature_reading(
        &self,
        sensor_name: &str,
        temperature: i32,
        threshold: i32,
    ) -> (line: Option<String>)
        ensures
            self.enabled <==> line is Some,
            (line matches Some(l) ==> l@ == spec_reading_line(
                sensor_name@,
                temperature as int,
                threshold as int,
            )),
    {
        if !self.enabled {
            return None;
        }
        let temperature_wide: i64 = temperature as i64;
        let threshold_wide: i64 = threshold as i64;
        let status: &str = if temperature_wide > threshold_wide {
            "HOT 🔥"
        } else if temperature_wide > threshold_wide - 100 {
            "WARM 🟡"
        } else {
            "COOL 🟢"
        };
        let mut line = status.to_owned();
        line.append(" ");
        line.append(sensor_name);
        line.append(": ");
        line.append(format_tenths(temperature).as_str());
        line.append("°C (Threshold: ");
        line.append(format_tenths(threshold).as_str());
        line.append("°C)");
        proof {
            assert(line@ =~= spec_reading_line(
                sensor_name@,
                temperature as int,
                threshold as int,
            ));
        }
        Some(line)
    }

    /// The line recording one fired alert, or nothing while the logger is
    /// disabled.
    pub fn log_alert(
        &self,
        sensor_name: &str,
        temperature: i32,
        threshold: i32,
        cooldown_level: u32,
    ) -> (line: Option<String>)
        ensures
            self.enabled <==> line is Some,
            (line matches Some(l) ==> l@ == spec_alert_line(
                sensor_name@,
                temperature as int,
                threshold as int,
                cooldown_level as int,
            )),
    {
        if !self.enabled {
            return None;
        }
        let number: u64 = cooldown_level as u64 + 1;
        let mut line = "🚨 ALERT #".to_owned();
        line.append(u64_to_string(number).as_str());
        line.append(": ");
        line.append(sensor_name);
        line.append(" reached ");
        line.append(format_tenths(temperature).as_str());
        line.append("°C (Threshold: ");
        line.append(format_tenths(threshold).as_str());
        line.append("°C)");
        proof {
            assert(line@ =~= spec_alert_line(
                sensor_name@,
                temperature as int,
                threshold as int,
                cooldown_level as int,
            ));
        }
        Some(line)
    }

    /// The line recording a status note, or nothing while the logger is
    /// disabled.
    pub fn log_status(&self, message: &str) -> (line: Option<String>)
        ensures
            self.enabled <==> line is Some,
            (line matches Some(l) ==> l@ == "ℹ️ "@ + message@),
    {
        if !self.enabled {
            return None;
        }
        let mut line = "ℹ️ ".to_owned();
        line.append(message);
        Some(line)
    }

    /// The line recording an error, or nothing while the logger is
    /// disabled.
    pub fn log_error(&self, message: &str) -> (line: Option<String>)
        ensures
            self.enabled <==> line is Some,
            (line matches Some(l) ==> l@ == "❌ ERROR: "@ + message@),
    {
        if !self.enabled {
            return None;
        }
        let mut line = "❌ ERROR: ".to_owned();
        line.append(message);
        Some(line)
    }
}

} // verus!
