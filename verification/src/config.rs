//! Operating parameters of the monitor and the bounds every update must
//! satisfy before it is committed.
//!
//! A rejected candidate never touches the stored configuration; the error
//! names the violated field together with the bound.
use vstd::prelude::*;

verus! {

/// Bounds on the temperature threshold, in tenths of a degree Celsius.
pub const THRESHOLD_MIN_TENTHS: i32 = 0;

/// Upper bound on the temperature threshold (150 degrees).
pub const THRESHOLD_MAX_TENTHS: i32 = 1500;

/// Bounds on the sampling interval, in seconds.
pub const POLL_INTERVAL_MIN_SEC: u64 = 5;

pub const POLL_INTERVAL_MAX_SEC: u64 = 3600;

/// Bounds on the base notification cooldown, in seconds.
pub const BASE_COOLDOWN_MIN_SEC: u64 = 1;

pub const BASE_COOLDOWN_MAX_SEC: u64 = 600;

/// A rejected configuration: the field that violated its bound, the value
/// offered, and the accepted range.
#[derive(Debug, Clone, PartialEq, Eq, Structural)]
pub enum ValidationError {
    Threshold { value: i32, min: i32, max: i32 },
    PollInterval { value: u64, min: u64, max: u64 },
    BaseCooldown { value: u64, min: u64, max: u64 },
}

/// Mutable operating parameters: alert threshold (tenths of a degree),
/// sampling cadence, notification back-off base, and logging choices.
#[derive(Debug)]
pub struct Config {
    pub temperature_threshold_tenths: i32,
    pub poll_interval_sec: u64,
    pub base_cooldown_sec: u64,
    pub enable_logging: bool,
    pub log_file_path: Option<String>,
}

pub open spec fn threshold_in_bounds(value: i32) -> bool {
    THRESHOLD_MIN_TENTHS <= value <= THRESHOLD_MAX_TENTHS
}

pub open spec fn poll_interval_in_bounds(value: u64) -> bool {
    POLL_INTERVAL_MIN_SEC <= value <= POLL_INTERVAL_MAX_SEC
}

pub open spec fn base_cooldown_in_bounds(value: u64) -> bool {
    BASE_COOLDOWN_MIN_SEC <= value <= BASE_COOLDOWN_MAX_SEC
}

impl Config {
    /// All three bounded fields sit inside their accepted ranges.
    pub open spec fn spec_valid(self) -> bool {
        &&& threshold_in_bounds(self.temperature_threshold_tenths)
        &&& poll_interval_in_bounds(self.poll_interval_sec)
        &&& base_cooldown_in_bounds(self.base_cooldown_sec)
    }

    /// The error `validate` reports, checking the threshold first, then the
    /// sampling interval, then the base cooldown.
    pub open spec fn spec_validation_error(self) -> ValidationError {
        if !threshold_in_bounds(self.temperature_threshold_tenths) {
            ValidationError::Threshold {
                value: self.temperature_threshold_tenths,
                min: THRESHOLD_MIN_TENTHS,
                max: THRESHOLD_MAX_TENTHS,
            }
        } else if !poll_interval_in_bounds(self.poll_interval_sec) {
            ValidationError::PollInterval {
                value: self.poll_interval_sec,
                min: POLL_INTERVAL_MIN_SEC,
                max: POLL_INTERVAL_MAX_SEC,
            }
        } else {
            ValidationError::BaseCooldown {
                value: self.base_cooldown_sec,
                min: BASE_COOLDOWN_MIN_SEC,
                max: BASE_COOLDOWN_MAX_SEC,
            }
        }
    }

    /// Check every bounded field, reporting the first violation.
    pub fn validate(&self) -> (r: Result<(), ValidationError>)
        ensures
            r is Ok <==> self.spec_valid(),
            r matches Err(e) ==> e == self.spec_validation_error(),
    {
        if self.temperature_threshold_tenths < THRESHOLD_MIN_TENTHS
            || self.temperature_threshold_tenths > THRESHOLD_MAX_TENTHS {
            return Err(ValidationError::Threshold {
                value: self.temperature_threshold_tenths,
                min: THRESHOLD_MIN_TENTHS,
                max: THRESHOLD_MAX_TENTHS,
            });
        }
        if self.poll_interval_sec < POLL_INTERVAL_MIN_SEC
            || self.poll_interval_sec > POLL_INTERVAL_MAX_SEC {
            return Err(ValidationError::PollInterval {
                value: self.poll_interval_sec,
                min: POLL_INTERVAL_MIN_SEC,
                max: POLL_INTERVAL_MAX_SEC,
            });
        }
        if self.base_cooldown_sec < BASE_COOLDOWN_MIN_SEC
            || self.base_cooldown_sec > BASE_COOLDOWN_MAX_SEC {
            return Err(ValidationError::BaseCooldown {
                value: self.base_cooldown_sec,
                min: BASE_COOLDOWN_MIN_SEC,
                max: BASE_COOLDOWN_MAX_SEC,
            });
        }
        Ok(())
    }

    /// Replace the threshold if the candidate value is in bounds; a rejected
    /// candidate leaves the configuration untouched.
    pub fn update_threshold(&mut self, new_threshold: i32) -> (r: Result<(), ValidationError>)
        ensures
            r is Ok <==> threshold_in_bounds(new_threshold),
            r is Ok ==> *final(self) == (Config {
                temperature_threshold_tenths: new_threshold,
                ..*old(self)
            }),
            r is Err ==> *final(self) == *old(self),
            r matches Err(e) ==> e == (ValidationError::Threshold {
                value: new_threshold,
                min: THRESHOLD_MIN_TENTHS,
                max: THRESHOLD_MAX_TENTHS,
            }),
    {
        if new_threshold < THRESHOLD_MIN_TENTHS || new_threshold > THRESHOLD_MAX_TENTHS {
            return Err(ValidationError::Threshold {
                value: new_threshold,
                min: THRESHOLD_MIN_TENTHS,
                max: THRESHOLD_MAX_TENTHS,
            });
        }
        self.temperature_threshold_tenths = new_threshold;
        Ok(())
    }

    /// Replace the sampling interval if the candidate value is in bounds; a
    /// rejected candidate leaves the configuration untouched.
    pub fn update_poll_interval(&mut self, new_interval: u64) -> (r: Result<(), ValidationError>)
        ensures
            r is Ok <==> poll_interval_in_bounds(new_interval),
            r is Ok ==> *final(self) == (Config {
                poll_interval_sec: new_interval,
                ..*old(self)
            }),
            r is Err ==> *final(self) == *old(self),
            r matches Err(e) ==> e == (ValidationError::PollInterval {
                value: new_interval,
                min: POLL_INTERVAL_MIN_SEC,
                max: POLL_INTERVAL_MAX_SEC,
            }),
    {
        if new_interval < POLL_INTERVAL_MIN_SEC || new_interval > POLL_INTERVAL_MAX_SEC {
            return Err(ValidationError::PollInterval {
                value: new_interval,
                min: POLL_INTERVAL_MIN_SEC,
                max: POLL_INTERVAL_MAX_SEC,
            });
        }
        self.poll_interval_sec = new_interval;
        Ok(())
    }
}

impl Clone for Config {
    /// An exact copy; the contracts of snapshot and rollback rest on it.
    fn clone(&self) -> (c: Config)
        ensures
            c == *self,
    {
        Config {
            temperature_threshold_tenths: self.temperature_threshold_tenths,
            poll_interval_sec: self.poll_interval_sec,
            base_cooldown_sec: self.base_cooldown_sec,
            enable_logging: self.enable_logging,
            log_file_path: match &self.log_file_path {
                None => None,
                Some(p) => Some(p.clone()),
            },
        }
    }
}

impl Default for Config {
    /// The configuration a fresh installation starts from: 60.0 degrees,
    /// 20 second sampling, 20 second base cooldown, logging on.
    fn default() -> (c: Config)
        ensures
            c.temperature_threshold_tenths == 600,
            c.poll_interval_sec == 20,
            c.base_cooldown_sec == 20,
            c.enable_logging,
            c.log_file_path matches Some(p) && p@ == "./Logs/gpu-temp-watch.log"@,
            c.spec_valid(),
    {
        Config {
            temperature_threshold_tenths: 600,
            poll_interval_sec: 20,
            base_cooldown_sec: 20,
            enable_logging: true,
            log_file_path: Some("./Logs/gpu-temp-watch.log".to_owned()),
        }
    }
}

} // verus!
