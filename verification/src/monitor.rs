//! Sensor readings and the per-cycle summary the orchestrator decides on:
//! which reading is hottest, whether any reading crosses the threshold, and
//! the maximum used for the dashboard and the icon.
//!
//! Reading the hardware itself stays outside the library; every value that
//! arrives is validated and summarized here.
use vstd::prelude::*;

verus! {

use vstd::math::{max, min};
use crate::config::Config;
use crate::notifications::NotificationManager;
use crate::strutil::{format_tenths, spec_tenths};
use crate::web_server::{
    log_entry_matches, spec_ring_tail, lemma_ring_tail_push, AppState, LogEntry, MAX_RECENT_LOGS,
};

/// One sensor value at one instant, in tenths of a degree Celsius.
#[derive(Debug)]
pub struct GpuTempReading {
    pub sensor_name: String,
    pub temperature: i32,
    pub min_temp: Option<i32>,
    pub max_temp: Option<i32>,
}

impl Clone for GpuTempReading {
    /// An exact copy of the reading.
    fn clone(&self) -> (c: GpuTempReading)
        ensures
            c == *self,
    {
        GpuTempReading {
            sensor_name: self.sensor_name.clone(),
            temperature: self.temperature,
            min_temp: self.min_temp,
            max_temp: self.max_temp,
        }
    }
}

/// A reading is plausible when it lies strictly between 0 and 200 degrees;
/// anything outside is discarded before the cycle's decision is made.
pub fn temperature_reading_in_range(temperature_tenths: i32) -> (r: bool)
    ensures
        r == (0 < temperature_tenths < 2000),
{
    0 < temperature_tenths && temperature_tenths < 2000
}

/// Whether any reading exceeds the threshold.
pub open spec fn spec_any_over(readings: Seq<GpuTempReading>, threshold: int) -> bool {
    exists|i: int| 0 <= i < readings.len() && readings[i].temperature > threshold
}

/// Maximum temperature over all readings, never below zero: the fold the
/// dashboard value is computed by.
pub open spec fn spec_max_reading(readings: Seq<GpuTempReading>) -> int
    decreases readings.len(),
{
    if readings.len() == 0 {
        0
    } else {
        max(spec_max_reading(readings.drop_last()), readings.last().temperature as int)
    }
}

/// The hottest over-threshold reading, scanning left to right and keeping
/// the first reading that attains the running maximum: its temperature and
/// its sensor name. With no over-threshold reading this is zero and the
/// empty name.
pub open spec fn spec_hottest_over(readings: Seq<GpuTempReading>, threshold: int) -> (int, Seq<
    char,
>)
    decreases readings.len(),
{
    if readings.len() == 0 {
        (0, Seq::<char>::empty())
    } else {
        let prior = spec_hottest_over(readings.drop_last(), threshold);
        let last = readings.last();
        if last.temperature > threshold && last.temperature > prior.0 {
            (last.temperature as int, last.sensor_name@)
        } else {
            prior
        }
    }
}

/// What one sampling cycle observes: whether an excursion is in progress,
/// the hottest over-threshold reading with its sensor, and the overall
/// maximum shown on the dashboard.
#[derive(Debug)]
pub struct ReadingsSummary {
    pub any_over_threshold: bool,
    pub max_temp: i32,
    pub hottest_sensor: String,
    pub actual_max: i32,
}

/// Scan the cycle's readings against the threshold and produce the
/// summary the decisions of the cycle rest on.
pub fn summarize_readings(readings: &Vec<GpuTempReading>, threshold_tenths: i32) -> (summary:
    ReadingsSummary)
    ensures
        summary.any_over_threshold == spec_any_over(readings@, threshold_tenths as int),
        (summary.max_temp as int, summary.hottest_sensor@) == spec_hottest_over(
            readings@,
            threshold_tenths as int,
        ),
        summary.actual_max as int == spec_max_reading(readings@),
{
    let mut any_over_threshold = false;
    let mut max_temp: i32 = 0;
    let mut hottest_sensor: String = String::new();
    let mut actual_max: i32 = 0;

    let n = readings.len();
    let mut i: usize = 0;
    while i < n
        invariant
            n == readings@.len(),
            i <= n,
            any_over_threshold == spec_any_over(readings@.take(i as int), threshold_tenths as int),
            (max_temp as int, hottest_sensor@) == spec_hottest_over(
                readings@.take(i as int),
                threshold_tenths as int,
            ),
            actual_max as int == spec_max_reading(readings@.take(i as int)),
        decreases n - i,
    {
        proof {
            assert(readings@.take(i + 1).drop_last() =~= readings@.take(i as int));
            assert(readings@.take(i + 1).last() == readings@[i as int]);
        }
        let reading = &readings[i];
        if reading.temperature > threshold_tenths {
            any_over_threshold = true;
            if reading.temperature > max_temp {
                max_temp = reading.temperature;
                hottest_sensor = reading.sensor_name.clone();
            }
        }
        if reading.temperature > actual_max {
            actual_max = reading.temperature;
        }
        i = i + 1;
    }
    proof {
        assert(readings@.take(n as int) =~= readings@);
    }
    ReadingsSummary { any_over_threshold, max_temp, hottest_sensor, actual_max }
}


/// The icon update one cycle asks the bridge to apply: the cycle's maximum
/// reading against the threshold it was judged by.
#[derive(Debug, Clone, Copy, PartialEq, Eq, Structural)]
pub struct TrayIconUpdate {
    pub temperature: i32,
    pub threshold: i32,
}

/// The alert one cycle asks the delivery collaborator to raise.
#[derive(Debug)]
pub struct AlertInfo {
    pub sensor_name: String,
    pub temperature: i32,
    pub threshold: i32,
}

/// Everything one sampling cycle asks the world outside the library to do,
/// in the order it must happen: the dashboard has already been updated when
/// this is returned, then the icon update is sent, then the alert (if any)
/// is delivered, then the loop sleeps for the interval.
#[derive(Debug)]
pub struct CycleActions {
    pub any_over_threshold: bool,
    pub icon_update: Option<TrayIconUpdate>,
    pub alert: Option<AlertInfo>,
    pub next_poll_interval_sec: u64,
}

/// Level a reading is logged at: a warning over the threshold, information
/// otherwise.
pub open spec fn spec_log_level(r: GpuTempReading, threshold: int) -> Seq<char> {
    if r.temperature > threshold {
        "WARN"@
    } else {
        "INFO"@
    }
}

/// The dashboard log line for one reading.
pub open spec fn spec_log_message(r: GpuTempReading) -> Seq<char> {
    r.sensor_name@ + ": "@ + spec_tenths(r.temperature as int) + "°C"@
}

/// The connection status one cycle reports: connected while a positive
/// reading arrived, an error otherwise.
pub open spec fn spec_cycle_status(actual_max: int) -> Seq<char> {
    if actual_max > 0 {
        "Connected"@
    } else {
        "Error reading temperature"@
    }
}

/// One sampling cycle's decisions, between reading the sensors and acting
/// on the world: judge every reading against the current threshold, update
/// the dashboard state (reading, connection status, configuration snapshot,
/// one ring log line per reading), ask the escalation policy whether to
/// fire, and say what the caller must do next.
///
/// Within the cycle the dashboard is updated before the icon command and
/// the escalation check, so an observer reading the dashboard mid-cycle
/// never sees a fired alert without the reading that caused it. An empty
/// reading list skips the cycle: nothing changes, and the loop waits one
/// interval.
pub fn monitor_temperatures_cycle(
    readings: &Vec<GpuTempReading>,
    config: &Config,
    state: &mut AppState,
    notifications: &mut NotificationManager,
    now_sec: u64,
    now_text: &str,
) -> (actions: CycleActions)
    requires
        old(notifications).wf(),
        old(state).wf(),
    ensures
        actions.next_poll_interval_sec == config.poll_interval_sec,
        final(notifications).wf(),
        final(state).wf(),
        readings@.len() == 0 ==> {
            &&& *final(state) == *old(state)
            &&& *final(notifications) == *old(notifications)
            &&& !actions.any_over_threshold
            &&& actions.icon_update is None
            &&& actions.alert is None
        },
        readings@.len() > 0 ==> ({
            let threshold = config.temperature_threshold_tenths as int;
            let any_over = spec_any_over(readings@, threshold);
            let hottest = spec_hottest_over(readings@, threshold);
            let actual_max = spec_max_reading(readings@);
            let fired = old(notifications).spec_should_fire(any_over, now_sec);
            &&& actions.any_over_threshold == any_over
            &&& *final(notifications) == old(notifications).spec_after(any_over, now_sec)
            &&& actions.icon_update == Some(TrayIconUpdate {
                temperature: actual_max as i32,
                threshold: config.temperature_threshold_tenths,
            })
            &&& (actions.alert is Some <==> fired)
            &&& (actions.alert matches Some(a) ==> {
                &&& a.sensor_name@ == hottest.1
                &&& a.temperature == hottest.0
                &&& a.threshold == config.temperature_threshold_tenths
            })
            &&& final(state).config == *config
            &&& final(state).current_temperature == (if actual_max > 0 {
                Some(actual_max as i32)
            } else {
                None::<i32>
            })
            &&& final(state).gpu_connection_status@ == spec_cycle_status(actual_max)
            &&& final(state).last_update@ == now_text@
            &&& final(state).monitoring_paused == old(state).monitoring_paused
            &&& final(state).autostart_enabled == old(state).autostart_enabled
            &&& final(state).uptime_seconds == old(state).uptime_seconds
            &&& ({
                let k = readings@.len() as int;
                let old_logs = old(state).recent_logs@;
                let logs = final(state).recent_logs@;
                let dropped = max(old_logs.len() + k - MAX_RECENT_LOGS, 0);
                &&& logs.len() == min(old_logs.len() + k, MAX_RECENT_LOGS as int)
                &&& (forall|idx: int|
                    0 <= idx && idx + dropped < old_logs.len() ==> #[trigger] logs[idx]
                        == old_logs[idx + dropped])
                &&& (forall|idx: int|
                    0 <= idx < logs.len() && idx + dropped >= old_logs.len()
                        ==> log_entry_matches(
                        #[trigger] logs[idx],
                        now_text@,
                        spec_log_level(readings@[idx + dropped - old_logs.len()], threshold),
                        spec_log_message(readings@[idx + dropped - old_logs.len()]),
                    ))
            })
        }),
{
    let next_poll_interval_sec = config.poll_interval_sec;
    if readings.len() == 0 {
        return CycleActions {
            any_over_threshold: false,
            icon_update: None,
            alert: None,
            next_poll_interval_sec,
        };
    }

    let threshold = config.temperature_threshold_tenths;
    let summary = summarize_readings(readings, threshold);

    let display = if summary.actual_max > 0 {
        Some(summary.actual_max)
    } else {
        None
    };
    let status: &str = if summary.actual_max > 0 {
        "Connected"
    } else {
        "Error reading temperature"
    };
    state.update_temperature_at(display, status, now_text);
    state.config = config.clone();

    let ghost logs0 = state.recent_logs@;
    let ghost pre_loop_state = *state;
    let ghost mut appended: Seq<LogEntry> = Seq::empty();
    proof {
        assert(logs0 + appended =~= logs0);
        assert(state.recent_logs@ == spec_ring_tail(logs0 + appended));
    }
    let n = readings.len();
    let mut i: usize = 0;
    while i < n
        invariant
            n == readings@.len(),
            i <= n,
            threshold == pre_loop_state.config.temperature_threshold_tenths,
            appended.len() == i,
            forall|j: int|
                0 <= j < i ==> log_entry_matches(
                    #[trigger] appended[j],
                    now_text@,
                    spec_log_level(readings@[j], threshold as int),
                    spec_log_message(readings@[j]),
                ),
            state.recent_logs@ == spec_ring_tail(logs0 + appended),
            *state == (AppState { recent_logs: state.recent_logs, ..pre_loop_state }),
        decreases n - i,
    {
        let reading = &readings[i];
        let level: &str = if reading.temperature > threshold {
            "WARN"
        } else {
            "INFO"
        };
        let mut message = reading.sensor_name.clone();
        message.append(": ");
        message.append(format_tenths(reading.temperature).as_str());
        message.append("°C");
        proof {
            assert(message@ =~= spec_log_message(readings@[i as int]));
        }
        state.add_log_at(now_text, level, message.as_str());
        proof {
            let e = state.recent_logs@.last();
            lemma_ring_tail_push(logs0 + appended, e);
            assert((logs0 + appended).push(e) =~= logs0 + appended.push(e));
            appended = appended.push(e);
        }
        i = i + 1;
    }

    let fired = notifications.should_notify(summary.any_over_threshold, now_sec);
    let alert = if fired {
        Some(AlertInfo {
            sensor_name: summary.hottest_sensor,
            temperature: summary.max_temp,
            threshold,
        })
    } else {
        None
    };

    proof {
        let k = readings@.len() as int;
        let old_logs = old(state).recent_logs@;
        let logs = state.recent_logs@;
        let combined = logs0 + appended;
        let dropped = max(old_logs.len() + k - MAX_RECENT_LOGS, 0);
        assert(logs0 == old_logs);
        assert(logs == spec_ring_tail(combined));
        assert(logs.len() == min(old_logs.len() + k, MAX_RECENT_LOGS as int));
        assert forall|idx: int|
            0 <= idx && idx + dropped < old_logs.len() implies #[trigger] logs[idx]
            == old_logs[idx + dropped] by {
            assert(logs[idx] == combined[idx + dropped]);
        };
        assert forall|idx: int|
            0 <= idx < logs.len() && idx + dropped >= old_logs.len() implies log_entry_matches(
            #[trigger] logs[idx],
            now_text@,
            spec_log_level(
                readings@[idx + dropped - old_logs.len()],
                threshold as int,
            ),
            spec_log_message(readings@[idx + dropped - old_logs.len()]),
        ) by {
            assert(logs[idx] == combined[idx + dropped]);
            assert(combined[idx + dropped] == appended[idx + dropped - old_logs.len()]);
        };
    }

    CycleActions {
        any_over_threshold: summary.any_over_threshold,
        icon_update: Some(TrayIconUpdate { temperature: summary.actual_max, threshold }),
        alert,
        next_poll_interval_sec,
    }
}

} // verus!
