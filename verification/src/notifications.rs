//! Notification escalation: converts a stream of threshold-crossing
//! observations into a rate-limited sequence of alerts using exponential
//! back-off with a ceiling.
//!
//! The policy: the first crossing of an excursion always fires; each further
//! crossing fires only once the cooldown in effect has elapsed since the last
//! fired alert; every fired alert raises the escalation level by one; the
//! moment the condition clears, the level resets to zero and the back-off
//! restarts from the minimum cooldown.
use vstd::prelude::*;

verus! {

use vstd::arithmetic::power2::pow2;
use vstd::math::min;
use crate::strutil::{format_tenths, spec_contains, spec_tenths, str_contains};

/// Throttling memory for temperature alerts: when the last alert fired and
/// how many alerts the current excursion has produced.
pub struct NotificationManager {
    pub last_notification_time: Option<u64>,
    /// Number of alerts fired during the current excursion; resets to zero
    /// when the monitored condition returns to normal.
    pub cooldown_level: u32,
    pub base_cooldown_sec: u64,
    pub max_cooldown_sec: u64,
}

/// Cooldown the back-off formula assigns to an escalation level:
/// `min(base * 2^level, max)`.
pub open spec fn cooldown_for(base: u64, max: u64, level: nat) -> int {
    min(base * pow2(level), max as int)
}

impl NotificationManager {
    /// Well-formedness of the configuration-derived constants.
    pub open spec fn wf(self) -> bool {
        1 <= self.base_cooldown_sec <= self.max_cooldown_sec <= 86400
    }

    /// The cooldown gating the next alert. The level counts fired alerts:
    /// once some alerts have fired, the wait before the next one is the
    /// formula evaluated one step below the level; before any alert has
    /// fired it is the base cooldown.
    pub open spec fn current_cooldown(self) -> int {
        cooldown_for(
            self.base_cooldown_sec,
            self.max_cooldown_sec,
            if self.cooldown_level == 0 {
                0
            } else {
                (self.cooldown_level - 1) as nat
            },
        )
    }

    /// Whether a call of `should_notify` with this state fires an alert.
    pub open spec fn spec_should_fire(self, condition_active: bool, now: u64) -> bool {
        &&& condition_active
        &&& match self.last_notification_time {
            Option::None => true,
            Option::Some(t) => now - t >= self.current_cooldown(),
        }
    }

    /// The state after a call of `should_notify`.
    pub open spec fn spec_after(self, condition_active: bool, now: u64) -> NotificationManager {
        if !condition_active {
            NotificationManager {
                last_notification_time: Option::None,
                cooldown_level: 0,
                ..self
            }
        } else if self.spec_should_fire(condition_active, now) {
            NotificationManager {
                last_notification_time: Option::Some(now),
                cooldown_level: if self.cooldown_level < u32::MAX {
                    (self.cooldown_level + 1) as u32
                } else {
                    u32::MAX
                },
                ..self
            }
        } else {
            self
        }
    }

    pub fn new() -> (m: NotificationManager)
        ensures
            m.last_notification_time is None,
            m.cooldown_level == 0,
            m.base_cooldown_sec == 20,
            m.max_cooldown_sec == 320,
            m.wf(),
    {
        NotificationManager {
            last_notification_time: None,
            cooldown_level: 0,
            base_cooldown_sec: 20,
            max_cooldown_sec: 320,
        }
    }

    /// Cooldown assigned by the back-off formula to the given level.
    fn cooldown_for_level(&self, level: u32) -> (cooldown: u64)
        requires
            self.wf(),
        ensures
            cooldown == cooldown_for(self.base_cooldown_sec, self.max_cooldown_sec, level as nat),
            1 <= cooldown <= self.max_cooldown_sec,
    {
        let mut cooldown: u64 = self.base_cooldown_sec;
        if cooldown > self.max_cooldown_sec {
            cooldown = self.max_cooldown_sec;
        }
        assert(cooldown == cooldown_for(self.base_cooldown_sec, self.max_cooldown_sec, 0)) by {
            vstd::arithmetic::power2::lemma2_to64();
        };
        let mut i: u32 = 0;
        while i < level
            invariant
                self.wf(),
                i <= level,
                cooldown == cooldown_for(self.base_cooldown_sec, self.max_cooldown_sec, i as nat),
                1 <= cooldown <= self.max_cooldown_sec,
            decreases level - i,
        {
            proof {
                lemma_cooldown_step(self.base_cooldown_sec, self.max_cooldown_sec, i as nat);
            }
            if cooldown < self.max_cooldown_sec {
                if cooldown <= self.max_cooldown_sec / 2 {
                    cooldown = cooldown * 2;
                } else {
                    cooldown = self.max_cooldown_sec;
                }
            }
            i = i + 1;
        }
        cooldown
    }

    /// Cooldown in effect for the manager's current escalation level, by the
    /// formula `min(base * 2^level, max)`.
    pub fn calculate_cooldown_duration(&self) -> (cooldown: u64)
        requires
            self.wf(),
        ensures
            cooldown == cooldown_for(
                self.base_cooldown_sec,
                self.max_cooldown_sec,
                self.cooldown_level as nat,
            ),
    {
        self.cooldown_for_level(self.cooldown_level)
    }

    /// Decide whether an alert fires for the present observation.
    ///
    /// A cleared condition resets the escalation memory and never fires; the
    /// first crossing of an excursion always fires; a later crossing fires
    /// exactly when the cooldown in effect has elapsed since the last fire.
    /// Every fire records `now` and raises the level by one.
    pub fn should_notify(&mut self, temp_exceeds_threshold: bool, now: u64) -> (fired: bool)
        requires
            old(self).wf(),
        ensures
            fired == old(self).spec_should_fire(temp_exceeds_threshold, now),
            *final(self) == old(self).spec_after(temp_exceeds_threshold, now),
            final(self).wf(),
    {
        if !temp_exceeds_threshold {
            self.cooldown_level = 0;
            self.last_notification_time = None;
            return false;
        }

        match self.last_notification_time {
            None => {}
            Some(last_time) => {
                let gate_level: u32 = if self.cooldown_level == 0 {
                    0
                } else {
                    self.cooldown_level - 1
                };
                let cooldown_duration = self.cooldown_for_level(gate_level);
                if now < last_time || now - last_time < cooldown_duration {
                    return false;
                }
            }
        }

        self.last_notification_time = Some(now);
        if self.cooldown_level < u32::MAX {
            self.cooldown_level = self.cooldown_level + 1;
        }
        true
    }

    /// Decide whether a status notification warrants a dialog in front of
    /// the user: only error and failure reports do, anything else is logged
    /// only. Raising the dialog itself happens outside the library.
    pub fn send_status_notification_sync(&self, message: &str) -> (show_dialog: bool)
        ensures
            show_dialog == spec_status_is_critical(message@),
    {
        str_contains(message, "Error") || str_contains(message, "Failed")
    }

    pub fn test_set_last_notification_time(&mut self, value: Option<u64>)
        ensures
            *final(self) == (NotificationManager { last_notification_time: value, ..*old(self) }),
    {
        self.last_notification_time = value;
    }

    pub fn test_last_notification_time(&self) -> (value: Option<u64>)
        ensures
            value == self.last_notification_time,
    {
        self.last_notification_time
    }

    pub fn test_set_cooldown_level(&mut self, level: u32)
        ensures
            *final(self) == (NotificationManager { cooldown_level: level, ..*old(self) }),
    {
        self.cooldown_level = level;
    }

    pub fn test_cooldown_level(&self) -> (level: u32)
        ensures
            level == self.cooldown_level,
    {
        self.cooldown_level
    }
}

/// A status message is critical when it reports an error or a failure.
pub open spec fn spec_status_is_critical(message: Seq<char>) -> bool {
    spec_contains(message, "Error"@) || spec_contains(message, "Failed"@)
}

/// Body of a temperature alert: the hottest sensor, its reading and the
/// threshold it crossed.
pub open spec fn spec_alert_message(sensor: Seq<char>, temperature: int, threshold: int) -> Seq<
    char,
> {
    sensor + ": "@ + spec_tenths(temperature) + "°C (Threshold: "@ + spec_tenths(threshold)
        + "°C)"@
}

/// Compose the body of a temperature alert. Delivering it happens outside
/// the library.
pub fn alert_message(sensor_name: &str, temperature: i32, threshold: i32) -> (body: String)
    ensures
        body@ == spec_alert_message(sensor_name@, temperature as int, threshold as int),
{
    let mut body = sensor_name.to_owned();
    body.append(": ");
    body.append(format_tenths(temperature).as_str());
    body.append("°C (Threshold: ");
    body.append(format_tenths(threshold).as_str());
    body.append("°C)");
    proof {
        assert(body@ =~= spec_alert_message(
            sensor_name@,
            temperature as int,
            threshold as int,
        ));
    }
    body
}

/// One doubling step of the back-off formula: going from one level to the
/// next doubles the cooldown until the ceiling absorbs it.
proof fn lemma_cooldown_step(base: u64, max: u64, level: nat)
    requires
        1 <= base <= max,
    ensures
        cooldown_for(base, max, level + 1) == min(2 * cooldown_for(base, max, level), max as int),
{
    vstd::arithmetic::power2::lemma_pow2_unfold(level + 1);
    assert(base * pow2(level + 1) == 2 * (base * pow2(level))) by (nonlinear_arith)
        requires
            pow2(level + 1) == 2 * pow2(level),
    ;
    vstd::arithmetic::power2::lemma_pow2_pos(level);
    assert(base * pow2(level) >= 1) by (nonlinear_arith)
        requires
            base >= 1,
            pow2(level) >= 1,
    ;
}

/// The levels never lower the cooldown: the back-off formula is monotone, so
/// each fired alert can only lengthen (or, at the ceiling, keep) the wait
/// before the next one.
pub proof fn lemma_cooldown_monotone(base: u64, max: u64, level1: nat, level2: nat)
    requires
        1 <= base <= max,
        level1 <= level2,
    ensures
        cooldown_for(base, max, level1) <= cooldown_for(base, max, level2),
    decreases level2 - level1,
{
    if level1 < level2 {
        lemma_cooldown_monotone(base, max, level1, (level2 - 1) as nat);
        lemma_cooldown_step(base, max, (level2 - 1) as nat);
        vstd::arithmetic::power2::lemma_pow2_pos((level2 - 1) as nat);
        assert(base * pow2((level2 - 1) as nat) >= 1) by (nonlinear_arith)
            requires
                base >= 1,
                pow2((level2 - 1) as nat) >= 1,
        ;
    }
}

/// Once the condition clears, the escalation level is exactly zero and the
/// last-fire record is gone, so the very next crossing fires immediately.
pub proof fn lemma_reset_restarts_backoff(
    m: NotificationManager,
    t_reset: u64,
    t_next: u64,
)
    ensures
        m.spec_after(false, t_reset).cooldown_level == 0,
        m.spec_after(false, t_reset).last_notification_time is None,
        !m.spec_should_fire(false, t_reset),
        m.spec_after(false, t_reset).spec_should_fire(true, t_next),
{
}

/// A fired alert opens a cooldown window: one second before the window ends
/// the next crossing is suppressed, and the instant it ends the next
/// crossing fires.
pub proof fn lemma_cooldown_boundary(m: NotificationManager, t: u64, t_early: u64, t_ready: u64)
    requires
        m.wf(),
        m.spec_should_fire(true, t),
        t_early == t + m.spec_after(true, t).current_cooldown() - 1,
        t_ready == t + m.spec_after(true, t).current_cooldown(),
    ensures
        !m.spec_after(true, t).spec_should_fire(true, t_early),
        m.spec_after(true, t).spec_should_fire(true, t_ready),
{
    let fired = m.spec_after(true, t);
    let level = fired.cooldown_level;
    let gate = if level == 0 { 0 } else { (level - 1) as nat };
    vstd::arithmetic::power2::lemma_pow2_pos(gate);
    assert(m.base_cooldown_sec * pow2(gate) >= 1) by (nonlinear_arith)
        requires
            m.base_cooldown_sec >= 1,
            pow2(gate) >= 1,
    ;
}

} // verus!
