//! Presence: how long the session has run, how long the user has been idle,
//! and what time of day it is for them.

use vstd::prelude::*;

verus! {

#[verifier::external_type_specification]
#[verifier::external_body]
pub struct ExInstant(std::time::Instant);

/// `std::time::Instant::now`. Nothing is claimed of the moment it returns.
pub assume_specification[ std::time::Instant::now ]() -> std::time::Instant;

/// `std::time::Instant::saturating_duration_since`. Nothing is claimed of the
/// time it returns.
pub assume_specification[ std::time::Instant::saturating_duration_since ](
    later: &std::time::Instant,
    earlier: std::time::Instant,
) -> std::time::Duration;

/// `std::time::Duration::as_secs`. Nothing is claimed of the number it
/// returns.
pub assume_specification[ std::time::Duration::as_secs ](duration: &std::time::Duration) -> u64;

/// A day of the week.
#[derive(Debug, Clone, Copy, PartialEq, Eq, Structural)]
pub enum Weekday {
    Mon,
    Tue,
    Wed,
    Thu,
    Fri,
    Sat,
    Sun,
}

/// The kind of a process that is worth noticing.
#[derive(Debug, Clone, Copy, PartialEq, Eq, Hash, Structural)]
pub enum ProcessCategory {
    Development,
    Creative,
    Research,
    Communication,
    Media,
    System,
}

/// The local time of day, and what it suggests of the user's day.
#[derive(Debug, Clone, Copy, PartialEq, Eq, Structural)]
pub struct TimeContext {
    pub local_hour: u8,
    pub local_minute: u8,
    pub day_of_week: Weekday,
    pub is_weekend: bool,
    pub is_late_night: bool,
    pub is_deep_night: bool,
    pub approx_work_hours: bool,
}

/// Whether a day belongs to the weekend.
pub open spec fn weekend_day(day: Weekday) -> bool {
    day == Weekday::Sat || day == Weekday::Sun
}

/// The time context of a local time: late night runs from 23 to before 6,
/// deep night from 2 to before 5, and work hours from 8 to 18 on the days
/// that are not weekend.
pub open spec fn time_context_at(hour: u8, minute: u8, day: Weekday) -> TimeContext {
    TimeContext {
        local_hour: hour,
        local_minute: minute,
        day_of_week: day,
        is_weekend: weekend_day(day),
        is_late_night: hour >= 23 || hour < 6,
        is_deep_night: 2 <= hour < 5,
        approx_work_hours: !weekend_day(day) && 8 <= hour <= 18,
    }
}

/// Reads the local clock through `chrono::Local::now`, with the hour, the
/// minute and the day of the week taken by `Timelike::hour`,
/// `Timelike::minute` and `Datelike::weekday`. Trusted: the hour is under 24
/// and the minute under 60.
#[verifier::external_body]
fn local_clock() -> (r: (u8, u8, Weekday))
    ensures
        r.0 < 24,
        r.1 < 60,
{
    let now = chrono::Local::now();
    let day = match chrono::Datelike::weekday(&now) {
        chrono::Weekday::Mon => Weekday::Mon,
        chrono::Weekday::Tue => Weekday::Tue,
        chrono::Weekday::Wed => Weekday::Wed,
        chrono::Weekday::Thu => Weekday::Thu,
        chrono::Weekday::Fri => Weekday::Fri,
        chrono::Weekday::Sat => Weekday::Sat,
        chrono::Weekday::Sun => Weekday::Sun,
    };
    (chrono::Timelike::hour(&now) as u8, chrono::Timelike::minute(&now) as u8, day)
}

impl TimeContext {
    /// Whether the flags say what the hour and the day imply, for a time
    /// that a clock can show.
    pub open spec fn consistent(self) -> bool {
        &&& self.local_hour < 24
        &&& self.local_minute < 60
        &&& self == time_context_at(self.local_hour, self.local_minute, self.day_of_week)
    }

    /// The time context of a given local time.
    pub fn at(hour: u8, minute: u8, day: Weekday) -> (r: TimeContext)
        ensures
            r == time_context_at(hour, minute, day),
    {
        let is_weekend = match day {
            Weekday::Sat => true,
            Weekday::Sun => true,
            _ => false,
        };
        TimeContext {
            local_hour: hour,
            local_minute: minute,
            day_of_week: day,
            is_weekend,
            is_late_night: hour >= 23 || hour < 6,
            is_deep_night: 2 <= hour && hour < 5,
            approx_work_hours: !is_weekend && 8 <= hour && hour <= 18,
        }
    }

    /// The time context of the present moment on the local clock.
    pub fn now() -> (r: TimeContext)
        ensures
            r.consistent(),
    {
        let (hour, minute, day) = local_clock();
        TimeContext::at(hour, minute, day)
    }
}

/// Watches the session: when it began and when the user last did something.
pub struct PresenceMonitor {
    session_start: std::time::Instant,
    last_interaction: Option<std::time::Instant>,
}

/// One reading of the monitor.
#[derive(Debug, Clone, Copy)]
pub struct PresenceReading {
    /// Whole seconds since the user last did something.
    pub user_idle_seconds: u64,
    /// The time since the user last did something, or since the session
    /// began where they have done nothing yet.
    pub time_since_interaction: std::time::Duration,
    /// The time since the session began.
    pub session_duration: std::time::Duration,
    /// The local time of day.
    pub time_context: TimeContext,
}

impl PresenceMonitor {
    /// The moment at which the session began.
    pub closed spec fn session_start(&self) -> std::time::Instant {
        self.session_start
    }

    /// The moment at which the user last did something, if they did.
    pub closed spec fn last_interaction(&self) -> Option<std::time::Instant> {
        self.last_interaction
    }

    /// The moment from which idle time is counted: the last interaction, or
    /// the start of the session where there was none.
    pub open spec fn idle_since(&self) -> std::time::Instant {
        match self.last_interaction() {
            Some(moment) => moment,
            None => self.session_start(),
        }
    }

    /// A monitor for a session that begins now, without any interaction yet.
    pub fn new() -> (r: PresenceMonitor)
        ensures
            r.last_interaction() is None,
    {
        PresenceMonitor { session_start: std::time::Instant::now(), last_interaction: None }
    }

    /// Notes that the user did something just now.
    pub fn record_interaction(&mut self)
        ensures
            final(self).last_interaction() is Some,
            final(self).session_start() == old(self).session_start(),
    {
        self.last_interaction = Some(std::time::Instant::now());
    }

    /// Whether the user has done anything in this session.
    pub fn has_interacted(&self) -> (r: bool)
        ensures
            r == self.last_interaction() is Some,
    {
        self.last_interaction.is_some()
    }

    /// The moment from which idle time is counted.
    pub fn idle_reference(&self) -> (r: std::time::Instant)
        ensures
            r == self.idle_since(),
    {
        match self.last_interaction {
            Some(moment) => moment,
            None => self.session_start,
        }
    }

    /// Reads the monitor: idle time, session time and the time of day.
    pub fn sample(&self) -> (r: PresenceReading)
        ensures
            r.time_context.consistent(),
    {
        let now = std::time::Instant::now();
        let time_since_interaction = now.saturating_duration_since(self.idle_reference());
        PresenceReading {
            user_idle_seconds: time_since_interaction.as_secs(),
            time_since_interaction,
            session_duration: now.saturating_duration_since(self.session_start),
            time_context: TimeContext::now(),
        }
    }
}

impl Default for PresenceMonitor {
    fn default() -> (r: PresenceMonitor)
        ensures
            r.last_interaction() is None,
    {
        PresenceMonitor::new()
    }
}

} // verus!
