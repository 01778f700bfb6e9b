use ponderer::presence::{PresenceMonitor, TimeContext, Weekday};

#[test]
fn sample_returns_nonzero_session_duration() {
    let monitor = PresenceMonitor::new();
    let state = monitor.sample();
    assert!(state.session_duration.as_secs() < 2);
    assert!(state.time_context.local_hour <= 23);
}

#[test]
fn interaction_is_remembered() {
    let mut monitor = PresenceMonitor::new();
    assert!(!monitor.has_interacted());
    monitor.record_interaction();
    assert!(monitor.has_interacted());
    let state = monitor.sample();
    assert!(state.time_since_interaction <= state.session_duration);
    assert_eq!(state.user_idle_seconds, state.time_since_interaction.as_secs());
    assert!(!PresenceMonitor::default().has_interacted());
}

#[test]
fn clock_reading_is_consistent() {
    let now = TimeContext::now();
    assert!(now.local_hour < 24);
    assert!(now.local_minute < 60);
    assert_eq!(now, TimeContext::at(now.local_hour, now.local_minute, now.day_of_week));
}

#[test]
fn time_of_day_flags() {
    let monday_morning = TimeContext::at(9, 30, Weekday::Mon);
    assert_eq!(monday_morning.local_hour, 9);
    assert_eq!(monday_morning.local_minute, 30);
    assert_eq!(monday_morning.day_of_week, Weekday::Mon);
    assert!(!monday_morning.is_weekend);
    assert!(!monday_morning.is_late_night);
    assert!(!monday_morning.is_deep_night);
    assert!(monday_morning.approx_work_hours);

    let saturday_morning = TimeContext::at(9, 30, Weekday::Sat);
    assert!(saturday_morning.is_weekend);
    assert!(!saturday_morning.approx_work_hours);
    assert!(TimeContext::at(12, 0, Weekday::Sun).is_weekend);

    assert!(TimeContext::at(23, 0, Weekday::Tue).is_late_night);
    assert!(!TimeContext::at(22, 59, Weekday::Tue).is_late_night);
    assert!(TimeContext::at(5, 59, Weekday::Tue).is_late_night);
    assert!(!TimeContext::at(6, 0, Weekday::Tue).is_late_night);

    assert!(!TimeContext::at(1, 59, Weekday::Wed).is_deep_night);
    assert!(TimeContext::at(2, 0, Weekday::Wed).is_deep_night);
    assert!(TimeContext::at(4, 59, Weekday::Wed).is_deep_night);
    assert!(!TimeContext::at(5, 0, Weekday::Wed).is_deep_night);

    assert!(!TimeContext::at(7, 59, Weekday::Thu).approx_work_hours);
    assert!(TimeContext::at(8, 0, Weekday::Thu).approx_work_hours);
    assert!(TimeContext::at(18, 59, Weekday::Fri).approx_work_hours);
    assert!(!TimeContext::at(19, 0, Weekday::Fri).approx_work_hours);
}
