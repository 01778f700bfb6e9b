use ponderer::agent::concerns::{ConcernContext, Salience};
use ponderer::agent::journal::{JournalContext, JournalEntryType};

#[test]
fn salience_names_are_the_stored_ones() {
    assert_eq!(Salience::Active.as_db_str(), "active");
    assert_eq!(Salience::Monitoring.as_db_str(), "monitoring");
    assert_eq!(Salience::Background.as_db_str(), "background");
    assert_eq!(Salience::Dormant.as_db_str(), "dormant");
}

#[test]
fn salience_is_read_back_leniently() {
    assert_eq!(Salience::from_db("monitoring"), Salience::Monitoring);
    assert_eq!(Salience::from_db("  Background\n"), Salience::Background);
    assert_eq!(Salience::from_db("DORMANT"), Salience::Dormant);
    assert_eq!(Salience::from_db("active"), Salience::Active);
    assert_eq!(Salience::from_db(""), Salience::Active);
    assert_eq!(Salience::from_db("unknown"), Salience::Active);
    assert_eq!(Salience::from_db("dor mant"), Salience::Active);
    assert_eq!(Salience::from_db("dormant!"), Salience::Active);
}

#[test]
fn salience_round_trips() {
    for salience in
        [Salience::Active, Salience::Monitoring, Salience::Background, Salience::Dormant]
    {
        assert_eq!(Salience::from_db(salience.as_db_str()), salience);
    }
}

#[test]
fn entry_type_names_are_the_stored_ones() {
    assert_eq!(JournalEntryType::Observation.as_db_str(), "observation");
    assert_eq!(JournalEntryType::Reflection.as_db_str(), "reflection");
    assert_eq!(JournalEntryType::Realization.as_db_str(), "realization");
    assert_eq!(JournalEntryType::Intention.as_db_str(), "intention");
    assert_eq!(JournalEntryType::Question.as_db_str(), "question");
    assert_eq!(JournalEntryType::Memory.as_db_str(), "memory");
    assert_eq!(JournalEntryType::Gratitude.as_db_str(), "gratitude");
    assert_eq!(JournalEntryType::Frustration.as_db_str(), "frustration");
}

#[test]
fn entry_type_is_read_back_leniently() {
    assert_eq!(JournalEntryType::from_db(" Reflection "), JournalEntryType::Reflection);
    assert_eq!(JournalEntryType::from_db("QUESTION"), JournalEntryType::Question);
    assert_eq!(JournalEntryType::from_db("\tmemory"), JournalEntryType::Memory);
    assert_eq!(JournalEntryType::from_db("nonsense"), JournalEntryType::Observation);
    assert_eq!(JournalEntryType::from_db(""), JournalEntryType::Observation);
}

#[test]
fn entry_type_round_trips() {
    for kind in [
        JournalEntryType::Observation,
        JournalEntryType::Reflection,
        JournalEntryType::Realization,
        JournalEntryType::Intention,
        JournalEntryType::Question,
        JournalEntryType::Memory,
        JournalEntryType::Gratitude,
        JournalEntryType::Frustration,
    ] {
        assert_eq!(JournalEntryType::from_db(kind.as_db_str()), kind);
    }
}

#[test]
fn contexts_start_empty() {
    let concern = ConcernContext::default();
    assert!(concern.how_it_started.is_empty());
    assert!(concern.key_events.is_empty());
    assert!(concern.last_update_reason.is_empty());
    let journal = JournalContext::default();
    assert!(journal.trigger.is_empty());
    assert!(journal.user_state_at_time.is_empty());
    assert!(journal.time_of_day.is_empty());
}
