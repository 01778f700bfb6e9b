//! Journal entries: the notes the agent writes for itself, and their kinds.

use vstd::prelude::*;
use crate::agent::concerns::lemma_plain_word_is_its_own_key;
use crate::text::{chars_of, is_text, lower_text, to_lower, trim_text, trimmed};

verus! {

/// The kind of a journal entry.
#[derive(Debug, Clone, Copy, PartialEq, Eq, Structural)]
pub enum JournalEntryType {
    Observation,
    Reflection,
    Realization,
    Intention,
    Question,
    Memory,
    Gratitude,
    Frustration,
}

/// What surrounded the writing of an entry.
#[derive(Debug, Clone)]
pub struct JournalContext {
    pub trigger: String,
    pub user_state_at_time: String,
    pub time_of_day: String,
}

impl Default for JournalContext {
    fn default() -> (r: JournalContext)
        ensures
            r.trigger@.len() == 0,
            r.user_state_at_time@.len() == 0,
            r.time_of_day@.len() == 0,
    {
        JournalContext {
            trigger: String::new(),
            user_state_at_time: String::new(),
            time_of_day: String::new(),
        }
    }
}

impl JournalEntryType {
    /// The name under which a kind of entry is stored.
    pub open spec fn db_text(self) -> Seq<char> {
        match self {
            JournalEntryType::Observation => "observation"@,
            JournalEntryType::Reflection => "reflection"@,
            JournalEntryType::Realization => "realization"@,
            JournalEntryType::Intention => "intention"@,
            JournalEntryType::Question => "question"@,
            JournalEntryType::Memory => "memory"@,
            JournalEntryType::Gratitude => "gratitude"@,
            JournalEntryType::Frustration => "frustration"@,
        }
    }

    /// The kind that a stored name stands for. The name counts without the
    /// white space around it and without regard to the case of its letters;
    /// a name that is none of the known ones stands for `Observation`.
    pub open spec fn parse(raw: Seq<char>) -> JournalEntryType {
        let key = lower_text(trim_text(raw));
        if key == "reflection"@ {
            JournalEntryType::Reflection
        } else if key == "realization"@ {
            JournalEntryType::Realization
        } else if key == "intention"@ {
            JournalEntryType::Intention
        } else if key == "question"@ {
            JournalEntryType::Question
        } else if key == "memory"@ {
            JournalEntryType::Memory
        } else if key == "gratitude"@ {
            JournalEntryType::Gratitude
        } else if key == "frustration"@ {
            JournalEntryType::Frustration
        } else {
            JournalEntryType::Observation
        }
    }

    /// The name under which this kind of entry is stored.
    pub fn as_db_str(self) -> (r: &'static str)
        ensures
            r@ == self.db_text(),
    {
        match self {
            JournalEntryType::Observation => "observation",
            JournalEntryType::Reflection => "reflection",
            JournalEntryType::Realization => "realization",
            JournalEntryType::Intention => "intention",
            JournalEntryType::Question => "question",
            JournalEntryType::Memory => "memory",
            JournalEntryType::Gratitude => "gratitude",
            JournalEntryType::Frustration => "frustration",
        }
    }

    /// Reads a kind of entry back from its stored name.
    pub fn from_db(raw: &str) -> (r: JournalEntryType)
        ensures
            r == JournalEntryType::parse(raw@),
    {
        let key = to_lower(&trimmed(&chars_of(raw)));
        if is_text(&key, "reflection") {
            JournalEntryType::Reflection
        } else if is_text(&key, "realization") {
            JournalEntryType::Realization
        } else if is_text(&key, "intention") {
            JournalEntryType::Intention
        } else if is_text(&key, "question") {
            JournalEntryType::Question
        } else if is_text(&key, "memory") {
            JournalEntryType::Memory
        } else if is_text(&key, "gratitude") {
            JournalEntryType::Gratitude
        } else if is_text(&key, "frustration") {
            JournalEntryType::Frustration
        } else {
            JournalEntryType::Observation
        }
    }
}

/// Storing a kind of entry and reading it back gives the same kind.
pub proof fn lemma_entry_type_round_trip(kind: JournalEntryType)
    ensures
        JournalEntryType::parse(kind.db_text()) == kind,
{
    reveal_strlit("observation");
    reveal_strlit("reflection");
    reveal_strlit("realization");
    reveal_strlit("intention");
    reveal_strlit("question");
    reveal_strlit("memory");
    reveal_strlit("gratitude");
    reveal_strlit("frustration");
    lemma_plain_word_is_its_own_key(kind.db_text());
    let word = kind.db_text();
    assert("reflection"@[2] == 'f' && "realization"@[2] == 'a');
    assert("observation"@[0] == 'o' && "intention"@[0] == 'i' && "question"@[0] == 'q');
    assert("memory"@[0] == 'm' && "gratitude"@[0] == 'g' && "frustration"@[0] == 'f');
    assert("reflection"@[0] == 'r' && "realization"@[0] == 'r');
}

} // verus!
