//! Concerns: what the agent keeps in mind, and how present each one is.

use vstd::prelude::*;
use crate::text::{chars_of, is_text, lower_text, to_lower, trim_text, trimmed};

verus! {

/// How present a concern is in the agent's mind.
#[derive(Debug, Clone, Copy, PartialEq, Eq, Structural)]
pub enum Salience {
    Active,
    Monitoring,
    Background,
    Dormant,
}

/// How a concern came about and what has happened to it since.
#[derive(Debug, Clone)]
pub struct ConcernContext {
    pub how_it_started: String,
    pub key_events: Vec<String>,
    pub last_update_reason: String,
}

impl Default for ConcernContext {
    fn default() -> (r: ConcernContext)
        ensures
            r.how_it_started@.len() == 0,
            r.key_events@.len() == 0,
            r.last_update_reason@.len() == 0,
    {
        ConcernContext {
            how_it_started: String::new(),
            key_events: Vec::new(),
            last_update_reason: String::new(),
        }
    }
}

impl Salience {
    /// The name under which a salience is stored.
    pub open spec fn db_text(self) -> Seq<char> {
        match self {
            Salience::Active => "active"@,
            Salience::Monitoring => "monitoring"@,
            Salience::Background => "background"@,
            Salience::Dormant => "dormant"@,
        }
    }

    /// The salience that a stored name stands for. The name counts without
    /// the white space around it and without regard to the case of its
    /// letters; a name that is none of the known ones stands for `Active`.
    pub open spec fn parse(raw: Seq<char>) -> Salience {
        let key = lower_text(trim_text(raw));
        if key == "monitoring"@ {
            Salience::Monitoring
        } else if key == "background"@ {
            Salience::Background
        } else if key == "dormant"@ {
            Salience::Dormant
        } else {
            Salience::Active
        }
    }

    /// The name under which this salience is stored.
    pub fn as_db_str(self) -> (r: &'static str)
        ensures
            r@ == self.db_text(),
    {
        match self {
            Salience::Active => "active",
            Salience::Monitoring => "monitoring",
            Salience::Background => "background",
            Salience::Dormant => "dormant",
        }
    }

    /// Reads a salience back from its stored name.
    pub fn from_db(raw: &str) -> (r: Salience)
        ensures
            r == Salience::parse(raw@),
    {
        let key = to_lower(&trimmed(&chars_of(raw)));
        if is_text(&key, "monitoring") {
            Salience::Monitoring
        } else if is_text(&key, "background") {
            Salience::Background
        } else if is_text(&key, "dormant") {
            Salience::Dormant
        } else {
            Salience::Active
        }
    }
}

/// A lower-case word without white space at its ends reads as itself.
pub proof fn lemma_plain_word_is_its_own_key(word: Seq<char>)
    requires
        word.len() > 0,
        forall|i: int| 0 <= i < word.len() ==> 'a' <= #[trigger] word[i] <= 'z',
    ensures
        lower_text(trim_text(word)) == word,
{
    assert(lower_text(word) =~= word);
}

/// Storing a salience and reading it back gives the same salience.
pub proof fn lemma_salience_round_trip(salience: Salience)
    ensures
        Salience::parse(salience.db_text()) == salience,
{
    reveal_strlit("active");
    reveal_strlit("monitoring");
    reveal_strlit("background");
    reveal_strlit("dormant");
    lemma_plain_word_is_its_own_key(salience.db_text());
    match salience {
        Salience::Active => {
            assert("active"@[0] != "monitoring"@[0]);
            assert("active"@[0] != "background"@[0]);
            assert("active"@[0] != "dormant"@[0]);
        },
        Salience::Monitoring => {},
        Salience::Background => {
            assert("background"@[0] != "monitoring"@[0]);
        },
        Salience::Dormant => {
            assert("dormant"@[0] != "monitoring"@[0]);
            assert("dormant"@[0] != "background"@[0]);
        },
    }
}

} // verus!
