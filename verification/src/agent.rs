//! The agent's inner life, as it is stored: concerns it keeps in mind and
//! journal entries it writes.

pub mod concerns;
pub mod journal;
