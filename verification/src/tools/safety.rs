//! Verdicts of the safety pipeline, as the tool-calling loop receives them.

use vstd::prelude::*;

verus! {

/// The outcome of checking a tool's arguments before the tool runs.
#[derive(Debug, Clone)]
pub enum SafetyVerdict {
    /// The call may run.
    Allow,
    /// The call may run; the reason is worth a log line.
    Warn(String),
    /// The call must not run.
    Block(String),
}

/// The mathematical model of a [`SafetyVerdict`].
pub enum SafetyVerdictView {
    Allow,
    Warn(Seq<char>),
    Block(Seq<char>),
}

impl View for SafetyVerdict {
    type V = SafetyVerdictView;

    open spec fn view(&self) -> SafetyVerdictView {
        match self {
            SafetyVerdict::Allow => SafetyVerdictView::Allow,
            SafetyVerdict::Warn(reason) => SafetyVerdictView::Warn(reason@),
            SafetyVerdict::Block(reason) => SafetyVerdictView::Block(reason@),
        }
    }
}

} // verus!
