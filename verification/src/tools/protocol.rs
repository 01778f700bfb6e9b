//! The tool-calling loop as a state machine over mathematical values.
//!
//! An invocation waits for one thing at a time: the model's reply, the
//! verdict on an invocation's arguments, a tool's output, or the check of
//! that output. `next_state` says what each answer leads to, and
//! `pending_action` says what an invocation in a given state is waiting for.

use vstd::prelude::*;
use crate::text::decimal_text;
use crate::tools::{llm_text, ToolCallView, ToolOutputView};
use crate::tools::agentic::{
    assistant_message, reply_calls, text_message, tool_result_message, AgenticResultView,
    LlmToolCallView, MessageView, ModelReplyView, ToolCallRecordView,
};
use crate::tools::endpoint::EndpointErrorView;
use crate::tools::json::{empty_object_text, parsed_text};
use crate::tools::safety::SafetyVerdictView;

verus! {

/// The invocation being handled, its parsed arguments, and the invocations
/// of the same model turn that come after it.
pub struct TurnView {
    pub call: LlmToolCallView,
    pub arguments: Seq<char>,
    pub rest: Seq<LlmToolCallView>,
}

/// What an invocation of the loop is waiting for, or how it ended.
pub enum PhaseView {
    AwaitingModel,
    AwaitingVerdict(TurnView),
    AwaitingTool(TurnView),
    AwaitingCheck(TurnView, ToolOutputView),
    Finished { response: Option<Seq<char>>, hit_limit: bool },
    Failed(EndpointErrorView),
    Cancelled,
}

/// The state of one invocation of the loop.
pub struct InvocationView {
    pub max_iterations: nat,
    pub messages: Seq<MessageView>,
    pub records: Seq<ToolCallRecordView>,
    pub iterations: nat,
    pub phase: PhaseView,
}

/// What the outside world answers.
pub enum LoopEventView {
    ModelReplied(ModelReplyView),
    ModelFailed(EndpointErrorView),
    InputChecked(SafetyVerdictView),
    ToolReturned(ToolOutputView),
    OutputChecked(Result<Seq<char>, Seq<char>>),
    Cancelled,
}

/// What the loop asks of the outside world.
pub enum LoopActionView {
    CallModel { messages: Seq<MessageView> },
    ValidateInput { tool_name: Seq<char>, arguments: Seq<char> },
    ExecuteTool { call: ToolCallView },
    CheckOutput { tool_name: Seq<char>, text: Seq<char> },
    Finish(AgenticResultView),
    Fail(EndpointErrorView),
    Stop,
}

/// The final text of an invocation that stopped at its iteration limit.
pub open spec fn limit_notice(max_iterations: nat) -> Seq<char> {
    "[Reached maximum of "@ + decimal_text(max_iterations) + " tool-calling iterations]"@
}

/// The recorded output of an invocation that the input check blocked.
pub open spec fn blocked_output(reason: Seq<char>) -> ToolOutputView {
    ToolOutputView::Error("Input validation failed: "@ + reason)
}

/// The text shown to the model in place of an output that the output check
/// rejected.
pub open spec fn redaction_notice(reason: Seq<char>) -> Seq<char> {
    "[BLOCKED] "@ + reason
}

/// The arguments of an invocation as the loop uses them: the parsed raw
/// arguments, or the empty object where they do not parse.
pub open spec fn parsed_arguments(raw: Seq<char>) -> Seq<char> {
    match parsed_text(raw) {
        Some(compact) => compact,
        None => empty_object_text(),
    }
}

/// Whether an output goes through the output check: text and structured
/// values do, an error does not.
pub open spec fn needs_output_check(output: ToolOutputView) -> bool {
    output is Text || output is Json
}

/// What the model is shown after the output check: the sanitized text, or
/// the redaction notice with the reason of the rejection.
pub open spec fn checked_text(checked: Result<Seq<char>, Seq<char>>) -> Seq<char> {
    match checked {
        Ok(sanitized) => sanitized,
        Err(reason) => redaction_notice(reason),
    }
}

/// The conversation an invocation starts from: the system prompt, the
/// history as it was given, and the new user message.
pub open spec fn initial_messages(
    system_prompt: Seq<char>,
    history: Seq<MessageView>,
    user_message: Seq<char>,
) -> Seq<MessageView> {
    seq![text_message("system"@, system_prompt)] + history + seq![
        text_message("user"@, user_message),
    ]
}

/// The state in which an invocation starts. With a limit of at least one it
/// waits for the model's first reply; with a limit of zero it has already
/// stopped at the limit.
pub open spec fn initial_state(max_iterations: nat, messages: Seq<MessageView>) -> InvocationView {
    if max_iterations >= 1 {
        InvocationView {
            max_iterations,
            messages,
            records: Seq::empty(),
            iterations: 1,
            phase: PhaseView::AwaitingModel,
        }
    } else {
        InvocationView {
            max_iterations,
            messages,
            records: Seq::empty(),
            iterations: 0,
            phase: PhaseView::Finished {
                response: Some(limit_notice(max_iterations)),
                hit_limit: true,
            },
        }
    }
}

/// The first of `calls` taken up, with the others left for later.
pub open spec fn turn_for(calls: Seq<LlmToolCallView>) -> TurnView
    recommends
        calls.len() > 0,
{
    TurnView {
        call: calls[0],
        arguments: parsed_arguments(calls[0].function.arguments),
        rest: calls.skip(1),
    }
}

/// Where an invocation goes once `rest` is all that is left of the model
/// turn: to the next invocation of the turn; after the last one, to the next
/// model call; and at the iteration limit, to its end.
pub open spec fn proceed(s: InvocationView, rest: Seq<LlmToolCallView>) -> InvocationView {
    if rest.len() > 0 {
        InvocationView { phase: PhaseView::AwaitingVerdict(turn_for(rest)), ..s }
    } else if s.iterations < s.max_iterations {
        InvocationView { iterations: s.iterations + 1, phase: PhaseView::AwaitingModel, ..s }
    } else {
        InvocationView {
            phase: PhaseView::Finished {
                response: Some(limit_notice(s.max_iterations)),
                hit_limit: true,
            },
            ..s
        }
    }
}

/// The record of an invocation that came to `output`.
pub open spec fn record_of(turn: TurnView, output: ToolOutputView) -> ToolCallRecordView {
    ToolCallRecordView { tool_name: turn.call.function.name, arguments: turn.arguments, output }
}

/// The end of one invocation: its record joins the audit trail, the message
/// with `content` answers it, and the loop proceeds.
pub open spec fn complete_call(
    s: InvocationView,
    turn: TurnView,
    output: ToolOutputView,
    content: Seq<char>,
) -> InvocationView {
    proceed(
        InvocationView {
            messages: s.messages.push(tool_result_message(content, turn.call.id)),
            records: s.records.push(record_of(turn, output)),
            ..s
        },
        turn.rest,
    )
}

/// Whether an invocation in this phase has ended.
pub open spec fn is_terminal(phase: PhaseView) -> bool {
    phase is Finished || phase is Failed || phase is Cancelled
}

/// The state after an event. An event that does not answer what the
/// invocation is waiting for changes nothing.
pub open spec fn next_state(s: InvocationView, event: LoopEventView) -> InvocationView {
    match (s.phase, event) {
        (PhaseView::AwaitingModel, LoopEventView::ModelReplied(reply)) => {
            if reply_calls(reply).len() > 0 {
                proceed(
                    InvocationView { messages: s.messages.push(assistant_message(reply)), ..s },
                    reply_calls(reply),
                )
            } else {
                InvocationView {
                    phase: PhaseView::Finished { response: reply.content, hit_limit: false },
                    ..s
                }
            }
        },
        (PhaseView::AwaitingModel, LoopEventView::ModelFailed(error)) => InvocationView {
            phase: PhaseView::Failed(error),
            ..s
        },
        (PhaseView::AwaitingVerdict(turn), LoopEventView::InputChecked(verdict)) => {
            match verdict {
                SafetyVerdictView::Block(reason) => complete_call(
                    s,
                    turn,
                    blocked_output(reason),
                    llm_text(blocked_output(reason)),
                ),
                _ => InvocationView { phase: PhaseView::AwaitingTool(turn), ..s },
            }
        },
        (PhaseView::AwaitingTool(turn), LoopEventView::ToolReturned(output)) => {
            if needs_output_check(output) {
                InvocationView { phase: PhaseView::AwaitingCheck(turn, output), ..s }
            } else {
                complete_call(s, turn, output, llm_text(output))
            }
        },
        (PhaseView::AwaitingCheck(turn, output), LoopEventView::OutputChecked(checked)) => {
            complete_call(s, turn, output, checked_text(checked))
        },
        (phase, LoopEventView::Cancelled) => {
            if is_terminal(phase) {
                s
            } else {
                InvocationView { phase: PhaseView::Cancelled, ..s }
            }
        },
        _ => s,
    }
}

/// What an invocation that ended with a result hands to its caller.
pub open spec fn result_of(
    s: InvocationView,
    response: Option<Seq<char>>,
    hit_limit: bool,
) -> AgenticResultView {
    AgenticResultView {
        response,
        tool_calls_made: s.records,
        iterations: s.iterations,
        hit_limit,
    }
}

/// What an invocation in state `s` asks of the outside world.
pub open spec fn pending_action(s: InvocationView) -> LoopActionView {
    match s.phase {
        PhaseView::AwaitingModel => LoopActionView::CallModel { messages: s.messages },
        PhaseView::AwaitingVerdict(turn) => LoopActionView::ValidateInput {
            tool_name: turn.call.function.name,
            arguments: turn.arguments,
        },
        PhaseView::AwaitingTool(turn) => LoopActionView::ExecuteTool {
            call: ToolCallView { name: turn.call.function.name, arguments: turn.arguments },
        },
        PhaseView::AwaitingCheck(turn, output) => LoopActionView::CheckOutput {
            tool_name: turn.call.function.name,
            text: llm_text(output),
        },
        PhaseView::Finished { response, hit_limit } => LoopActionView::Finish(
            result_of(s, response, hit_limit),
        ),
        PhaseView::Failed(error) => LoopActionView::Fail(error),
        PhaseView::Cancelled => LoopActionView::Stop,
    }
}

} // verus!
