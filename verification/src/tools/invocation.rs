//! One invocation of the tool-calling loop, driven from outside: the caller
//! performs what the invocation asks for and hands back what came of it.

use vstd::prelude::*;
use vstd::string::StringExecFns;
use crate::text::decimal;
use crate::tools::{ToolCall, ToolOutput};
use crate::tools::agentic::{
    clone_messages, clone_optional_text, clone_records, AgenticResult, LlmToolCall, Message,
    ModelReply, ToolCallRecord,
};
use crate::tools::endpoint::EndpointError;
use crate::tools::json::{empty_object, empty_object_text, json_text, parse_json};
use crate::tools::protocol::{
    blocked_output, checked_text, complete_call, initial_messages, initial_state, is_terminal,
    limit_notice, next_state, parsed_arguments, pending_action, proceed, turn_for, InvocationView,
    LoopActionView, LoopEventView, PhaseView, TurnView,
};
use crate::tools::safety::SafetyVerdict;

verus! {

/// What the outside world answers to an invocation of the loop.
#[derive(Debug)]
pub enum LoopEvent {
    /// The model replied.
    ModelReplied(ModelReply),
    /// The call of the model failed.
    ModelFailed(EndpointError),
    /// The safety pipeline judged the arguments of the invocation at hand.
    InputChecked(SafetyVerdict),
    /// The registry ran the tool.
    ToolReturned(ToolOutput),
    /// The safety pipeline judged the tool's output: the sanitized text, or
    /// the reason for which it rejects the output.
    OutputChecked(Result<String, String>),
    /// The caller gives the invocation up.
    Cancelled,
}

impl View for LoopEvent {
    type V = LoopEventView;

    open spec fn view(&self) -> LoopEventView {
        match self {
            LoopEvent::ModelReplied(reply) => LoopEventView::ModelReplied(reply@),
            LoopEvent::ModelFailed(error) => LoopEventView::ModelFailed(error@),
            LoopEvent::InputChecked(verdict) => LoopEventView::InputChecked(verdict@),
            LoopEvent::ToolReturned(output) => LoopEventView::ToolReturned(output@),
            LoopEvent::OutputChecked(checked) => LoopEventView::OutputChecked(
                match checked {
                    Ok(sanitized) => Ok(sanitized@),
                    Err(reason) => Err(reason@),
                },
            ),
            LoopEvent::Cancelled => LoopEventView::Cancelled,
        }
    }
}

/// What an invocation of the loop asks of the outside world.
#[derive(Debug)]
pub enum LoopAction {
    /// Send the conversation to the model.
    CallModel { messages: Vec<Message> },
    /// Run the arguments through the input check.
    ValidateInput { tool_name: String, arguments: serde_json::Value },
    /// Run the tool.
    ExecuteTool { call: ToolCall },
    /// Run the text through the output check.
    CheckOutput { tool_name: String, text: String },
    /// The invocation is over: this is its result.
    Finish(AgenticResult),
    /// The invocation is over: the model could not be reached.
    Fail(EndpointError),
    /// The invocation was given up.
    Stop,
}

impl View for LoopAction {
    type V = LoopActionView;

    open spec fn view(&self) -> LoopActionView {
        match self {
            LoopAction::CallModel { messages } => LoopActionView::CallModel {
                messages: messages.deep_view(),
            },
            LoopAction::ValidateInput { tool_name, arguments } => LoopActionView::ValidateInput {
                tool_name: tool_name@,
                arguments: json_text(*arguments),
            },
            LoopAction::ExecuteTool { call } => LoopActionView::ExecuteTool { call: call@ },
            LoopAction::CheckOutput { tool_name, text } => LoopActionView::CheckOutput {
                tool_name: tool_name@,
                text: text@,
            },
            LoopAction::Finish(result) => LoopActionView::Finish(result@),
            LoopAction::Fail(error) => LoopActionView::Fail(error@),
            LoopAction::Stop => LoopActionView::Stop,
        }
    }
}

struct Turn {
    call: LlmToolCall,
    arguments: serde_json::Value,
    rest: Vec<LlmToolCall>,
}

impl View for Turn {
    type V = TurnView;

    closed spec fn view(&self) -> TurnView {
        TurnView {
            call: self.call@,
            arguments: json_text(self.arguments),
            rest: self.rest.deep_view(),
        }
    }
}

enum Phase {
    AwaitingModel,
    AwaitingVerdict(Turn),
    AwaitingTool(Turn),
    AwaitingCheck(Turn, ToolOutput),
    Finished { response: Option<String>, hit_limit: bool },
    Failed(EndpointError),
    Cancelled,
}

impl View for Phase {
    type V = PhaseView;

    closed spec fn view(&self) -> PhaseView {
        match self {
            Phase::AwaitingModel => PhaseView::AwaitingModel,
            Phase::AwaitingVerdict(turn) => PhaseView::AwaitingVerdict(turn@),
            Phase::AwaitingTool(turn) => PhaseView::AwaitingTool(turn@),
            Phase::AwaitingCheck(turn, output) => PhaseView::AwaitingCheck(turn@, output@),
            Phase::Finished { response, hit_limit } => PhaseView::Finished {
                response: response.deep_view(),
                hit_limit: *hit_limit,
            },
            Phase::Failed(error) => PhaseView::Failed(error@),
            Phase::Cancelled => PhaseView::Cancelled,
        }
    }
}

/// One invocation of the loop: the conversation so far, the audit trail, the
/// iterations used, and what the invocation is waiting for.
pub struct Invocation {
    max_iterations: usize,
    messages: Vec<Message>,
    records: Vec<ToolCallRecord>,
    iterations: usize,
    phase: Phase,
}

impl View for Invocation {
    type V = InvocationView;

    closed spec fn view(&self) -> InvocationView {
        InvocationView {
            max_iterations: self.max_iterations as nat,
            messages: self.messages.deep_view(),
            records: self.records.deep_view(),
            iterations: self.iterations as nat,
            phase: self.phase@,
        }
    }
}

/// The arguments to use for an invocation, given what parsing its raw
/// arguments came to: the parsed value, or the empty object where parsing
/// failed.
pub fn arguments_or_empty<E>(parsed: Result<serde_json::Value, E>) -> (arguments:
    serde_json::Value)
    ensures
        json_text(arguments) == match parsed {
            Ok(value) => json_text(value),
            Err(_) => empty_object_text(),
        },
{
    match parsed {
        Ok(value) => value,
        Err(_) => empty_object(),
    }
}

/// Reads the raw arguments of an invocation: the value they parse to, or the
/// empty object where they do not parse.
pub fn tool_arguments(raw: &str) -> (arguments: serde_json::Value)
    ensures
        json_text(arguments) == parsed_arguments(raw@),
{
    arguments_or_empty(parse_json(raw))
}

/// Writes the final text of an invocation that stopped at its limit.
pub fn limit_message(max_iterations: usize) -> (r: String)
    ensures
        r@ == limit_notice(max_iterations as nat),
{
    let number = decimal(max_iterations);
    String::from_str("[Reached maximum of ").concat(number.as_str()).concat(
        " tool-calling iterations]",
    )
}

/// The output recorded for an invocation that the input check blocked.
pub fn blocked(reason: &str) -> (r: ToolOutput)
    ensures
        r@ == blocked_output(reason@),
{
    ToolOutput::Error(String::from_str("Input validation failed: ").concat(reason))
}

/// What the model is shown after the output check.
pub fn sanitized_or_redacted(checked: Result<String, String>) -> (r: String)
    ensures
        r@ == checked_text(
            match checked {
                Ok(sanitized) => Ok(sanitized@),
                Err(reason) => Err(reason@),
            },
        ),
{
    match checked {
        Ok(sanitized) => sanitized,
        Err(reason) => String::from_str("[BLOCKED] ").concat(reason.as_str()),
    }
}

proof fn lemma_push_deep_view<T: DeepView>(before: Seq<T>, after: Seq<T>, item: T)
    requires
        after == before.push(item),
    ensures
        Seq::new(after.len(), |i: int| after[i].deep_view()) == Seq::new(
            before.len(),
            |i: int| before[i].deep_view(),
        ).push(item.deep_view()),
{
    assert(Seq::new(after.len(), |i: int| after[i].deep_view()) =~= Seq::new(
        before.len(),
        |i: int| before[i].deep_view(),
    ).push(item.deep_view()));
}

fn begin_turn(calls: Vec<LlmToolCall>) -> (turn: Turn)
    requires
        calls.len() > 0,
    ensures
        turn@ == turn_for(calls.deep_view()),
{
    let mut rest = calls;
    let call = rest.remove(0);
    let arguments = tool_arguments(call.function.arguments.as_str());
    assert(rest.deep_view() =~= calls.deep_view().skip(1));
    Turn { call, arguments, rest }
}

fn advance(
    max_iterations: usize,
    messages: Vec<Message>,
    records: Vec<ToolCallRecord>,
    iterations: usize,
    rest: Vec<LlmToolCall>,
) -> (next: Invocation)
    ensures
        next@ == proceed(
            InvocationView {
                max_iterations: max_iterations as nat,
                messages: messages.deep_view(),
                records: records.deep_view(),
                iterations: iterations as nat,
                phase: PhaseView::AwaitingModel,
            },
            rest.deep_view(),
        ),
{
    if rest.len() > 0 {
        let turn = begin_turn(rest);
        Invocation { max_iterations, messages, records, iterations, phase: Phase::AwaitingVerdict(turn) }
    } else if iterations < max_iterations {
        Invocation {
            max_iterations,
            messages,
            records,
            iterations: iterations + 1,
            phase: Phase::AwaitingModel,
        }
    } else {
        Invocation {
            max_iterations,
            messages,
            records,
            iterations,
            phase: Phase::Finished {
                response: Some(limit_message(max_iterations)),
                hit_limit: true,
            },
        }
    }
}

fn finish_call(
    max_iterations: usize,
    messages: Vec<Message>,
    records: Vec<ToolCallRecord>,
    iterations: usize,
    turn: Turn,
    output: ToolOutput,
    content: String,
) -> (next: Invocation)
    ensures
        next@ == complete_call(
            InvocationView {
                max_iterations: max_iterations as nat,
                messages: messages.deep_view(),
                records: records.deep_view(),
                iterations: iterations as nat,
                phase: PhaseView::AwaitingModel,
            },
            turn@,
            output@,
            content@,
        ),
{
    let mut messages = messages;
    let mut records = records;
    let Turn { call, arguments, rest } = turn;
    let ghost messages_before = messages@;
    let ghost records_before = records@;
    let record = ToolCallRecord { tool_name: call.function.name, arguments, output };
    let message = Message::tool_result(content, call.id);
    proof {
        lemma_push_deep_view(records_before, records_before.push(record), record);
        lemma_push_deep_view(messages_before, messages_before.push(message), message);
    }
    records.push(record);
    messages.push(message);
    advance(max_iterations, messages, records, iterations, rest)
}

impl Invocation {
    /// Starts an invocation on a conversation made of the system prompt, the
    /// history and the new user message.
    pub fn start(
        max_iterations: usize,
        system_prompt: &str,
        history: Vec<Message>,
        user_message: &str,
    ) -> (r: Invocation)
        ensures
            r@ == initial_state(
                max_iterations as nat,
                initial_messages(system_prompt@, history.deep_view(), user_message@),
            ),
    {
        let ghost given = history@;
        let mut history = history;
        let mut messages: Vec<Message> = Vec::new();
        messages.push(Message::text("system", system_prompt));
        messages.append(&mut history);
        messages.push(Message::text("user", user_message));
        let records: Vec<ToolCallRecord> = Vec::new();
        proof {
            assert(messages@.len() == given.len() + 2);
            assert forall|i: int| 0 <= i < messages@.len() implies #[trigger] messages@[i]@
                == initial_messages(
                system_prompt@,
                Seq::new(given.len(), |j: int| given[j].deep_view()),
                user_message@,
            )[i] by {
                if 1 <= i <= given.len() {
                    assert(messages@[i] == given[i - 1]);
                }
            }
            assert(messages.deep_view() =~= initial_messages(
                system_prompt@,
                Seq::new(given.len(), |j: int| given[j].deep_view()),
                user_message@,
            ));
            assert(records.deep_view() =~= Seq::empty());
        }
        if max_iterations >= 1 {
            Invocation {
                max_iterations,
                messages,
                records,
                iterations: 1,
                phase: Phase::AwaitingModel,
            }
        } else {
            Invocation {
                max_iterations,
                messages,
                records,
                iterations: 0,
                phase: Phase::Finished {
                    response: Some(limit_message(max_iterations)),
                    hit_limit: true,
                },
            }
        }
    }

    /// The conversation so far.
    pub fn messages(&self) -> (r: &Vec<Message>)
        ensures
            r.deep_view() == self@.messages,
    {
        &self.messages
    }

    /// The audit trail so far. It stays readable when the invocation fails
    /// or is given up: the tools it names were run.
    pub fn tool_calls_made(&self) -> (r: &Vec<ToolCallRecord>)
        ensures
            r.deep_view() == self@.records,
    {
        &self.records
    }

    /// The number of model calls made so far.
    pub fn iterations(&self) -> (r: usize)
        ensures
            r == self@.iterations,
    {
        self.iterations
    }

    /// Whether the invocation has ended.
    pub fn is_over(&self) -> (r: bool)
        ensures
            r == is_terminal(self@.phase),
    {
        match &self.phase {
            Phase::Finished { .. } => true,
            Phase::Failed(_) => true,
            Phase::Cancelled => true,
            _ => false,
        }
    }

    /// What the invocation asks of the outside world.
    pub fn pending_action(&self) -> (action: LoopAction)
        ensures
            action@ == pending_action(self@),
    {
        match &self.phase {
            Phase::AwaitingModel => LoopAction::CallModel {
                messages: clone_messages(&self.messages),
            },
            Phase::AwaitingVerdict(turn) => LoopAction::ValidateInput {
                tool_name: turn.call.function.name.clone(),
                arguments: turn.arguments.clone(),
            },
            Phase::AwaitingTool(turn) => LoopAction::ExecuteTool {
                call: ToolCall {
                    name: turn.call.function.name.clone(),
                    arguments: turn.arguments.clone(),
                },
            },
            Phase::AwaitingCheck(turn, output) => LoopAction::CheckOutput {
                tool_name: turn.call.function.name.clone(),
                text: output.to_llm_string(),
            },
            Phase::Finished { response, hit_limit } => LoopAction::Finish(
                AgenticResult {
                    response: clone_optional_text(response),
                    tool_calls_made: clone_records(&self.records),
                    iterations: self.iterations,
                    hit_limit: *hit_limit,
                },
            ),
            Phase::Failed(error) => LoopAction::Fail(error.duplicate()),
            Phase::Cancelled => LoopAction::Stop,
        }
    }

    /// Takes an event in: the state that follows is the one `next_state`
    /// gives.
    pub fn apply(self, event: LoopEvent) -> (next: Invocation)
        ensures
            next@ == next_state(self@, event@),
    {
        let Invocation { max_iterations, messages, records, iterations, phase } = self;
        match phase {
            Phase::AwaitingModel => match event {
                LoopEvent::ModelReplied(reply) => {
                    if reply.has_tool_calls() {
                        let mut messages = messages;
                        let copy = Message::assistant(&reply);
                        let calls = match reply.tool_calls {
                            Some(calls) => calls,
                            None => Vec::new(),
                        };
                        proof {
                            lemma_push_deep_view(messages@, messages@.push(copy), copy);
                        }
                        messages.push(copy);
                        advance(max_iterations, messages, records, iterations, calls)
                    } else {
                        Invocation {
                            max_iterations,
                            messages,
                            records,
                            iterations,
                            phase: Phase::Finished { response: reply.content, hit_limit: false },
                        }
                    }
                },
                LoopEvent::ModelFailed(error) => Invocation {
                    max_iterations,
                    messages,
                    records,
                    iterations,
                    phase: Phase::Failed(error),
                },
                LoopEvent::Cancelled => Invocation {
                    max_iterations,
                    messages,
                    records,
                    iterations,
                    phase: Phase::Cancelled,
                },
                _ => Invocation {
                    max_iterations,
                    messages,
                    records,
                    iterations,
                    phase: Phase::AwaitingModel,
                },
            },
            Phase::AwaitingVerdict(turn) => match event {
                LoopEvent::InputChecked(verdict) => match verdict {
                    SafetyVerdict::Block(reason) => {
                        let output = blocked(reason.as_str());
                        let content = output.to_llm_string();
                        finish_call(
                            max_iterations,
                            messages,
                            records,
                            iterations,
                            turn,
                            output,
                            content,
                        )
                    },
                    _ => Invocation {
                        max_iterations,
                        messages,
                        records,
                        iterations,
                        phase: Phase::AwaitingTool(turn),
                    },
                },
                LoopEvent::Cancelled => Invocation {
                    max_iterations,
                    messages,
                    records,
                    iterations,
                    phase: Phase::Cancelled,
                },
                _ => Invocation {
                    max_iterations,
                    messages,
                    records,
                    iterations,
                    phase: Phase::AwaitingVerdict(turn),
                },
            },
            Phase::AwaitingTool(turn) => match event {
                LoopEvent::ToolReturned(output) => {
                    let checked = match &output {
                        ToolOutput::Text(_) => true,
                        ToolOutput::Json(_) => true,
                        ToolOutput::Error(_) => false,
                    };
                    if checked {
                        Invocation {
                            max_iterations,
                            messages,
                            records,
                            iterations,
                            phase: Phase::AwaitingCheck(turn, output),
                        }
                    } else {
                        let content = output.to_llm_string();
                        finish_call(
                            max_iterations,
                            messages,
                            records,
                            iterations,
                            turn,
                            output,
                            content,
                        )
                    }
                },
                LoopEvent::Cancelled => Invocation {
                    max_iterations,
                    messages,
                    records,
                    iterations,
                    phase: Phase::Cancelled,
                },
                _ => Invocation {
                    max_iterations,
                    messages,
                    records,
                    iterations,
                    phase: Phase::AwaitingTool(turn),
                },
            },
            Phase::AwaitingCheck(turn, output) => match event {
                LoopEvent::OutputChecked(checked) => {
                    let content = sanitized_or_redacted(checked);
                    finish_call(max_iterations, messages, records, iterations, turn, output, content)
                },
                LoopEvent::Cancelled => Invocation {
                    max_iterations,
                    messages,
                    records,
                    iterations,
                    phase: Phase::Cancelled,
                },
                _ => Invocation {
                    max_iterations,
                    messages,
                    records,
                    iterations,
                    phase: Phase::AwaitingCheck(turn, output),
                },
            },
            Phase::Finished { response, hit_limit } => Invocation {
                max_iterations,
                messages,
                records,
                iterations,
                phase: Phase::Finished { response, hit_limit },
            },
            Phase::Failed(error) => Invocation {
                max_iterations,
                messages,
                records,
                iterations,
                phase: Phase::Failed(error),
            },
            Phase::Cancelled => Invocation {
                max_iterations,
                messages,
                records,
                iterations,
                phase: Phase::Cancelled,
            },
        }
    }

    /// Takes an event in and says what to do next.
    pub fn step(self, event: LoopEvent) -> (r: (Invocation, LoopAction))
        ensures
            r.0@ == next_state(self@, event@),
            r.1@ == pending_action(r.0@),
    {
        let next = self.apply(event);
        let action = next.pending_action();
        (next, action)
    }
}

} // verus!
