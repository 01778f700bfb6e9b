//! The data of the tool-calling loop: the messages exchanged with the model,
//! the invocations the model asks for, and the record of what was run.

use vstd::prelude::*;
use vstd::string::StringExecFns;
use crate::tools::{ToolOutput, ToolOutputView};
use crate::tools::invocation::{Invocation, LoopAction};
use crate::tools::json::json_text;
use crate::tools::protocol::{initial_messages, initial_state, pending_action};

verus! {

/// The name and raw arguments of an invocation. The arguments are the text
/// the model wrote; nothing guarantees that they are valid JSON.
#[derive(Debug, Clone)]
pub struct LlmFunctionCall {
    pub name: String,
    pub arguments: String,
}

/// The mathematical model of an [`LlmFunctionCall`].
pub struct LlmFunctionCallView {
    pub name: Seq<char>,
    pub arguments: Seq<char>,
}

impl View for LlmFunctionCall {
    type V = LlmFunctionCallView;

    open spec fn view(&self) -> LlmFunctionCallView {
        LlmFunctionCallView { name: self.name@, arguments: self.arguments@ }
    }
}

/// A tool invocation as the model emits it.
#[derive(Debug, Clone)]
pub struct LlmToolCall {
    pub id: String,
    pub call_type: String,
    pub function: LlmFunctionCall,
}

/// The mathematical model of an [`LlmToolCall`].
pub struct LlmToolCallView {
    pub id: Seq<char>,
    pub call_type: Seq<char>,
    pub function: LlmFunctionCallView,
}

impl View for LlmToolCall {
    type V = LlmToolCallView;

    open spec fn view(&self) -> LlmToolCallView {
        LlmToolCallView { id: self.id@, call_type: self.call_type@, function: self.function@ }
    }
}

impl DeepView for LlmToolCall {
    type V = LlmToolCallView;

    open spec fn deep_view(&self) -> LlmToolCallView {
        self@
    }
}

/// One message of the conversation.
#[derive(Debug, Clone)]
pub struct Message {
    pub role: String,
    pub content: Option<String>,
    pub tool_calls: Option<Vec<LlmToolCall>>,
    pub tool_call_id: Option<String>,
}

/// The mathematical model of a [`Message`].
pub struct MessageView {
    pub role: Seq<char>,
    pub content: Option<Seq<char>>,
    pub tool_calls: Option<Seq<LlmToolCallView>>,
    pub tool_call_id: Option<Seq<char>>,
}

impl View for Message {
    type V = MessageView;

    open spec fn view(&self) -> MessageView {
        MessageView {
            role: self.role@,
            content: self.content.deep_view(),
            tool_calls: self.tool_calls.deep_view(),
            tool_call_id: self.tool_call_id.deep_view(),
        }
    }
}

impl DeepView for Message {
    type V = MessageView;

    open spec fn deep_view(&self) -> MessageView {
        self@
    }
}

/// A message that carries text only, under the given role.
pub open spec fn text_message(role: Seq<char>, text: Seq<char>) -> MessageView {
    MessageView { role, content: Some(text), tool_calls: None, tool_call_id: None }
}

/// The message that answers the invocation `id` with `text`.
pub open spec fn tool_result_message(text: Seq<char>, id: Seq<char>) -> MessageView {
    MessageView { role: "tool"@, content: Some(text), tool_calls: None, tool_call_id: Some(id) }
}

/// The invocations a message asks for: none where the list is absent.
pub open spec fn requested_calls(message: MessageView) -> Seq<LlmToolCallView> {
    match message.tool_calls {
        Some(calls) => calls,
        None => Seq::empty(),
    }
}

/// What the model answered: text, tool invocations, both or neither.
#[derive(Debug, Clone)]
pub struct ModelReply {
    pub content: Option<String>,
    pub tool_calls: Option<Vec<LlmToolCall>>,
}

/// The mathematical model of a [`ModelReply`].
pub struct ModelReplyView {
    pub content: Option<Seq<char>>,
    pub tool_calls: Option<Seq<LlmToolCallView>>,
}

impl View for ModelReply {
    type V = ModelReplyView;

    open spec fn view(&self) -> ModelReplyView {
        ModelReplyView {
            content: self.content.deep_view(),
            tool_calls: self.tool_calls.deep_view(),
        }
    }
}

/// The message under which a reply of the model joins the conversation.
pub open spec fn assistant_message(reply: ModelReplyView) -> MessageView {
    MessageView {
        role: "assistant"@,
        content: reply.content,
        tool_calls: reply.tool_calls,
        tool_call_id: None,
    }
}

/// The invocations a reply asks for: none where the list is absent.
pub open spec fn reply_calls(reply: ModelReplyView) -> Seq<LlmToolCallView> {
    requested_calls(assistant_message(reply))
}

/// A copy of an optional text.
pub fn clone_optional_text(text: &Option<String>) -> (r: Option<String>)
    ensures
        r.deep_view() == text.deep_view(),
{
    match text {
        Some(inner) => Some(inner.clone()),
        None => None,
    }
}

impl ModelReply {
    /// A reply that is text only.
    pub fn text(text: &str) -> (r: ModelReply)
        ensures
            r@ == (ModelReplyView { content: Some(text@), tool_calls: None }),
    {
        ModelReply { content: Some(String::from_str(text)), tool_calls: None }
    }

    /// Whether the reply asks for at least one invocation. A reply that
    /// does not is the final answer.
    pub fn has_tool_calls(&self) -> (r: bool)
        ensures
            r == (reply_calls(self@).len() > 0),
    {
        match &self.tool_calls {
            Some(calls) => calls.len() > 0,
            None => false,
        }
    }
}

impl LlmFunctionCall {
    /// A copy of this call.
    pub fn duplicate(&self) -> (r: LlmFunctionCall)
        ensures
            r@ == self@,
    {
        LlmFunctionCall { name: self.name.clone(), arguments: self.arguments.clone() }
    }
}

impl LlmToolCall {
    /// A copy of this invocation.
    pub fn duplicate(&self) -> (r: LlmToolCall)
        ensures
            r@ == self@,
    {
        LlmToolCall {
            id: self.id.clone(),
            call_type: self.call_type.clone(),
            function: self.function.duplicate(),
        }
    }
}

/// A copy of a list of invocations.
pub fn clone_tool_calls(calls: &Vec<LlmToolCall>) -> (r: Vec<LlmToolCall>)
    ensures
        r.deep_view() == calls.deep_view(),
{
    let mut copy: Vec<LlmToolCall> = Vec::new();
    let mut i: usize = 0;
    while i < calls.len()
        invariant
            i <= calls.len(),
            copy.len() == i,
            forall|j: int| 0 <= j < i ==> copy[j]@ == calls[j]@,
        decreases calls.len() - i,
    {
        copy.push(calls[i].duplicate());
        i += 1;
    }
    assert(copy.deep_view() =~= calls.deep_view());
    copy
}

impl Message {
    /// A text-only message under the given role.
    pub fn text(role: &str, text: &str) -> (r: Message)
        ensures
            r@ == text_message(role@, text@),
    {
        Message {
            role: String::from_str(role),
            content: Some(String::from_str(text)),
            tool_calls: None,
            tool_call_id: None,
        }
    }

    /// The message that answers the invocation `id` with `text`.
    pub fn tool_result(text: String, id: String) -> (r: Message)
        ensures
            r@ == tool_result_message(text@, id@),
    {
        Message {
            role: String::from_str("tool"),
            content: Some(text),
            tool_calls: None,
            tool_call_id: Some(id),
        }
    }

    /// The message under which a reply of the model joins the conversation.
    pub fn assistant(reply: &ModelReply) -> (r: Message)
        ensures
            r@ == assistant_message(reply@),
    {
        let tool_calls = match &reply.tool_calls {
            Some(calls) => Some(clone_tool_calls(calls)),
            None => None,
        };
        Message {
            role: String::from_str("assistant"),
            content: clone_optional_text(&reply.content),
            tool_calls,
            tool_call_id: None,
        }
    }

    /// Whether the message asks for at least one invocation.
    pub fn has_tool_calls(&self) -> (r: bool)
        ensures
            r == (requested_calls(self@).len() > 0),
    {
        match &self.tool_calls {
            Some(calls) => calls.len() > 0,
            None => false,
        }
    }

    /// A copy of this message.
    pub fn duplicate(&self) -> (r: Message)
        ensures
            r@ == self@,
    {
        let tool_calls = match &self.tool_calls {
            Some(calls) => Some(clone_tool_calls(calls)),
            None => None,
        };
        Message {
            role: self.role.clone(),
            content: clone_optional_text(&self.content),
            tool_calls,
            tool_call_id: clone_optional_text(&self.tool_call_id),
        }
    }
}

/// A copy of a conversation.
pub fn clone_messages(messages: &Vec<Message>) -> (r: Vec<Message>)
    ensures
        r.deep_view() == messages.deep_view(),
{
    let mut copy: Vec<Message> = Vec::new();
    let mut i: usize = 0;
    while i < messages.len()
        invariant
            i <= messages.len(),
            copy.len() == i,
            forall|j: int| 0 <= j < i ==> copy[j]@ == messages[j]@,
        decreases messages.len() - i,
    {
        copy.push(messages[i].duplicate());
        i += 1;
    }
    assert(copy.deep_view() =~= messages.deep_view());
    copy
}

/// One entry of the audit trail: a tool, the arguments it was given after
/// parsing, and what it truly returned.
#[derive(Debug, Clone)]
pub struct ToolCallRecord {
    pub tool_name: String,
    pub arguments: serde_json::Value,
    pub output: ToolOutput,
}

/// The mathematical model of a [`ToolCallRecord`]: the arguments stand as
/// their compact JSON text.
pub struct ToolCallRecordView {
    pub tool_name: Seq<char>,
    pub arguments: Seq<char>,
    pub output: ToolOutputView,
}

impl View for ToolCallRecord {
    type V = ToolCallRecordView;

    open spec fn view(&self) -> ToolCallRecordView {
        ToolCallRecordView {
            tool_name: self.tool_name@,
            arguments: json_text(self.arguments),
            output: self.output@,
        }
    }
}

impl DeepView for ToolCallRecord {
    type V = ToolCallRecordView;

    open spec fn deep_view(&self) -> ToolCallRecordView {
        self@
    }
}

impl ToolCallRecord {
    /// A copy of this record.
    pub fn duplicate(&self) -> (r: ToolCallRecord)
        ensures
            r@ == self@,
    {
        ToolCallRecord {
            tool_name: self.tool_name.clone(),
            arguments: self.arguments.clone(),
            output: self.output.duplicate(),
        }
    }
}

/// A copy of an audit trail.
pub fn clone_records(records: &Vec<ToolCallRecord>) -> (r: Vec<ToolCallRecord>)
    ensures
        r.deep_view() == records.deep_view(),
{
    let mut copy: Vec<ToolCallRecord> = Vec::new();
    let mut i: usize = 0;
    while i < records.len()
        invariant
            i <= records.len(),
            copy.len() == i,
            forall|j: int| 0 <= j < i ==> copy[j]@ == records[j]@,
        decreases records.len() - i,
    {
        copy.push(records[i].duplicate());
        i += 1;
    }
    assert(copy.deep_view() =~= records.deep_view());
    copy
}

/// What one invocation of the loop came to.
#[derive(Debug, Clone)]
pub struct AgenticResult {
    /// The final text, where there is one.
    pub response: Option<String>,
    /// Every tool call made, in the order in which it was handled.
    pub tool_calls_made: Vec<ToolCallRecord>,
    /// The number of iterations used.
    pub iterations: usize,
    /// Whether the loop stopped at its iteration limit.
    pub hit_limit: bool,
}

/// The mathematical model of an [`AgenticResult`].
pub struct AgenticResultView {
    pub response: Option<Seq<char>>,
    pub tool_calls_made: Seq<ToolCallRecordView>,
    pub iterations: nat,
    pub hit_limit: bool,
}

impl View for AgenticResult {
    type V = AgenticResultView;

    open spec fn view(&self) -> AgenticResultView {
        AgenticResultView {
            response: self.response.deep_view(),
            tool_calls_made: self.tool_calls_made.deep_view(),
            iterations: self.iterations as nat,
            hit_limit: self.hit_limit,
        }
    }
}

/// The iteration limit of a loop that is given none.
pub const DEFAULT_MAX_ITERATIONS: usize = 10;

/// The output-token limit of a request that is given none.
pub const DEFAULT_MAX_TOKENS: u32 = 4096;

/// The sampling temperature of a request that is given none, in thousandths.
pub const DEFAULT_TEMPERATURE_MILLI: u32 = 700;

/// How the loop is set up. It is made once and not changed while an
/// invocation runs.
#[derive(Debug, Clone)]
pub struct AgenticConfig {
    /// The most model calls that one invocation makes.
    pub max_iterations: usize,
    /// The address of the model endpoint.
    pub api_url: String,
    /// The name of the model.
    pub model: String,
    /// The credential, where the endpoint asks for one.
    pub api_key: Option<String>,
    /// The sampling temperature, in thousandths.
    pub temperature_milli: u32,
    /// The most tokens that one reply of the model may hold.
    pub max_tokens: u32,
}

impl Default for AgenticConfig {
    fn default() -> (r: AgenticConfig)
        ensures
            r.max_iterations == 10,
            r.api_url@ == "http://localhost:11434/v1"@,
            r.model@ == "llama3.2"@,
            r.api_key is None,
            r.temperature_milli == 700,
            r.max_tokens == 4096,
    {
        AgenticConfig {
            max_iterations: DEFAULT_MAX_ITERATIONS,
            api_url: String::from_str("http://localhost:11434/v1"),
            model: String::from_str("llama3.2"),
            api_key: None,
            temperature_milli: DEFAULT_TEMPERATURE_MILLI,
            max_tokens: DEFAULT_MAX_TOKENS,
        }
    }
}

/// The tool-calling loop: it starts invocations, each bounded by the
/// iteration limit of its configuration.
#[derive(Debug, Clone)]
pub struct AgenticLoop {
    config: AgenticConfig,
}

impl AgenticLoop {
    /// The configuration of this loop.
    pub closed spec fn settings(&self) -> AgenticConfig {
        self.config
    }

    /// The iteration limit of this loop.
    pub open spec fn max_iterations(&self) -> usize {
        self.settings().max_iterations
    }

    /// A loop set up by `config`.
    pub fn new(config: AgenticConfig) -> (r: AgenticLoop)
        ensures
            r.settings() == config,
    {
        AgenticLoop { config }
    }

    /// A loop with the default configuration but for the iteration limit.
    pub fn with_limit(max_iterations: usize) -> (r: AgenticLoop)
        ensures
            r.settings().max_iterations == max_iterations,
            r.settings().api_url@ == "http://localhost:11434/v1"@,
            r.settings().model@ == "llama3.2"@,
            r.settings().api_key is None,
            r.settings().temperature_milli == 700,
            r.settings().max_tokens == 4096,
    {
        let mut config = AgenticConfig::default();
        config.max_iterations = max_iterations;
        AgenticLoop { config }
    }

    /// The configuration of this loop.
    pub fn config(&self) -> (r: &AgenticConfig)
        ensures
            *r == self.settings(),
    {
        &self.config
    }

    /// Starts an invocation without earlier history, and says what it asks
    /// for first.
    pub fn run(&self, system_prompt: &str, user_message: &str) -> (r: (Invocation, LoopAction))
        ensures
            r.0@ == initial_state(
                self.max_iterations() as nat,
                initial_messages(system_prompt@, Seq::empty(), user_message@),
            ),
            r.1@ == pending_action(r.0@),
    {
        let history: Vec<Message> = Vec::new();
        assert(history.deep_view() =~= Seq::empty());
        self.run_with_history(system_prompt, history, user_message)
    }

    /// Starts an invocation that continues `history`, and says what it asks
    /// for first. The history is taken as it is.
    pub fn run_with_history(
        &self,
        system_prompt: &str,
        history: Vec<Message>,
        user_message: &str,
    ) -> (r: (Invocation, LoopAction))
        ensures
            r.0@ == initial_state(
                self.max_iterations() as nat,
                initial_messages(system_prompt@, history.deep_view(), user_message@),
            ),
            r.1@ == pending_action(r.0@),
    {
        let invocation = Invocation::start(
            self.config.max_iterations,
            system_prompt,
            history,
            user_message,
        );
        let action = invocation.pending_action();
        (invocation, action)
    }
}

} // verus!
