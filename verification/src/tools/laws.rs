//! What holds of every invocation of the loop, proved over the state machine
//! of `protocol`.
//!
//! The collaborators of the loop are described by what they answer: a model
//! turn is a reply together with one `ToolOutcome` for each invocation the
//! reply asks for.

use vstd::prelude::*;
use crate::tools::{llm_text, ToolCallView, ToolOutputView};
use crate::tools::agentic::{
    assistant_message, reply_calls, requested_calls, tool_result_message, AgenticResultView,
    LlmToolCallView, MessageView, ModelReplyView, ToolCallRecordView,
};
use crate::tools::json::{empty_object_text, parsed_text};
use crate::tools::protocol::{
    blocked_output, checked_text, complete_call, initial_state, is_terminal, limit_notice,
    needs_output_check, next_state, parsed_arguments, pending_action, proceed, turn_for,
    InvocationView, LoopActionView, LoopEventView, PhaseView, TurnView,
};
use crate::tools::safety::SafetyVerdictView;

verus! {

/// What the collaborators answer for one invocation: the verdict of the
/// input check, what the registry returns if the tool is run, and what the
/// output check says if the output is put to it.
pub struct ToolOutcome {
    pub verdict: SafetyVerdictView,
    pub output: ToolOutputView,
    pub checked: Result<Seq<char>, Seq<char>>,
}

/// The output that the audit trail keeps for an invocation.
pub open spec fn recorded_output(outcome: ToolOutcome) -> ToolOutputView {
    match outcome.verdict {
        SafetyVerdictView::Block(reason) => blocked_output(reason),
        _ => outcome.output,
    }
}

/// The text that the model is shown for an invocation.
pub open spec fn shown_text(outcome: ToolOutcome) -> Seq<char> {
    match outcome.verdict {
        SafetyVerdictView::Block(reason) => llm_text(blocked_output(reason)),
        _ => if needs_output_check(outcome.output) {
            checked_text(outcome.checked)
        } else {
            llm_text(outcome.output)
        },
    }
}

/// The record that an invocation leaves.
pub open spec fn record_for(call: LlmToolCallView, outcome: ToolOutcome) -> ToolCallRecordView {
    ToolCallRecordView {
        tool_name: call.function.name,
        arguments: parsed_arguments(call.function.arguments),
        output: recorded_output(outcome),
    }
}

/// The message that answers an invocation.
pub open spec fn message_for(call: LlmToolCallView, outcome: ToolOutcome) -> MessageView {
    tool_result_message(shown_text(outcome), call.id)
}

/// The state after the collaborators have answered the invocation at hand:
/// the verdict first; unless it blocks, the tool's output; and where the
/// output is text or a structured value, the check of it.
pub open spec fn answer_call(s: InvocationView, outcome: ToolOutcome) -> InvocationView {
    let judged = next_state(s, LoopEventView::InputChecked(outcome.verdict));
    if outcome.verdict is Block {
        judged
    } else {
        let run = next_state(judged, LoopEventView::ToolReturned(outcome.output));
        if needs_output_check(outcome.output) {
            next_state(run, LoopEventView::OutputChecked(outcome.checked))
        } else {
            run
        }
    }
}

/// The state after the collaborators have answered one invocation after the
/// other.
pub open spec fn answer_calls(s: InvocationView, outcomes: Seq<ToolOutcome>) -> InvocationView
    decreases outcomes.len(),
{
    if outcomes.len() == 0 {
        s
    } else {
        answer_calls(answer_call(s, outcomes[0]), outcomes.skip(1))
    }
}

/// The state after one model turn: the reply, then the answers to each of
/// its invocations.
pub open spec fn answer_turn(
    s: InvocationView,
    reply: ModelReplyView,
    outcomes: Seq<ToolOutcome>,
) -> InvocationView {
    answer_calls(next_state(s, LoopEventView::ModelReplied(reply)), outcomes)
}

/// The state after the first `turns` model turns of a script.
pub open spec fn after_turns(
    s: InvocationView,
    replies: Seq<ModelReplyView>,
    outcomes: Seq<Seq<ToolOutcome>>,
    turns: nat,
) -> InvocationView
    decreases turns,
{
    if turns == 0 {
        s
    } else {
        answer_turn(
            after_turns(s, replies, outcomes, (turns - 1) as nat),
            replies[turns - 1],
            outcomes[turns - 1],
        )
    }
}

/// The messages that answer the first `count` of `calls`.
pub open spec fn messages_for(
    calls: Seq<LlmToolCallView>,
    outcomes: Seq<ToolOutcome>,
    count: nat,
) -> Seq<MessageView> {
    Seq::new(count, |i: int| message_for(calls[i], outcomes[i]))
}

/// The records that the first `count` of `calls` leave.
pub open spec fn records_for(
    calls: Seq<LlmToolCallView>,
    outcomes: Seq<ToolOutcome>,
    count: nat,
) -> Seq<ToolCallRecordView> {
    Seq::new(count, |i: int| record_for(calls[i], outcomes[i]))
}

/// Answering the invocation at hand appends its record and its message,
/// and moves on to what is left of the turn.
pub proof fn lemma_answer_call(s: InvocationView, turn: TurnView, outcome: ToolOutcome)
    requires
        s.phase == PhaseView::AwaitingVerdict(turn),
    ensures
        answer_call(s, outcome) == complete_call(
            s,
            turn,
            recorded_output(outcome),
            shown_text(outcome),
        ),
{
}

/// After the first `count` invocations of a turn have been answered, each
/// has left one record and one message, in the order of the invocations, and
/// the loop has moved on to what is left of the turn.
pub proof fn lemma_answer_calls(
    s: InvocationView,
    calls: Seq<LlmToolCallView>,
    outcomes: Seq<ToolOutcome>,
    count: nat,
)
    requires
        calls.len() > 0,
        s.phase == PhaseView::AwaitingVerdict(turn_for(calls)),
        count <= calls.len(),
        count <= outcomes.len(),
    ensures
        answer_calls(s, outcomes.take(count as int)) == proceed(
            InvocationView {
                messages: s.messages + messages_for(calls, outcomes, count),
                records: s.records + records_for(calls, outcomes, count),
                ..s
            },
            calls.skip(count as int),
        ),
    decreases count,
{
    let taken = outcomes.take(count as int);
    if count == 0 {
        assert(s.messages + messages_for(calls, outcomes, count) =~= s.messages);
        assert(s.records + records_for(calls, outcomes, count) =~= s.records);
        assert(calls.skip(0) =~= calls);
    } else {
        let turn = turn_for(calls);
        let first = answer_call(s, outcomes[0]);
        lemma_answer_call(s, turn, outcomes[0]);
        assert(taken[0] == outcomes[0]);
        assert(taken.skip(1) =~= outcomes.skip(1).take(count - 1));
        let grown = InvocationView {
            messages: s.messages.push(message_for(calls[0], outcomes[0])),
            records: s.records.push(record_for(calls[0], outcomes[0])),
            ..s
        };
        assert(first == proceed(grown, calls.skip(1)));
        if count == 1 {
            assert(taken.skip(1).len() == 0);
            assert(answer_calls(s, taken) == first);
            assert(s.messages + messages_for(calls, outcomes, count) =~= grown.messages);
            assert(s.records + records_for(calls, outcomes, count) =~= grown.records);
        } else {
            let later = calls.skip(1);
            assert(later.len() > 0);
            lemma_answer_calls(first, later, outcomes.skip(1), (count - 1) as nat);
            assert(later.skip(count - 1) =~= calls.skip(count as int));
            assert(first.messages + messages_for(later, outcomes.skip(1), (count - 1) as nat)
                =~= s.messages + messages_for(calls, outcomes, count));
            assert(first.records + records_for(later, outcomes.skip(1), (count - 1) as nat)
                =~= s.records + records_for(calls, outcomes, count));
        }
    }
}

/// Whether `outcomes` holds one answer for each invocation that `reply`
/// asks for, and `reply` asks for at least one.
pub open spec fn answers_turn(reply: ModelReplyView, outcomes: Seq<ToolOutcome>) -> bool {
    reply_calls(reply).len() > 0 && outcomes.len() == reply_calls(reply).len()
}

/// The state before the invocation at position `index` of a turn is
/// answered: the reply has come and the invocations before it are done.
pub open spec fn before_call(
    s: InvocationView,
    reply: ModelReplyView,
    outcomes: Seq<ToolOutcome>,
    index: int,
) -> InvocationView {
    answer_turn(s, reply, outcomes.take(index))
}

/// A model turn with tool invocations appends the reply and then one
/// tool-result message per invocation, leaves one record per invocation, and
/// ends either in the next model call or, at the iteration limit, in the end
/// of the invocation.
pub proof fn lemma_turn(s: InvocationView, reply: ModelReplyView, outcomes: Seq<ToolOutcome>)
    requires
        s.phase is AwaitingModel,
        answers_turn(reply, outcomes),
    ensures
        answer_turn(s, reply, outcomes) == proceed(
            InvocationView {
                messages: s.messages.push(assistant_message(reply)) + messages_for(
                    reply_calls(reply),
                    outcomes,
                    outcomes.len(),
                ),
                records: s.records + records_for(reply_calls(reply), outcomes, outcomes.len()),
                ..s
            },
            Seq::empty(),
        ),
{
    let calls = reply_calls(reply);
    let begun = next_state(s, LoopEventView::ModelReplied(reply));
    lemma_answer_calls(begun, calls, outcomes, outcomes.len());
    assert(outcomes.take(outcomes.len() as int) =~= outcomes);
    assert(calls.skip(outcomes.len() as int) =~= Seq::empty());
}

/// While a turn is under way, the loop is waiting for the verdict on the
/// next invocation, with everything before it recorded and answered.
pub proof fn lemma_before_call(
    s: InvocationView,
    reply: ModelReplyView,
    outcomes: Seq<ToolOutcome>,
    index: int,
)
    requires
        s.phase is AwaitingModel,
        answers_turn(reply, outcomes),
        0 <= index < outcomes.len(),
    ensures
        before_call(s, reply, outcomes, index) == (InvocationView {
            messages: s.messages.push(assistant_message(reply)) + messages_for(
                reply_calls(reply),
                outcomes,
                index as nat,
            ),
            records: s.records + records_for(reply_calls(reply), outcomes, index as nat),
            phase: PhaseView::AwaitingVerdict(turn_for(reply_calls(reply).skip(index))),
            ..s
        }),
        before_call(s, reply, outcomes, index + 1) == answer_call(
            before_call(s, reply, outcomes, index),
            outcomes[index],
        ),
{
    let calls = reply_calls(reply);
    let begun = next_state(s, LoopEventView::ModelReplied(reply));
    lemma_answer_calls(begun, calls, outcomes, index as nat);
    lemma_answer_calls(begun, calls, outcomes, (index + 1) as nat);
    let here = before_call(s, reply, outcomes, index);
    let turn = turn_for(calls.skip(index));
    lemma_answer_call(here, turn, outcomes[index]);
    assert(calls.skip(index).skip(1) =~= calls.skip(index + 1));
    assert(calls.skip(index)[0] == calls[index]);
    assert(here.messages.push(message_for(calls[index], outcomes[index])) =~= s.messages.push(
        assistant_message(reply),
    ) + messages_for(calls, outcomes, (index + 1) as nat));
    assert(here.records.push(record_for(calls[index], outcomes[index])) =~= s.records
        + records_for(calls, outcomes, (index + 1) as nat));
}

/// Termination bound. Let the iteration limit be `limit`, at least one, and
/// let every reply of the model ask for at least one tool invocation. Then
/// after each of the first `limit - 1` turns the loop calls the model again,
/// and after turn number `limit` it stops: it has made exactly `limit` model
/// calls, the result says that the limit was hit, names the limit in its
/// final text, counts `limit` iterations, and holds the records of all
/// invocations made.
pub proof fn lemma_termination_bound(
    limit: nat,
    messages: Seq<MessageView>,
    replies: Seq<ModelReplyView>,
    outcomes: Seq<Seq<ToolOutcome>>,
)
    requires
        limit >= 1,
        replies.len() >= limit,
        outcomes.len() >= limit,
        forall|i: int| 0 <= i < limit ==> answers_turn(#[trigger] replies[i], outcomes[i]),
    ensures
        forall|turns: nat|
            turns < limit ==> {
                let s = #[trigger] after_turns(
                    initial_state(limit, messages),
                    replies,
                    outcomes,
                    turns,
                );
                &&& s.phase is AwaitingModel
                &&& s.iterations == turns + 1
                &&& pending_action(s) is CallModel
            },
        ({
            let end = after_turns(initial_state(limit, messages), replies, outcomes, limit);
            &&& end.iterations == limit
            &&& pending_action(end) == LoopActionView::Finish(
                AgenticResultView {
                    response: Some(limit_notice(limit)),
                    tool_calls_made: records_of_turns(replies, outcomes, limit),
                    iterations: limit,
                    hit_limit: true,
                },
            )
        }),
{
    lemma_audit_trail_is_complete(limit, messages, replies, outcomes, limit);
    assert forall|turns: nat| turns < limit implies {
        let s = #[trigger] after_turns(initial_state(limit, messages), replies, outcomes, turns);
        &&& s.phase is AwaitingModel
        &&& s.iterations == turns + 1
        &&& pending_action(s) is CallModel
    } by {
        lemma_turns_within_limit(limit, messages, replies, outcomes, turns);
    }
    lemma_turns_within_limit(limit, messages, replies, outcomes, limit);
}

/// The state after `turns` turns of a script in which every reply asks for
/// tools: still calling the model while `turns` is under the limit, stopped
/// at the limit once `turns` reaches it.
pub proof fn lemma_turns_within_limit(
    limit: nat,
    messages: Seq<MessageView>,
    replies: Seq<ModelReplyView>,
    outcomes: Seq<Seq<ToolOutcome>>,
    turns: nat,
)
    requires
        limit >= 1,
        turns <= limit,
        replies.len() >= limit,
        outcomes.len() >= limit,
        forall|i: int| 0 <= i < limit ==> answers_turn(#[trigger] replies[i], outcomes[i]),
    ensures
        ({
            let s = after_turns(initial_state(limit, messages), replies, outcomes, turns);
            &&& s.max_iterations == limit
            &&& turns < limit ==> s.phase is AwaitingModel && s.iterations == turns + 1
            &&& turns == limit ==> s.iterations == limit && s.phase == (PhaseView::Finished {
                response: Some(limit_notice(limit)),
                hit_limit: true,
            })
        }),
    decreases turns,
{
    if turns > 0 {
        lemma_turns_within_limit(limit, messages, replies, outcomes, (turns - 1) as nat);
        let before = after_turns(
            initial_state(limit, messages),
            replies,
            outcomes,
            (turns - 1) as nat,
        );
        assert(answers_turn(replies[turns - 1], outcomes[turns - 1]));
        lemma_turn(before, replies[turns - 1], outcomes[turns - 1]);
    }
}

/// Immediate termination. If the first reply of the model asks for no tool,
/// the loop ends after that one model call: the result carries the reply's
/// text, counts one iteration, holds no tool call, and does not say that the
/// limit was hit.
pub proof fn lemma_immediate_termination(
    limit: nat,
    messages: Seq<MessageView>,
    reply: ModelReplyView,
)
    requires
        limit >= 1,
        reply_calls(reply).len() == 0,
    ensures
        pending_action(initial_state(limit, messages)) == (LoopActionView::CallModel { messages }),
        pending_action(
            next_state(initial_state(limit, messages), LoopEventView::ModelReplied(reply)),
        ) == LoopActionView::Finish(
            AgenticResultView {
                response: reply.content,
                tool_calls_made: Seq::empty(),
                iterations: 1,
                hit_limit: false,
            },
        ),
{
}

/// Malformed arguments are tolerated. A turn leaves exactly one record per
/// invocation, under the name of its tool, and does not end the invocation
/// in failure; the record of an invocation whose raw arguments do not parse
/// holds the empty object, and that of one whose arguments parse holds what
/// they parse to.
pub proof fn lemma_malformed_arguments_tolerated(
    s: InvocationView,
    reply: ModelReplyView,
    outcomes: Seq<ToolOutcome>,
    index: int,
)
    requires
        s.phase is AwaitingModel,
        answers_turn(reply, outcomes),
        0 <= index < outcomes.len(),
    ensures
        ({
            let end = answer_turn(s, reply, outcomes);
            let call = reply_calls(reply)[index];
            let record = end.records[s.records.len() + index];
            &&& end.records.len() == s.records.len() + outcomes.len()
            &&& record.tool_name == call.function.name
            &&& parsed_text(call.function.arguments) is None ==> record.arguments
                == empty_object_text()
            &&& parsed_text(call.function.arguments) matches Some(compact) ==> record.arguments
                == compact
            &&& !(end.phase is Failed)
            &&& !(end.phase is Cancelled)
        }),
{
    lemma_turn(s, reply, outcomes);
}

/// Block linkage. Where the input check blocks one invocation of a turn,
/// the loop does not ask for the tool to be run: it goes straight on with
/// the record and the one message for that invocation in place. The message
/// carries the reason and the id of the invocation. Every other invocation
/// of the turn is handled as its own outcome says.
pub proof fn lemma_block_linkage(
    s: InvocationView,
    reply: ModelReplyView,
    outcomes: Seq<ToolOutcome>,
    index: int,
    reason: Seq<char>,
)
    requires
        s.phase is AwaitingModel,
        answers_turn(reply, outcomes),
        0 <= index < outcomes.len(),
        outcomes[index].verdict == SafetyVerdictView::Block(reason),
    ensures
        ({
            let here = before_call(s, reply, outcomes, index);
            let judged = next_state(here, LoopEventView::InputChecked(outcomes[index].verdict));
            &&& pending_action(here) is ValidateInput
            &&& !(pending_action(judged) is ExecuteTool)
            &&& !(pending_action(judged) is CheckOutput)
            &&& judged == before_call(s, reply, outcomes, index + 1)
            &&& judged.messages == here.messages.push(
                tool_result_message(
                    "Error: "@ + ("Input validation failed: "@ + reason),
                    reply_calls(reply)[index].id,
                ),
            )
            &&& judged.records == here.records.push(
                record_for(reply_calls(reply)[index], outcomes[index]),
            )
        }),
        ({
            let end = answer_turn(s, reply, outcomes);
            &&& end.messages.len() == s.messages.len() + 1 + outcomes.len()
            &&& forall|other: int|
                0 <= other < outcomes.len() ==> #[trigger] end.records[s.records.len() + other]
                    == record_for(reply_calls(reply)[other], outcomes[other])
            &&& forall|other: int|
                0 <= other < outcomes.len() ==> #[trigger] end.messages[s.messages.len() + 1
                    + other] == message_for(reply_calls(reply)[other], outcomes[other])
        }),
{
    lemma_turn(s, reply, outcomes);
    lemma_before_call(s, reply, outcomes, index);
    let here = before_call(s, reply, outcomes, index);
    let turn = turn_for(reply_calls(reply).skip(index));
    lemma_answer_call(here, turn, outcomes[index]);
    assert(reply_calls(reply).skip(index)[0] == reply_calls(reply)[index]);
}

/// Every invocation that the input check lets through is put to the
/// registry: once its verdict is in, the loop asks for that tool to be run
/// with the parsed arguments.
pub proof fn lemma_permitted_call_is_executed(
    s: InvocationView,
    reply: ModelReplyView,
    outcomes: Seq<ToolOutcome>,
    index: int,
)
    requires
        s.phase is AwaitingModel,
        answers_turn(reply, outcomes),
        0 <= index < outcomes.len(),
        !(outcomes[index].verdict is Block),
    ensures
        pending_action(
            next_state(
                before_call(s, reply, outcomes, index),
                LoopEventView::InputChecked(outcomes[index].verdict),
            ),
        ) == (LoopActionView::ExecuteTool {
            call: ToolCallView {
                name: reply_calls(reply)[index].function.name,
                arguments: parsed_arguments(reply_calls(reply)[index].function.arguments),
            },
        }),
{
    lemma_before_call(s, reply, outcomes, index);
    assert(reply_calls(reply).skip(index)[0] == reply_calls(reply)[index]);
}

/// Audit fidelity. The record of an invocation that was run holds what the
/// tool returned, whatever the output check made of it: the model may see a
/// sanitized text or a redaction notice, the record does not change.
pub proof fn lemma_audit_fidelity(
    s: InvocationView,
    reply: ModelReplyView,
    outcomes: Seq<ToolOutcome>,
    index: int,
)
    requires
        s.phase is AwaitingModel,
        answers_turn(reply, outcomes),
        0 <= index < outcomes.len(),
        !(outcomes[index].verdict is Block),
    ensures
        ({
            let end = answer_turn(s, reply, outcomes);
            let shown = end.messages[s.messages.len() + 1 + index];
            &&& end.records[s.records.len() + index].output == outcomes[index].output
            &&& needs_output_check(outcomes[index].output) ==> shown.content == Some(
                checked_text(outcomes[index].checked),
            )
            &&& !needs_output_check(outcomes[index].output) ==> shown.content == Some(
                llm_text(outcomes[index].output),
            )
        }),
{
    lemma_turn(s, reply, outcomes);
}

/// Ordering. After a turn, the reply stands where the conversation ended
/// before, and the tool-result messages follow it in the order in which the
/// model emitted the invocations: the message at position `index` after the
/// reply is a tool message that carries the id of invocation `index` of that
/// reply. Records are kept in the same order.
pub proof fn lemma_results_follow_invocations(
    s: InvocationView,
    reply: ModelReplyView,
    outcomes: Seq<ToolOutcome>,
)
    requires
        s.phase is AwaitingModel,
        answers_turn(reply, outcomes),
    ensures
        ({
            let end = answer_turn(s, reply, outcomes);
            let base = s.messages.len() as int;
            &&& end.messages.len() == base + 1 + outcomes.len()
            &&& end.messages.take(base) == s.messages
            &&& end.messages[base] == assistant_message(reply)
            &&& forall|index: int|
                0 <= index < outcomes.len() ==> {
                    let message = #[trigger] end.messages[base + 1 + index];
                    &&& message.role == "tool"@
                    &&& message.tool_calls is None
                    &&& message.tool_call_id == Some(
                        requested_calls(end.messages[base])[index].id,
                    )
                }
            &&& end.records.len() == s.records.len() + outcomes.len()
            &&& end.records.take(s.records.len() as int) == s.records
            &&& forall|index: int|
                0 <= index < outcomes.len() ==> (#[trigger] end.records[s.records.len()
                    + index]).tool_name == reply_calls(reply)[index].function.name
        }),
{
    lemma_turn(s, reply, outcomes);
    let end = answer_turn(s, reply, outcomes);
    assert(end.messages.take(s.messages.len() as int) =~= s.messages);
    assert(end.records.take(s.records.len() as int) =~= s.records);
}

/// The iteration counter counts model calls: it goes up by one exactly when
/// an event makes the loop call the model again, and never passes the limit.
pub proof fn lemma_counter_counts_model_calls(s: InvocationView, event: LoopEventView)
    requires
        s.iterations <= s.max_iterations,
    ensures
        ({
            let next = next_state(s, event);
            let called_again = next.phase is AwaitingModel && !(s.phase is AwaitingModel);
            &&& next.max_iterations == s.max_iterations
            &&& next.iterations <= next.max_iterations
            &&& next.iterations == s.iterations + if called_again {
                1nat
            } else {
                0nat
            }
            &&& next.phase is AwaitingModel && s.phase is AwaitingModel ==> next == s
        }),
{
}

/// An invocation that has ended stays as it is, whatever event comes.
pub proof fn lemma_terminal_states_are_final(s: InvocationView, event: LoopEventView)
    requires
        is_terminal(s.phase),
    ensures
        next_state(s, event) == s,
{
}

/// A failed model call ends the invocation with that error, at once and
/// unchanged; a cancellation ends any invocation that is still under way
/// without a result. Either way the audit trail is kept.
pub proof fn lemma_fatal_events(s: InvocationView, error: crate::tools::endpoint::EndpointErrorView)
    ensures
        s.phase is AwaitingModel ==> pending_action(
            next_state(s, LoopEventView::ModelFailed(error)),
        ) == LoopActionView::Fail(error),
        !is_terminal(s.phase) ==> pending_action(next_state(s, LoopEventView::Cancelled))
            == LoopActionView::Stop,
        next_state(s, LoopEventView::ModelFailed(error)).records == s.records,
        next_state(s, LoopEventView::Cancelled).records == s.records,
{
}

/// Whether the tool-result message at position `at` answers invocation
/// `index` of the assistant message at position `from`, with nothing but
/// tool-result messages between the two.
pub open spec fn answers_invocation(
    messages: Seq<MessageView>,
    at: int,
    from: int,
    index: int,
) -> bool {
    &&& 0 <= from < at < messages.len()
    &&& messages[from].role == "assistant"@
    &&& forall|k: int| from < k < at ==> (#[trigger] messages[k]).role == "tool"@
    &&& 0 <= index < requested_calls(messages[from]).len()
    &&& messages[at].tool_call_id == Some(requested_calls(messages[from])[index].id)
}

/// Whether every tool-result message at or after position `base` answers an
/// invocation of the assistant message that comes before it, itself at or
/// after `base`.
pub open spec fn results_linked(messages: Seq<MessageView>, base: int) -> bool {
    forall|at: int|
        base <= at < messages.len() && (#[trigger] messages[at]).role == "tool"@ ==> exists|
            from: int,
            index: int,
        |
            base <= from && #[trigger] answers_invocation(messages, at, from, index)
}

/// Linkage is kept by a turn. If every tool-result message that the loop
/// has appended so far answers an invocation of the assistant message before
/// it, the same holds after one more model turn.
pub proof fn lemma_turn_keeps_results_linked(
    s: InvocationView,
    reply: ModelReplyView,
    outcomes: Seq<ToolOutcome>,
    base: int,
)
    requires
        s.phase is AwaitingModel,
        answers_turn(reply, outcomes),
        0 <= base <= s.messages.len(),
        results_linked(s.messages, base),
    ensures
        results_linked(answer_turn(s, reply, outcomes).messages, base),
{
    lemma_turn(s, reply, outcomes);
    reveal_strlit("assistant");
    reveal_strlit("tool");
    let end = answer_turn(s, reply, outcomes).messages;
    let before = s.messages.len() as int;
    assert("assistant"@[0] != "tool"@[0]);
    assert forall|at: int| base <= at < end.len() && (#[trigger] end[at]).role == "tool"@ implies
        exists|from: int, index: int|
            base <= from && #[trigger] answers_invocation(end, at, from, index) by {
        if at < before {
            assert(end[at] == s.messages[at]);
            let (from, index) = choose|from: int, index: int|
                base <= from && #[trigger] answers_invocation(s.messages, at, from, index);
            assert(end[from] == s.messages[from]);
            assert forall|k: int| from < k < at implies (#[trigger] end[k]).role == "tool"@ by {
                assert(end[k] == s.messages[k]);
            }
            assert(answers_invocation(end, at, from, index));
        } else {
            assert(end[before] == assistant_message(reply));
            assert(at > before);
            assert(end[at] == message_for(
                reply_calls(reply)[at - before - 1],
                outcomes[at - before - 1],
            ));
            assert forall|k: int| before < k < at implies (#[trigger] end[k]).role == "tool"@ by {
                assert(end[k] == message_for(
                    reply_calls(reply)[k - before - 1],
                    outcomes[k - before - 1],
                ));
            }
            assert(answers_invocation(end, at, before, at - before - 1));
        }
    }
}

/// Linkage holds throughout. Whatever the history was, every tool-result
/// message that the loop itself has appended after any number of model
/// turns answers an invocation of the assistant message before it.
pub proof fn lemma_results_stay_linked(
    limit: nat,
    messages: Seq<MessageView>,
    replies: Seq<ModelReplyView>,
    outcomes: Seq<Seq<ToolOutcome>>,
    turns: nat,
)
    requires
        limit >= 1,
        turns <= limit,
        replies.len() >= limit,
        outcomes.len() >= limit,
        forall|i: int| 0 <= i < limit ==> answers_turn(#[trigger] replies[i], outcomes[i]),
    ensures
        results_linked(
            after_turns(initial_state(limit, messages), replies, outcomes, turns).messages,
            messages.len() as int,
        ),
        after_turns(initial_state(limit, messages), replies, outcomes, turns).messages.len()
            >= messages.len(),
    decreases turns,
{
    if turns > 0 {
        let earlier = (turns - 1) as nat;
        lemma_results_stay_linked(limit, messages, replies, outcomes, earlier);
        lemma_turns_within_limit(limit, messages, replies, outcomes, earlier);
        let before = after_turns(initial_state(limit, messages), replies, outcomes, earlier);
        assert(answers_turn(replies[turns - 1], outcomes[turns - 1]));
        lemma_turn_keeps_results_linked(
            before,
            replies[turns - 1],
            outcomes[turns - 1],
            messages.len() as int,
        );
        lemma_turn(before, replies[turns - 1], outcomes[turns - 1]);
    }
}

/// The records that the first `turns` model turns of a script leave, in the
/// order in which the invocations were handled.
pub open spec fn records_of_turns(
    replies: Seq<ModelReplyView>,
    outcomes: Seq<Seq<ToolOutcome>>,
    turns: nat,
) -> Seq<ToolCallRecordView>
    decreases turns,
{
    if turns == 0 {
        Seq::empty()
    } else {
        records_of_turns(replies, outcomes, (turns - 1) as nat) + records_for(
            reply_calls(replies[turns - 1]),
            outcomes[turns - 1],
            outcomes[turns - 1].len(),
        )
    }
}

/// The audit trail is complete and ordered: after any number of model turns
/// it holds the records of all invocations of those turns, turn by turn and
/// within a turn in the order of the invocations.
pub proof fn lemma_audit_trail_is_complete(
    limit: nat,
    messages: Seq<MessageView>,
    replies: Seq<ModelReplyView>,
    outcomes: Seq<Seq<ToolOutcome>>,
    turns: nat,
)
    requires
        limit >= 1,
        turns <= limit,
        replies.len() >= limit,
        outcomes.len() >= limit,
        forall|i: int| 0 <= i < limit ==> answers_turn(#[trigger] replies[i], outcomes[i]),
    ensures
        after_turns(initial_state(limit, messages), replies, outcomes, turns).records
            == records_of_turns(replies, outcomes, turns),
    decreases turns,
{
    if turns > 0 {
        let earlier = (turns - 1) as nat;
        lemma_audit_trail_is_complete(limit, messages, replies, outcomes, earlier);
        lemma_turns_within_limit(limit, messages, replies, outcomes, earlier);
        let before = after_turns(initial_state(limit, messages), replies, outcomes, earlier);
        assert(answers_turn(replies[turns - 1], outcomes[turns - 1]));
        lemma_turn(before, replies[turns - 1], outcomes[turns - 1]);
    } else {
        assert(initial_state(limit, messages).records =~= records_of_turns(replies, outcomes, 0));
    }
}

/// A final answer after some turns. If the first `turns` replies ask for
/// tools, with `turns` under the limit, and the next reply asks for none,
/// the loop ends with that reply: the result carries its text, counts
/// `turns + 1` iterations, holds the records of all invocations made, and
/// does not say that the limit was hit.
pub proof fn lemma_final_answer_after_turns(
    limit: nat,
    messages: Seq<MessageView>,
    replies: Seq<ModelReplyView>,
    outcomes: Seq<Seq<ToolOutcome>>,
    turns: nat,
    last: ModelReplyView,
)
    requires
        turns < limit,
        replies.len() >= turns,
        outcomes.len() >= turns,
        forall|i: int| 0 <= i < turns ==> answers_turn(#[trigger] replies[i], outcomes[i]),
        reply_calls(last).len() == 0,
    ensures
        pending_action(
            next_state(
                after_turns(initial_state(limit, messages), replies, outcomes, turns),
                LoopEventView::ModelReplied(last),
            ),
        ) == LoopActionView::Finish(
            AgenticResultView {
                response: last.content,
                tool_calls_made: records_of_turns(replies, outcomes, turns),
                iterations: turns + 1,
                hit_limit: false,
            },
        ),
{
    lemma_turns_under_limit(limit, messages, replies, outcomes, turns);
}

/// The state after `turns` turns, each with tool invocations, while `turns`
/// is under the limit: the loop is calling the model for the next time and
/// has recorded every invocation so far.
pub proof fn lemma_turns_under_limit(
    limit: nat,
    messages: Seq<MessageView>,
    replies: Seq<ModelReplyView>,
    outcomes: Seq<Seq<ToolOutcome>>,
    turns: nat,
)
    requires
        turns < limit,
        replies.len() >= turns,
        outcomes.len() >= turns,
        forall|i: int| 0 <= i < turns ==> answers_turn(#[trigger] replies[i], outcomes[i]),
    ensures
        ({
            let s = after_turns(initial_state(limit, messages), replies, outcomes, turns);
            &&& s.max_iterations == limit
            &&& s.phase is AwaitingModel
            &&& s.iterations == turns + 1
            &&& s.records == records_of_turns(replies, outcomes, turns)
        }),
    decreases turns,
{
    if turns > 0 {
        let earlier = (turns - 1) as nat;
        lemma_turns_under_limit(limit, messages, replies, outcomes, earlier);
        let before = after_turns(initial_state(limit, messages), replies, outcomes, earlier);
        assert(answers_turn(replies[turns - 1], outcomes[turns - 1]));
        lemma_turn(before, replies[turns - 1], outcomes[turns - 1]);
    } else {
        assert(initial_state(limit, messages).records =~= records_of_turns(replies, outcomes, 0));
    }
}

} // verus!
