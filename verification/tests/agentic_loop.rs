use ponderer::tools::agentic::{
    AgenticLoop, AgenticResult, LlmFunctionCall, LlmToolCall, Message, ModelReply,
};
use ponderer::tools::endpoint::EndpointError;
use ponderer::tools::invocation::{
    arguments_or_empty, blocked, limit_message, sanitized_or_redacted, tool_arguments, Invocation,
    LoopAction, LoopEvent,
};
use ponderer::tools::safety::SafetyVerdict;
use ponderer::tools::{display_json, shown_json, ToolOutput};

/// What the collaborators of a test do, and what they were asked.
struct World {
    replies: Vec<ModelReply>,
    model_calls: usize,
    seen_by_model: Vec<Vec<Message>>,
    blocked_tools: Vec<String>,
    warned_tools: Vec<String>,
    tool_output: fn(&str, &serde_json::Value) -> ToolOutput,
    check: fn(&str, &str) -> Result<String, String>,
    executed: Vec<(String, serde_json::Value)>,
    checked: Vec<(String, String)>,
    validated: Vec<serde_json::Value>,
}

fn echo_tool(name: &str, _arguments: &serde_json::Value) -> ToolOutput {
    ToolOutput::Text(format!("ran {}", name))
}

fn pass_check(_name: &str, text: &str) -> Result<String, String> {
    Ok(text.to_string())
}

fn world(replies: Vec<ModelReply>) -> World {
    World {
        replies,
        model_calls: 0,
        seen_by_model: Vec::new(),
        blocked_tools: Vec::new(),
        warned_tools: Vec::new(),
        tool_output: echo_tool,
        check: pass_check,
        executed: Vec::new(),
        checked: Vec::new(),
        validated: Vec::new(),
    }
}

fn call(id: &str, name: &str, arguments: &str) -> LlmToolCall {
    LlmToolCall {
        id: id.to_string(),
        call_type: "function".to_string(),
        function: LlmFunctionCall { name: name.to_string(), arguments: arguments.to_string() },
    }
}

fn tool_reply(calls: Vec<LlmToolCall>) -> ModelReply {
    ModelReply { content: None, tool_calls: Some(calls) }
}

fn text_reply(text: &str) -> ModelReply {
    ModelReply::text(text)
}

fn empty_object() -> serde_json::Value {
    serde_json::Value::Object(serde_json::Map::new())
}

/// Runs an invocation against the world until it ends.
fn drive(
    start: (Invocation, LoopAction),
    world: &mut World,
) -> (Invocation, Result<AgenticResult, EndpointError>) {
    let (mut invocation, mut action) = start;
    let mut steps = 0;
    loop {
        steps += 1;
        assert!(steps < 10_000, "the loop did not end");
        let event = match action {
            LoopAction::CallModel { messages } => {
                world.seen_by_model.push(messages);
                let index = world.model_calls;
                world.model_calls += 1;
                if index < world.replies.len() {
                    LoopEvent::ModelReplied(world.replies[index].clone())
                } else {
                    LoopEvent::ModelFailed(EndpointError::Transport("no reply left".to_string()))
                }
            }
            LoopAction::ValidateInput { tool_name, arguments } => {
                world.validated.push(arguments);
                if world.blocked_tools.contains(&tool_name) {
                    LoopEvent::InputChecked(SafetyVerdict::Block("not allowed here".to_string()))
                } else if world.warned_tools.contains(&tool_name) {
                    LoopEvent::InputChecked(SafetyVerdict::Warn("looks risky".to_string()))
                } else {
                    LoopEvent::InputChecked(SafetyVerdict::Allow)
                }
            }
            LoopAction::ExecuteTool { call } => {
                let output = (world.tool_output)(&call.name, &call.arguments);
                world.executed.push((call.name, call.arguments));
                LoopEvent::ToolReturned(output)
            }
            LoopAction::CheckOutput { tool_name, text } => {
                let verdict = (world.check)(&tool_name, &text);
                world.checked.push((tool_name, text));
                LoopEvent::OutputChecked(verdict)
            }
            LoopAction::Finish(result) => return (invocation, Ok(result)),
            LoopAction::Fail(error) => return (invocation, Err(error)),
            LoopAction::Stop => panic!("nobody cancelled"),
        };
        let (next, following) = invocation.step(event);
        invocation = next;
        action = following;
    }
}

fn list_dir_tool(_name: &str, _arguments: &serde_json::Value) -> ToolOutput {
    ToolOutput::Text("a.txt\nb.txt".to_string())
}

#[test]
fn example_scenario_lists_files() {
    let mut world = world(vec![
        tool_reply(vec![call("t1", "list_dir", "{}")]),
        text_reply("There are two files."),
    ]);
    world.tool_output = list_dir_tool;
    let agent = AgenticLoop::with_limit(10);
    let (invocation, outcome) = drive(agent.run("You are a test agent.", "list files"), &mut world);
    let result = outcome.expect("the loop ends with a result");
    assert_eq!(result.response.as_deref(), Some("There are two files."));
    assert_eq!(result.iterations, 2);
    assert!(!result.hit_limit);
    assert_eq!(result.tool_calls_made.len(), 1);
    assert_eq!(result.tool_calls_made[0].tool_name, "list_dir");
    assert_eq!(result.tool_calls_made[0].arguments, empty_object());
    match &result.tool_calls_made[0].output {
        ToolOutput::Text(text) => assert!(text.contains("a.txt\nb.txt")),
        other => panic!("unexpected output {:?}", other),
    }
    assert_eq!(world.model_calls, 2);
    let messages = invocation.messages();
    assert_eq!(messages.len(), 4);
    assert_eq!(messages[0].role, "system");
    assert_eq!(messages[0].content.as_deref(), Some("You are a test agent."));
    assert_eq!(messages[1].role, "user");
    assert_eq!(messages[1].content.as_deref(), Some("list files"));
    assert_eq!(messages[2].role, "assistant");
    assert_eq!(messages[3].role, "tool");
    assert_eq!(messages[3].content.as_deref(), Some("a.txt\nb.txt"));
    assert_eq!(messages[3].tool_call_id.as_deref(), Some("t1"));
    assert_eq!(world.seen_by_model[0].len(), 2);
    assert_eq!(world.seen_by_model[1].len(), 4);
}

#[test]
fn loop_stops_at_the_limit_after_that_many_model_calls() {
    for limit in 1..=4usize {
        let replies: Vec<ModelReply> =
            (0..8).map(|i| tool_reply(vec![call(&format!("c{}", i), "probe", "{}")])).collect();
        let mut world = world(replies);
        let agent = AgenticLoop::with_limit(limit);
        let (_, outcome) = drive(agent.run("sys", "go"), &mut world);
        let result = outcome.expect("the limit is no failure");
        assert!(result.hit_limit);
        assert_eq!(world.model_calls, limit);
        assert_eq!(result.iterations, limit);
        assert_eq!(result.tool_calls_made.len(), limit);
        assert_eq!(
            result.response,
            Some(format!("[Reached maximum of {} tool-calling iterations]", limit))
        );
    }
}

#[test]
fn limit_of_zero_ends_before_any_model_call() {
    let mut world = world(vec![text_reply("never read")]);
    let agent = AgenticLoop::with_limit(0);
    let (_, outcome) = drive(agent.run("sys", "go"), &mut world);
    let result = outcome.expect("the limit is no failure");
    assert!(result.hit_limit);
    assert_eq!(result.iterations, 0);
    assert_eq!(world.model_calls, 0);
    assert_eq!(
        result.response.as_deref(),
        Some("[Reached maximum of 0 tool-calling iterations]")
    );
}

#[test]
fn plain_first_reply_ends_the_loop_at_once() {
    let mut world = world(vec![text_reply("hello")]);
    let agent = AgenticLoop::with_limit(5);
    let (invocation, outcome) = drive(agent.run("sys", "hi"), &mut world);
    let result = outcome.expect("a plain reply is a result");
    assert_eq!(world.model_calls, 1);
    assert!(!result.hit_limit);
    assert_eq!(result.iterations, 1);
    assert_eq!(result.response.as_deref(), Some("hello"));
    assert!(result.tool_calls_made.is_empty());
    assert_eq!(invocation.messages().len(), 2);
    assert!(invocation.is_over());
}

#[test]
fn empty_invocation_list_counts_as_a_final_reply() {
    let mut world = world(vec![ModelReply { content: Some("done".to_string()), tool_calls: Some(Vec::new()) }]);
    let agent = AgenticLoop::with_limit(5);
    let (_, outcome) = drive(agent.run("sys", "hi"), &mut world);
    let result = outcome.expect("a reply without invocations is a result");
    assert_eq!(result.response.as_deref(), Some("done"));
    assert_eq!(result.iterations, 1);
    assert!(!result.hit_limit);
}

#[test]
fn reply_without_text_or_invocations_is_a_legal_end() {
    let mut world = world(vec![ModelReply { content: None, tool_calls: None }]);
    let agent = AgenticLoop::with_limit(5);
    let (_, outcome) = drive(agent.run("sys", "hi"), &mut world);
    let result = outcome.expect("an empty reply is a result");
    assert_eq!(result.response, None);
    assert_eq!(result.iterations, 1);
    assert!(!result.hit_limit);
}

#[test]
fn malformed_arguments_become_the_empty_object() {
    let mut world = world(vec![
        tool_reply(vec![call("x1", "shell", "this is {not json")]),
        text_reply("ok"),
    ]);
    let agent = AgenticLoop::with_limit(5);
    let (_, outcome) = drive(agent.run("sys", "hi"), &mut world);
    let result = outcome.expect("malformed arguments do not abort the loop");
    assert_eq!(result.tool_calls_made.len(), 1);
    assert_eq!(result.tool_calls_made[0].arguments, empty_object());
    assert_eq!(world.validated, vec![empty_object()]);
    assert_eq!(world.executed.len(), 1);
    assert_eq!(world.executed[0].1, empty_object());
    assert_eq!(result.response.as_deref(), Some("ok"));
}

#[test]
fn well_formed_arguments_are_parsed_and_passed_on() {
    let mut world = world(vec![
        tool_reply(vec![call("x1", "shell", "{\"command\": \"ls\", \"depth\": 2}")]),
        text_reply("ok"),
    ]);
    let agent = AgenticLoop::with_limit(5);
    let (_, outcome) = drive(agent.run("sys", "hi"), &mut world);
    let result = outcome.expect("the loop ends with a result");
    let mut expected = serde_json::Map::new();
    expected.insert("command".to_string(), serde_json::Value::String("ls".to_string()));
    expected.insert("depth".to_string(), serde_json::Value::from(2));
    let expected = serde_json::Value::Object(expected);
    assert_ne!(expected, empty_object());
    assert_eq!(result.tool_calls_made[0].arguments, expected);
    assert_eq!(world.validated, vec![expected.clone()]);
    assert_eq!(world.executed[0], ("shell".to_string(), expected));
}

#[test]
fn blocked_invocation_is_answered_without_running_the_tool() {
    let mut world = world(vec![
        tool_reply(vec![
            call("a", "read_file", "{}"),
            call("b", "danger", "{}"),
            call("c", "list_dir", "{}"),
        ]),
        text_reply("done"),
    ]);
    world.blocked_tools.push("danger".to_string());
    let agent = AgenticLoop::with_limit(5);
    let (invocation, outcome) = drive(agent.run("sys", "hi"), &mut world);
    let result = outcome.expect("a block does not abort the loop");
    let ran: Vec<&str> = world.executed.iter().map(|(name, _)| name.as_str()).collect();
    assert_eq!(ran, vec!["read_file", "list_dir"]);
    assert_eq!(result.tool_calls_made.len(), 3);
    match &result.tool_calls_made[1].output {
        ToolOutput::Error(message) => {
            assert_eq!(message, "Input validation failed: not allowed here")
        }
        other => panic!("unexpected output {:?}", other),
    }
    let messages = invocation.messages();
    let for_blocked: Vec<&Message> =
        messages.iter().filter(|m| m.tool_call_id.as_deref() == Some("b")).collect();
    assert_eq!(for_blocked.len(), 1);
    assert_eq!(for_blocked[0].role, "tool");
    assert_eq!(
        for_blocked[0].content.as_deref(),
        Some("Error: Input validation failed: not allowed here")
    );
    assert!(for_blocked[0].content.as_deref().unwrap().contains("not allowed here"));
    match &result.tool_calls_made[0].output {
        ToolOutput::Text(text) => assert_eq!(text, "ran read_file"),
        other => panic!("unexpected output {:?}", other),
    }
    match &result.tool_calls_made[2].output {
        ToolOutput::Text(text) => assert_eq!(text, "ran list_dir"),
        other => panic!("unexpected output {:?}", other),
    }
}

#[test]
fn warned_invocation_still_runs() {
    let mut world = world(vec![tool_reply(vec![call("a", "shell", "{}")]), text_reply("done")]);
    world.warned_tools.push("shell".to_string());
    let agent = AgenticLoop::with_limit(5);
    let (_, outcome) = drive(agent.run("sys", "hi"), &mut world);
    let result = outcome.expect("a warning does not abort the loop");
    assert_eq!(world.executed.len(), 1);
    assert_eq!(result.tool_calls_made.len(), 1);
}

fn secret_tool(_name: &str, _arguments: &serde_json::Value) -> ToolOutput {
    ToolOutput::Text("token=hunter2".to_string())
}

fn masking_check(_name: &str, text: &str) -> Result<String, String> {
    Ok(text.replace("hunter2", "***"))
}

fn rejecting_check(_name: &str, _text: &str) -> Result<String, String> {
    Err("credential leak".to_string())
}

#[test]
fn record_keeps_the_true_output_when_the_model_sees_a_sanitized_one() {
    let mut world = world(vec![tool_reply(vec![call("s", "env", "{}")]), text_reply("done")]);
    world.tool_output = secret_tool;
    world.check = masking_check;
    let agent = AgenticLoop::with_limit(5);
    let (invocation, outcome) = drive(agent.run("sys", "hi"), &mut world);
    let result = outcome.expect("the loop ends with a result");
    match &result.tool_calls_made[0].output {
        ToolOutput::Text(text) => assert_eq!(text, "token=hunter2"),
        other => panic!("unexpected output {:?}", other),
    }
    assert_eq!(invocation.messages()[3].content.as_deref(), Some("token=***"));
    assert_eq!(world.checked, vec![("env".to_string(), "token=hunter2".to_string())]);
}

#[test]
fn record_keeps_the_true_output_when_the_output_is_rejected() {
    let mut world = world(vec![tool_reply(vec![call("s", "env", "{}")]), text_reply("done")]);
    world.tool_output = secret_tool;
    world.check = rejecting_check;
    let agent = AgenticLoop::with_limit(5);
    let (invocation, outcome) = drive(agent.run("sys", "hi"), &mut world);
    let result = outcome.expect("a rejected output does not abort the loop");
    match &result.tool_calls_made[0].output {
        ToolOutput::Text(text) => assert_eq!(text, "token=hunter2"),
        other => panic!("unexpected output {:?}", other),
    }
    assert_eq!(invocation.messages()[3].content.as_deref(), Some("[BLOCKED] credential leak"));
    assert_eq!(invocation.messages()[3].tool_call_id.as_deref(), Some("s"));
}

#[test]
fn tool_results_follow_the_order_of_the_invocations() {
    let mut world = world(vec![
        tool_reply(vec![call("a", "one", "{}"), call("b", "two", "{}"), call("c", "three", "{}")]),
        text_reply("done"),
    ]);
    let agent = AgenticLoop::with_limit(5);
    let (invocation, outcome) = drive(agent.run("sys", "hi"), &mut world);
    let result = outcome.expect("the loop ends with a result");
    let messages = invocation.messages();
    assert_eq!(messages.len(), 6);
    assert_eq!(messages[2].role, "assistant");
    let emitted: Vec<&str> =
        messages[2].tool_calls.as_ref().unwrap().iter().map(|c| c.id.as_str()).collect();
    assert_eq!(emitted, vec!["a", "b", "c"]);
    for (offset, id) in ["a", "b", "c"].iter().enumerate() {
        let message = &messages[3 + offset];
        assert_eq!(message.role, "tool");
        assert_eq!(message.tool_call_id.as_deref(), Some(*id));
        assert!(message.tool_calls.is_none());
    }
    assert_eq!(messages[3].content.as_deref(), Some("ran one"));
    assert_eq!(messages[4].content.as_deref(), Some("ran two"));
    assert_eq!(messages[5].content.as_deref(), Some("ran three"));
    let names: Vec<&str> = result.tool_calls_made.iter().map(|r| r.tool_name.as_str()).collect();
    assert_eq!(names, vec!["one", "two", "three"]);
    let ran: Vec<&str> = world.executed.iter().map(|(name, _)| name.as_str()).collect();
    assert_eq!(ran, vec!["one", "two", "three"]);
}

#[test]
fn text_beside_invocations_is_not_the_final_answer() {
    let mut world = world(vec![
        ModelReply {
            content: Some("let me look".to_string()),
            tool_calls: Some(vec![call("a", "one", "{}")]),
        },
        text_reply("here it is"),
    ]);
    let agent = AgenticLoop::with_limit(5);
    let (invocation, outcome) = drive(agent.run("sys", "hi"), &mut world);
    let result = outcome.expect("the loop ends with a result");
    assert_eq!(result.response.as_deref(), Some("here it is"));
    assert_eq!(result.iterations, 2);
    assert_eq!(invocation.messages()[2].content.as_deref(), Some("let me look"));
}

fn failing_tool(_name: &str, _arguments: &serde_json::Value) -> ToolOutput {
    ToolOutput::Error("disk on fire".to_string())
}

#[test]
fn tool_error_is_fed_back_and_not_put_to_the_output_check() {
    let mut world = world(vec![tool_reply(vec![call("a", "one", "{}")]), text_reply("sorry")]);
    world.tool_output = failing_tool;
    let agent = AgenticLoop::with_limit(5);
    let (invocation, outcome) = drive(agent.run("sys", "hi"), &mut world);
    let result = outcome.expect("a tool error does not abort the loop");
    assert!(world.checked.is_empty());
    assert_eq!(invocation.messages()[3].content.as_deref(), Some("Error: disk on fire"));
    match &result.tool_calls_made[0].output {
        ToolOutput::Error(message) => assert_eq!(message, "disk on fire"),
        other => panic!("unexpected output {:?}", other),
    }
    assert_eq!(result.response.as_deref(), Some("sorry"));
}

fn structured_tool(_name: &str, _arguments: &serde_json::Value) -> ToolOutput {
    let mut object = serde_json::Map::new();
    object.insert("count".to_string(), serde_json::Value::from(2));
    ToolOutput::Json(serde_json::Value::Object(object))
}

#[test]
fn structured_output_is_shown_pretty_printed() {
    let mut world = world(vec![tool_reply(vec![call("a", "count", "{}")]), text_reply("two")]);
    world.tool_output = structured_tool;
    let agent = AgenticLoop::with_limit(5);
    let (invocation, outcome) = drive(agent.run("sys", "hi"), &mut world);
    let result = outcome.expect("the loop ends with a result");
    assert_eq!(world.checked, vec![("count".to_string(), "{\n  \"count\": 2\n}".to_string())]);
    assert_eq!(invocation.messages()[3].content.as_deref(), Some("{\n  \"count\": 2\n}"));
    match &result.tool_calls_made[0].output {
        ToolOutput::Json(value) => assert_eq!(value.to_string(), "{\"count\":2}"),
        other => panic!("unexpected output {:?}", other),
    }
}

#[test]
fn failed_model_call_is_fatal_and_keeps_the_error() {
    let mut world = world(vec![tool_reply(vec![call("a", "one", "{}")])]);
    let agent = AgenticLoop::with_limit(5);
    let (invocation, outcome) = drive(agent.run("sys", "hi"), &mut world);
    match outcome {
        Err(EndpointError::Transport(detail)) => assert_eq!(detail, "no reply left"),
        other => panic!("unexpected outcome {:?}", other),
    }
    assert!(invocation.is_over());
    assert_eq!(invocation.tool_calls_made().len(), 1);
    assert_eq!(world.model_calls, 2);
}

#[test]
fn history_stands_between_the_system_prompt_and_the_user_message() {
    let history =
        vec![Message::text("user", "earlier"), Message::assistant(&text_reply("earlier answer"))];
    let mut world = world(vec![text_reply("now")]);
    let agent = AgenticLoop::with_limit(5);
    let start = agent.run_with_history("sys", history, "latest");
    let (invocation, outcome) = drive(start, &mut world);
    assert!(outcome.is_ok());
    let roles: Vec<&str> = invocation.messages().iter().map(|m| m.role.as_str()).collect();
    assert_eq!(roles, vec!["system", "user", "assistant", "user"]);
    assert_eq!(invocation.messages()[1].content.as_deref(), Some("earlier"));
    assert_eq!(invocation.messages()[3].content.as_deref(), Some("latest"));
    assert_eq!(world.seen_by_model[0].len(), 4);
}

#[test]
fn cancellation_ends_an_invocation_without_a_result() {
    let agent = AgenticLoop::with_limit(5);
    let (invocation, _) = agent.run("sys", "hi");
    let (invocation, action) =
        invocation.step(LoopEvent::ModelReplied(tool_reply(vec![call("a", "one", "{}")])));
    assert!(matches!(action, LoopAction::ValidateInput { .. }));
    let (invocation, action) = invocation.step(LoopEvent::InputChecked(SafetyVerdict::Allow));
    assert!(matches!(action, LoopAction::ExecuteTool { .. }));
    let (invocation, action) = invocation.step(LoopEvent::Cancelled);
    assert!(matches!(action, LoopAction::Stop));
    assert!(invocation.is_over());
    let (invocation, action) =
        invocation.step(LoopEvent::ToolReturned(ToolOutput::Text("late".to_string())));
    assert!(matches!(action, LoopAction::Stop));
    assert!(invocation.tool_calls_made().is_empty());
}

#[test]
fn event_that_answers_nothing_changes_nothing() {
    let agent = AgenticLoop::with_limit(5);
    let (invocation, action) = agent.run("sys", "hi");
    assert!(matches!(action, LoopAction::CallModel { .. }));
    let (invocation, action) =
        invocation.step(LoopEvent::ToolReturned(ToolOutput::Text("stray".to_string())));
    assert!(matches!(action, LoopAction::CallModel { .. }));
    assert_eq!(invocation.messages().len(), 2);
    assert_eq!(invocation.iterations(), 1);
    assert!(!invocation.is_over());
    let (invocation, action) = invocation.step(LoopEvent::ModelReplied(text_reply("fin")));
    assert!(matches!(action, LoopAction::Finish(_)));
    let (_, action) = invocation.step(LoopEvent::ModelReplied(text_reply("again")));
    match action {
        LoopAction::Finish(result) => assert_eq!(result.response.as_deref(), Some("fin")),
        other => panic!("unexpected action {:?}", other),
    }
}

#[test]
fn arguments_fall_back_only_on_a_parse_failure() {
    let parsed: Result<serde_json::Value, serde_json::Error> = serde_json::from_str("[1, 2]");
    let kept = arguments_or_empty(parsed);
    assert_eq!(kept.to_string(), "[1,2]");
    let failed: Result<serde_json::Value, serde_json::Error> = serde_json::from_str("[1, 2");
    assert_eq!(arguments_or_empty(failed), empty_object());
    assert_eq!(tool_arguments("{\"a\": [true, null]}").to_string(), "{\"a\":[true,null]}");
    assert_eq!(tool_arguments("\"text\"").to_string(), "\"text\"");
    assert_eq!(tool_arguments("{oops"), empty_object());
    assert_eq!(tool_arguments(""), empty_object());
}

#[test]
fn notices_are_worded_exactly() {
    assert_eq!(limit_message(10), "[Reached maximum of 10 tool-calling iterations]");
    assert_eq!(limit_message(1), "[Reached maximum of 1 tool-calling iterations]");
    match blocked("path escapes the sandbox") {
        ToolOutput::Error(message) => {
            assert_eq!(message, "Input validation failed: path escapes the sandbox")
        }
        other => panic!("unexpected output {:?}", other),
    }
    assert_eq!(sanitized_or_redacted(Ok("clean".to_string())), "clean");
    assert_eq!(sanitized_or_redacted(Err("secret".to_string())), "[BLOCKED] secret");
}

#[test]
fn outputs_are_written_for_the_model() {
    assert_eq!(ToolOutput::Text("plain".to_string()).to_llm_string(), "plain");
    assert_eq!(ToolOutput::Error("boom".to_string()).to_llm_string(), "Error: boom");
    let list = serde_json::Value::Array(vec![serde_json::Value::from(1), serde_json::Value::Null]);
    assert_eq!(display_json(&list), "[\n  1,\n  null\n]");
    assert_eq!(ToolOutput::Json(list.clone()).to_llm_string(), "[\n  1,\n  null\n]");
    let pretty: Result<String, String> = Ok("pretty".to_string());
    assert_eq!(shown_json(pretty, &list), "pretty");
    let failed: Result<String, String> = Err("no".to_string());
    assert_eq!(shown_json(failed, &list), "[1,null]");
    match ToolOutput::Json(list.clone()).duplicate() {
        ToolOutput::Json(copy) => assert_eq!(copy, list),
        other => panic!("unexpected output {:?}", other),
    }
}

#[test]
fn copies_hold_the_same_values() {
    let reply = ModelReply {
        content: Some("text".to_string()),
        tool_calls: Some(vec![call("a", "one", "{\"k\": 1}"), call("b", "two", "{}")]),
    };
    assert!(reply.has_tool_calls());
    assert!(!text_reply("x").has_tool_calls());
    let message = Message::assistant(&reply);
    let copy = message.duplicate();
    assert_eq!(copy.role, "assistant");
    assert_eq!(copy.content.as_deref(), Some("text"));
    let calls = copy.tool_calls.unwrap();
    assert_eq!(calls.len(), 2);
    assert_eq!(calls[0].id, "a");
    assert_eq!(calls[0].call_type, "function");
    assert_eq!(calls[0].function.name, "one");
    assert_eq!(calls[0].function.arguments, "{\"k\": 1}");
    assert_eq!(calls[1].id, "b");
    assert!(message.has_tool_calls());
    assert!(!Message::text("user", "x").has_tool_calls());
    let result = Message::tool_result("out".to_string(), "id7".to_string());
    assert_eq!(result.role, "tool");
    assert_eq!(result.content.as_deref(), Some("out"));
    assert_eq!(result.tool_call_id.as_deref(), Some("id7"));
    assert!(result.tool_calls.is_none());
}
