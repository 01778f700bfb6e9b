use ponderer::tools::endpoint::EndpointError;
use ponderer::tools::reply::{choice_message, first_choice, reply_content, reply_tool_calls};

fn parse(text: &str) -> serde_json::Value {
    serde_json::from_str(text).expect("the sample is JSON")
}

#[test]
fn reply_is_read_off_the_first_choice() {
    let answer = parse(
        "{\"id\": \"x\", \"choices\": [\
            {\"message\": {\"role\": \"assistant\", \"content\": \"first\"}},\
            {\"message\": {\"role\": \"assistant\", \"content\": \"second\"}}]}",
    );
    let choice = first_choice(&answer).expect("there is a choice");
    let message = choice_message(choice);
    assert!(message.is_some());
    assert_eq!(reply_content(message).as_deref(), Some("first"));
    assert!(reply_tool_calls(message).is_none());
}

#[test]
fn invocations_are_handed_out_as_written() {
    let answer = parse(
        "{\"choices\": [{\"message\": {\"content\": null, \"tool_calls\": [\
            {\"id\": \"t1\", \"type\": \"function\", \
             \"function\": {\"name\": \"list_dir\", \"arguments\": \"{}\"}}]}}]}",
    );
    let message = choice_message(first_choice(&answer).expect("there is a choice"));
    assert_eq!(reply_content(message), None);
    let calls = reply_tool_calls(message).expect("the message holds invocations");
    assert_eq!(
        calls.to_string(),
        "[{\"function\":{\"arguments\":\"{}\",\"name\":\"list_dir\"},\"id\":\"t1\",\"type\":\"function\"}]"
    );
    assert_ne!(calls, &answer);
}

#[test]
fn answer_without_a_choice_is_an_error() {
    for text in ["{}", "{\"choices\": []}", "{\"choices\": null}", "{\"choices\": {}}", "[]", "7"]
    {
        match first_choice(&parse(text)) {
            Err(EndpointError::EmptyChoices) => {}
            other => panic!("unexpected outcome {:?} for {}", other, text),
        }
    }
}

#[test]
fn choice_without_a_message_gives_an_empty_reply() {
    let answer = parse("{\"choices\": [{\"finish_reason\": \"stop\"}]}");
    let message = choice_message(first_choice(&answer).expect("there is a choice"));
    assert!(message.is_none());
    assert_eq!(reply_content(message), None);
    assert!(reply_tool_calls(message).is_none());
}

#[test]
fn content_that_is_no_string_is_no_text() {
    let answer = parse("{\"choices\": [{\"message\": {\"content\": [\"a\"]}}]}");
    let message = choice_message(first_choice(&answer).expect("there is a choice"));
    assert_eq!(reply_content(message), None);
    let answer = parse("{\"choices\": [{\"message\": {\"content\": \"\"}}]}");
    let message = choice_message(first_choice(&answer).expect("there is a choice"));
    assert_eq!(reply_content(message).as_deref(), Some(""));
}
