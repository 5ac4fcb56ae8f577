use acp_bridge::protocol::{
    dispatch, jsonrpc_error, same_text, A2aReply, A2aRequest, Dispatch, TaskState, INTERNAL_ERROR,
    INVALID_PARAMS, METHOD_NOT_FOUND,
};
use acp_bridge::send::{MessageSend, SendAction, SendEvent, SendPhase};
use serde_json::Value;

fn request(id: Option<Value>, method: &str) -> A2aRequest {
    A2aRequest { jsonrpc: Some("2.0".to_string()), id, method: method.to_string(), params: None }
}

fn content(text: &str, has_images: bool, cwd: Option<&str>) -> SendEvent {
    SendEvent::Content {
        user_text: text.to_string(),
        has_images,
        cwd: cwd.map(|c| c.to_string()),
    }
}

fn step(m: MessageSend, e: SendEvent) -> (MessageSend, SendAction) {
    assert!(m.accepts(&e));
    m.step(e)
}

#[test]
fn jsonrpc_error_shape() {
    let id = Value::from(7);
    let err = jsonrpc_error(Some(&id), -32601, "Method not found: x");
    assert_eq!(err.jsonrpc, "2.0");
    assert_eq!(err.id, Some(Value::from(7)));
    assert_eq!(err.error.code, -32601);
    assert_eq!(err.error.message, "Method not found: x");
}

#[test]
fn jsonrpc_error_without_id() {
    let err = jsonrpc_error(None, -32000, "boom");
    assert_eq!(err.id, None);
    assert_eq!(err.error.code, -32000);
    assert_eq!(err.error.message, "boom");
}

#[test]
fn task_state_serializes_lowercase() {
    assert_eq!(TaskState::Submitted.wire_name(), "submitted");
    assert_eq!(TaskState::Completed.wire_name(), "completed");
    assert_eq!(TaskState::Failed.wire_name(), "failed");
    assert_eq!(TaskState::Working.wire_name(), "working");
}

#[test]
fn prompt_status_decides_task_state() {
    assert_eq!(TaskState::from_prompt_status("completed"), TaskState::Completed);
    assert_eq!(TaskState::from_prompt_status("Completed"), TaskState::Failed);
    assert_eq!(TaskState::from_prompt_status("completed "), TaskState::Failed);
    assert_eq!(TaskState::from_prompt_status("error"), TaskState::Failed);
    assert_eq!(TaskState::from_prompt_status(""), TaskState::Failed);
}

#[test]
fn same_text_compares_characters() {
    assert!(same_text("abc", "abc"));
    assert!(same_text("", ""));
    assert!(!same_text("abc", "abd"));
    assert!(!same_text("abc", "ab"));
    assert!(same_text("—é", "—é"));
}

#[test]
fn dispatch_unknown_method_returns_method_not_found() {
    match dispatch(&request(Some(Value::from(1)), "does/not/exist")) {
        Dispatch::Reply(e) => {
            assert_eq!(e.id, Some(Value::from(1)));
            assert_eq!(e.error.code, -32601);
            assert_eq!(e.error.code, METHOD_NOT_FOUND);
            assert_eq!(e.error.message, "Method not found: does/not/exist");
            assert_eq!(e.jsonrpc, "2.0");
        }
        Dispatch::MessageSend => panic!("unknown method routed to message/send"),
    }
}

#[test]
fn dispatch_routes_message_send() {
    assert!(matches!(dispatch(&request(None, "message/send")), Dispatch::MessageSend));
    assert!(matches!(dispatch(&request(None, "message/sen")), Dispatch::Reply(_)));
    assert!(matches!(dispatch(&request(None, "Message/send")), Dispatch::Reply(_)));
}

#[test]
fn message_send_rejects_empty_message() {
    let m = MessageSend::new(Some(Value::from(2)));
    let (m, action) = step(m, content("", false, None));
    match action {
        SendAction::Reply(A2aReply::Error(e)) => {
            assert_eq!(e.id, Some(Value::from(2)));
            assert_eq!(e.error.code, -32602);
            assert_eq!(e.error.code, INVALID_PARAMS);
            assert_eq!(
                e.error.message,
                "Missing or empty message — expected at least one text or image part"
            );
        }
        _ => panic!("expected an error reply"),
    }
    assert!(matches!(m.phase, SendPhase::Done));
    assert!(!m.accepts(&SendEvent::SessionEnded));
}

#[test]
fn message_with_only_images_opens_session_in_tmp() {
    let m = MessageSend::new(None);
    let (m, action) = step(m, content("", true, None));
    match action {
        SendAction::CreateSession { cwd } => assert_eq!(cwd, "/tmp"),
        _ => panic!("expected a session to open"),
    }
    assert!(matches!(m.phase, SendPhase::AwaitingSession { .. }));
}

#[test]
fn message_send_full_lifecycle() {
    let m = MessageSend::new(Some(Value::from("req-9")));
    let (m, action) = step(m, content("hello", false, Some("/work")));
    match action {
        SendAction::CreateSession { cwd } => assert_eq!(cwd, "/work"),
        _ => panic!("expected a session to open"),
    }
    assert!(!m.accepts(&SendEvent::SessionEnded));
    let (m, action) = step(m, SendEvent::SessionCreated { session_id: "s-1".to_string() });
    match action {
        SendAction::RunPrompt { session_id, user_text } => {
            assert_eq!(session_id, "s-1");
            assert_eq!(user_text, "hello");
        }
        _ => panic!("expected the prompt to run"),
    }
    let task_id = match &m.phase {
        SendPhase::AwaitingPrompt { task_id, .. } => task_id.clone(),
        _ => panic!("expected a running prompt"),
    };
    assert_eq!(task_id.len(), 36);
    assert_eq!(task_id.as_bytes()[14], b'4');
    for (i, c) in task_id.chars().enumerate() {
        if [8, 13, 18, 23].contains(&i) {
            assert_eq!(c, '-');
        } else {
            assert!(c.is_ascii_hexdigit() && !c.is_ascii_uppercase());
        }
    }
    assert!("89ab".contains(task_id.chars().nth(19).unwrap()));
    let (m, action) = step(
        m,
        SendEvent::PromptFinished { status: "completed".to_string(), text: "hi there".to_string() },
    );
    match action {
        SendAction::EndSession { session_id } => assert_eq!(session_id, "s-1"),
        _ => panic!("expected the session to close"),
    }
    let (m, action) = step(m, SendEvent::SessionEnded);
    match action {
        SendAction::Reply(A2aReply::Task(r)) => {
            assert_eq!(r.jsonrpc, "2.0");
            assert_eq!(r.id, Some(Value::from("req-9")));
            assert_eq!(r.result.id, task_id);
            assert_eq!(r.result.status.state, TaskState::Completed);
            assert_eq!(r.result.artifacts.len(), 1);
            assert_eq!(r.result.artifacts[0].parts.len(), 1);
            assert_eq!(r.result.artifacts[0].parts[0].kind, "text");
            assert_eq!(r.result.artifacts[0].parts[0].text, "hi there");
        }
        _ => panic!("expected the task reply"),
    }
    assert!(matches!(m.phase, SendPhase::Done));
}

#[test]
fn message_send_failed_prompt_reports_failed_task() {
    let m = MessageSend::new(Some(Value::from(3)));
    let (m, _) = step(m, content("q", false, None));
    let (m, _) = step(m, SendEvent::SessionCreated { session_id: "s".to_string() });
    let (m, _) = step(m, SendEvent::PromptFinished { status: "error".to_string(), text: "".to_string() });
    let (_, action) = step(m, SendEvent::SessionEnded);
    match action {
        SendAction::Reply(A2aReply::Task(r)) => {
            assert_eq!(r.result.status.state, TaskState::Failed);
            assert_eq!(r.result.artifacts[0].parts[0].text, "");
        }
        _ => panic!("expected the task reply"),
    }
}

#[test]
fn message_send_session_failure_is_reported() {
    let m = MessageSend::new(Some(Value::from(4)));
    let (m, _) = step(m, content("q", false, None));
    assert!(!m.accepts(&SendEvent::PromptFinished { status: String::new(), text: String::new() }));
    let (m, action) = step(
        m,
        SendEvent::SessionFailed { code: -32000, message: "too many sessions".to_string() },
    );
    match action {
        SendAction::Reply(A2aReply::Error(e)) => {
            assert_eq!(e.id, Some(Value::from(4)));
            assert_eq!(e.error.code, -32000);
            assert_eq!(e.error.message, "too many sessions");
        }
        _ => panic!("expected an error reply"),
    }
    assert!(matches!(m.phase, SendPhase::Done));
}

#[test]
fn task_ids_differ_between_exchanges() {
    let mut ids = Vec::new();
    for _ in 0..2 {
        let m = MessageSend::new(None);
        let (m, _) = step(m, content("x", false, None));
        let (m, _) = step(m, SendEvent::SessionCreated { session_id: "s".to_string() });
        match m.phase {
            SendPhase::AwaitingPrompt { task_id, .. } => ids.push(task_id),
            _ => panic!("expected a running prompt"),
        }
    }
    assert_ne!(ids[0], ids[1]);
}

#[test]
fn task_id_is_drawn_before_the_session_opens() {
    let m = MessageSend::new(None);
    let (m, action) = step(m, content("x", false, None));
    assert!(matches!(action, SendAction::CreateSession { .. }));
    let task_id = match &m.phase {
        SendPhase::AwaitingSession { task_id, user_text } => {
            assert_eq!(user_text, "x");
            task_id.clone()
        }
        _ => panic!("expected a session to be asked for"),
    };
    assert_eq!(task_id.len(), 36);
    assert_eq!(task_id.chars().nth(14), Some('4'));
    let (m, _) = step(m, SendEvent::SessionCreated { session_id: "s".to_string() });
    match &m.phase {
        SendPhase::AwaitingPrompt { task_id: running, .. } => assert_eq!(running, &task_id),
        _ => panic!("expected a running prompt"),
    }
}

#[test]
fn no_task_id_is_answered_with_internal_error() {
    let m = MessageSend::new(Some(Value::from(5)));
    let e = content("hello", false, Some("/work"));
    assert!(m.accepts(&e));
    let (m, action) = m.step_with_task_id(e, None);
    match action {
        SendAction::Reply(A2aReply::Error(err)) => {
            assert_eq!(err.id, Some(Value::from(5)));
            assert_eq!(err.error.code, -32603);
            assert_eq!(err.error.code, INTERNAL_ERROR);
            assert_eq!(err.error.message, "Could not draw a random task id");
        }
        _ => panic!("expected an error reply"),
    }
    assert!(matches!(m.phase, SendPhase::Done));
}

#[test]
fn given_task_id_is_reported() {
    let m = MessageSend::new(None);
    let (m, _) = m.step_with_task_id(content("hi", false, None), Some("task-7".to_string()));
    let (m, _) = m.step_with_task_id(SendEvent::SessionCreated { session_id: "s".to_string() }, None);
    let (m, _) = m.step_with_task_id(
        SendEvent::PromptFinished { status: "completed".to_string(), text: "t".to_string() },
        None,
    );
    let (_, action) = m.step_with_task_id(SendEvent::SessionEnded, None);
    match action {
        SendAction::Reply(A2aReply::Task(r)) => {
            assert_eq!(r.result.id, "task-7");
            assert_eq!(r.result.status.state, TaskState::Completed);
        }
        _ => panic!("expected the task reply"),
    }
}

fn parse(text: &str) -> Value {
    serde_json::from_str(text).unwrap()
}

#[test]
fn send_inputs_reads_parts_and_cwd() {
    let params = parse(
        r#"{"message": {"parts": [{"type": "text", "text": "hello"}, {"type": "text", "text": "x"}]},
            "metadata": {"cwd": "/work"}}"#,
    );
    let (parts, cwd) = acp_bridge::send::send_inputs(Some(&params));
    let parts = parts.expect("parts is an array");
    assert_eq!(parts.len(), 2);
    assert_eq!(parts[0]["text"], "hello");
    assert_eq!(cwd.as_deref(), Some("/work"));
}

#[test]
fn send_inputs_without_params_reads_nothing() {
    let (parts, cwd) = acp_bridge::send::send_inputs(None);
    assert!(parts.is_none());
    assert!(cwd.is_none());
    let empty = parse("{}");
    let (parts, cwd) = acp_bridge::send::send_inputs(Some(&empty));
    assert!(parts.is_none());
    assert!(cwd.is_none());
}

#[test]
fn send_inputs_ignores_wrongly_shaped_members() {
    let params = parse(r#"{"message": {"parts": "hi"}, "metadata": {"cwd": 7}}"#);
    let (parts, cwd) = acp_bridge::send::send_inputs(Some(&params));
    assert!(parts.is_none());
    assert!(cwd.is_none());
    let params = parse(r#"{"message": "parts", "metadata": ["cwd"]}"#);
    let (parts, cwd) = acp_bridge::send::send_inputs(Some(&params));
    assert!(parts.is_none());
    assert!(cwd.is_none());
    let params = parse(r#"{"message": {"parts": []}}"#);
    let (parts, cwd) = acp_bridge::send::send_inputs(Some(&params));
    assert_eq!(parts.map(|p| p.len()), Some(0));
    assert!(cwd.is_none());
}

#[test]
fn request_without_cwd_opens_session_in_tmp() {
    let params = parse(r#"{"message": {"parts": []}, "metadata": {"cwd": null}}"#);
    let (_, cwd) = acp_bridge::send::send_inputs(Some(&params));
    let m = MessageSend::new(None);
    let (_, action) = step(m, SendEvent::Content { user_text: "q".to_string(), has_images: false, cwd });
    match action {
        SendAction::CreateSession { cwd } => assert_eq!(cwd, "/tmp"),
        _ => panic!("expected a session to open"),
    }
}
