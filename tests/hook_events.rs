use ask::{AgentEvent, EventBus, HookAction, ResponseContent, SessionIdHook, ToolCallHookAction};

fn text_of(events: &[AgentEvent]) -> String {
    let mut s = String::new();
    for e in events {
        if let AgentEvent::Text(t) = e {
            s.push_str(t);
        }
    }
    s
}

#[test]
fn user_message_is_first_event() {
    let mut hook = SessionIdHook::new(EventBus::new());
    hook.begin_turn("What is the capital of France?".to_string());
    hook.on_completion_call();
    hook.on_text_delta("Paris", "Paris");
    let events = hook.get_events();
    assert_eq!(events[0], AgentEvent::UserMessage("What is the capital of France?".to_string()));
    assert_eq!(events.len(), 2);
}

#[test]
fn begin_turn_drops_stale_events() {
    let mut hook = SessionIdHook::new(EventBus::new());
    hook.begin_turn("first".to_string());
    hook.on_text_delta("left over", "left over");
    hook.begin_turn("second".to_string());
    let events = hook.get_events();
    assert_eq!(events, vec![AgentEvent::UserMessage("second".to_string())]);
}

#[test]
fn hook_built_on_a_bus_keeps_its_events() {
    let mut bus = EventBus::new();
    bus.push(AgentEvent::Text("earlier".to_string()));
    let mut hook = SessionIdHook::new(bus);
    assert_eq!(hook.event_count(), 1);
    hook.on_text_delta("later", "later");
    assert_eq!(
        hook.get_events(),
        vec![AgentEvent::Text("earlier".to_string()), AgentEvent::Text("later".to_string())]
    );
}

#[test]
fn tool_call_then_result_bash() {
    let mut hook = SessionIdHook::new(EventBus::new());
    hook.begin_turn("List files in the current directory using the bash tool.".to_string());
    assert_eq!(hook.on_completion_call(), HookAction::Continue);
    let action = hook.on_tool_call("bash", Some("call_1".to_string()), "int-1", "{\"command\":\"ls\"}");
    assert_eq!(action, ToolCallHookAction::Continue);
    let action = hook.on_tool_result("bash", Some("call_1".to_string()), "int-1", "{\"command\":\"ls\"}", "a\nb\n");
    assert_eq!(action, HookAction::Continue);
    let events = hook.get_events();
    assert_eq!(events.len(), 3);
    assert_eq!(
        events[1],
        AgentEvent::ToolCall {
            tool_name: "bash".to_string(),
            args: "{\"command\":\"ls\"}".to_string(),
            tool_call_id: Some("call_1".to_string()),
            internal_call_id: "int-1".to_string(),
        }
    );
    assert_eq!(
        events[2],
        AgentEvent::ToolResult {
            tool_name: "bash".to_string(),
            result: "a\nb\n".to_string(),
            tool_call_id: Some("call_1".to_string()),
        }
    );
}

#[test]
fn tool_call_without_backend_id() {
    let mut hook = SessionIdHook::new(EventBus::new());
    hook.on_tool_call("read", None, "int-7", "{}");
    hook.on_text_delta("reading", "reading");
    hook.on_tool_result("read", None, "int-7", "{}", "contents");
    let events = hook.get_events();
    assert!(matches!(&events[0], AgentEvent::ToolCall { tool_call_id: None, internal_call_id, .. } if internal_call_id == "int-7"));
    assert!(matches!(&events[2], AgentEvent::ToolResult { tool_call_id: None, tool_name, .. } if tool_name == "read"));
}

#[test]
fn text_deltas_concatenate() {
    let mut hook = SessionIdHook::new(EventBus::new());
    hook.begin_turn("Say hello in one word.".to_string());
    hook.on_completion_call();
    hook.on_text_delta("Hel", "Hel");
    hook.on_text_delta("lo", "Hello");
    hook.on_text_delta("!", "Hello!");
    hook.on_stream_completion_response_finish();
    let events = hook.get_events();
    assert_eq!(text_of(&events), "Hello!");
    assert_eq!(events.iter().filter(|e| matches!(e, AgentEvent::Text(_))).count(), 3);
}

#[test]
fn response_after_full_deltas_adds_nothing() {
    let mut hook = SessionIdHook::new(EventBus::new());
    hook.on_completion_call();
    hook.on_text_delta("Hi ", "Hi ");
    hook.on_text_delta("there", "Hi there");
    let parts = vec![ResponseContent::Text("Hi there".to_string())];
    assert_eq!(hook.on_completion_response(&parts), HookAction::Continue);
    let events = hook.get_events();
    assert_eq!(events.len(), 2);
    assert_eq!(text_of(&events), "Hi there");
}

#[test]
fn response_after_partial_deltas_adds_the_rest() {
    let mut hook = SessionIdHook::new(EventBus::new());
    hook.on_completion_call();
    hook.on_text_delta("Hi", "Hi");
    let parts = vec![
        ResponseContent::Text("Hi the".to_string()),
        ResponseContent::NonText,
        ResponseContent::Text("re".to_string()),
    ];
    hook.on_completion_response(&parts);
    let events = hook.get_events();
    assert_eq!(events, vec![AgentEvent::Text("Hi".to_string()), AgentEvent::Text(" there".to_string())]);
}

#[test]
fn response_without_deltas_emits_its_text() {
    let mut hook = SessionIdHook::new(EventBus::new());
    hook.on_completion_call();
    let parts = vec![ResponseContent::Text("Paris.".to_string())];
    hook.on_completion_response(&parts);
    assert_eq!(hook.get_events(), vec![AgentEvent::Text("Paris.".to_string())]);
}

#[test]
fn response_differing_from_deltas_adds_nothing() {
    let mut hook = SessionIdHook::new(EventBus::new());
    hook.on_completion_call();
    hook.on_text_delta("Bonjour", "Bonjour");
    hook.on_completion_response(&vec![ResponseContent::Text("Hello".to_string())]);
    assert_eq!(hook.get_events(), vec![AgentEvent::Text("Bonjour".to_string())]);
}

#[test]
fn completion_call_starts_a_fresh_completion() {
    let mut hook = SessionIdHook::new(EventBus::new());
    hook.on_completion_call();
    hook.on_text_delta("one", "one");
    hook.on_completion_call();
    hook.on_completion_response(&vec![ResponseContent::Text("two".to_string())]);
    assert_eq!(text_of(&hook.get_events()), "onetwo");
}

#[test]
fn empty_response_adds_nothing() {
    let mut hook = SessionIdHook::new(EventBus::new());
    hook.on_completion_call();
    hook.on_completion_response(&vec![ResponseContent::NonText]);
    assert_eq!(hook.event_count(), 0);
}

#[test]
fn drain_twice_is_empty() {
    let mut hook = SessionIdHook::new(EventBus::new());
    hook.begin_turn("hi".to_string());
    hook.on_text_delta("yo", "yo");
    assert_eq!(hook.event_count(), 2);
    assert_eq!(hook.get_events().len(), 2);
    assert_eq!(hook.event_count(), 0);
    assert!(hook.get_events().is_empty());
}

#[test]
fn bus_keeps_fifo_order() {
    let mut bus = EventBus::new();
    bus.push(AgentEvent::Text("a".to_string()));
    bus.push(AgentEvent::ApprovalApproved { tool_call_id: "x".to_string() });
    bus.push(AgentEvent::Text("b".to_string()));
    assert_eq!(bus.len(), 3);
    let drained = bus.drain();
    assert_eq!(
        drained,
        vec![
            AgentEvent::Text("a".to_string()),
            AgentEvent::ApprovalApproved { tool_call_id: "x".to_string() },
            AgentEvent::Text("b".to_string()),
        ]
    );
    assert_eq!(bus.len(), 0);
    assert!(bus.drain().is_empty());
}

#[test]
fn bus_clear_empties() {
    let mut bus = EventBus::new();
    bus.push(AgentEvent::UserMessage("m".to_string()));
    bus.clear();
    assert_eq!(bus.len(), 0);
}
