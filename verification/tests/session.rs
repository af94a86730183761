use achat::decoder::ResponseEvent;
use achat::decoder::ResponseStreamDecoder;
use achat::decoder::ToolConfig;
use achat::decoder::TransportEvent;
use achat::dispatcher::ConsentDecision;
use achat::dispatcher::InvocationOutcome;
use achat::dispatcher::ToolUseRequest;
use achat::dispatcher::ask_for_consent;
use achat::dispatcher::handle_tool_use;
use achat::driver::ConversationDriver;
use achat::driver::FatalError;
use achat::driver::Phase;
use achat::driver::PromptOutcome;
use achat::driver::TurnOutcome;
use achat::message::ContentBlock;
use achat::message::Message;
use achat::message::Role;
use achat::message::StopReason;
use achat::message::ToolResultStatus;

fn assistant_text(text: &str) -> Message {
    Message { role: Role::Assistant, content: ContentBlock::Text(String::from(text)) }
}

fn request(id: &str, requires_consent: bool) -> ToolUseRequest {
    ToolUseRequest {
        id: String::from(id),
        name: String::from("tool"),
        parameters: String::from("{}"),
        requires_consent,
    }
}

#[test]
fn two_turns_without_tools_alternate() {
    let mut driver = ConversationDriver::new();
    for turn in 0..2 {
        let line = format!("question {}", turn);
        let outcome = driver.on_user_input(Some(line));
        assert_eq!(outcome, PromptOutcome::Send);
        let outcome = driver.on_end_stream(StopReason::EndTurn, assistant_text("answer"));
        assert!(matches!(outcome, TurnOutcome::PromptUser));
    }
    let history = driver.history();
    assert_eq!(history.len(), 4);
    for (i, message) in history.iter().enumerate() {
        if i % 2 == 0 {
            assert_eq!(message.role, Role::User);
        } else {
            assert_eq!(message.role, Role::Assistant);
        }
    }
    assert_eq!(driver.phase(), Phase::AwaitingUserInput);
}

#[test]
fn sixth_consecutive_tool_use_hits_recursion_limit() {
    let mut driver = ConversationDriver::new();
    assert_eq!(driver.on_user_input(Some(String::from("go"))), PromptOutcome::Send);
    for _ in 0..5 {
        let outcome = driver.on_end_stream(StopReason::ToolUse, assistant_text("using a tool"));
        assert!(matches!(outcome, TurnOutcome::RunTools));
        let uses = driver.take_tool_uses();
        assert!(uses.is_empty());
        driver.on_tool_results(vec![]);
    }
    assert_eq!(driver.recursion_count(), 5);
    let outcome = driver.on_end_stream(StopReason::ToolUse, assistant_text("one more"));
    assert!(matches!(outcome, TurnOutcome::Fatal(FatalError::RecursionLimitExceeded)));
    assert_eq!(driver.phase(), Phase::SessionEnded);
}

#[test]
fn four_tool_uses_then_end_turn_reset_counter() {
    let mut driver = ConversationDriver::new();
    assert_eq!(driver.on_user_input(Some(String::from("go"))), PromptOutcome::Send);
    for _ in 0..4 {
        let outcome = driver.on_end_stream(StopReason::ToolUse, assistant_text("tool turn"));
        assert!(matches!(outcome, TurnOutcome::RunTools));
        driver.take_tool_uses();
        driver.on_tool_results(vec![]);
    }
    assert_eq!(driver.recursion_count(), 4);
    let outcome = driver.on_end_stream(StopReason::EndTurn, assistant_text("done"));
    assert!(matches!(outcome, TurnOutcome::PromptUser));
    assert_eq!(driver.recursion_count(), 0);
    assert_eq!(driver.phase(), Phase::AwaitingUserInput);
}

#[test]
fn unknown_stop_reason_is_fatal() {
    let mut driver = ConversationDriver::new();
    driver.on_user_input(Some(String::from("go")));
    let outcome = driver.on_end_stream(
        StopReason::Other(String::from("max_tokens")),
        assistant_text("partial"),
    );
    match outcome {
        TurnOutcome::Fatal(FatalError::UnknownStopReason(raw)) => {
            assert_eq!(raw, "max_tokens");
        },
        _ => panic!("expected an unknown-stop-reason failure"),
    }
}

#[test]
fn quit_keyword_ends_session_quietly() {
    let mut driver = ConversationDriver::new();
    assert_eq!(driver.on_user_input(Some(String::from("quit"))), PromptOutcome::Quit);
    assert_eq!(driver.phase(), Phase::SessionEnded);
    assert_eq!(driver.history().len(), 0);

    let mut driver = ConversationDriver::new();
    assert_eq!(driver.on_user_input(Some(String::from("  exit \t"))), PromptOutcome::Quit);
    assert_eq!(driver.history().len(), 0);

    let mut driver = ConversationDriver::new();
    assert_eq!(driver.on_user_input(Some(String::from("exited"))), PromptOutcome::Send);
    assert_eq!(driver.history().len(), 1);
}

#[test]
fn end_of_input_ends_session_like_quit() {
    let mut driver = ConversationDriver::new();
    assert_eq!(driver.on_user_input(None), PromptOutcome::Quit);
    assert_eq!(driver.phase(), Phase::SessionEnded);
    assert_eq!(driver.history().len(), 0);
}

#[test]
fn queued_tool_uses_are_handed_out_in_order() {
    let mut driver = ConversationDriver::new();
    driver.on_user_input(Some(String::from("go")));
    driver.on_tool_use(request("a", false));
    driver.on_tool_use(request("b", true));
    let outcome = driver.on_end_stream(StopReason::ToolUse, assistant_text("tools"));
    assert!(matches!(outcome, TurnOutcome::RunTools));
    let uses = driver.take_tool_uses();
    assert_eq!(uses.len(), 2);
    assert_eq!(uses[0].id, "a");
    assert_eq!(uses[1].id, "b");
    assert!(driver.take_tool_uses().is_empty());
}

#[test]
fn dispatch_all_successes_keeps_request_order() {
    let uses = vec![request("a", false), request("b", false), request("c", false)];
    let consents = vec![
        ConsentDecision::Granted,
        ConsentDecision::Granted,
        ConsentDecision::Granted,
    ];
    let outcomes = vec![
        InvocationOutcome::Success(String::from("out a")),
        InvocationOutcome::Success(String::from("out b")),
        InvocationOutcome::Success(String::from("out c")),
    ];
    let messages = handle_tool_use(uses, consents, outcomes);
    assert_eq!(messages.len(), 3);
    let expected = [("a", "out a"), ("b", "out b"), ("c", "out c")];
    for (message, (id, output)) in messages.iter().zip(expected.iter()) {
        assert_eq!(message.role, Role::User);
        match &message.content {
            ContentBlock::ToolResult { tool_use_id, status, content } => {
                assert_eq!(tool_use_id, id);
                assert_eq!(*status, ToolResultStatus::Success);
                assert_eq!(content, output);
            },
            _ => panic!("expected a tool result"),
        }
    }
}

#[test]
fn dispatch_denial_drops_rest_of_batch() {
    let uses = vec![request("a", true), request("b", false), request("c", false)];
    let consents = vec![
        ConsentDecision::Denied(String::from("not now")),
        ConsentDecision::Granted,
        ConsentDecision::Granted,
    ];
    let outcomes = vec![
        InvocationOutcome::Success(String::from("out a")),
        InvocationOutcome::Success(String::from("out b")),
        InvocationOutcome::Success(String::from("out c")),
    ];
    let messages = handle_tool_use(uses, consents, outcomes);
    assert_eq!(messages.len(), 1);
    match &messages[0].content {
        ContentBlock::ToolResult { tool_use_id, status, content } => {
            assert_eq!(tool_use_id, "a");
            assert_eq!(*status, ToolResultStatus::Error);
            assert_eq!(
                content,
                "The user denied permission to execute this tool. Reason: not now"
            );
        },
        _ => panic!("expected a tool result"),
    }
}

#[test]
fn dispatch_failure_does_not_suppress_later_results() {
    let uses = vec![request("a", false), request("b", false)];
    let consents = vec![ConsentDecision::Granted, ConsentDecision::Granted];
    let outcomes = vec![
        InvocationOutcome::Failure(String::from("disk full")),
        InvocationOutcome::Success(String::from("out b")),
    ];
    let messages = handle_tool_use(uses, consents, outcomes);
    assert_eq!(messages.len(), 2);
    match &messages[0].content {
        ContentBlock::ToolResult { status, content, .. } => {
            assert_eq!(*status, ToolResultStatus::Error);
            assert_eq!(content, "An error occurred processing the tool: disk full");
        },
        _ => panic!("expected a tool result"),
    }
    match &messages[1].content {
        ContentBlock::ToolResult { status, content, .. } => {
            assert_eq!(*status, ToolResultStatus::Success);
            assert_eq!(content, "out b");
        },
        _ => panic!("expected a tool result"),
    }
}

#[test]
fn denial_without_consent_requirement_is_ignored() {
    let uses = vec![request("a", false)];
    let consents = vec![ConsentDecision::Denied(String::from("unheeded"))];
    let outcomes = vec![InvocationOutcome::Success(String::from("ran anyway"))];
    let messages = handle_tool_use(uses, consents, outcomes);
    assert_eq!(messages.len(), 1);
    match &messages[0].content {
        ContentBlock::ToolResult { status, .. } => {
            assert_eq!(*status, ToolResultStatus::Success);
        },
        _ => panic!("expected a tool result"),
    }
}

#[test]
fn consent_is_always_granted_by_default() {
    assert!(ask_for_consent().is_ok());
}

#[test]
fn decoder_assembles_message_from_deltas() {
    let config = ToolConfig { consent_required: vec![String::from("fs_write")] };
    let mut decoder = ResponseStreamDecoder::new(config);
    match decoder.next_event(Ok(TransportEvent::TextDelta(String::from("Hel")))) {
        Ok(Some(ResponseEvent::AssistantText(t))) => assert_eq!(t, "Hel"),
        _ => panic!("expected a text event"),
    }
    match decoder.next_event(Ok(TransportEvent::TextDelta(String::from("lo")))) {
        Ok(Some(ResponseEvent::AssistantText(t))) => assert_eq!(t, "lo"),
        _ => panic!("expected a text event"),
    }
    match decoder.next_event(Ok(TransportEvent::MessageStop {
        stop_reason: String::from("end_turn"),
    })) {
        Ok(Some(ResponseEvent::EndStream { stop_reason, message })) => {
            assert!(matches!(stop_reason, StopReason::EndTurn));
            assert_eq!(message.role, Role::Assistant);
            match &message.content {
                ContentBlock::Text(t) => assert_eq!(t, "Hello"),
                _ => panic!("expected text content"),
            }
        },
        _ => panic!("expected the end of the stream"),
    }
    // after the end of the turn, nothing further is yielded
    match decoder.next_event(Ok(TransportEvent::TextDelta(String::from("late")))) {
        Ok(None) => {},
        _ => panic!("expected no further events"),
    }
}

#[test]
fn decoder_classifies_tool_use_consent() {
    let config = ToolConfig { consent_required: vec![String::from("fs_write")] };
    let mut decoder = ResponseStreamDecoder::new(config);
    let event = decoder.next_event(Ok(TransportEvent::ToolUse {
        id: String::from("t1"),
        name: String::from("fs_write"),
        parameters: String::from("{\"path\":\"a\"}"),
    }));
    match event {
        Ok(Some(ResponseEvent::ToolUse(req))) => {
            assert_eq!(req.id, "t1");
            assert!(req.requires_consent);
        },
        _ => panic!("expected a tool-use event"),
    }
    let event = decoder.next_event(Ok(TransportEvent::ToolUse {
        id: String::from("t2"),
        name: String::from("fs_read"),
        parameters: String::from("{}"),
    }));
    match event {
        Ok(Some(ResponseEvent::ToolUse(req))) => {
            assert!(!req.requires_consent);
        },
        _ => panic!("expected a tool-use event"),
    }
}

#[test]
fn decoder_maps_unknown_stop_reason_to_other() {
    let config = ToolConfig { consent_required: vec![] };
    let mut decoder = ResponseStreamDecoder::new(config);
    match decoder.next_event(Ok(TransportEvent::MessageStop {
        stop_reason: String::from("tool_use"),
    })) {
        Ok(Some(ResponseEvent::EndStream { stop_reason, .. })) => {
            assert!(matches!(stop_reason, StopReason::ToolUse));
        },
        _ => panic!("expected the end of the stream"),
    }
    let mut decoder = ResponseStreamDecoder::new(ToolConfig { consent_required: vec![] });
    match decoder.next_event(Ok(TransportEvent::MessageStop {
        stop_reason: String::from("max_tokens"),
    })) {
        Ok(Some(ResponseEvent::EndStream { stop_reason, .. })) => match stop_reason {
            StopReason::Other(raw) => assert_eq!(raw, "max_tokens"),
            _ => panic!("expected the raw token to be kept"),
        },
        _ => panic!("expected the end of the stream"),
    }
}

#[test]
fn decoder_turns_transport_failure_into_terminal_error() {
    let config = ToolConfig { consent_required: vec![] };
    let mut decoder = ResponseStreamDecoder::new(config);
    match decoder.next_event(Err(String::from("connection reset"))) {
        Err(e) => assert_eq!(e.detail, "connection reset"),
        _ => panic!("expected a decode error"),
    }
    match decoder.next_event(Ok(TransportEvent::TextDelta(String::from("x")))) {
        Ok(None) => {},
        _ => panic!("expected no further events after the error"),
    }
}
