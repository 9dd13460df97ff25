use eyai::errors::GenError;
use eyai::session::{session_step, SessionAction, SessionEvent, SessionState};

#[test]
fn connect_emits_connected_record_first() {
    let (state, acts) = session_step(SessionState::Open, SessionEvent::Connect);
    assert_eq!(state, SessionState::AwaitingInput);
    assert_eq!(acts, vec![SessionAction::SendConnected]);
}

#[test]
fn nothing_is_emitted_before_the_handshake() {
    let (state, acts) = session_step(SessionState::Open, SessionEvent::Text("hi".to_string()));
    assert_eq!(state, SessionState::Open);
    assert!(acts.is_empty());
}

#[test]
fn text_frame_starts_processing_with_loading_envelope() {
    let (state, acts) = session_step(
        SessionState::AwaitingInput,
        SessionEvent::Text("why?".to_string()),
    );
    assert_eq!(
        state,
        SessionState::Processing {
            question: "why?".to_string()
        }
    );
    assert_eq!(acts.len(), 2);
    match &acts[0] {
        SessionAction::SendEnvelope(m) => {
            assert_eq!(m.id, "loading");
            assert_eq!(m.question, "why?");
            assert_eq!(m.choice.role.content, "");
            assert!(m.loading);
        }
        other => panic!("expected an envelope, got {:?}", other),
    }
    assert_eq!(acts[1], SessionAction::RequestGeneration("why?".to_string()));
}

#[test]
fn successful_generation_emits_response_and_returns_to_input() {
    let (state, acts) = session_step(
        SessionState::Processing {
            question: "why?".to_string(),
        },
        SessionEvent::Generated(Ok("because".to_string())),
    );
    assert_eq!(state, SessionState::AwaitingInput);
    assert_eq!(acts.len(), 1);
    match &acts[0] {
        SessionAction::SendEnvelope(m) => {
            assert_eq!(m.id, "response");
            assert_eq!(m.question, "why?");
            assert_eq!(m.choice.role.role, "assistant");
            assert_eq!(m.choice.role.content, "because");
            assert!(!m.loading);
        }
        other => panic!("expected an envelope, got {:?}", other),
    }
}

#[test]
fn failed_generation_emits_error_and_keeps_session_alive() {
    let (state, acts) = session_step(
        SessionState::Processing {
            question: "why?".to_string(),
        },
        SessionEvent::Generated(Err(GenError::BackendUnreachable("down".to_string()))),
    );
    assert_eq!(state, SessionState::AwaitingInput);
    assert_eq!(acts.len(), 1);
    match &acts[0] {
        SessionAction::SendEnvelope(m) => {
            assert_eq!(m.id, "error");
            assert_eq!(m.choice.role.role, "system");
            assert_eq!(m.choice.role.content, "Failed to send request: down");
            assert!(!m.loading);
        }
        other => panic!("expected an envelope, got {:?}", other),
    }
}

#[test]
fn close_between_turns_ends_quietly() {
    let (state, acts) = session_step(SessionState::AwaitingInput, SessionEvent::Close);
    assert_eq!(state, SessionState::Closed);
    assert!(acts.is_empty());
}

#[test]
fn ping_is_answered_with_matching_pong() {
    let (state, acts) = session_step(
        SessionState::AwaitingInput,
        SessionEvent::Ping(vec![1, 2, 3]),
    );
    assert_eq!(state, SessionState::AwaitingInput);
    assert_eq!(acts, vec![SessionAction::SendPong(vec![1, 2, 3])]);
}

#[test]
fn receive_failure_closes_the_session() {
    let (state, acts) = session_step(SessionState::AwaitingInput, SessionEvent::RecvFailure);
    assert_eq!(state, SessionState::Closed);
    assert!(acts.is_empty());
}

#[test]
fn closed_session_ignores_everything() {
    let (state, acts) = session_step(SessionState::Closed, SessionEvent::Text("hi".to_string()));
    assert_eq!(state, SessionState::Closed);
    assert!(acts.is_empty());
}

#[test]
fn whole_turn_emits_connected_before_anything_else() {
    let events = vec![
        SessionEvent::Connect,
        SessionEvent::Text("q".to_string()),
        SessionEvent::Generated(Ok("a".to_string())),
        SessionEvent::Close,
    ];
    let mut state = SessionState::Open;
    let mut all_actions: Vec<SessionAction> = Vec::new();
    for ev in events {
        let (next, acts) = session_step(state, ev);
        state = next;
        all_actions.extend(acts);
    }
    assert_eq!(state, SessionState::Closed);
    assert_eq!(all_actions[0], SessionAction::SendConnected);
    assert_eq!(all_actions.len(), 4);
}
