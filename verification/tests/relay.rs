use eyai::errors::GenError;
use eyai::relay::{relay_chunks, relay_failed_start, Relay, RelayEvent};

#[test]
fn relay_republishes_fragments_in_order() {
    let chunks = vec![
        Ok("a".to_string()),
        Ok("b".to_string()),
        Ok("c".to_string()),
    ];
    let events = relay_chunks(chunks);
    assert_eq!(
        events,
        vec![
            RelayEvent::Data("a".to_string()),
            RelayEvent::Data("b".to_string()),
            RelayEvent::Data("c".to_string()),
        ]
    );
}

#[test]
fn relay_stops_at_first_failure() {
    let chunks = vec![
        Ok("a".to_string()),
        Err(GenError::BackendUnreachable("reset".to_string())),
        Ok("never seen".to_string()),
    ];
    let events = relay_chunks(chunks);
    assert_eq!(
        events,
        vec![
            RelayEvent::Data("a".to_string()),
            RelayEvent::Error(GenError::BackendUnreachable("reset".to_string())),
        ]
    );
}

#[test]
fn relay_of_empty_stream_is_empty() {
    let events = relay_chunks(Vec::new());
    assert!(events.is_empty());
}

#[test]
fn failed_start_gives_one_error_event() {
    let events = relay_failed_start(GenError::BackendUnreachable("no route".to_string()));
    assert_eq!(
        events,
        vec![RelayEvent::Error(GenError::BackendUnreachable(
            "no route".to_string()
        ))]
    );
}

#[test]
fn relay_step_forwards_fragments_one_at_a_time() {
    let mut relay = Relay::new();
    assert_eq!(
        relay.step(Ok("a".to_string())),
        Some(RelayEvent::Data("a".to_string()))
    );
    assert_eq!(
        relay.step(Ok("b".to_string())),
        Some(RelayEvent::Data("b".to_string()))
    );
}

#[test]
fn relay_step_closes_on_failure() {
    let mut relay = Relay::new();
    assert_eq!(
        relay.step(Ok("a".to_string())),
        Some(RelayEvent::Data("a".to_string()))
    );
    assert_eq!(
        relay.step(Err(GenError::MalformedResponse)),
        Some(RelayEvent::Error(GenError::MalformedResponse))
    );
    assert_eq!(relay.step(Ok("never seen".to_string())), None);
    assert_eq!(relay.step(Err(GenError::MalformedResponse)), None);
}

#[test]
fn relay_step_agrees_with_relay_chunks() {
    let chunks = vec![
        Ok("a".to_string()),
        Err(GenError::BackendRejected("no".to_string())),
        Ok("b".to_string()),
    ];
    let whole = relay_chunks(chunks.clone());
    let mut relay = Relay::new();
    let stepped: Vec<RelayEvent> = chunks
        .into_iter()
        .filter_map(|chunk| relay.step(chunk))
        .collect();
    assert_eq!(stepped, whole);
}

#[test]
fn sse_data_of_fragment_is_the_fragment() {
    let ev = RelayEvent::Data("chunk".to_string());
    assert_eq!(ev.sse_data(), "chunk");
}

#[test]
fn sse_data_of_error_is_prefixed() {
    let ev = RelayEvent::Error(GenError::MalformedResponse);
    assert_eq!(ev.sse_data(), "error: No response from backend");
}
