//! The per-connection session loop of the bidirectional transport, as a pure
//! state machine: the transport hands it one event at a time and performs the
//! actions it returns, so every decision the loop makes is verified here.

use vstd::prelude::*;

use crate::errors::GenError;
use crate::message::{is_error_message, is_loading_message, is_response_message, Message};

verus! {

/// Where one session stands.
#[derive(Debug, Clone, PartialEq, Eq)]
pub enum SessionState {
    /// The connection is established but the handshake record is not sent.
    Open,
    /// Between turns: the next text frame starts a generation.
    AwaitingInput,
    /// A generation for `question` is in flight; no frame is read meanwhile.
    Processing { question: String },
    /// The session is over; nothing is emitted any more.
    Closed,
}

/// What a session can observe: one inbound frame, the completion of the
/// connect handshake, or the outcome of the generation it requested.
#[derive(Debug, PartialEq, Eq)]
pub enum SessionEvent {
    /// The transport upgrade completed.
    Connect,
    /// A text frame carrying a prompt.
    Text(String),
    /// The peer's close frame.
    Close,
    /// A protocol ping carrying its payload.
    Ping(Vec<u8>),
    /// Any other frame; ignored.
    OtherFrame,
    /// A transport-level receive failure.
    RecvFailure,
    /// The outcome of the generation requested for the current question.
    Generated(Result<String, GenError>),
}

/// What the transport must do next, in order.
#[derive(Debug, Clone, PartialEq, Eq)]
pub enum SessionAction {
    /// Send the connected status record.
    SendConnected,
    /// Send one message envelope.
    SendEnvelope(Message),
    /// Answer a ping with the matching pong.
    SendPong(Vec<u8>),
    /// Start a generation for this prompt and report its outcome back.
    RequestGeneration(String),
}

/// The successor state for each state and event.
pub open spec fn next_state(s: SessionState, e: SessionEvent) -> SessionState {
    match (s, e) {
        (SessionState::Open, SessionEvent::Connect) => SessionState::AwaitingInput,
        (SessionState::Open, SessionEvent::RecvFailure) => SessionState::Closed,
        (SessionState::Open, _) => SessionState::Open,
        (SessionState::AwaitingInput, SessionEvent::Text(q)) => SessionState::Processing {
            question: q,
        },
        (SessionState::AwaitingInput, SessionEvent::Close) => SessionState::Closed,
        (SessionState::AwaitingInput, SessionEvent::RecvFailure) => SessionState::Closed,
        (SessionState::AwaitingInput, _) => SessionState::AwaitingInput,
        (SessionState::Processing { question }, SessionEvent::Generated(_)) => SessionState::AwaitingInput,
        (SessionState::Processing { question }, SessionEvent::RecvFailure) => SessionState::Closed,
        (SessionState::Processing { question }, _) => SessionState::Processing { question },
        (SessionState::Closed, _) => SessionState::Closed,
    }
}

/// The actions owed for each state and event: the handshake record on
/// connect; on a prompt, the loading envelope and then the generation
/// request; on an outcome, the one terminal envelope; the matching pong on a
/// ping; and nothing otherwise — in particular, nothing after a close.
pub open spec fn actions_ok(s: SessionState, e: SessionEvent, acts: Seq<SessionAction>) -> bool {
    match (s, e) {
        (SessionState::Open, SessionEvent::Connect) => acts.len() == 1 && acts[0]
            == SessionAction::SendConnected,
        (SessionState::AwaitingInput, SessionEvent::Text(q)) => acts.len() == 2 && (acts[0] matches
            SessionAction::SendEnvelope(m) && is_loading_message(m, q@)) && acts[1]
            == SessionAction::RequestGeneration(q),
        (SessionState::AwaitingInput, SessionEvent::Ping(d)) => acts.len() == 1 && acts[0]
            == SessionAction::SendPong(d),
        (SessionState::Processing { question }, SessionEvent::Generated(Result::Ok(t))) => acts.len()
            == 1 && (acts[0] matches SessionAction::SendEnvelope(m) && is_response_message(
            m,
            question@,
            t@,
        )),
        (SessionState::Processing { question }, SessionEvent::Generated(Result::Err(err))) => acts.len()
            == 1 && (acts[0] matches SessionAction::SendEnvelope(m) && is_error_message(
            m,
            err.describe_spec(),
        )),
        (_, _) => acts.len() == 0,
    }
}

/// Advances one session by one event and returns the successor state
/// together with the actions the transport must perform, in order.
pub fn session_step(state: SessionState, event: SessionEvent) -> (r: (
    SessionState,
    Vec<SessionAction>,
))
    ensures
        r.0 == next_state(state, event),
        actions_ok(state, event, r.1@),
{
    match (state, event) {
        (SessionState::Open, SessionEvent::Connect) => {
            let mut acts: Vec<SessionAction> = Vec::new();
            acts.push(SessionAction::SendConnected);
            (SessionState::AwaitingInput, acts)
        },
        (SessionState::Open, SessionEvent::RecvFailure) => (SessionState::Closed, Vec::new()),
        (SessionState::Open, _) => (SessionState::Open, Vec::new()),
        (SessionState::AwaitingInput, SessionEvent::Text(q)) => {
            let mut acts: Vec<SessionAction> = Vec::new();
            acts.push(SessionAction::SendEnvelope(Message::loading(q.clone())));
            acts.push(SessionAction::RequestGeneration(q.clone()));
            (SessionState::Processing { question: q }, acts)
        },
        (SessionState::AwaitingInput, SessionEvent::Close) => (SessionState::Closed, Vec::new()),
        (SessionState::AwaitingInput, SessionEvent::RecvFailure) => (
            SessionState::Closed,
            Vec::new(),
        ),
        (SessionState::AwaitingInput, SessionEvent::Ping(d)) => {
            let mut acts: Vec<SessionAction> = Vec::new();
            acts.push(SessionAction::SendPong(d));
            (SessionState::AwaitingInput, acts)
        },
        (SessionState::AwaitingInput, _) => (SessionState::AwaitingInput, Vec::new()),
        (SessionState::Processing { question }, SessionEvent::Generated(res)) => {
            let mut acts: Vec<SessionAction> = Vec::new();
            match res {
                Ok(t) => acts.push(SessionAction::SendEnvelope(Message::response(question, t))),
                Err(err) => acts.push(SessionAction::SendEnvelope(Message::error(err.describe()))),
            }
            (SessionState::AwaitingInput, acts)
        },
        (SessionState::Processing { question }, SessionEvent::RecvFailure) => (
            SessionState::Closed,
            Vec::new(),
        ),
        (SessionState::Processing { question }, _) => (
            SessionState::Processing { question },
            Vec::new(),
        ),
        (SessionState::Closed, _) => (SessionState::Closed, Vec::new()),
    }
}

/// A run of one session: each state follows its predecessor by `next_state`,
/// and each emitted action batch is one the machine owes for that step.
pub open spec fn valid_trace(
    states: Seq<SessionState>,
    events: Seq<SessionEvent>,
    outs: Seq<Seq<SessionAction>>,
) -> bool {
    &&& states.len() == events.len() + 1
    &&& outs.len() == events.len()
    &&& forall|i: int|
        0 <= i < events.len() ==> #[trigger] states[i + 1] == next_state(states[i], events[i])
    &&& forall|i: int|
        0 <= i < events.len() ==> actions_ok(states[i], events[i], #[trigger] outs[i])
}

/// While a session has emitted nothing, it has not entered service: it is
/// still before the handshake, or already closed.
proof fn lemma_silent_prefix_stays_unopened(
    states: Seq<SessionState>,
    events: Seq<SessionEvent>,
    outs: Seq<Seq<SessionAction>>,
    n: int,
)
    requires
        valid_trace(states, events, outs),
        states[0] is Open,
        0 <= n <= events.len(),
        forall|j: int| 0 <= j < n ==> (#[trigger] outs[j]).len() == 0,
    ensures
        states[n] is Open || states[n] is Closed,
    decreases n,
{
    if n > 0 {
        lemma_silent_prefix_stays_unopened(states, events, outs, n - 1);
        assert(states[(n - 1) + 1] == next_state(states[n - 1], events[n - 1]));
        assert(actions_ok(states[n - 1], events[n - 1], outs[n - 1]));
        if states[n - 1] is Open {
            assert(!(events[n - 1] is Connect));
        }
    }
}

/// The handshake comes first: in any run that starts on a fresh connection,
/// the first action the session ever emits is the connected record — no
/// envelope, pong or generation request can precede it.
pub proof fn lemma_connected_precedes_output(
    states: Seq<SessionState>,
    events: Seq<SessionEvent>,
    outs: Seq<Seq<SessionAction>>,
    n: int,
)
    requires
        valid_trace(states, events, outs),
        states[0] is Open,
        0 <= n < outs.len(),
        forall|j: int| 0 <= j < n ==> (#[trigger] outs[j]).len() == 0,
        outs[n].len() > 0,
    ensures
        outs[n][0] is SendConnected,
{
    lemma_silent_prefix_stays_unopened(states, events, outs, n);
    assert(actions_ok(states[n], events[n], outs[n]));
}

/// A close frame received between turns ends the session at once, and no
/// message is emitted with it.
pub proof fn lemma_close_ends_quietly(acts: Seq<SessionAction>)
    requires
        actions_ok(SessionState::AwaitingInput, SessionEvent::Close, acts),
    ensures
        next_state(SessionState::AwaitingInput, SessionEvent::Close) is Closed,
        acts.len() == 0,
{
}

/// A closed session is final: whatever arrives, it stays closed and emits
/// nothing.
pub proof fn lemma_closed_is_final(e: SessionEvent, acts: Seq<SessionAction>)
    requires
        actions_ok(SessionState::Closed, e, acts),
    ensures
        next_state(SessionState::Closed, e) is Closed,
        acts.len() == 0,
{
}

} // verus!
