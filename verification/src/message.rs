//! The normalized response record shared by all transports.

use vstd::prelude::*;
use vstd::string::StringExecFns;

use crate::errors::GenError;

verus! {

/// The role and text of one turn.
#[derive(Debug, Clone, PartialEq, Eq)]
pub struct Role {
    pub role: String,
    pub content: String,
}

/// The single choice carried by a message.
#[derive(Debug, Clone, PartialEq, Eq)]
pub struct Choice {
    pub role: Role,
}

/// The envelope delivered to callers across every transport.
///
/// A message is produced once per completed or partial turn by the relay and
/// session layer, never by a provider, and is immutable after construction.
#[derive(Debug, Clone, PartialEq, Eq)]
pub struct Message {
    pub id: String,
    pub models: String,
    pub question: String,
    pub choice: Choice,
    pub timestamp: String,
    pub loading: bool,
}

/// The envelope that precedes a generation: content still empty, loading set.
pub open spec fn is_loading_message(m: Message, question: Seq<char>) -> bool {
    &&& m.id@ == "loading"@
    &&& m.models@ == Seq::<char>::empty()
    &&& m.question@ == question
    &&& m.choice.role.role@ == "system"@
    &&& m.choice.role.content@ == Seq::<char>::empty()
    &&& m.timestamp@ == Seq::<char>::empty()
    &&& m.loading == true
}

/// The envelope of a successful generation.
pub open spec fn is_response_message(m: Message, question: Seq<char>, content: Seq<char>) -> bool {
    &&& m.id@ == "response"@
    &&& m.models@ == Seq::<char>::empty()
    &&& m.question@ == question
    &&& m.choice.role.role@ == "assistant"@
    &&& m.choice.role.content@ == content
    &&& m.timestamp@ == Seq::<char>::empty()
    &&& m.loading == false
}

/// The envelope of a failed generation: the error is in-band content.
pub open spec fn is_error_message(m: Message, detail: Seq<char>) -> bool {
    &&& m.id@ == "error"@
    &&& m.models@ == Seq::<char>::empty()
    &&& m.question@ == Seq::<char>::empty()
    &&& m.choice.role.role@ == "system"@
    &&& m.choice.role.content@ == detail
    &&& m.timestamp@ == Seq::<char>::empty()
    &&& m.loading == false
}

impl Message {
    /// Builds the record emitted right after a prompt is received, before the
    /// backend call: it echoes the question and signals that work is pending.
    pub fn loading(question: String) -> (r: Message)
        ensures
            is_loading_message(r, question@),
            r.question == question,
    {
        Message {
            id: String::from_str("loading"),
            models: String::new(),
            question,
            choice: Choice { role: Role { role: String::from_str("system"), content: String::new() } },
            timestamp: String::new(),
            loading: true,
        }
    }

    /// Builds the terminal record of a successful generation.
    pub fn response(question: String, content: String) -> (r: Message)
        ensures
            is_response_message(r, question@, content@),
            r.question == question,
            r.choice.role.content == content,
    {
        Message {
            id: String::from_str("response"),
            models: String::new(),
            question,
            choice: Choice { role: Role { role: String::from_str("assistant"), content } },
            timestamp: String::new(),
            loading: false,
        }
    }

    /// Builds the terminal record of a failed generation; the connection that
    /// carries it stays open.
    pub fn error(detail: String) -> (r: Message)
        ensures
            is_error_message(r, detail@),
            r.choice.role.content == detail,
    {
        Message {
            id: String::from_str("error"),
            models: String::new(),
            question: String::new(),
            choice: Choice { role: Role { role: String::from_str("system"), content: detail } },
            timestamp: String::new(),
            loading: false,
        }
    }
}

impl Default for Role {
    fn default() -> (r: Role)
        ensures
            r.role@ == Seq::<char>::empty(),
            r.content@ == Seq::<char>::empty(),
    {
        Role { role: String::new(), content: String::new() }
    }
}

impl Default for Choice {
    fn default() -> (r: Choice)
        ensures
            r.role.role@ == Seq::<char>::empty(),
            r.role.content@ == Seq::<char>::empty(),
    {
        Choice { role: Role::default() }
    }
}

impl Default for Message {
    fn default() -> (r: Message)
        ensures
            r.id@ == Seq::<char>::empty(),
            r.models@ == Seq::<char>::empty(),
            r.question@ == Seq::<char>::empty(),
            r.choice.role.role@ == Seq::<char>::empty(),
            r.choice.role.content@ == Seq::<char>::empty(),
            r.timestamp@ == Seq::<char>::empty(),
            r.loading == false,
    {
        Message {
            id: String::new(),
            models: String::new(),
            question: String::new(),
            choice: Choice::default(),
            timestamp: String::new(),
            loading: false,
        }
    }
}

/// How the envelope of a unary request relates to the outcome it reports:
/// a success becomes the response record, a failure the in-band error record.
pub open spec fn envelope_obeys(
    question: Seq<char>,
    outcome: Result<String, GenError>,
    m: Message,
) -> bool {
    match outcome {
        Result::Ok(t) => is_response_message(m, question, t@),
        Result::Err(e) => is_error_message(m, e.describe_spec()),
    }
}

/// Wraps the outcome of a generation as the envelope a unary caller receives.
/// A failure is delivered in-band: the transport never sees it.
pub fn unary_envelope(question: String, outcome: Result<String, GenError>) -> (r: Message)
    ensures
        envelope_obeys(question@, outcome, r),
{
    match outcome {
        Ok(t) => Message::response(question, t),
        Err(e) => Message::error(e.describe()),
    }
}

/// The status record sent as the first outbound frame of every session.
pub fn connected_frame() -> (r: String)
    ensures
        r@ == connected_frame_spec(),
{
    String::from_str(
        "{\"type\":\"connection\",\"status\":\"connected\",\"message\":\"Connected to EY-AI WebSocket\"}",
    )
}

/// What the connect handshake record contains.
pub open spec fn connected_frame_spec() -> Seq<char> {
    "{\"type\":\"connection\",\"status\":\"connected\",\"message\":\"Connected to EY-AI WebSocket\"}"@
}

} // verus!
