//! The stream relay: republishes a provider's chunk sequence as transport
//! events without buffering the whole response, and turns a mid-stream
//! failure into one in-band terminal event instead of a transport error.

use vstd::prelude::*;
use vstd::string::StringExecFns;

use crate::errors::GenError;

verus! {

/// One transport event of a streamed generation.
#[derive(Debug, Clone, PartialEq, Eq)]
pub enum RelayEvent {
    /// A fragment of the completion, in arrival order.
    Data(String),
    /// The terminal event of a failed stream; nothing follows it.
    Error(GenError),
}

impl RelayEvent {
    /// The text this event carries on a server-push wire: the fragment
    /// itself, or the failure rendered as an `error: `-prefixed line.
    pub fn sse_data(&self) -> (r: String)
        ensures
            self matches RelayEvent::Data(s) ==> r@ == s@,
            self matches RelayEvent::Error(e) ==> r@ == "error: "@ + e.describe_spec(),
    {
        match self {
            RelayEvent::Data(s) => s.clone(),
            RelayEvent::Error(e) => String::from_str("error: ").concat(e.describe().as_str()),
        }
    }
}

/// The event one chunk becomes.
pub open spec fn relay_of_chunk(c: Result<String, GenError>) -> RelayEvent {
    match c {
        Result::Ok(s) => RelayEvent::Data(s),
        Result::Err(e) => RelayEvent::Error(e),
    }
}

/// Every chunk is a fragment.
pub open spec fn all_ok(chunks: Seq<Result<String, GenError>>) -> bool {
    forall|i: int| 0 <= i < chunks.len() ==> (#[trigger] chunks[i]) is Ok
}

/// What the relay publishes for a chunk sequence: one data event per
/// fragment until the first failure, which becomes the final event; chunks
/// after a failure are never observed.
pub open spec fn relay_spec(chunks: Seq<Result<String, GenError>>) -> Seq<RelayEvent>
    decreases chunks.len(),
{
    if chunks.len() == 0 {
        Seq::empty()
    } else {
        match chunks[0] {
            Result::Ok(s) => seq![RelayEvent::Data(s)] + relay_spec(chunks.drop_first()),
            Result::Err(e) => seq![RelayEvent::Error(e)],
        }
    }
}

/// While no failure has occurred, relaying one more chunk appends one event.
proof fn lemma_relay_snoc(s: Seq<Result<String, GenError>>, c: Result<String, GenError>)
    requires
        all_ok(s),
    ensures
        relay_spec(s.push(c)) == relay_spec(s).push(relay_of_chunk(c)),
    decreases s.len(),
{
    reveal_with_fuel(relay_spec, 2);
    if s.len() == 0 {
        assert(s.push(c).drop_first() =~= Seq::<Result<String, GenError>>::empty());
        assert(relay_spec(s.push(c)) =~= relay_spec(s).push(relay_of_chunk(c)));
    } else {
        assert(s[0] is Ok);
        assert forall|i: int| 0 <= i < s.drop_first().len() implies (#[trigger] s.drop_first()[i])
            is Ok by {
            assert(s.drop_first()[i] == s[i + 1]);
        }
        lemma_relay_snoc(s.drop_first(), c);
        assert(s.push(c).drop_first() =~= s.drop_first().push(c));
        assert(relay_spec(s.push(c)) =~= relay_spec(s).push(relay_of_chunk(c)));
    }
}

/// Once the first failure is reached, the rest of the sequence contributes
/// nothing: the relay's output is already complete.
proof fn lemma_relay_stops(chunks: Seq<Result<String, GenError>>, i: int)
    requires
        0 <= i < chunks.len(),
        all_ok(chunks.take(i)),
        chunks[i] is Err,
    ensures
        relay_spec(chunks) == relay_spec(chunks.take(i + 1)),
    decreases i,
{
    reveal_with_fuel(relay_spec, 2);
    if i == 0 {
        assert(chunks.take(1)[0] == chunks[0]);
        assert(relay_spec(chunks) =~= relay_spec(chunks.take(1)));
    } else {
        assert(chunks.take(i)[0] == chunks[0]);
        assert(chunks[0] is Ok);
        assert forall|j: int| 0 <= j < chunks.drop_first().take(i - 1).len() implies (
        #[trigger] chunks.drop_first().take(i - 1)[j]) is Ok by {
            assert(chunks.drop_first().take(i - 1)[j] == chunks.take(i)[j + 1]);
        }
        assert(chunks.drop_first()[i - 1] == chunks[i]);
        lemma_relay_stops(chunks.drop_first(), i - 1);
        assert(chunks.take(i + 1).drop_first() =~= chunks.drop_first().take(i));
        assert(chunks.take(i + 1)[0] == chunks[0]);
        assert(relay_spec(chunks) =~= relay_spec(chunks.take(i + 1)));
    }
}

/// Order preservation, no drop: when every chunk is a fragment, the relay
/// republishes exactly one data event per fragment, in the same order, and
/// ends without a terminal error event.
pub proof fn lemma_relay_preserves_fragments(chunks: Seq<Result<String, GenError>>)
    requires
        all_ok(chunks),
    ensures
        relay_spec(chunks).len() == chunks.len(),
        forall|i: int|
            0 <= i < chunks.len() ==> (#[trigger] relay_spec(chunks)[i]) == relay_of_chunk(
                chunks[i],
            ),
    decreases chunks.len(),
{
    if chunks.len() > 0 {
        assert(chunks[0] is Ok);
        assert forall|i: int| 0 <= i < chunks.drop_first().len() implies (
        #[trigger] chunks.drop_first()[i]) is Ok by {
            assert(chunks.drop_first()[i] == chunks[i + 1]);
        }
        lemma_relay_preserves_fragments(chunks.drop_first());
        assert forall|i: int| 0 <= i < chunks.len() implies (#[trigger] relay_spec(chunks)[i])
            == relay_of_chunk(chunks[i]) by {
            if i > 0 {
                assert(relay_spec(chunks)[i] == relay_spec(chunks.drop_first())[i - 1]);
                assert(chunks.drop_first()[i - 1] == chunks[i]);
            }
        }
    }
}

/// A mid-stream failure: the relay yields the data events of the fragments
/// before the first failing chunk, then exactly one terminal error event,
/// and nothing further.
pub proof fn lemma_relay_stops_at_error(chunks: Seq<Result<String, GenError>>, i: int)
    requires
        0 <= i < chunks.len(),
        all_ok(chunks.take(i)),
        chunks[i] is Err,
    ensures
        relay_spec(chunks).len() == i + 1,
        forall|j: int|
            0 <= j < i ==> (#[trigger] relay_spec(chunks)[j]) == relay_of_chunk(chunks[j]),
        relay_spec(chunks)[i] == relay_of_chunk(chunks[i]),
        relay_spec(chunks)[i] is Error,
{
    lemma_relay_stops(chunks, i);
    lemma_relay_snoc(chunks.take(i), chunks[i]);
    assert(chunks.take(i + 1) =~= chunks.take(i).push(chunks[i]));
    lemma_relay_preserves_fragments(chunks.take(i));
    assert forall|j: int| 0 <= j < i implies (#[trigger] relay_spec(chunks)[j]) == relay_of_chunk(
        chunks[j],
    ) by {
        assert(relay_spec(chunks)[j] == relay_spec(chunks.take(i))[j]);
        assert(chunks.take(i)[j] == chunks[j]);
    }
}

/// One step of the relay: the liveness after the chunk and the event, if
/// any, that the chunk becomes.
pub open spec fn step_spec(live: bool, chunk: Result<String, GenError>) -> (
    bool,
    Option<RelayEvent>,
) {
    if live {
        match chunk {
            Result::Ok(s) => (true, Some(RelayEvent::Data(s))),
            Result::Err(e) => (false, Some(RelayEvent::Error(e))),
        }
    } else {
        (false, None)
    }
}

/// The events a relay with liveness `live` emits when `chunks` are fed to it
/// one at a time.
pub open spec fn step_trace(live: bool, chunks: Seq<Result<String, GenError>>) -> Seq<RelayEvent>
    decreases chunks.len(),
{
    if chunks.len() == 0 {
        Seq::empty()
    } else {
        (match step_spec(live, chunks[0]).1 {
            Some(ev) => seq![ev],
            None => Seq::empty(),
        }) + step_trace(step_spec(live, chunks[0]).0, chunks.drop_first())
    }
}

/// A closed relay emits nothing, however many chunks are still fed.
proof fn lemma_closed_trace_is_empty(chunks: Seq<Result<String, GenError>>)
    ensures
        step_trace(false, chunks) == Seq::<RelayEvent>::empty(),
    decreases chunks.len(),
{
    if chunks.len() > 0 {
        lemma_closed_trace_is_empty(chunks.drop_first());
        assert(step_trace(false, chunks) =~= Seq::<RelayEvent>::empty());
    }
}

/// Feeding a fresh relay one chunk at a time emits exactly the published
/// sequence: the step machine neither reorders, drops, adds nor buffers.
pub proof fn lemma_step_trace_matches_relay(chunks: Seq<Result<String, GenError>>)
    ensures
        step_trace(true, chunks) == relay_spec(chunks),
    decreases chunks.len(),
{
    if chunks.len() > 0 {
        if chunks[0] is Ok {
            lemma_step_trace_matches_relay(chunks.drop_first());
        } else {
            lemma_closed_trace_is_empty(chunks.drop_first());
        }
        assert(step_trace(true, chunks) =~= relay_spec(chunks));
    }
}

/// The relay as a per-chunk machine: a transport feeds chunks as they
/// arrive and forwards each event as it is produced, so nothing is buffered.
/// After the terminal error event the relay is closed and emits no more.
pub struct Relay {
    live: bool,
}

impl Relay {
    /// Whether the relay still forwards events.
    pub closed spec fn is_live(&self) -> bool {
        self.live
    }

    /// A fresh relay for one generation.
    pub fn new() -> (r: Relay)
        ensures
            r.is_live(),
    {
        Relay { live: true }
    }

    /// Feeds one chunk: a fragment becomes a data event, a failure becomes
    /// the terminal error event and closes the relay, and a closed relay
    /// emits nothing.
    pub fn step(&mut self, chunk: Result<String, GenError>) -> (ev: Option<RelayEvent>)
        ensures
            final(self).is_live() == step_spec(old(self).is_live(), chunk).0,
            ev == step_spec(old(self).is_live(), chunk).1,
    {
        if self.live {
            match chunk {
                Ok(s) => Some(RelayEvent::Data(s)),
                Err(e) => {
                    self.live = false;
                    Some(RelayEvent::Error(e))
                },
            }
        } else {
            None
        }
    }
}

/// Consumes a provider's chunk sequence and publishes the relay's events for
/// it: fragments in order, a failure as the one terminal event.
pub fn relay_chunks(chunks: Vec<Result<String, GenError>>) -> (evs: Vec<RelayEvent>)
    ensures
        evs@ == relay_spec(chunks@),
{
    let ghost orig = chunks@;
    let mut rest = chunks;
    let mut evs: Vec<RelayEvent> = Vec::new();
    let ghost mut k: int = 0;
    let mut stopped = false;
    while !stopped && rest.len() > 0
        invariant
            0 <= k <= orig.len(),
            rest@ == orig.skip(k),
            !stopped ==> all_ok(orig.take(k)) && evs@ == relay_spec(orig.take(k)),
            stopped ==> evs@ == relay_spec(orig),
        decreases orig.len() - k,
    {
        let c = rest.remove(0);
        proof {
            assert(c == orig[k]);
            assert(orig.skip(k).remove(0) =~= orig.skip(k + 1));
            lemma_relay_snoc(orig.take(k), c);
            assert(orig.take(k + 1) =~= orig.take(k).push(c));
        }
        match c {
            Ok(s) => {
                evs.push(RelayEvent::Data(s));
                proof {
                    assert forall|i: int| 0 <= i < orig.take(k + 1).len() implies (
                    #[trigger] orig.take(k + 1)[i]) is Ok by {
                        if i < k {
                            assert(orig.take(k + 1)[i] == orig.take(k)[i]);
                        }
                    }
                }
            },
            Err(e) => {
                evs.push(RelayEvent::Error(e));
                proof {
                    lemma_relay_stops(orig, k);
                }
                stopped = true;
            },
        }
        proof {
            k = k + 1;
        }
    }
    proof {
        if !stopped {
            assert(orig.skip(k).len() == 0);
            assert(orig.take(k) =~= orig);
        }
    }
    evs
}

/// When the stream call itself fails, the relay publishes a single terminal
/// error event and ends the stream at once: zero data events.
pub fn relay_failed_start(e: GenError) -> (evs: Vec<RelayEvent>)
    ensures
        evs@ == seq![RelayEvent::Error(e)],
{
    let mut evs: Vec<RelayEvent> = Vec::new();
    evs.push(RelayEvent::Error(e));
    proof {
        assert(evs@ =~= seq![RelayEvent::Error(e)]);
    }
    evs
}

} // verus!
