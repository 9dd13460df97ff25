//! The capability interface every generation backend implements.

use vstd::prelude::*;

use crate::errors::GenError;

verus! {

/// A pluggable generation backend.
///
/// A provider is stateless: each operation uses only the arguments passed in,
/// so one instance may serve many clients and requests at once. Implementors
/// promise that every failure they report is a per-request backend failure —
/// configuration errors are raised by the layers above, never here.
pub trait ModelProvider: Sized {
    /// Creates a new instance of the provider.
    fn new() -> Self;

    /// Single-shot completion for use where a task scheduler multiplexes
    /// callers.
    fn generate_text(&self, api_key: &str, model: &str, prompt: String) -> (r: Result<
        String,
        GenError,
    >)
        ensures
            r matches Result::Err(e) ==> e.is_backend_failure(),
    ;

    /// Single-shot completion that may occupy its calling thread; success and
    /// error semantics match `generate_text` for the same backend response.
    fn generate_without_async(&self, api_key: String, model: String, prompt: String) -> (r: Result<
        String,
        GenError,
    >)
        ensures
            r matches Result::Err(e) ==> e.is_backend_failure(),
    ;

    /// Incremental completion: either the call itself fails before any chunk
    /// is produced, or it yields a chunk sequence in which an error, if one
    /// occurs, terminates the sequence — no chunk follows it.
    fn generate_stream(&self, api_key: &str, model: &str, prompt: String) -> (r: Result<
        Vec<Result<String, GenError>>,
        GenError,
    >)
        ensures
            r matches Result::Err(e) ==> e.is_backend_failure(),
            r matches Result::Ok(chunks) ==> forall|i: int|
                0 <= i < chunks@.len() - 1 ==> (#[trigger] chunks@[i]) is Ok,
            r matches Result::Ok(chunks) ==> forall|i: int|
                0 <= i < chunks@.len() ==> ((#[trigger] chunks@[i]) matches Result::Err(ce)
                    ==> ce.is_backend_failure()),
    ;
}

} // verus!
