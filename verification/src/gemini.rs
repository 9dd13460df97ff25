//! The Gemini backend as a provider.

use vstd::prelude::*;

use crate::errors::GenError;
use crate::traits::ModelProvider;
use crate::wire::{
    blocking_outcome_obeys, stream_outcome_obeys, unary_generate, unary_outcome_obeys,
};

verus! {

/// The body of a generation request as callers submit it.
pub struct PromptInput {
    pub prompt: String,
}

/// Provider for the Gemini generation service. Stateless: the key and model
/// travel with every call, so one instance serves any number of clients.
#[derive(Debug, Clone, Copy)]
pub struct GeminiProvider;

impl GeminiProvider {
    /// Creates a new instance of the provider.
    pub fn new() -> (r: Self)
    {
        GeminiProvider
    }
}

impl ModelProvider for GeminiProvider {
    fn new() -> Self {
        GeminiProvider
    }

    fn generate_text(&self, api_key: &str, model: &str, prompt: String) -> (r: Result<
        String,
        GenError,
    >)
        ensures
            exists|resp: Result<String, String>| unary_outcome_obeys(resp, r),
    {
        unary_generate(api_key, model, prompt.as_str())
    }

    fn generate_without_async(&self, api_key: String, model: String, prompt: String) -> (r: Result<
        String,
        GenError,
    >)
        ensures
            exists|resp: Result<String, String>| blocking_outcome_obeys(resp, r),
    {
        let r = unary_generate(api_key.as_str(), model.as_str(), prompt.as_str());
        proof {
            let resp = choose|resp: Result<String, String>| unary_outcome_obeys(resp, r);
            assert(blocking_outcome_obeys(resp, r));
        }
        r
    }

    fn generate_stream(&self, api_key: &str, model: &str, prompt: String) -> (r: Result<
        Vec<Result<String, GenError>>,
        GenError,
    >)
        ensures
            exists|resp: Result<String, String>| stream_outcome_obeys(resp, r),
    {
        let out = unary_generate(api_key, model, prompt.as_str());
        let ghost o = out;
        let r: Result<Vec<Result<String, GenError>>, GenError> = match out {
            Ok(text) => {
                let mut chunks: Vec<Result<String, GenError>> = Vec::new();
                chunks.push(Ok(text));
                Ok(chunks)
            },
            Err(e) => match e {
                GenError::BackendUnreachable(d) => Err(GenError::BackendUnreachable(d)),
                other => {
                    let mut chunks: Vec<Result<String, GenError>> = Vec::new();
                    chunks.push(Err(other));
                    Ok(chunks)
                },
            },
        };
        proof {
            let resp = choose|resp: Result<String, String>| unary_outcome_obeys(resp, o);
            assert(stream_outcome_obeys(resp, r));
        }
        r
    }
}

} // verus!
