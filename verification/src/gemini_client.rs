//! A self-contained Gemini client holding only an API key and speaking to a
//! fixed model.

use vstd::prelude::*;
use vstd::pervasive::unreached;

use crate::errors::GenError;
use crate::message::{envelope_obeys, is_error_message, Message};
use crate::wire::{unary_generate, unary_outcome_obeys};

verus! {

/// A client bound to the default Gemini model; only the API key is mutable
/// state, and it is stored whole by `initiate`.
pub struct GeminiClient {
    key: Option<String>,
}

impl GeminiClient {
    /// The stored API key, if one was stored.
    pub closed spec fn key_spec(&self) -> Option<Seq<char>> {
        match self.key {
            Some(k) => Some(k@),
            None => None,
        }
    }

    /// Whether an API key has been stored.
    pub open spec fn is_initiated(&self) -> bool {
        self.key_spec() is Some
    }

    /// A client with no key: every generation fails with a configuration
    /// error until `initiate` stores one.
    pub fn new() -> (r: Self)
        ensures
            !r.is_initiated(),
    {
        GeminiClient { key: None }
    }

    /// Stores the API key, replacing any key stored before.
    pub fn initiate(&mut self, env: String)
        ensures
            final(self).key_spec() == Some(env@),
    {
        self.key = Some(env);
    }

    /// The stored API key.
    pub fn get_key(&self) -> (r: String)
        requires
            self.is_initiated(),
        ensures
            Some(r@) == self.key_spec(),
    {
        match &self.key {
            Some(k) => k.clone(),
            None => unreached(),
        }
    }

    /// One generation against the default model: the raw outcome, with a
    /// configuration error exactly when no key is stored (in which case
    /// nothing is sent).
    pub fn generate_text(&self, prompt: String) -> (r: Result<String, GenError>)
        ensures
            (r == Result::<String, GenError>::Err(GenError::NotInitialized)) <==> !self
                .is_initiated(),
            r matches Result::Err(e) ==> e == GenError::NotInitialized || e.is_backend_failure(),
            self.is_initiated() ==> exists|resp: Result<String, String>|
                unary_outcome_obeys(resp, r),
    {
        match &self.key {
            None => Err(GenError::NotInitialized),
            Some(k) => unary_generate(k.as_str(), "gemini-2.5-flash", prompt.as_str()),
        }
    }

    /// One generation against the default model, delivered as an envelope:
    /// a success becomes the response record, any failure the in-band error
    /// record, and the transport sees no error either way. The envelope
    /// reports the not-initialized error exactly when no key is stored; with
    /// a key stored it reports a faithful outcome of the backend exchange.
    pub fn generate(&self, prompt: String) -> (r: Message)
        ensures
            !self.is_initiated() ==> is_error_message(
                r,
                GenError::NotInitialized.describe_spec(),
            ),
            exists|outcome: Result<String, GenError>|
                #[trigger] envelope_obeys(prompt@, outcome, r) && ((outcome == Result::<
                    String,
                    GenError,
                >::Err(GenError::NotInitialized)) <==> !self.is_initiated()) && (outcome matches
                    Result::Err(e) ==> e == GenError::NotInitialized || e.is_backend_failure())
                    && (self.is_initiated() ==> exists|resp: Result<String, String>|
                    unary_outcome_obeys(resp, outcome)),
    {
        let outcome = self.generate_text(prompt.clone());
        let ghost o = outcome;
        let r = crate::message::unary_envelope(prompt, outcome);
        proof {
            assert(envelope_obeys(prompt@, o, r) && ((o == Result::<String, GenError>::Err(
                GenError::NotInitialized,
            )) <==> !self.is_initiated()) && (o matches Result::Err(e) ==> e
                == GenError::NotInitialized || e.is_backend_failure()) && (self.is_initiated()
                ==> exists|resp: Result<String, String>| unary_outcome_obeys(resp, o)));
        }
        r
    }

    /// The blocking variant of `generate`; the pipeline is synchronous, so
    /// the two share one path and one meaning.
    pub fn generate_without_async(&self, prompt: String) -> (r: Message)
        ensures
            !self.is_initiated() ==> is_error_message(
                r,
                GenError::NotInitialized.describe_spec(),
            ),
            exists|outcome: Result<String, GenError>|
                #[trigger] envelope_obeys(prompt@, outcome, r) && ((outcome == Result::<
                    String,
                    GenError,
                >::Err(GenError::NotInitialized)) <==> !self.is_initiated()) && (outcome matches
                    Result::Err(e) ==> e == GenError::NotInitialized || e.is_backend_failure())
                    && (self.is_initiated() ==> exists|resp: Result<String, String>|
                    unary_outcome_obeys(resp, outcome)),
    {
        self.generate(prompt)
    }
}

} // verus!
