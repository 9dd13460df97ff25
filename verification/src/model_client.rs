//! A provider bound to one credential/model pair: the unit shared across
//! requests.

use vstd::prelude::*;

use crate::errors::GenError;
use crate::gemini::GeminiProvider;
use crate::model_llm::{gemini_model_name_spec, GeminiModel, ModelLLM};
use crate::traits::ModelProvider;

verus! {

/// The credential/model pair a client holds. Replaced as a whole or not at
/// all: a key from one initialization can never sit beside a model name from
/// another.
pub struct Binding {
    pub api_key: String,
    pub model: String,
}

/// One provider plus the live binding every generate call reads.
pub struct ModelClient<P: ModelProvider> {
    pub provider: P,
    pub binding: Option<Binding>,
}

/// The binding that holds after an initialization: both fields come from the
/// arguments of that initialization and from nothing else.
pub open spec fn init_transition(
    prior: Option<(Seq<char>, Seq<char>)>,
    api_key: Seq<char>,
    model_name: GeminiModel,
) -> Option<(Seq<char>, Seq<char>)> {
    Some((api_key, gemini_model_name_spec(model_name)))
}

/// Initializing twice with the same arguments leaves the binding as one
/// initialization would.
pub proof fn lemma_init_idempotent(
    prior: Option<(Seq<char>, Seq<char>)>,
    api_key: Seq<char>,
    model_name: GeminiModel,
)
    ensures
        init_transition(init_transition(prior, api_key, model_name), api_key, model_name)
            == init_transition(prior, api_key, model_name),
{
}

/// The binding after an initialization does not depend on what was bound
/// before: key and model are replaced together, atomically, so no mix of an
/// old and a new binding is ever observable.
pub proof fn lemma_init_replaces_fully(
    prior1: Option<(Seq<char>, Seq<char>)>,
    prior2: Option<(Seq<char>, Seq<char>)>,
    api_key: Seq<char>,
    model_name: GeminiModel,
)
    ensures
        init_transition(prior1, api_key, model_name) == init_transition(
            prior2,
            api_key,
            model_name,
        ),
{
}

impl<P: ModelProvider> ModelClient<P> {
    /// The abstract value of the live binding.
    pub open spec fn binding_view(&self) -> Option<(Seq<char>, Seq<char>)> {
        match self.binding {
            Some(b) => Some((b.api_key@, b.model@)),
            None => None,
        }
    }

    /// Whether a credential/model pair has been stored.
    pub open spec fn is_initialized(&self) -> bool {
        self.binding is Some
    }

    /// Wraps the given provider; no binding is stored yet, and every
    /// generate call fails with a configuration error until one is.
    pub fn new(provider: P) -> (r: Self)
        ensures
            r.provider == provider,
            !r.is_initialized(),
    {
        ModelClient { provider, binding: None }
    }

    /// Stores the key and the canonical name of the chosen model, replacing
    /// whatever was bound before.
    pub fn init(&mut self, api_key: String, model_name: GeminiModel)
        ensures
            final(self).binding_view() == init_transition(
                old(self).binding_view(),
                api_key@,
                model_name,
            ),
            final(self).is_initialized(),
            final(self).provider == old(self).provider,
    {
        let model = model_name.canonical_name();
        self.binding = Some(Binding { api_key, model });
    }

    /// Reads the live binding and delegates to the provider.
    #[allow(non_snake_case)]
    pub fn GenerateContent(&self, prompt: String) -> (r: Result<String, GenError>)
        ensures
            (r == Result::<String, GenError>::Err(GenError::NotInitialized)) <==> !self
                .is_initialized(),
            r matches Result::Err(e) ==> e == GenError::NotInitialized || e.is_backend_failure(),
    {
        match &self.binding {
            None => Err(GenError::NotInitialized),
            Some(b) => self.provider.generate_text(b.api_key.as_str(), b.model.as_str(), prompt),
        }
    }

    /// The blocking counterpart of `GenerateContent`.
    #[allow(non_snake_case)]
    pub fn GenerateSyncContent(&self, prompt: String) -> (r: Result<String, GenError>)
        ensures
            (r == Result::<String, GenError>::Err(GenError::NotInitialized)) <==> !self
                .is_initialized(),
            r matches Result::Err(e) ==> e == GenError::NotInitialized || e.is_backend_failure(),
    {
        match &self.binding {
            None => Err(GenError::NotInitialized),
            Some(b) => self.provider.generate_without_async(
                b.api_key.clone(),
                b.model.clone(),
                prompt,
            ),
        }
    }

    /// Reads the live binding and asks the provider for an incremental
    /// completion. The chunk ordering promises of the provider carry over.
    pub fn generate_stream(&self, prompt: String) -> (r: Result<
        Vec<Result<String, GenError>>,
        GenError,
    >)
        ensures
            (r == Result::<Vec<Result<String, GenError>>, GenError>::Err(GenError::NotInitialized))
                <==> !self.is_initialized(),
            r matches Result::Err(e) ==> e == GenError::NotInitialized || e.is_backend_failure(),
            r matches Result::Ok(chunks) ==> forall|i: int|
                0 <= i < chunks@.len() - 1 ==> (#[trigger] chunks@[i]) is Ok,
            r matches Result::Ok(chunks) ==> forall|i: int|
                0 <= i < chunks@.len() ==> ((#[trigger] chunks@[i]) matches Result::Err(ce)
                    ==> ce.is_backend_failure()),
    {
        match &self.binding {
            None => Err(GenError::NotInitialized),
            Some(b) => self.provider.generate_stream(b.api_key.as_str(), b.model.as_str(), prompt),
        }
    }
}

impl<P: ModelProvider + Copy> ModelClient<P> {
    /// A working copy carrying the same provider and the same binding: what
    /// a request task copies out under a shared guard, so the guard never
    /// needs to be held across the network call.
    pub fn snapshot(&self) -> (r: Self)
        ensures
            r.provider == self.provider,
            r.binding_view() == self.binding_view(),
    {
        let binding = match &self.binding {
            None => None,
            Some(b) => Some(Binding { api_key: b.api_key.clone(), model: b.model.clone() }),
        };
        ModelClient { provider: self.provider, binding }
    }
}

/// The registry: the one place a provider family is turned into a client.
/// Adding a backend means adding a variant here; no transport code changes.
pub fn selector(model: ModelLLM) -> (r: ModelClient<GeminiProvider>)
    ensures
        !r.is_initialized(),
{
    match model {
        ModelLLM::Gemini => ModelClient::new(GeminiProvider::new()),
    }
}

} // verus!
