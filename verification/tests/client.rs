use std::cell::Cell;

use eyai::errors::GenError;
use eyai::gemini_client::GeminiClient;
use eyai::message::unary_envelope;
use eyai::model_client::{selector, ModelClient};
use eyai::model_llm::{GeminiModel, ModelLLM};
use eyai::relay::{relay_chunks, RelayEvent};
use eyai::traits::ModelProvider;

/// A backend double: answers from a canned script and counts its calls.
struct StubProvider {
    reply: Result<String, GenError>,
    chunks: Vec<Result<String, GenError>>,
    calls: Cell<u32>,
}

impl StubProvider {
    fn replying(text: &str) -> Self {
        StubProvider {
            reply: Ok(text.to_string()),
            chunks: vec![Ok(text.to_string())],
            calls: Cell::new(0),
        }
    }

    fn with_chunks(chunks: Vec<Result<String, GenError>>) -> Self {
        StubProvider {
            reply: Ok(String::new()),
            chunks,
            calls: Cell::new(0),
        }
    }
}

impl ModelProvider for StubProvider {
    fn new() -> Self {
        StubProvider::replying("")
    }

    fn generate_text(&self, _api_key: &str, _model: &str, _prompt: String) -> Result<String, GenError> {
        self.calls.set(self.calls.get() + 1);
        self.reply.clone()
    }

    fn generate_without_async(
        &self,
        _api_key: String,
        _model: String,
        _prompt: String,
    ) -> Result<String, GenError> {
        self.calls.set(self.calls.get() + 1);
        self.reply.clone()
    }

    fn generate_stream(
        &self,
        _api_key: &str,
        _model: &str,
        _prompt: String,
    ) -> Result<Vec<Result<String, GenError>>, GenError> {
        self.calls.set(self.calls.get() + 1);
        Ok(self.chunks.clone())
    }
}

#[test]
fn generate_before_init_fails_without_backend_call() {
    let client = ModelClient::new(StubProvider::replying("unused"));
    let r = client.GenerateContent("hi".to_string());
    assert_eq!(r, Err(GenError::NotInitialized));
    assert_eq!(client.provider.calls.get(), 0);

    let r = client.GenerateSyncContent("hi".to_string());
    assert_eq!(r, Err(GenError::NotInitialized));
    let r = client.generate_stream("hi".to_string());
    assert_eq!(r, Err(GenError::NotInitialized));
    assert_eq!(client.provider.calls.get(), 0);
}

#[test]
fn generate_after_init_uses_provider() {
    let mut client = ModelClient::new(StubProvider::replying("pong"));
    client.init("key".to_string(), GeminiModel::Gemini25Flash);
    let r = client.GenerateContent("ping".to_string());
    assert_eq!(r, Ok("pong".to_string()));
    assert_eq!(client.provider.calls.get(), 1);
}

#[test]
fn blocking_and_nonblocking_agree_on_same_backend_reply() {
    let mut client = ModelClient::new(StubProvider::replying("same answer"));
    client.init("key".to_string(), GeminiModel::Gemini25Flash);
    let a = client.GenerateContent("q".to_string());
    let b = client.GenerateSyncContent("q".to_string());
    assert_eq!(a, b);

    let ma = unary_envelope("q".to_string(), a);
    let mb = unary_envelope("q".to_string(), b);
    assert_eq!(ma, mb);
    assert_eq!(ma.choice.role.content, "same answer");
}

#[test]
fn stream_through_relay_keeps_order() {
    let mut client = ModelClient::new(StubProvider::with_chunks(vec![
        Ok("a".to_string()),
        Ok("b".to_string()),
        Ok("c".to_string()),
    ]));
    client.init("key".to_string(), GeminiModel::Gemini25Flash);
    let chunks = client.generate_stream("q".to_string()).unwrap();
    let events = relay_chunks(chunks);
    assert_eq!(
        events,
        vec![
            RelayEvent::Data("a".to_string()),
            RelayEvent::Data("b".to_string()),
            RelayEvent::Data("c".to_string()),
        ]
    );
}

#[test]
fn backend_failure_passes_through_client() {
    let mut client = ModelClient::new(StubProvider {
        reply: Err(GenError::BackendUnreachable("connection refused".to_string())),
        chunks: Vec::new(),
        calls: Cell::new(0),
    });
    client.init("key".to_string(), GeminiModel::Gemini25Flash);
    let r = client.GenerateContent("q".to_string());
    assert_eq!(
        r,
        Err(GenError::BackendUnreachable("connection refused".to_string()))
    );
    let m = unary_envelope("q".to_string(), r);
    assert_eq!(m.id, "error");
    assert_eq!(
        m.choice.role.content,
        "Failed to send request: connection refused"
    );
}

#[test]
fn init_is_idempotent_and_replaces_wholly() {
    let mut client = ModelClient::new(StubProvider::replying("r"));
    client.init("k1".to_string(), GeminiModel::Gemini25Flash);
    client.init("k1".to_string(), GeminiModel::Gemini25Flash);
    let b = client.binding.as_ref().unwrap();
    assert_eq!(b.api_key, "k1");
    assert_eq!(b.model, "gemini-2.5-flash");

    client.init("k2".to_string(), GeminiModel::Gemini25Pro);
    let b = client.binding.as_ref().unwrap();
    assert_eq!(b.api_key, "k2");
    assert_eq!(b.model, "gemini-2.5-pro");
}

#[test]
fn stub_scenario_yields_assistant_message() {
    let mut client = ModelClient::new(StubProvider::replying("AI learns patterns from data."));
    client.init("key".to_string(), GeminiModel::Gemini25Flash);
    let outcome = client.GenerateContent("Explain AI in one sentence".to_string());
    let m = unary_envelope("Explain AI in one sentence".to_string(), outcome);
    assert_eq!(m.choice.role.role, "assistant");
    assert_eq!(m.choice.role.content, "AI learns patterns from data.");
    assert!(!m.loading);
}

#[test]
fn snapshot_carries_provider_and_binding() {
    let mut client = selector(ModelLLM::Gemini);
    let early = client.snapshot();
    assert!(early.binding.is_none());

    client.init("key".to_string(), GeminiModel::Gemini25FlashLite);
    let snap = client.snapshot();
    let b = snap.binding.as_ref().unwrap();
    assert_eq!(b.api_key, "key");
    assert_eq!(b.model, "gemini-2.5-flash-lite");
}

#[test]
fn gemini_client_requires_initiation() {
    let client = GeminiClient::new();
    assert_eq!(
        client.generate_text("hi".to_string()),
        Err(GenError::NotInitialized)
    );
    let m = client.generate("hi".to_string());
    assert_eq!(m.id, "error");
    assert_eq!(m.choice.role.content, "Client not initialized");
}

#[test]
fn gemini_client_stores_key() {
    let mut client = GeminiClient::new();
    client.initiate("first-key".to_string());
    assert_eq!(client.get_key(), "first-key");
    client.initiate("other".to_string());
    assert_eq!(client.get_key(), "other");
}
