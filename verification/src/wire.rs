//! The wire protocol of the upstream backend: request framing, the two
//! trusted calls that touch the network and the response JSON, and the
//! verified classification of whatever the backend answered.
//!
//! Only this module is permitted to know the backend's request and response
//! shapes; everything above it works with plain prompts, texts and errors.

use vstd::prelude::*;
use vstd::string::StringExecFns;
use vstd::string::StringSliceAdditionalSpecFns;

use crate::errors::GenError;

verus! {

/// The lower-case hex digit of one nibble.
pub open spec fn hex_digit(n: u8) -> u8 {
    if n < 10 {
        (48 + n) as u8
    } else {
        (87 + n) as u8
    }
}

/// How one byte of a prompt appears inside a JSON string literal: quote and
/// backslash are escaped, control bytes become a `\u00XX` escape, and every
/// other byte (multi-byte UTF-8 sequences included) passes through unchanged.
pub open spec fn json_escaped_byte(b: u8) -> Seq<u8> {
    if b == 34 {
        seq![92u8, 34u8]
    } else if b == 92 {
        seq![92u8, 92u8]
    } else if b < 32 {
        seq![92u8, 117u8, 48u8, 48u8, hex_digit(b / 16), hex_digit(b % 16)]
    } else {
        seq![b]
    }
}

/// A whole byte string escaped for use inside a JSON string literal.
pub open spec fn json_escape_bytes(s: Seq<u8>) -> Seq<u8>
    decreases s.len(),
{
    if s.len() == 0 {
        Seq::empty()
    } else {
        json_escaped_byte(s[0]) + json_escape_bytes(s.drop_first())
    }
}

/// Escaping distributes over appending one byte at the end.
proof fn lemma_json_escape_push(s: Seq<u8>, b: u8)
    ensures
        json_escape_bytes(s.push(b)) == json_escape_bytes(s) + json_escaped_byte(b),
    decreases s.len(),
{
    reveal_with_fuel(json_escape_bytes, 2);
    if s.len() == 0 {
        assert(s.push(b).drop_first() =~= Seq::<u8>::empty());
        assert(json_escape_bytes(s.push(b)) =~= json_escape_bytes(s) + json_escaped_byte(b));
    } else {
        lemma_json_escape_push(s.drop_first(), b);
        assert(s.push(b).drop_first() =~= s.drop_first().push(b));
        assert(json_escape_bytes(s.push(b)) =~= json_escape_bytes(s) + json_escaped_byte(b));
    }
}

fn hex_digit_exec(n: u8) -> (r: u8)
    requires
        n < 16,
    ensures
        r == hex_digit(n),
{
    if n < 10 {
        48 + n
    } else {
        87 + n
    }
}

/// Appends the escaped form of `bs` to `out`.
fn append_escaped(out: &mut Vec<u8>, bs: &[u8])
    ensures
        final(out)@ == old(out)@ + json_escape_bytes(bs@),
{
    let mut i: usize = 0;
    while i < bs.len()
        invariant
            i <= bs.len(),
            out@ == old(out)@ + json_escape_bytes(bs@.take(i as int)),
        decreases bs.len() - i,
    {
        let b = bs[i];
        if b == 34 {
            out.push(92);
            out.push(34);
        } else if b == 92 {
            out.push(92);
            out.push(92);
        } else if b < 32 {
            out.push(92);
            out.push(117);
            out.push(48);
            out.push(48);
            out.push(hex_digit_exec(b / 16));
            out.push(hex_digit_exec(b % 16));
        } else {
            out.push(b);
        }
        proof {
            lemma_json_escape_push(bs@.take(i as int), bs@[i as int]);
            assert(bs@.take(i + 1 as int) =~= bs@.take(i as int).push(bs@[i as int]));
            assert(out@ =~= old(out)@ + json_escape_bytes(bs@.take(i + 1 as int)));
        }
        i = i + 1;
    }
    proof {
        assert(bs@.take(bs@.len() as int) =~= bs@);
    }
}

/// Appends the UTF-8 bytes of `s` to `out`.
fn append_str_bytes(out: &mut Vec<u8>, s: &str)
    ensures
        final(out)@ == old(out)@ + s.spec_bytes(),
{
    let bs = s.as_bytes();
    let mut i: usize = 0;
    while i < bs.len()
        invariant
            i <= bs.len(),
            bs@ == s.spec_bytes(),
            out@ == old(out)@ + bs@.take(i as int),
        decreases bs.len() - i,
    {
        out.push(bs[i]);
        proof {
            assert(bs@.take(i + 1 as int) =~= bs@.take(i as int).push(bs@[i as int]));
        }
        i = i + 1;
    }
    proof {
        assert(bs@.take(bs@.len() as int) =~= bs@);
    }
}

/// The request document the backend expects: a single prompt, framed as its
/// one content part, with the prompt escaped for the embedding string literal.
pub open spec fn request_body_spec(prompt_bytes: Seq<u8>) -> Seq<u8> {
    "{\"contents\":[{\"parts\":[{\"text\":\"".spec_bytes() + json_escape_bytes(prompt_bytes)
        + "\"}]}]}".spec_bytes()
}

/// Frames one prompt as the backend's request document.
pub fn request_body(prompt: &str) -> (r: Vec<u8>)
    ensures
        r@ == request_body_spec(prompt.spec_bytes()),
{
    let mut out: Vec<u8> = Vec::new();
    append_str_bytes(&mut out, "{\"contents\":[{\"parts\":[{\"text\":\"");
    append_escaped(&mut out, prompt.as_bytes());
    append_str_bytes(&mut out, "\"}]}]}");
    proof {
        assert(out@ =~= request_body_spec(prompt.spec_bytes()));
    }
    out
}

/// The endpoint a generation request for `model` is posted to, keyed by
/// `api_key`.
pub open spec fn url_spec(model: Seq<char>, api_key: Seq<char>) -> Seq<char> {
    "https://generativelanguage.googleapis.com/v1beta/models/"@ + model
        + ":generateContent?key="@ + api_key
}

/// Builds the request URL for one model and API key.
pub fn generate_url(model: &str, api_key: &str) -> (r: String)
    ensures
        r@ == url_spec(model@, api_key@),
{
    let r = String::from_str("https://generativelanguage.googleapis.com/v1beta/models/").concat(
        model,
    ).concat(":generateContent?key=").concat(api_key);
    proof {
        assert(r@ =~= url_spec(model@, api_key@));
    }
    r
}

/// The completion text inside a backend response document, when the document
/// parses as JSON and the first candidate's first part holds a string.
pub uninterp spec fn candidate_text_of(body: Seq<char>) -> Option<Seq<char>>;

/// The application-level error message inside a backend response document,
/// when the document parses as JSON and carries one.
pub uninterp spec fn api_error_of(body: Seq<char>) -> Option<Seq<char>>;

/// Relies on serde_json (`from_str`, `Value::get`, `Value::as_str`): parses
/// `body` and reads the string at `candidates[0].content.parts[0].text`, if
/// that path exists and holds a string. The result depends on `body` alone.
#[verifier::external_body]
fn extract_candidate(body: &str) -> (r: Option<String>)
    ensures
        (r is Some) == (candidate_text_of(body@) is Some),
        r matches Some(t) ==> candidate_text_of(body@) == Some(t@),
{
    let v: serde_json::Value = serde_json::from_str(body).ok()?;
    let text = v["candidates"]
        .get(0)
        .and_then(|c| c["content"]["parts"].get(0))
        .and_then(|p| p["text"].as_str())?;
    Some(text.to_string())
}

/// Relies on serde_json (`from_str`, `Value::get`, `Value::as_str`): parses
/// `body` and reads the string at `error.message`, if that path exists and
/// holds a string. The result depends on `body` alone.
#[verifier::external_body]
fn extract_api_error(body: &str) -> (r: Option<String>)
    ensures
        (r is Some) == (api_error_of(body@) is Some),
        r matches Some(d) ==> api_error_of(body@) == Some(d@),
{
    let v: serde_json::Value = serde_json::from_str(body).ok()?;
    let message = v.get("error")?.get("message")?.as_str()?;
    Some(message.to_string())
}

/// Relies on reqwest's blocking client: POSTs `body` to `url` as JSON and
/// returns the response body text, or the transport failure rendered as a
/// string. Nothing is promised of the outcome: the network decides. The
/// request carries a timeout, so a hung connection ends in `Err` instead of
/// parking the calling thread forever. The blocking client cannot run inside
/// an async task; callers on an async transport hand this work to a
/// blocking-capable thread.
#[verifier::external_body]
fn http_post_json(url: &str, body: Vec<u8>) -> (r: Result<String, String>)
{
    let timeout = std::time::Duration::from_secs(30);
    let client = match reqwest::blocking::ClientBuilder::new().timeout(timeout).build() {
        Ok(c) => c,
        Err(e) => return Err(e.to_string()),
    };
    let sent = client.post(url).header("Content-Type", "application/json").body(body).send();
    let resp = match sent {
        Ok(r) => r,
        Err(e) => return Err(e.to_string()),
    };
    match resp.text() {
        Ok(t) => Ok(t),
        Err(e) => Err(e.to_string()),
    }
}

/// Decides the outcome of a generation from what was found in the response:
/// the completion when one is present, the backend's own failure when it
/// reported one, and a malformed-response error when neither is there.
pub fn classify_response(candidate: Option<String>, api_error: Option<String>) -> (r: Result<
    String,
    GenError,
>)
    ensures
        candidate matches Some(t) ==> r == Result::<String, GenError>::Ok(t),
        candidate is None ==> (api_error matches Some(d) ==> r == Result::<String, GenError>::Err(
            GenError::BackendRejected(d),
        )),
        candidate is None && api_error is None ==> r == Result::<String, GenError>::Err(
            GenError::MalformedResponse,
        ),
{
    match candidate {
        Some(t) => Ok(t),
        None => match api_error {
            Some(d) => Err(GenError::BackendRejected(d)),
            None => Err(GenError::MalformedResponse),
        },
    }
}

/// Reads one backend response document and classifies it.
pub fn parse_backend_response(body: &str) -> (r: Result<String, GenError>)
    ensures
        candidate_text_of(body@) matches Some(t) ==> r matches Result::Ok(s) && s@ == t,
        candidate_text_of(body@) is None ==> (api_error_of(body@) matches Some(d) ==> r matches
            Result::Err(e) && e matches GenError::BackendRejected(m) && m@ == d),
        candidate_text_of(body@) is None && api_error_of(body@) is None ==> r == Result::<
            String,
            GenError,
        >::Err(GenError::MalformedResponse),
        r matches Result::Err(e) ==> e.is_backend_failure(),
{
    let candidate = extract_candidate(body);
    let api_error = extract_api_error(body);
    classify_response(candidate, api_error)
}

/// How the non-blocking unary path turns one backend response (or transport
/// failure) into its result.
pub open spec fn unary_outcome_obeys(resp: Result<String, String>, r: Result<
    String,
    GenError,
>) -> bool {
    match resp {
        Result::Err(d) => r == Result::<String, GenError>::Err(GenError::BackendUnreachable(d)),
        Result::Ok(body) => if candidate_text_of(body@) is Some {
            r matches Result::Ok(t) && candidate_text_of(body@) == Some(t@)
        } else if api_error_of(body@) is Some {
            r matches Result::Err(e) && e matches GenError::BackendRejected(m) && api_error_of(
                body@,
            ) == Some(m@)
        } else {
            r == Result::<String, GenError>::Err(GenError::MalformedResponse)
        },
    }
}

/// How the blocking unary path turns one backend response (or transport
/// failure) into its result.
pub open spec fn blocking_outcome_obeys(resp: Result<String, String>, r: Result<
    String,
    GenError,
>) -> bool {
    match resp {
        Result::Err(d) => r == Result::<String, GenError>::Err(GenError::BackendUnreachable(d)),
        Result::Ok(body) => if candidate_text_of(body@) is Some {
            r matches Result::Ok(t) && candidate_text_of(body@) == Some(t@)
        } else if api_error_of(body@) is Some {
            r matches Result::Err(e) && e matches GenError::BackendRejected(m) && api_error_of(
                body@,
            ) == Some(m@)
        } else {
            r == Result::<String, GenError>::Err(GenError::MalformedResponse)
        },
    }
}

/// How the streaming path turns one backend response (or transport failure)
/// into its result: the call itself fails exactly for a transport failure,
/// and otherwise yields one chunk — the completion as a fragment, or the
/// classified failure as the terminal chunk.
pub open spec fn stream_outcome_obeys(resp: Result<String, String>, r: Result<
    Vec<Result<String, GenError>>,
    GenError,
>) -> bool {
    match resp {
        Result::Err(d) => r == Result::<Vec<Result<String, GenError>>, GenError>::Err(
            GenError::BackendUnreachable(d),
        ),
        Result::Ok(body) => r matches Result::Ok(chunks) && chunks@.len() == 1 && (if candidate_text_of(
            body@,
        ) is Some {
            chunks@[0] matches Result::Ok(t) && candidate_text_of(body@) == Some(t@)
        } else if api_error_of(body@) is Some {
            chunks@[0] matches Result::Err(e) && e matches GenError::BackendRejected(m)
                && api_error_of(body@) == Some(m@)
        } else {
            chunks@[0] == Result::<String, GenError>::Err(GenError::MalformedResponse)
        }),
    }
}

/// The success text of an outcome, if any.
pub open spec fn ok_view(r: Result<String, GenError>) -> Option<Seq<char>> {
    match r {
        Result::Ok(t) => Some(t@),
        Result::Err(_) => None,
    }
}

/// The rendered error of an outcome, if any.
pub open spec fn err_describe_view(r: Result<String, GenError>) -> Option<Seq<char>> {
    match r {
        Result::Ok(_) => None,
        Result::Err(e) => Some(e.describe_spec()),
    }
}

/// Transport equivalence: for one and the same backend response, any result
/// the non-blocking path may return and any result the blocking path may
/// return carry the same success text and the same error description.
pub proof fn lemma_transport_equivalence(
    resp: Result<String, String>,
    r1: Result<String, GenError>,
    r2: Result<String, GenError>,
)
    requires
        unary_outcome_obeys(resp, r1),
        blocking_outcome_obeys(resp, r2),
    ensures
        ok_view(r1) == ok_view(r2),
        err_describe_view(r1) == err_describe_view(r2),
{
}

/// One unary generation request: frames the prompt, posts it, and classifies
/// whatever came back. Every error it returns is a backend failure, and the
/// result is a faithful outcome for the response the transport delivered.
pub fn unary_generate(api_key: &str, model: &str, prompt: &str) -> (r: Result<String, GenError>)
    ensures
        r matches Result::Err(e) ==> e.is_backend_failure(),
        exists|resp: Result<String, String>| unary_outcome_obeys(resp, r),
{
    let url = generate_url(model, api_key);
    let body = request_body(prompt);
    let resp = http_post_json(url.as_str(), body);
    let ghost sent_resp = resp;
    let r = match resp {
        Err(d) => Err(GenError::BackendUnreachable(d)),
        Ok(b) => parse_backend_response(b.as_str()),
    };
    proof {
        assert(unary_outcome_obeys(sent_resp, r));
    }
    r
}

} // verus!
