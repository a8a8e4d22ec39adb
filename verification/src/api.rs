//! Chat requests and the handling of what a model sends back.
use vstd::prelude::*;

use crate::text::{
    chars_of, concat_str, contains_seq, find_chars_from, find_from, find_seq, lemma_absent_in_subrange,
    lemma_find_from, lemma_trim_bounds, law_trim_idempotent, opt_view, trim_chars, trim_seq,
};

verus! {

/// The characters of the tag that opens a reasoning block.
pub open spec fn open_tag() -> Seq<char> {
    seq!['<', 't', 'h', 'i', 'n', 'k', '>']
}

/// The characters of the tag that closes a reasoning block.
pub open spec fn close_tag() -> Seq<char> {
    seq!['<', '/', 't', 'h', 'i', 'n', 'k', '>']
}

/// `s` with every reasoning block removed: the first `<think>` is cut out
/// together with everything up to and including the next `</think>` (or on
/// its own when no `</think>` follows), and this repeats on the result until
/// no `<think>` is left.
pub open spec fn strip_blocks(s: Seq<char>) -> Seq<char>
    decreases s.len(),
{
    match find_seq(s, open_tag()) {
        None => s,
        Some(i) => {
            proof {
                lemma_find_from(s, open_tag(), 0);
            }
            match find_from(s, close_tag(), i) {
                Some(j) => {
                    proof {
                        lemma_find_from(s, close_tag(), i);
                    }
                    strip_blocks(s.take(i) + s.skip(j + 8))
                },
                None => strip_blocks(s.take(i) + s.skip(i + 7)),
            }
        },
    }
}

/// What a model's reply becomes once reasoning blocks are removed and the
/// rest is trimmed.
pub open spec fn stripped_reply(s: Seq<char>) -> Seq<char> {
    trim_seq(strip_blocks(s))
}

/// No reasoning block is left once they are removed.
pub proof fn lemma_strip_blocks_leaves_no_tag(s: Seq<char>)
    ensures
        !contains_seq(strip_blocks(s), open_tag()),
    decreases s.len(),
{
    match find_seq(s, open_tag()) {
        None => {},
        Some(i) => {
            lemma_find_from(s, open_tag(), 0);
            match find_from(s, close_tag(), i) {
                Some(j) => {
                    lemma_find_from(s, close_tag(), i);
                    lemma_strip_blocks_leaves_no_tag(s.take(i) + s.skip(j + 8));
                },
                None => {
                    lemma_strip_blocks_leaves_no_tag(s.take(i) + s.skip(i + 7));
                },
            }
        },
    }
}

/// A refined reply never contains `<think>`.
pub proof fn law_reply_has_no_open_tag(s: Seq<char>)
    ensures
        !contains_seq(stripped_reply(s), open_tag()),
{
    let blocks = strip_blocks(s);
    lemma_strip_blocks_leaves_no_tag(s);
    let r = lemma_trim_bounds(blocks);
    lemma_absent_in_subrange(blocks, open_tag(), r.0, r.1);
}

/// A reply without `<think>` is only trimmed.
pub proof fn law_untagged_reply_only_trimmed(s: Seq<char>)
    requires
        !contains_seq(s, open_tag()),
    ensures
        stripped_reply(s) == trim_seq(s),
{
}

/// Refining a refined reply changes nothing.
pub proof fn law_strip_idempotent(s: Seq<char>)
    ensures
        stripped_reply(stripped_reply(s)) == stripped_reply(s),
{
    law_reply_has_no_open_tag(s);
    law_trim_idempotent(strip_blocks(s));
}

/// `cs` with the positions `a..b` cut out.
fn cut_out(cs: &Vec<char>, a: usize, b: usize) -> (res: Vec<char>)
    requires
        a <= b <= cs@.len(),
    ensures
        res@ == cs@.take(a as int) + cs@.skip(b as int),
{
    let mut res: Vec<char> = Vec::new();
    let mut k: usize = 0;
    while k < a
        invariant
            k <= a <= b <= cs@.len(),
            res@ == cs@.take(k as int),
        decreases a - k,
    {
        res.push(cs[k]);
        k = k + 1;
        assert(res@ =~= cs@.take(k as int));
    }
    let mut m: usize = b;
    while m < cs.len()
        invariant
            a <= b <= m <= cs@.len(),
            res@ == cs@.take(a as int) + cs@.subrange(b as int, m as int),
        decreases cs.len() - m,
    {
        res.push(cs[m]);
        m = m + 1;
        assert(res@ =~= cs@.take(a as int) + cs@.subrange(b as int, m as int));
    }
    assert(cs@.subrange(b as int, cs@.len() as int) =~= cs@.skip(b as int));
    res
}

/// Removes the reasoning blocks (`<think>...</think>`) that some models put
/// before their answer, then trims surrounding white space.
pub fn strip_thinking_tags(content: String) -> (res: String)
    ensures
        res@ == stripped_reply(content@),
        !contains_seq(res@, open_tag()),
{
    let open: Vec<char> = vec!['<', 't', 'h', 'i', 'n', 'k', '>'];
    let close: Vec<char> = vec!['<', '/', 't', 'h', 'i', 'n', 'k', '>'];
    assert(open@ == open_tag());
    assert(close@ == close_tag());
    let mut cs = chars_of(content.as_str());
    loop
        invariant
            open@ == open_tag(),
            close@ == close_tag(),
            strip_blocks(cs@) == strip_blocks(content@),
        ensures
            strip_blocks(cs@) == strip_blocks(content@),
            find_seq(cs@, open_tag()) is None,
        decreases cs@.len(),
    {
        match find_chars_from(cs.as_slice(), open.as_slice(), 0) {
            None => {
                break ;
            },
            Some(start) => {
                proof {
                    lemma_find_from(cs@, open_tag(), 0);
                }
                assert(start + 7 <= cs.len());
                let end = match find_chars_from(cs.as_slice(), close.as_slice(), start) {
                    Some(j) => {
                        proof {
                            lemma_find_from(cs@, close_tag(), start as int);
                        }
                        assert(j + 8 <= cs.len());
                        j + 8
                    },
                    None => start + 7,
                };
                cs = cut_out(&cs, start, end);
            },
        }
    }
    assert(strip_blocks(cs@) == cs@);
    let res = trim_chars(cs.as_slice());
    proof {
        law_reply_has_no_open_tag(content@);
    }
    res
}


// ---------------------------------------------------------------------------
// Requests
// ---------------------------------------------------------------------------

/// The OpenRouter chat endpoint, used unless another is configured.
pub const OPENROUTER_URL: &'static str = "https://openrouter.ai/api/v1/chat/completions";

/// The base of the Gemini API.
pub const GEMINI_BASE_URL: &'static str = "https://generativelanguage.googleapis.com/v1beta";

/// How the application names itself to the services.
pub const USER_AGENT: &'static str = "GhostWriter/0.1.0";

/// The sampling temperature of every request, in tenths.
pub const TEMPERATURE_TENTHS: u32 = 7;

/// One message of a chat.
#[derive(Debug, PartialEq)]
pub struct ChatMessage {
    pub role: String,
    pub content: String,
}

/// A chat completion request: the model, the messages, and the sampling
/// temperature in tenths.
#[derive(Debug, PartialEq)]
pub struct ChatRequest {
    pub model: String,
    pub messages: Vec<ChatMessage>,
    pub temperature_tenths: u32,
}

/// The request that asks `model` to apply `instruction` to `text`: the
/// instruction as the system message, the text as the user message, at
/// temperature 0.7.
pub fn build_chat_request(model: &str, instruction: &str, text: &str) -> (res: ChatRequest)
    ensures
        res.model@ == model@,
        res.messages@.len() == 2,
        res.messages@[0].role@ == "system"@,
        res.messages@[0].content@ == instruction@,
        res.messages@[1].role@ == "user"@,
        res.messages@[1].content@ == text@,
        res.temperature_tenths == 7,
{
    let mut messages = Vec::new();
    messages.push(ChatMessage { role: "system".to_string(), content: instruction.to_string() });
    messages.push(ChatMessage { role: "user".to_string(), content: text.to_string() });
    ChatRequest { model: model.to_string(), messages, temperature_tenths: TEMPERATURE_TENTHS }
}

/// A Gemini generation request: the text as the one part of the user's
/// turn, the instruction as the system instruction, and the sampling
/// temperature in tenths.
#[derive(Debug, PartialEq)]
pub struct GeminiRequest {
    pub role: String,
    pub text: String,
    pub instruction: String,
    pub temperature_tenths: u32,
}

/// The Gemini request that applies `instruction` to `text`: the text as
/// the user's turn, the instruction as the system instruction, at
/// temperature 0.7.
pub fn build_gemini_request(instruction: &str, text: &str) -> (res: GeminiRequest)
    ensures
        res.role@ == "user"@,
        res.text@ == text@,
        res.instruction@ == instruction@,
        res.temperature_tenths == 7,
{
    GeminiRequest {
        role: "user".to_string(),
        text: text.to_string(),
        instruction: instruction.to_string(),
        temperature_tenths: TEMPERATURE_TENTHS,
    }
}

// ---------------------------------------------------------------------------
// Responses
// ---------------------------------------------------------------------------

/// The message of one choice of a chat completion.
#[derive(Debug, PartialEq)]
pub struct ResponseMessage {
    pub content: String,
}

/// One choice of a chat completion.
#[derive(Debug, PartialEq)]
pub struct Choice {
    pub message: ResponseMessage,
}

/// A chat completion as the service returns it.
#[derive(Debug, PartialEq)]
pub struct ChatResponse {
    pub choices: Vec<Choice>,
}

/// One part of a Gemini answer; parts without text carry other data.
#[derive(Debug, PartialEq)]
pub struct GeminiPart {
    pub text: Option<String>,
}

/// The content of a Gemini candidate.
#[derive(Debug, PartialEq)]
pub struct GeminiContent {
    pub parts: Vec<GeminiPart>,
}

/// One candidate answer of Gemini.
#[derive(Debug, PartialEq)]
pub struct GeminiCandidate {
    pub content: GeminiContent,
}

/// A Gemini answer as the service returns it.
#[derive(Debug, PartialEq)]
pub struct GeminiResponse {
    pub candidates: Vec<GeminiCandidate>,
}

/// The message given when a service returns no answer.
pub open spec fn no_response_text() -> Seq<char> {
    "No response from API"@
}

/// The refined text of a chat completion, given the outcome of parsing its
/// body: a parse failure is reported as such; otherwise the first choice's
/// content with reasoning blocks removed, or a failure when there is none.
pub open spec fn chat_result(parsed: Result<ChatResponse, String>) -> Result<Seq<char>, Seq<char>> {
    match parsed {
        Err(e) => Err("Parse error: "@ + e@),
        Ok(r) => if r.choices@.len() > 0 {
            Ok(stripped_reply(r.choices@[0].message.content@))
        } else {
            Err(no_response_text())
        },
    }
}

/// A string result as plain values.
pub open spec fn text_result(r: Result<String, String>) -> Result<Seq<char>, Seq<char>> {
    match r {
        Ok(s) => Ok(s@),
        Err(e) => Err(e@),
    }
}

/// The refined text of a chat completion.
pub fn extract_response(parsed: Result<ChatResponse, String>) -> (res: Result<String, String>)
    ensures
        text_result(res) == chat_result(parsed),
{
    match parsed {
        Err(e) => Err(concat_str("Parse error: ", e.as_str())),
        Ok(r) => {
            let mut choices = r.choices;
            if choices.len() > 0 {
                let first = choices.remove(0);
                Ok(strip_thinking_tags(first.message.content))
            } else {
                Err("No response from API".to_string())
            }
        },
    }
}

/// The texts of `parts`, one after another; parts without text add nothing.
pub open spec fn joined_parts(parts: Seq<GeminiPart>) -> Seq<char>
    decreases parts.len(),
{
    if parts.len() == 0 {
        Seq::empty()
    } else {
        joined_parts(parts.drop_last()) + match parts.last().text {
            Some(t) => t@,
            None => Seq::empty(),
        }
    }
}

/// The refined text of a Gemini answer, given the outcome of parsing its
/// body: a parse failure is reported as such; otherwise the texts of the
/// first candidate's parts joined, with reasoning blocks removed, or a
/// failure when there is no candidate or the joined text is empty.
pub open spec fn gemini_result(parsed: Result<GeminiResponse, String>) -> Result<Seq<char>, Seq<char>> {
    match parsed {
        Err(e) => Err("Parse error: "@ + e@),
        Ok(r) => if r.candidates@.len() > 0 {
            let joined = joined_parts(r.candidates@[0].content.parts@);
            if joined.len() == 0 {
                Err(no_response_text())
            } else {
                Ok(stripped_reply(joined))
            }
        } else {
            Err(no_response_text())
        },
    }
}

/// The texts of `parts`, one after another.
fn join_parts(parts: &Vec<GeminiPart>) -> (res: String)
    ensures
        res@ == joined_parts(parts@),
{
    let mut res = String::new();
    let mut i: usize = 0;
    while i < parts.len()
        invariant
            i <= parts@.len(),
            res@ == joined_parts(parts@.take(i as int)),
        decreases parts.len() - i,
    {
        let ghost before = parts@.take(i as int);
        match &parts[i].text {
            Some(t) => res.append(t.as_str()),
            None => {},
        }
        i = i + 1;
        assert(parts@.take(i as int).drop_last() =~= before);
    }
    assert(parts@.take(parts@.len() as int) =~= parts@);
    res
}

/// The refined text of a Gemini answer.
pub fn extract_gemini_response(parsed: Result<GeminiResponse, String>) -> (res: Result<String, String>)
    ensures
        text_result(res) == gemini_result(parsed),
{
    match parsed {
        Err(e) => Err(concat_str("Parse error: ", e.as_str())),
        Ok(r) => {
            if r.candidates.len() > 0 {
                let joined = join_parts(&r.candidates[0].content.parts);
                if joined.as_str().is_empty() {
                    Err("No response from API".to_string())
                } else {
                    Ok(strip_thinking_tags(joined))
                }
            } else {
                Err("No response from API".to_string())
            }
        },
    }
}

/// How a call to a service went, as far as the network is concerned.
pub enum Reply<T> {
    /// The request could not be sent.
    SendFailed(String),
    /// The service answered with a status other than success, and this body.
    Rejected { status: String, body: String },
    /// The answer's body could not be read.
    BodyFailed(String),
    /// The body was read; this is the outcome of parsing it.
    Parsed(Result<T, String>),
}

/// The result of a call to an OpenAI-compatible service: network failures
/// and rejections are reported with their details, a parsed body as by
/// `chat_result`.
pub open spec fn chat_reply_result(reply: Reply<ChatResponse>) -> Result<Seq<char>, Seq<char>> {
    match reply {
        Reply::SendFailed(e) => Err("Network error: "@ + e@),
        Reply::Rejected { status, body } => Err("API error: "@ + status@ + " - "@ + body@),
        Reply::BodyFailed(e) => Err("Network error: "@ + e@),
        Reply::Parsed(p) => chat_result(p),
    }
}

/// The result of a call to Gemini, as for the chat services but with
/// rejections marked as Gemini's.
pub open spec fn gemini_reply_result(reply: Reply<GeminiResponse>) -> Result<Seq<char>, Seq<char>> {
    match reply {
        Reply::SendFailed(e) => Err("Network error: "@ + e@),
        Reply::Rejected { status, body } => Err("Gemini API error: "@ + status@ + " - "@ + body@),
        Reply::BodyFailed(e) => Err("Network error: "@ + e@),
        Reply::Parsed(p) => gemini_result(p),
    }
}

/// `a`, ` - ` and `b` after `prefix`.
fn rejection(prefix: &str, status: &str, body: &str) -> (res: String)
    ensures
        res@ == prefix@ + status@ + " - "@ + body@,
{
    let mut res = prefix.to_string();
    res.append(status);
    res.append(" - ");
    res.append(body);
    res
}

/// The result of a call to an OpenAI-compatible service.
pub fn chat_reply_outcome(reply: Reply<ChatResponse>) -> (res: Result<String, String>)
    ensures
        text_result(res) == chat_reply_result(reply),
{
    match reply {
        Reply::SendFailed(e) => Err(concat_str("Network error: ", e.as_str())),
        Reply::Rejected { status, body } => Err(rejection("API error: ", status.as_str(), body.as_str())),
        Reply::BodyFailed(e) => Err(concat_str("Network error: ", e.as_str())),
        Reply::Parsed(p) => extract_response(p),
    }
}

/// The result of a call to Gemini.
pub fn gemini_reply_outcome(reply: Reply<GeminiResponse>) -> (res: Result<String, String>)
    ensures
        text_result(res) == gemini_reply_result(reply),
{
    match reply {
        Reply::SendFailed(e) => Err(concat_str("Network error: ", e.as_str())),
        Reply::Rejected { status, body } => Err(
            rejection("Gemini API error: ", status.as_str(), body.as_str()),
        ),
        Reply::BodyFailed(e) => Err(concat_str("Network error: ", e.as_str())),
        Reply::Parsed(p) => extract_gemini_response(p),
    }
}


// ---------------------------------------------------------------------------
// Clients
// ---------------------------------------------------------------------------

#[verifier::external_type_specification]
#[verifier::external_body]
pub struct ExHttpClient(reqwest::Client);

#[verifier::external_type_specification]
#[verifier::external_body]
pub struct ExHttpClientBuilder(reqwest::ClientBuilder);

#[verifier::external_type_specification]
#[verifier::external_body]
pub struct ExHttpProxy(reqwest::Proxy);

/// Whether `reqwest::Proxy::all` accepts `url` as a proxy address.
pub uninterp spec fn proxy_accepted(url: Seq<char>) -> bool;

/// A builder of HTTP clients, with the timeout and the proxy address
/// handed to it so far.
pub struct HttpClientBuilder {
    builder: reqwest::ClientBuilder,
    timeout: Ghost<Option<u64>>,
    proxy: Ghost<Option<Seq<char>>>,
}

impl HttpClientBuilder {
    /// The request timeout in seconds handed to the builder, if any.
    pub closed spec fn timeout(&self) -> Option<u64> {
        self.timeout@
    }

    /// The proxy address handed to the builder, if any.
    pub closed spec fn proxy(&self) -> Option<Seq<char>> {
        self.proxy@
    }
}

/// A proxy for all traffic, with the address it was read from.
pub struct HttpProxy {
    proxy: reqwest::Proxy,
    url: Ghost<Seq<char>>,
}

impl HttpProxy {
    /// The address the proxy was read from.
    pub closed spec fn url(&self) -> Seq<char> {
        self.url@
    }
}

/// An HTTP client, with the timeout and the proxy address it was built with.
pub struct HttpClient {
    client: reqwest::Client,
    timeout: Ghost<Option<u64>>,
    proxy: Ghost<Option<Seq<char>>>,
}

impl HttpClient {
    /// The HTTP library's client.
    pub closed spec fn raw(&self) -> reqwest::Client {
        self.client
    }

    /// The request timeout in seconds the client was built with, if any.
    pub closed spec fn timeout_secs(&self) -> Option<u64> {
        self.timeout@
    }

    /// The proxy address the client was built with, if any.
    pub closed spec fn proxy(&self) -> Option<Seq<char>> {
        self.proxy@
    }

    /// The HTTP library's client.
    pub fn inner(&self) -> (res: &reqwest::Client)
        ensures
            *res == self.raw(),
    {
        &self.client
    }
}

/// Calls `reqwest::Client::builder`: a builder that has been handed
/// neither a timeout nor a proxy.
#[verifier::external_body]
fn http_client_builder() -> (res: HttpClientBuilder)
    ensures
        res.timeout() is None,
        res.proxy() is None,
{
    HttpClientBuilder { builder: reqwest::Client::builder(), timeout: Ghost(None), proxy: Ghost(None) }
}

/// Calls `ClientBuilder::timeout` with a timeout of `secs` seconds; the
/// proxy handed before is kept.
#[verifier::external_body]
fn with_timeout(builder: HttpClientBuilder, secs: u64) -> (res: HttpClientBuilder)
    ensures
        res.timeout() == Some(secs),
        res.proxy() == builder.proxy(),
{
    HttpClientBuilder {
        builder: builder.builder.timeout(std::time::Duration::from_secs(secs)),
        timeout: Ghost(Some(secs)),
        proxy: builder.proxy,
    }
}

/// Calls `reqwest::Proxy::all`, which reads `url` as a proxy address for
/// all traffic; `None` where it is refused. The contract claims that
/// acceptance depends on the text alone.
#[verifier::external_body]
fn proxy_for_all(url: &str) -> (res: Option<HttpProxy>)
    ensures
        res is Some <==> proxy_accepted(url@),
        res matches Some(p) ==> p.url() == url@,
{
    match reqwest::Proxy::all(url) {
        Ok(proxy) => Some(HttpProxy { proxy, url: Ghost(url@) }),
        Err(_) => None,
    }
}

/// Calls `ClientBuilder::proxy` with `proxy`; the timeout handed before is
/// kept.
#[verifier::external_body]
fn with_proxy(builder: HttpClientBuilder, proxy: HttpProxy) -> (res: HttpClientBuilder)
    ensures
        res.proxy() == Some(proxy.url()),
        res.timeout() == builder.timeout(),
{
    HttpClientBuilder {
        builder: builder.builder.proxy(proxy.proxy),
        timeout: builder.timeout,
        proxy: Ghost(Some(proxy.url@)),
    }
}

/// Calls `ClientBuilder::build`, turning its error into the message it
/// prints. Whether it succeeds depends on the system (TLS setup), so that
/// is not claimed; a built client has the timeout and proxy that were
/// handed to the builder.
#[verifier::external_body]
fn build_http_client(builder: HttpClientBuilder) -> (res: Result<HttpClient, String>)
    ensures
        res matches Ok(c) ==> c.timeout_secs() == builder.timeout() && c.proxy() == builder.proxy(),
{
    match builder.builder.build() {
        Ok(client) => Ok(HttpClient { client, timeout: builder.timeout, proxy: builder.proxy }),
        Err(e) => Err(e.to_string()),
    }
}

/// Seconds a request may take before it is abandoned.
pub const REQUEST_TIMEOUT_SECS: u64 = 120;

/// The proxy a client goes through for the configured `proxy_url`: the
/// address where the HTTP library accepts it, else none.
pub open spec fn accepted_proxy(proxy_url: Option<Seq<char>>) -> Option<Seq<char>> {
    match proxy_url {
        Some(p) => if proxy_accepted(p) {
            Some(p)
        } else {
            None
        },
        None => None,
    }
}

/// A proxy address the HTTP library accepts is the one a client goes
/// through; a refused address, or none, leaves the client without a proxy.
pub proof fn law_accepted_proxy_is_used(proxy_url: Option<Seq<char>>)
    ensures
        proxy_url matches Some(p) ==> (proxy_accepted(p) ==> accepted_proxy(proxy_url) == Some(p)),
        proxy_url matches Some(p) ==> (!proxy_accepted(p) ==> accepted_proxy(proxy_url) is None),
        proxy_url is None ==> accepted_proxy(proxy_url) is None,
{
}

/// An HTTP client whose requests time out after `REQUEST_TIMEOUT_SECS`
/// seconds and that goes through `proxy_url` where the HTTP library
/// accepts that address; an address it refuses is ignored. A failure to
/// build is reported as such.
pub fn new_http_client(proxy_url: Option<String>) -> (res: Result<HttpClient, String>)
    ensures
        res matches Ok(c) ==> c.timeout_secs() == Some(REQUEST_TIMEOUT_SECS) && c.proxy()
            == accepted_proxy(opt_view(proxy_url)),
        res matches Ok(c) ==> (proxy_url matches Some(p) ==> (proxy_accepted(p@) ==> c.proxy()
            == Some(p@))),
        res matches Ok(c) ==> (proxy_url matches Some(p) ==> (!proxy_accepted(p@) ==> c.proxy() is None)),
        res matches Ok(c) ==> (proxy_url is None ==> c.proxy() is None),
        res matches Err(m) ==> exists|e: Seq<char>| m@ == "Failed to create HTTP client: "@ + e,
{
    let mut builder = with_timeout(http_client_builder(), REQUEST_TIMEOUT_SECS);
    match proxy_url {
        Some(p) => {
            match proxy_for_all(p.as_str()) {
                Some(proxy) => {
                    builder = with_proxy(builder, proxy);
                },
                None => {},
            }
        },
        None => {},
    }
    match build_http_client(builder) {
        Ok(client) => Ok(client),
        Err(e) => {
            let m = concat_str("Failed to create HTTP client: ", e.as_str());
            assert(m@ == "Failed to create HTTP client: "@ + e@);
            Err(m)
        },
    }
}

/// A client of OpenRouter or another OpenAI-compatible service.
pub struct OpenRouterClient {
    client: HttpClient,
    api_key: String,
    model: String,
    base_url: String,
}

impl OpenRouterClient {
    /// The key the client sends.
    pub closed spec fn key(&self) -> Seq<char> {
        self.api_key@
    }

    /// The model the client asks for.
    pub closed spec fn model_name(&self) -> Seq<char> {
        self.model@
    }

    /// The endpoint the client posts to.
    pub closed spec fn endpoint(&self) -> Seq<char> {
        self.base_url@
    }

    /// A client of OpenRouter for `model`, sending `api_key`, through
    /// `proxy_url` where the HTTP library accepts that address.
    pub fn new(api_key: String, model: String, proxy_url: Option<String>) -> (res: Result<Self, String>)
        ensures
            res matches Ok(c) ==> c.key() == api_key@ && c.model_name() == model@ && c.endpoint()
                == OPENROUTER_URL@ && c.transport().timeout_secs() == Some(REQUEST_TIMEOUT_SECS)
                && c.transport().proxy() == accepted_proxy(opt_view(proxy_url)),
            res matches Ok(c) ==> (proxy_url matches Some(p) ==> (proxy_accepted(p@) ==> c.transport().proxy()
                == Some(p@))),
            res matches Err(m) ==> exists|e: Seq<char>| m@ == "Failed to create HTTP client: "@ + e,
    {
        let client = new_http_client(proxy_url)?;
        Ok(OpenRouterClient { client, api_key, model, base_url: OPENROUTER_URL.to_string() })
    }

    /// As `new`, but posting to `base_url`.
    pub fn new_with_url(api_key: String, model: String, proxy_url: Option<String>, base_url: String) -> (res:
        Result<Self, String>)
        ensures
            res matches Ok(c) ==> c.key() == api_key@ && c.model_name() == model@ && c.endpoint()
                == base_url@ && c.transport().timeout_secs() == Some(REQUEST_TIMEOUT_SECS)
                && c.transport().proxy() == accepted_proxy(opt_view(proxy_url)),
            res matches Ok(c) ==> (proxy_url matches Some(p) ==> (proxy_accepted(p@) ==> c.transport().proxy()
                == Some(p@))),
            res matches Err(m) ==> exists|e: Seq<char>| m@ == "Failed to create HTTP client: "@ + e,
    {
        let mut client = Self::new(api_key, model, proxy_url)?;
        client.base_url = base_url;
        Ok(client)
    }

    /// The endpoint the client posts to.
    pub fn base_url(&self) -> (res: &str)
        ensures
            res@ == self.endpoint(),
    {
        self.base_url.as_str()
    }

    /// The HTTP client this client was built with.
    pub closed spec fn transport(&self) -> HttpClient {
        self.client
    }

    /// The HTTP client requests go through: the one this client was built with.
    pub fn http(&self) -> (res: &reqwest::Client)
        ensures
            *res == self.transport().raw(),
    {
        self.client.inner()
    }

    /// The request body asking this client's model to apply `instruction`
    /// to `text`.
    pub fn chat_request(&self, instruction: &str, text: &str) -> (res: ChatRequest)
        ensures
            res.model@ == self.model_name(),
            res.messages@.len() == 2,
            res.messages@[0].role@ == "system"@,
            res.messages@[0].content@ == instruction@,
            res.messages@[1].role@ == "user"@,
            res.messages@[1].content@ == text@,
            res.temperature_tenths == 7,
    {
        build_chat_request(self.model.as_str(), instruction, text)
    }

    /// The headers of a request: the key as a bearer token, the JSON
    /// content type, the project page and name, and the user agent.
    pub fn headers(&self) -> (res: Vec<(String, String)>)
        ensures
            res@.len() == 5,
            res@[0].0@ == "Authorization"@ && res@[0].1@ == "Bearer "@ + self.key(),
            res@[1].0@ == "Content-Type"@ && res@[1].1@ == "application/json"@,
            res@[2].0@ == "HTTP-Referer"@ && res@[2].1@ == "https://github.com/arvinmoj/GhostWriter"@,
            res@[3].0@ == "X-Title"@ && res@[3].1@ == "GhostWriter"@,
            res@[4].0@ == "User-Agent"@ && res@[4].1@ == USER_AGENT@,
    {
        let mut h = Vec::new();
        h.push(("Authorization".to_string(), concat_str("Bearer ", self.api_key.as_str())));
        h.push(("Content-Type".to_string(), "application/json".to_string()));
        h.push(("HTTP-Referer".to_string(), "https://github.com/arvinmoj/GhostWriter".to_string()));
        h.push(("X-Title".to_string(), "GhostWriter".to_string()));
        h.push(("User-Agent".to_string(), USER_AGENT.to_string()));
        h
    }
}

/// A client of Google's Gemini.
pub struct GeminiClient {
    client: HttpClient,
    api_key: String,
    model: String,
}

/// The Gemini address that generates content with `model`, authorised by `key`.
pub open spec fn gemini_endpoint(model: Seq<char>, key: Seq<char>) -> Seq<char> {
    GEMINI_BASE_URL@ + "/models/"@ + model + ":generateContent?key="@ + key
}

impl GeminiClient {
    /// The key the client sends.
    pub closed spec fn key(&self) -> Seq<char> {
        self.api_key@
    }

    /// The model the client asks for.
    pub closed spec fn model_name(&self) -> Seq<char> {
        self.model@
    }

    /// A client of Gemini for `model`, sending `api_key`, through
    /// `proxy_url` where the HTTP library accepts that address.
    pub fn new(api_key: String, model: String, proxy_url: Option<String>) -> (res: Result<Self, String>)
        ensures
            res matches Ok(c) ==> c.key() == api_key@ && c.model_name() == model@
                && c.transport().timeout_secs() == Some(REQUEST_TIMEOUT_SECS) && c.transport().proxy()
                == accepted_proxy(opt_view(proxy_url)),
            res matches Ok(c) ==> (proxy_url matches Some(p) ==> (proxy_accepted(p@) ==> c.transport().proxy()
                == Some(p@))),
            res matches Err(m) ==> exists|e: Seq<char>| m@ == "Failed to create HTTP client: "@ + e,
    {
        let client = new_http_client(proxy_url)?;
        Ok(GeminiClient { client, api_key, model })
    }

    /// The HTTP client this client was built with.
    pub closed spec fn transport(&self) -> HttpClient {
        self.client
    }

    /// The HTTP client requests go through: the one this client was built with.
    pub fn http(&self) -> (res: &reqwest::Client)
        ensures
            *res == self.transport().raw(),
    {
        self.client.inner()
    }

    /// The address a request is posted to.
    pub fn endpoint(&self) -> (res: String)
        ensures
            res@ == gemini_endpoint(self.model_name(), self.key()),
    {
        let mut url = GEMINI_BASE_URL.to_string();
        url.append("/models/");
        url.append(self.model.as_str());
        url.append(":generateContent?key=");
        url.append(self.api_key.as_str());
        url
    }

    /// The headers of a request: the JSON content type and the user agent.
    pub fn headers(&self) -> (res: Vec<(String, String)>)
        ensures
            res@.len() == 2,
            res@[0].0@ == "Content-Type"@ && res@[0].1@ == "application/json"@,
            res@[1].0@ == "User-Agent"@ && res@[1].1@ == USER_AGENT@,
    {
        let mut h = Vec::new();
        h.push(("Content-Type".to_string(), "application/json".to_string()));
        h.push(("User-Agent".to_string(), USER_AGENT.to_string()));
        h
    }
}

/// A client of whichever service the settings name.
pub enum ApiClient {
    OpenRouter(OpenRouterClient),
    Google(GeminiClient),
}

} // verus!
