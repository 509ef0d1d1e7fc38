//! Talking to language models: requests, and answers that come in pieces.
use vstd::prelude::*;

use crate::codec;
use crate::codec::text_lossy;
use crate::float_bits::Real;
use crate::text::chars::{same_text, slice_text, to_chars};
use crate::text::search;
use crate::text::search::{ends_with, find_chars, strip_prefix};
use crate::text::space;
use crate::text::space::{find_newline, trim};

verus! {

/// The tokens that an inference used.
#[derive(Debug, Clone, Copy, PartialEq, Eq, Structural)]
pub struct UsageInfo {
    pub input_tokens: u64,
    pub output_tokens: u64,
    pub total_cost: Option<Real>,
}

/// How a language model is reached.
#[derive(Debug)]
pub struct LlmConfig {
    /// The model, as `provider@model`.
    pub model: String,
    pub api_key: String,
    pub temperature: Option<Real>,
    pub max_tokens: Option<u32>,
}

impl Clone for LlmConfig {
    fn clone(&self) -> (r: Self)
        ensures
            r == *self,
    {
        LlmConfig {
            model: self.model.clone(),
            api_key: self.api_key.clone(),
            temperature: self.temperature,
            max_tokens: self.max_tokens,
        }
    }
}

impl Default for LlmConfig {
    fn default() -> (r: Self)
        ensures
            r.model@.len() == 0,
            r.api_key@.len() == 0,
            r.temperature is None,
            r.max_tokens is None,
    {
        LlmConfig {
            model: String::new(),
            api_key: String::new(),
            temperature: None,
            max_tokens: None,
        }
    }
}

/// Who speaks in a conversation with a model.
#[derive(Debug, Clone, Copy, PartialEq, Eq, Structural)]
pub enum Role {
    System,
    User,
    Assistant,
}

/// A message in a conversation with a model.
#[derive(Debug)]
pub struct ChatMessage {
    pub role: Role,
    pub content: String,
}

impl ChatMessage {
    pub fn system(content: &str) -> (r: Self)
        ensures
            r.role == Role::System,
            r.content@ == content@,
    {
        ChatMessage { role: Role::System, content: content.to_string() }
    }

    pub fn user(content: &str) -> (r: Self)
        ensures
            r.role == Role::User,
            r.content@ == content@,
    {
        ChatMessage { role: Role::User, content: content.to_string() }
    }

    pub fn assistant(content: &str) -> (r: Self)
        ensures
            r.role == Role::Assistant,
            r.content@ == content@,
    {
        ChatMessage { role: Role::Assistant, content: content.to_string() }
    }
}

/// Where the chat endpoint of a provider is; an unknown provider is taken for
/// the address itself.
pub open spec fn provider_url(provider: Seq<char>) -> Seq<char> {
    if provider == "openrouter"@ {
        "https://openrouter.ai/api/v1/chat/completions"@
    } else if provider == "openai"@ {
        "https://api.openai.com/v1/chat/completions"@
    } else if provider == "zenmux"@ {
        "https://zenmux.ai/api/v1/chat/completions"@
    } else {
        provider
    }
}

/// The address and the model that a `provider@model` names; without a provider,
/// `openrouter` is meant.
pub open spec fn resolved_model(model: Seq<char>) -> (Seq<char>, Seq<char>) {
    match search::find_text(model, "@"@) {
        Some(i) => (provider_url(model.take(i)), model.skip(i + 1)),
        None => (provider_url("openrouter"@), model),
    }
}

/// Resolves a `provider@model`.
pub fn resolve_model(model: &str) -> (r: (String, String))
    ensures
        (r.0@, r.1@) == resolved_model(model@),
{
    let v = to_chars(model);
    let at = to_chars("@");
    proof {
        reveal_strlit("@");
    }
    match find_chars(&v, &at, 0) {
        Some(i) => {
            let provider = slice_text(&v, 0, i);
            assert(provider@ =~= model@.take(i as int));
            let n: usize = v.len();
            let id = slice_text(&v, i + 1, n);
            assert(id@ =~= model@.skip(i + 1));
            let url = if same_text(provider.as_str(), "openrouter") {
                "https://openrouter.ai/api/v1/chat/completions".to_string()
            } else if same_text(provider.as_str(), "openai") {
                "https://api.openai.com/v1/chat/completions".to_string()
            } else if same_text(provider.as_str(), "zenmux") {
                "https://zenmux.ai/api/v1/chat/completions".to_string()
            } else {
                provider
            };
            (url, id)
        },
        None => (
            "https://openrouter.ai/api/v1/chat/completions".to_string(),
            model.to_string(),
        ),
    }
}

/// A request to a model, with every default filled in.
#[derive(Debug)]
pub struct InferenceRequest {
    pub api_url: String,
    pub model_id: String,
    pub authorization: String,
    pub max_tokens: u32,
    pub temperature: Real,
    pub stream: bool,
}

/// Prepares a request: what the configuration leaves open comes from the
/// defaults.
pub fn prepare_request(
    config: &LlmConfig,
    default_max_tokens: u32,
    default_temperature: Real,
    stream: bool,
) -> (r: InferenceRequest)
    ensures
        (r.api_url@, r.model_id@) == resolved_model(config.model@),
        r.authorization@ == "Bearer "@ + config.api_key@,
        r.max_tokens == (match config.max_tokens {
            Some(n) => n,
            None => default_max_tokens,
        }),
        r.temperature == (match config.temperature {
            Some(t) => t,
            None => default_temperature,
        }),
        r.stream == stream,
{
    let (api_url, model_id) = resolve_model(config.model.as_str());
    let mut authorization = "Bearer ".to_string();
    authorization.push_str(config.api_key.as_str());
    InferenceRequest {
        api_url,
        model_id,
        authorization,
        max_tokens: match config.max_tokens {
            Some(n) => n,
            None => default_max_tokens,
        },
        temperature: match config.temperature {
            Some(t) => t,
            None => default_temperature,
        },
        stream,
    }
}

/// One alternative in a piece of a streamed answer.
#[derive(Debug)]
pub struct SseChoice {
    pub content: Option<String>,
    pub finish_reason: Option<String>,
}

/// The tokens that a piece of an answer reports.
#[derive(Debug, Clone, Copy, PartialEq, Eq, Structural)]
pub struct SseUsage {
    pub prompt_tokens: Option<u64>,
    pub completion_tokens: Option<u64>,
}

/// A piece of an answer.
#[derive(Debug)]
pub struct SseResponse {
    pub choices: Vec<SseChoice>,
    pub usage: Option<SseUsage>,
}

/// What a usage report says, with nothing counted as zero.
pub open spec fn usage_of(u: Option<SseUsage>) -> Option<UsageInfo> {
    match u {
        Some(u) => Some(
            UsageInfo {
                input_tokens: match u.prompt_tokens {
                    Some(n) => n,
                    None => 0,
                },
                output_tokens: match u.completion_tokens {
                    Some(n) => n,
                    None => 0,
                },
                total_cost: None,
            },
        ),
        None => None,
    }
}

/// Reads a usage report.
pub fn read_usage(u: &Option<SseUsage>) -> (r: Option<UsageInfo>)
    ensures
        r == usage_of(*u),
{
    match u {
        Some(u) => Some(
            UsageInfo {
                input_tokens: match u.prompt_tokens {
                    Some(n) => n,
                    None => 0,
                },
                output_tokens: match u.completion_tokens {
                    Some(n) => n,
                    None => 0,
                },
                total_cost: None,
            },
        ),
        None => None,
    }
}

/// The texts of the alternatives, one after the other.
pub open spec fn choices_text(choices: Seq<SseChoice>) -> Seq<char>
    decreases choices.len(),
{
    if choices.len() == 0 {
        Seq::empty()
    } else {
        choices_text(choices.drop_last()) + (match choices.last().content {
            Some(c) => c@,
            None => Seq::empty(),
        })
    }
}

/// The text of an answer that came in one piece: that of its first alternative.
pub open spec fn first_text(choices: Seq<SseChoice>) -> Seq<char> {
    if choices.len() > 0 {
        match choices[0].content {
            Some(c) => c@,
            None => Seq::empty(),
        }
    } else {
        Seq::empty()
    }
}

/// Reads an answer that came in one piece.
pub fn read_sync_response(resp: &SseResponse) -> (r: (String, Option<UsageInfo>))
    ensures
        r.0@ == first_text(resp.choices@),
        r.1 == usage_of(resp.usage),
{
    let text = if resp.choices.len() > 0 {
        match &resp.choices[0].content {
            Some(c) => c.clone(),
            None => String::new(),
        }
    } else {
        String::new()
    };
    (text, read_usage(&resp.usage))
}

/// What a line of an event stream carries: nothing where it is blank, closes the
/// stream or is no data line.
pub open spec fn payload_of(raw: Seq<char>) -> Option<Seq<char>> {
    let line = space::trimmed(raw);
    if line.len() == 0 || line == "data: [DONE]"@ || line == "data:[DONE]"@ {
        None
    } else if search::has_prefix(line, "data: "@) {
        Some(line.skip(6))
    } else if search::has_prefix(line, "data:"@) {
        Some(line.skip(5))
    } else {
        None
    }
}

/// What the complete lines of `s` from `i` on carry, in order.
pub open spec fn payloads_from(s: Seq<char>, i: int) -> Seq<Seq<char>>
    decreases s.len() - i,
{
    match space::newline_from(s, i) {
        None => Seq::empty(),
        Some(j) => if 0 <= i <= j < s.len() {
            match payload_of(s.subrange(i, j)) {
                Some(p) => seq![p] + payloads_from(s, j + 1),
                None => payloads_from(s, j + 1),
            }
        } else {
            Seq::empty()
        },
    }
}

/// What is left of `s` from `i` on behind its last complete line.
pub open spec fn unfinished_from(s: Seq<char>, i: int) -> Seq<char>
    decreases s.len() - i,
{
    match space::newline_from(s, i) {
        None => s.skip(i),
        Some(j) => if 0 <= i <= j < s.len() {
            unfinished_from(s, j + 1)
        } else {
            s.skip(i)
        },
    }
}

/// Collects a streamed answer.
#[derive(Debug)]
pub struct StreamCollector {
    /// The text so far.
    pub full_text: String,
    /// What came behind the last complete line.
    pub sse_buffer: String,
    /// The last usage report.
    pub usage: Option<UsageInfo>,
}

fn read_line(raw: &str) -> (r: Option<String>)
    ensures
        match r {
            Some(p) => payload_of(raw@) == Some(p@),
            None => payload_of(raw@) is None,
        },
{
    let line = trim(raw);
    let l = line.as_str();
    proof {
        reveal_strlit("data: ");
        reveal_strlit("data:");
    }
    if l.is_empty() || same_text(l, "data: [DONE]") || same_text(l, "data:[DONE]") {
        return None;
    }
    match strip_prefix(l, "data: ") {
        Some(p) => Some(p),
        None => strip_prefix(l, "data:"),
    }
}

impl StreamCollector {
    pub fn new() -> (r: Self)
        ensures
            r.full_text@.len() == 0,
            r.sse_buffer@.len() == 0,
            r.usage is None,
    {
        StreamCollector { full_text: String::new(), sse_buffer: String::new(), usage: None }
    }

    /// Takes in a chunk of the stream and gives back what its complete lines
    /// carry, in order.
    pub fn feed(&mut self, chunk: &str) -> (r: Vec<String>)
        ensures
            search::views(r@) == payloads_from(old(self).sse_buffer@ + chunk@, 0),
            final(self).sse_buffer@ == unfinished_from(old(self).sse_buffer@ + chunk@, 0),
            final(self).full_text@ == old(self).full_text@,
            final(self).usage == old(self).usage,
    {
        let mut all = self.sse_buffer.clone();
        all.push_str(chunk);
        let ghost s = all@;
        let v = to_chars(all.as_str());
        let n: usize = v.len();
        let mut out: Vec<String> = Vec::new();
        let mut i: usize = 0;
        assert(search::views(out@) + payloads_from(s, 0) =~= payloads_from(s, 0));
        loop
            invariant
                v@ == s,
                n == v@.len(),
                i <= n,
                s == old(self).sse_buffer@ + chunk@,
                *self == *old(self),
                search::views(out@) + payloads_from(s, i as int) == payloads_from(s, 0),
                unfinished_from(s, i as int) == unfinished_from(s, 0),
            decreases n - i,
        {
            match find_newline(&v, i) {
                None => {
                    let rest = slice_text(&v, i, n);
                    assert(rest@ =~= s.skip(i as int));
                    assert(search::views(out@) + Seq::<Seq<char>>::empty() =~= search::views(out@));
                    self.sse_buffer = rest;
                    return out;
                },
                Some(j) => {
                    let raw = slice_text(&v, i, j);
                    match read_line(raw.as_str()) {
                        Some(p) => {
                            proof {
                                let before = search::views(out@);
                                search::lemma_views_push(out@, p);
                                assert(before + (seq![p@] + payloads_from(s, j + 1))
                                    =~= before.push(p@) + payloads_from(s, j + 1));
                            }
                            out.push(p);
                        },
                        None => {},
                    }
                    i = j + 1;
                },
            }
        }
    }

    /// Takes in a chunk of the stream as it came over the wire; what is not UTF-8
    /// is replaced.
    pub fn feed_bytes(&mut self, chunk: &[u8]) -> (r: Vec<String>)
        ensures
            search::views(r@) == payloads_from(
                old(self).sse_buffer@ + codec::lossy_text(chunk@),
                0,
            ),
            final(self).sse_buffer@ == unfinished_from(
                old(self).sse_buffer@ + codec::lossy_text(chunk@),
                0,
            ),
            final(self).full_text@ == old(self).full_text@,
            final(self).usage == old(self).usage,
    {
        let text = text_lossy(chunk);
        self.feed(text.as_str())
    }

    /// Takes in a piece of the answer and gives back the text that it adds.
    pub fn absorb(&mut self, resp: &SseResponse) -> (r: String)
        ensures
            r@ == choices_text(resp.choices@),
            final(self).full_text@ == old(self).full_text@ + choices_text(resp.choices@),
            final(self).usage == (match usage_of(resp.usage) {
                Some(u) => Some(u),
                None => old(self).usage,
            }),
            final(self).sse_buffer@ == old(self).sse_buffer@,
    {
        let mut added = String::new();
        let mut i: usize = 0;
        assert(resp.choices@.take(0) =~= Seq::<SseChoice>::empty());
        while i < resp.choices.len()
            invariant
                i <= resp.choices@.len(),
                added@ == choices_text(resp.choices@.take(i as int)),
            decreases resp.choices@.len() - i,
        {
            assert(resp.choices@.take(i + 1).drop_last() =~= resp.choices@.take(i as int));
            match &resp.choices[i].content {
                Some(c) => {
                    added.push_str(c.as_str());
                },
                None => {
                    assert(added@ + Seq::<char>::empty() =~= added@);
                },
            }
            i = i + 1;
        }
        assert(resp.choices@.take(resp.choices@.len() as int) =~= resp.choices@);
        self.full_text.push_str(added.as_str());
        match read_usage(&resp.usage) {
            Some(u) => {
                self.usage = Some(u);
            },
            None => {},
        }
        added
    }

    /// The collected answer.
    pub fn finish(self) -> (r: (String, Option<UsageInfo>))
        ensures
            r.0@ == self.full_text@,
            r.1 == self.usage,
    {
        (self.full_text, self.usage)
    }
}

/// What is said when no data came for too long.
pub fn stream_timeout_error() -> (r: String)
    ensures
        r@ == "Streaming collect timeout: no data received for 60 seconds"@,
{
    "Streaming collect timeout: no data received for 60 seconds".to_string()
}

/// The text of [`api_error`].
pub open spec fn api_error_text(kind: Seq<char>, status: Seq<char>, body: Seq<char>) -> Seq<char> {
    kind + " API error "@ + status + ": "@ + body
}

/// What is said when the service refuses a request.
pub fn api_error(kind: &str, status: &str, body: &str) -> (r: String)
    ensures
        r@ == api_error_text(kind@, status@, body@),
{
    let mut s = kind.to_string();
    s.push_str(" API error ");
    s.push_str(status);
    s.push_str(": ");
    s.push_str(body);
    s
}

proof fn lemma_newline_in_prefix(a: Seq<char>, b: Seq<char>, i: int)
    requires
        0 <= i <= a.len(),
    ensures
        space::newline_from(a, i) is Some ==> space::newline_from(a + b, i) == space::newline_from(
            a,
            i,
        ),
        space::newline_from(a, i) is None ==> space::newline_from(a + b, i) == space::newline_from(
            a + b,
            a.len() as int,
        ),
    decreases a.len() - i,
{
    if i < a.len() {
        assert((a + b)[i] == a[i]);
        if a[i] != '\n' {
            lemma_newline_in_prefix(a, b, i + 1);
        }
    }
}

proof fn lemma_newline_shift(s: Seq<char>, k: int, i: int)
    requires
        0 <= k <= i <= s.len(),
    ensures
        match space::newline_from(s, i) {
            Some(j) => space::newline_from(s.skip(k), i - k) == Some(j - k) && i <= j < s.len(),
            None => space::newline_from(s.skip(k), i - k) is None,
        },
    decreases s.len() - i,
{
    if i < s.len() {
        assert(s.skip(k)[i - k] == s[i]);
        if s[i] != '\n' {
            lemma_newline_shift(s, k, i + 1);
        }
    }
}

proof fn lemma_lines_shift(s: Seq<char>, k: int, i: int)
    requires
        0 <= k <= i <= s.len(),
    ensures
        payloads_from(s.skip(k), i - k) == payloads_from(s, i),
        unfinished_from(s.skip(k), i - k) == unfinished_from(s, i),
    decreases s.len() - i,
{
    lemma_newline_shift(s, k, i);
    match space::newline_from(s, i) {
        Some(j) => {
            lemma_lines_shift(s, k, j + 1);
            assert(s.skip(k).subrange(i - k, j - k) =~= s.subrange(i, j));
        },
        None => {
            assert(s.skip(k).skip(i - k) =~= s.skip(i));
        },
    }
}

proof fn lemma_feed_split(a: Seq<char>, b: Seq<char>, i: int)
    requires
        0 <= i <= a.len(),
    ensures
        payloads_from(a + b, i) == payloads_from(a, i) + payloads_from(
            unfinished_from(a, i) + b,
            0,
        ),
        unfinished_from(a + b, i) == unfinished_from(unfinished_from(a, i) + b, 0),
    decreases a.len() - i,
{
    lemma_newline_in_prefix(a, b, i);
    match space::newline_from(a, i) {
        Some(j) => {
            space::lemma_newline_from(a, i);
            lemma_feed_split(a, b, j + 1);
            assert((a + b).subrange(i, j) =~= a.subrange(i, j));
            let rest = payloads_from(unfinished_from(a, i) + b, 0);
            match payload_of(a.subrange(i, j)) {
                Some(p) => {
                    assert(seq![p] + (payloads_from(a, j + 1) + rest) =~= (seq![p] + payloads_from(
                        a,
                        j + 1,
                    )) + rest);
                },
                None => {},
            }
        },
        None => {
            assert(a.skip(i) + b =~= (a + b).skip(i));
            lemma_lines_shift(a + b, i, i);
            assert(payloads_from(a, i) =~= Seq::<Seq<char>>::empty());
            assert(Seq::<Seq<char>>::empty() + payloads_from(a + b, i) =~= payloads_from(a + b, i));
        },
    }
}

/// Where a stream is cut into chunks does not matter: two chunks, one after the
/// other, carry what both together carry, and leave the same rest.
pub proof fn law_chunking_does_not_matter(buffer: Seq<char>, a: Seq<char>, b: Seq<char>)
    ensures
        payloads_from(buffer + (a + b), 0) == payloads_from(buffer + a, 0) + payloads_from(
            unfinished_from(buffer + a, 0) + b,
            0,
        ),
        unfinished_from(buffer + (a + b), 0) == unfinished_from(
            unfinished_from(buffer + a, 0) + b,
            0,
        ),
{
    assert(buffer + (a + b) =~= (buffer + a) + b);
    lemma_feed_split(buffer + a, b, 0);
}

} // verus!
