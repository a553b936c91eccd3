//! OpenAI-compatible chat completion data and the pure parts of talking to a
//! provider: the endpoint URL, the first reply, error-text truncation and the
//! reading of server-sent event lines.

use vstd::prelude::*;
use crate::error::AgentError;
use crate::text::{
    chars_of, copy_range, copy_string, eq_str, has_prefix, matches_at, owned, push_str,
    starts_with, string_from_chars, trim, trim_chars,
};

verus! {

broadcast use vstd::string::group_string_axioms;

/// Where and how to reach a language model provider.
#[derive(Debug, Clone)]
pub struct LlmProviderConfig {
    pub provider_kind: String,
    pub base_url: String,
    pub model: String,
    pub api_key: Option<String>,
}

/// `s` with every trailing `c` removed, as `str::trim_end_matches(c)`.
pub open spec fn trim_end_char(s: Seq<char>, c: char) -> Seq<char>
    decreases s.len(),
{
    if s.len() > 0 && s.last() == c {
        trim_end_char(s.drop_last(), c)
    } else {
        s
    }
}

impl LlmProviderConfig {
    /// The chat completions endpoint: the base URL without trailing slashes,
    /// followed by `/chat/completions`.
    pub open spec fn completions_url(&self) -> Seq<char> {
        trim_end_char(self.base_url@, '/') + "/chat/completions"@
    }

    /// The chat completions endpoint of this provider.
    pub fn chat_completions_url(&self) -> (r: String)
        ensures
            r@ == self.completions_url(),
    {
        let s = chars_of(self.base_url.as_str());
        let mut j = s.len();
        assert(s@.subrange(0, j as int) =~= s@);
        while j > 0 && s[j - 1] == '/'
            invariant
                j <= s@.len(),
                trim_end_char(s@, '/') == trim_end_char(s@.subrange(0, j as int), '/'),
            decreases j,
        {
            assert(s@.subrange(0, j as int).drop_last() =~= s@.subrange(0, j - 1));
            j = j - 1;
        }
        let base = copy_range(&s, 0, j);
        let mut r = string_from_chars(&base);
        push_str(&mut r, "/chat/completions");
        r
    }
}

/// One chat message: a role (`system`, `user` or `assistant`) and its text.
#[derive(Debug, Clone, PartialEq, Eq)]
pub struct OpenAiCompatibleChatMessage {
    pub role: String,
    pub content: String,
}

/// A chat completion request.
#[derive(Debug, Clone)]
pub struct OpenAiCompatibleChatRequest {
    pub model: String,
    pub messages: Vec<OpenAiCompatibleChatMessage>,
    pub stream: Option<bool>,
}

/// One choice of a chat completion response.
#[derive(Debug, Clone)]
pub struct OpenAiCompatibleChatChoice {
    pub message: OpenAiCompatibleChatMessage,
}

/// A chat completion response.
#[derive(Debug, Clone)]
pub struct OpenAiCompatibleChatResponse {
    pub choices: Vec<OpenAiCompatibleChatChoice>,
}

/// The incremental content of one streamed choice.
#[derive(Debug, Clone)]
pub struct OpenAiCompatibleChatDelta {
    pub content: Option<String>,
}

/// One choice of a streamed chunk.
#[derive(Debug, Clone)]
pub struct OpenAiCompatibleChatStreamChoice {
    pub delta: OpenAiCompatibleChatDelta,
}

/// One streamed chunk of a chat completion.
#[derive(Debug, Clone)]
pub struct OpenAiCompatibleChatStreamChunk {
    pub choices: Vec<OpenAiCompatibleChatStreamChoice>,
}

/// A chat message with the given role and content.
pub fn chat_message(role: &str, content: String) -> (m: OpenAiCompatibleChatMessage)
    ensures
        m.role@ == role@,
        m.content@ == content@,
{
    OpenAiCompatibleChatMessage { role: role.to_owned(), content }
}

impl OpenAiCompatibleChatResponse {
    /// The content of the first choice, if there is one.
    pub fn first_message_content(&self) -> (r: Option<&str>)
        ensures
            self.choices@.len() == 0 ==> r is None,
            self.choices@.len() > 0 ==> (r matches Some(c) && c@ == self.choices@[0].message.content@),
    {
        if self.choices.len() == 0 {
            None
        } else {
            Some(self.choices[0].message.content.as_str())
        }
    }
}

impl OpenAiCompatibleChatStreamChunk {
    /// The text of the first choice's delta, or the empty text when there is
    /// no choice or no content.
    pub open spec fn delta_text(&self) -> Seq<char> {
        if self.choices@.len() == 0 {
            Seq::empty()
        } else {
            match self.choices@[0].delta.content {
                Some(c) => c@,
                None => Seq::empty(),
            }
        }
    }

    /// The text of the first choice's delta (empty when absent).
    pub fn first_delta_text(&self) -> (r: String)
        ensures
            r@ == self.delta_text(),
    {
        if self.choices.len() == 0 {
            String::new()
        } else {
            match &self.choices[0].delta.content {
                Some(c) => copy_string(c),
                None => String::new(),
            }
        }
    }
}

/// The text of an error body for a message: trimmed, `<empty body>` when
/// nothing is left, and cut to `max_chars` characters followed by `...`
/// when longer.
pub open spec fn truncated_text(text: Seq<char>, max_chars: nat) -> Seq<char> {
    let t = trim(text);
    if t.len() == 0 {
        "<empty body>"@
    } else if t.len() > max_chars {
        t.subrange(0, max_chars as int) + "..."@
    } else {
        t
    }
}

/// Shortens an error body for inclusion in a message.
pub fn truncate_error_text(text: &str, max_chars: usize) -> (r: String)
    ensures
        r@ == truncated_text(text@, max_chars as nat),
{
    let s = chars_of(text);
    let t = trim_chars(&s);
    if t.len() == 0 {
        return owned("<empty body>");
    }
    if t.len() > max_chars {
        let head = copy_range(&t, 0, max_chars);
        let mut r = string_from_chars(&head);
        push_str(&mut r, "...");
        r
    } else {
        string_from_chars(&t)
    }
}

/// `s` with every leading `data:` removed, as `str::trim_start_matches("data:")`.
pub open spec fn strip_data_prefixes(s: Seq<char>) -> Seq<char>
    decreases s.len(),
{
    if s.len() >= 5 && s.subrange(0, 5) == "data:"@ {
        strip_data_prefixes(s.subrange(5, s.len() as int))
    } else {
        s
    }
}

/// What one line of a server-sent event stream means.
#[derive(Debug, Clone, PartialEq, Eq)]
pub enum SseLine {
    /// Not a `data:` line; it is skipped.
    Ignored,
    /// The `[DONE]` marker that ends the stream.
    Done,
    /// A JSON payload to decode as a stream chunk.
    Payload(String),
}

/// The payload of a `data:` line: prefixes removed, then trimmed.
pub open spec fn sse_payload(line: Seq<char>) -> Seq<char> {
    trim(strip_data_prefixes(trim(line)))
}

/// What a raw stream line means: lines that do not start with `data:` after
/// trimming are ignored, a payload of `[DONE]` ends the stream, any other
/// payload is data to decode.
pub fn classify_sse_line(line: &str) -> (r: SseLine)
    ensures
        !starts_with(trim(line@), "data:"@) ==> r == SseLine::Ignored,
        starts_with(trim(line@), "data:"@) && sse_payload(line@) == "[DONE]"@ ==> r
            == SseLine::Done,
        starts_with(trim(line@), "data:"@) && sse_payload(line@) != "[DONE]"@ ==> (r matches SseLine::Payload(p) && p@ == sse_payload(line@)),
{
    let raw = chars_of(line);
    let t = trim_chars(&raw);
    if !has_prefix(&t, "data:") {
        return SseLine::Ignored;
    }
    let marker = chars_of("data:");
    proof {
        reveal_strlit("data:");
    }
    let n = t.len();
    let mut i: usize = 0;
    assert(t@.subrange(0, n as int) =~= t@);
    while matches_at(&t, &marker, i)
        invariant
            n == t@.len(),
            marker@ == "data:"@,
            marker@.len() == 5,
            i <= n,
            strip_data_prefixes(t@) == strip_data_prefixes(t@.subrange(i as int, n as int)),
        decreases n - i,
    {
        proof {
            let u = t@.subrange(i as int, n as int);
            assert(u.subrange(0, 5) =~= t@.subrange(i as int, i + 5));
            assert(u.subrange(5, u.len() as int) =~= t@.subrange(i + 5, n as int));
        }
        i = i + 5;
    }
    proof {
        let u = t@.subrange(i as int, n as int);
        if u.len() >= 5 {
            assert(u.subrange(0, 5) =~= t@.subrange(i as int, i + 5));
        }
    }
    let rest = copy_range(&t, i, n);
    let payload = trim_chars(&rest);
    if eq_str(&payload, "[DONE]") {
        SseLine::Done
    } else {
        SseLine::Payload(string_from_chars(&payload))
    }
}

/// What an error body from a provider says, as far as the error text uses
/// it; a field is `None` when the body is not JSON or does not hold it with
/// the expected type.
#[derive(Debug, Clone, Default)]
pub struct ProviderErrorBody {
    /// `error.message`, when it is a string.
    pub error_message: Option<String>,
    /// `error`, when it is itself a string.
    pub error_text: Option<String>,
    /// `message`, when it is a string.
    pub message: Option<String>,
    /// `detail`, when it is a string.
    pub detail_text: Option<String>,
    /// `detail` written back as compact JSON, when it is present.
    pub detail_json: Option<String>,
}

/// The detail a provider gives for a failed request, by preference:
/// `error.message`, a string `error`, `message`, a string `detail`, then
/// `detail` as JSON cut to 400 characters.
pub open spec fn provider_detail(b: ProviderErrorBody) -> Option<Seq<char>> {
    match b.error_message {
        Some(m) => Some(m@),
        None => match b.error_text {
            Some(t) => Some(t@),
            None => match b.message {
                Some(m) => Some(m@),
                None => match b.detail_text {
                    Some(d) => Some(d@),
                    None => match b.detail_json {
                        Some(j) => Some(truncated_text(j@, 400)),
                        None => None,
                    },
                },
            },
        },
    }
}

/// The detail a provider gives for a failed request (see `provider_detail`).
pub fn provider_error_detail(body: &ProviderErrorBody) -> (r: Option<String>)
    ensures
        match r {
            Some(t) => provider_detail(*body) == Some(t@),
            None => provider_detail(*body) is None,
        },
{
    if let Some(m) = &body.error_message {
        return Some(copy_string(m));
    }
    if let Some(t) = &body.error_text {
        return Some(copy_string(t));
    }
    if let Some(m) = &body.message {
        return Some(copy_string(m));
    }
    if let Some(d) = &body.detail_text {
        return Some(copy_string(d));
    }
    match &body.detail_json {
        Some(j) => Some(truncate_error_text(j.as_str(), 400)),
        None => None,
    }
}

/// The error text of a request answered with a failure status: the
/// provider's detail when the body gives one, else the body cut to 400
/// characters.
pub open spec fn http_error_text(status: Seq<char>, body: Seq<char>, parsed: Option<ProviderErrorBody>) -> Seq<char> {
    let detail = match parsed {
        Some(b) => match provider_detail(b) {
            Some(d) => d,
            None => truncated_text(body, 400),
        },
        None => truncated_text(body, 400),
    };
    "llm request failed with status "@ + status + ": "@ + detail
}

/// The error text of a request answered with a failure status, e.g.
/// `llm request failed with status 400 Bad Request: invalid model`;
/// `parsed` is what the body says, when it is JSON.
pub fn format_http_error(status: &str, body: &str, parsed: &Option<ProviderErrorBody>) -> (r: String)
    ensures
        r@ == http_error_text(status@, body@, *parsed),
{
    let detail = match parsed {
        Some(b) => match provider_error_detail(b) {
            Some(d) => d,
            None => truncate_error_text(body, 400),
        },
        None => truncate_error_text(body, 400),
    };
    let mut r = owned("llm request failed with status ");
    push_str(&mut r, status);
    push_str(&mut r, ": ");
    push_str(&mut r, detail.as_str());
    r
}

/// The error text of a reply body that is not a chat completion response.
pub fn format_decode_error(error: &str, body: &str) -> (r: String)
    ensures
        r@ == "error decoding response body: "@ + error@ + "; body: "@ + truncated_text(body@, 400),
{
    let mut r = owned("error decoding response body: ");
    push_str(&mut r, error);
    push_str(&mut r, "; body: ");
    let t = truncate_error_text(body, 400);
    push_str(&mut r, t.as_str());
    r
}

/// The error text of a stream payload that is not a stream chunk.
pub fn format_chunk_decode_error(error: &str, payload: &str) -> (r: String)
    ensures
        r@ == "stream chunk decode error: "@ + error@ + "; payload: "@ + truncated_text(payload@, 200),
{
    let mut r = owned("stream chunk decode error: ");
    push_str(&mut r, error);
    push_str(&mut r, "; payload: ");
    let t = truncate_error_text(payload, 200);
    push_str(&mut r, t.as_str());
    r
}

/// One `data:` payload of a streamed reply, given what decoding it as a
/// stream chunk gave (the chunk, or the decoder's error text). A payload
/// that does not decode fails the stream; a chunk with an empty delta
/// changes nothing; otherwise the delta is added to the reply so far and
/// returned, to be handed on to the listener.
pub fn stream_payload_step(
    aggregated: &mut String,
    payload: &str,
    decoded: Result<OpenAiCompatibleChatStreamChunk, String>,
) -> (r: Result<Option<String>, AgentError>)
    ensures
        decoded matches Err(e) ==> (r matches Err(AgentError::Response(m)) && m@ == "stream chunk decode error: "@
            + e@ + "; payload: "@ + truncated_text(payload@, 200) && final(aggregated)@ == old(aggregated)@),
        decoded matches Ok(c) ==> (c.delta_text().len() == 0 ==> (r matches Ok(None::<String>)
            && final(aggregated)@ == old(aggregated)@)),
        decoded matches Ok(c) ==> (c.delta_text().len() > 0 ==> (r matches Ok(Some(d)) && d@ == c.delta_text()
            && final(aggregated)@ == old(aggregated)@ + c.delta_text())),
{
    match decoded {
        Err(e) => Err(AgentError::Response(format_chunk_decode_error(e.as_str(), payload))),
        Ok(chunk) => {
            let delta = chunk.first_delta_text();
            if chars_of(delta.as_str()).len() == 0 {
                Ok(None)
            } else {
                push_str(aggregated, delta.as_str());
                Ok(Some(delta))
            }
        },
    }
}

/// Where the first line feed of `s` stands, if any.
pub open spec fn first_newline(s: Seq<char>, i: int) -> bool {
    &&& 0 <= i < s.len()
    &&& s[i] == '\n'
    &&& forall|j: int| 0 <= j < i ==> s[j] != '\n'
}

/// Takes the first complete line off a stream buffer: `None` while the
/// buffer holds no line feed, else the text before the first line feed and
/// what follows it.
pub fn split_first_line(buffer: &str) -> (r: Option<(String, String)>)
    ensures
        r is None <==> !buffer@.contains('\n'),
        r matches Some((line, rest)) ==> exists|i: int| #[trigger] first_newline(buffer@, i)
            && line@ == buffer@.subrange(0, i) && rest@ == buffer@.subrange(i + 1, buffer@.len() as int),
{
    let s = chars_of(buffer);
    let n = s.len();
    let mut i: usize = 0;
    while i < n
        invariant
            n == s@.len(),
            s@ == buffer@,
            i <= n,
            forall|j: int| 0 <= j < i ==> s@[j] != '\n',
        decreases n - i,
    {
        if s[i] == '\n' {
            let line = copy_range(&s, 0, i);
            let rest = copy_range(&s, i + 1, n);
            proof {
                assert(first_newline(buffer@, i as int));
            }
            return Some((string_from_chars(&line), string_from_chars(&rest)));
        }
        i = i + 1;
    }
    proof {
        if buffer@.contains('\n') {
            let k = choose|k: int| 0 <= k < buffer@.len() && buffer@[k] == '\n';
            assert(s@[k] != '\n');
        }
    }
    None
}

} // verus!
