use vstd::prelude::*;

use crate::settings::{Provider, Settings};
use crate::text::{
    concat_strs, eq_ignore_ascii_case, is_blank, is_white_space, law_trim_keeps_interior, str_eq_ignore_ascii_case, trim, trim_end_char,
    trim_end_matches_char, trim_str,
};

verus! {

#[verifier::external_type_specification]
#[verifier::external_body]
pub struct ExJsonError(serde_json::Error);

/// The message given when no API key is configured.
pub const MISSING_API_KEY_MESSAGE: &'static str = "尚未配置 API Key（请在设置中填写）";

/// The message given when a 2xx answer's body is not JSON (the HTTP
/// client's own wording for an undecodable body).
pub const UNDECODABLE_REPLY_MESSAGE: &'static str = "error decoding response body";

/// The Anthropic API version asked for.
pub const ANTHROPIC_VERSION: &'static str = "2023-06-01";

/// A chat request, ready to be posted: every header of `headers` is set,
/// and `body` is the JSON payload.
#[derive(Debug)]
pub struct ChatRequest {
    pub url: String,
    pub headers: Vec<(String, String)>,
    pub body: String,
}

/// What came back from the chat endpoint.
#[derive(Debug)]
pub enum ChatReply {
    /// A status outside 2xx, written as `"<code> <reason>"`, and the body's text.
    Rejected { status: String, detail: String },
    /// A 2xx answer and the bytes of its body.
    Answered { body: Vec<u8> },
}

/// A hexadecimal digit, lower case.
pub open spec fn hex_digit(n: u32) -> char {
    if n < 10 {
        (0x30 + n) as char
    } else {
        (0x57 + n) as char
    }
}

/// How serde_json writes one character inside a JSON string: `"` and `\`
/// behind a backslash; backspace, tab, line feed, form feed and carriage
/// return as `\b \t \n \f \r`; other characters below U+0020 as `\u00xx`;
/// everything else as it is.
pub open spec fn json_escape_char(c: char) -> Seq<char> {
    let n = c as u32;
    if c == '"' {
        seq!['\\', '"']
    } else if c == '\\' {
        seq!['\\', '\\']
    } else if n == 0x08 {
        seq!['\\', 'b']
    } else if n == 0x09 {
        seq!['\\', 't']
    } else if n == 0x0A {
        seq!['\\', 'n']
    } else if n == 0x0C {
        seq!['\\', 'f']
    } else if n == 0x0D {
        seq!['\\', 'r']
    } else if n < 0x20 {
        seq!['\\', 'u', '0', '0', hex_digit(n / 16), hex_digit(n % 16)]
    } else {
        seq![c]
    }
}

pub open spec fn json_escape(s: Seq<char>) -> Seq<char>
    decreases s.len(),
{
    if s.len() == 0 {
        Seq::empty()
    } else {
        json_escape_char(s[0]) + json_escape(s.drop_first())
    }
}

/// The JSON text of the string `s`.
pub open spec fn json_string(s: Seq<char>) -> Seq<char> {
    seq!['"'] + json_escape(s) + seq!['"']
}

/// Calls `serde_json::to_string` on a string slice. Claimed: it succeeds (its
/// writer is a `Vec<u8>`, which never fails) and gives `json_string(s@)`: the
/// escape table and `write_char_escape` of serde_json's serializer.
#[verifier::external_body]
fn json_quote(s: &str) -> (r: Result<String, serde_json::Error>)
    ensures
        r is Ok,
        r matches Ok(t) ==> t@ == json_string(s@),
{
    serde_json::to_string(s)
}

/// What the original lookup `v[k0][i][k1][k2].as_str()` finds in `body`,
/// parsed by serde_json as a `Value`: `None` where `body` is not JSON;
/// `Some(None)` where nothing is there or it is not a string; `Some(Some(t))`
/// where the string `t` is there.
pub uninterp spec fn json_text_key_item_key_key(
    body: Seq<u8>,
    k0: Seq<char>,
    i: usize,
    k1: Seq<char>,
    k2: Seq<char>,
) -> Option<Option<Seq<char>>>;

/// The same for `v[k0][i][k1].as_str()`.
pub uninterp spec fn json_text_key_item_key(body: Seq<u8>, k0: Seq<char>, i: usize, k1: Seq<char>) -> Option<Option<Seq<char>>>;

pub open spec fn found_view(r: Option<Option<String>>) -> Option<Option<Seq<char>>> {
    match r {
        None => None,
        Some(None) => Some(None),
        Some(Some(t)) => Some(Some(t@)),
    }
}

/// Calls `serde_json::from_slice` for a `serde_json::Value`, indexes it with
/// `k0`, `i`, `k1` and `k2` (`Index` on `Value`, which gives `Null` where
/// nothing is found) and calls `Value::as_str`. Claimed: the result is
/// `json_text_key_item_key_key` of the arguments, the string converted one for one.
#[verifier::external_body]
fn json_str_key_item_key_key(body: &[u8], k0: &str, i: usize, k1: &str, k2: &str) -> (r: Option<Option<String>>)
    ensures
        found_view(r) == json_text_key_item_key_key(body@, k0@, i, k1@, k2@),
{
    serde_json::from_slice::<serde_json::Value>(body).ok().map(
        |v| v[k0][i][k1][k2].as_str().map(str::to_string),
    )
}

/// As `json_str_key_item_key_key`, with one key fewer. Claimed: the result is
/// `json_text_key_item_key` of the arguments.
#[verifier::external_body]
fn json_str_key_item_key(body: &[u8], k0: &str, i: usize, k1: &str) -> (r: Option<Option<String>>)
    ensures
        found_view(r) == json_text_key_item_key(body@, k0@, i, k1@),
{
    serde_json::from_slice::<serde_json::Value>(body).ok().map(
        |v| v[k0][i][k1].as_str().map(str::to_string),
    )
}

/// The endpoint under `base`: its trailing slashes dropped, then the path of
/// the provider's chat API.
pub open spec fn chat_url_view(provider: Provider, base: Seq<char>) -> Seq<char> {
    trim_end_char(base, '/') + match provider {
        Provider::OpenAi => "/chat/completions"@,
        Provider::Anthropic => "/messages"@,
    }
}

/// The headers of a request: the API key as the provider expects it, and a
/// JSON content type.
pub open spec fn headers_view(provider: Provider, api_key: Seq<char>) -> Seq<(Seq<char>, Seq<char>)> {
    match provider {
        Provider::OpenAi => seq![
            ("Authorization"@, "Bearer "@ + api_key),
            ("Content-Type"@, "application/json"@),
        ],
        Provider::Anthropic => seq![
            ("x-api-key"@, api_key),
            ("anthropic-version"@, ANTHROPIC_VERSION@),
            ("Content-Type"@, "application/json"@),
        ],
    }
}

pub open spec fn headers_of(h: Seq<(String, String)>) -> Seq<(Seq<char>, Seq<char>)> {
    h.map_values(|p: (String, String)| (p.0@, p.1@))
}

/// Whether the source language asks the model to detect it.
pub open spec fn detects_source(source: Seq<char>) -> bool {
    eq_ignore_ascii_case(source, "auto"@) || source.len() == 0
}

/// The system instruction for text in `source`, to be rendered in `target`.
pub open spec fn instruction_view(source: Seq<char>, target: Seq<char>) -> Seq<char> {
    if detects_source(source) {
        "You are a translation engine. Translate the user's text into "@ + target
            + ". Output ONLY the translation itself — no quotes, no explanations, no extra text."@
    } else {
        "You are a translation engine. Translate the user's text from "@ + source + " into "@
            + target
            + ". Output ONLY the translation itself — no quotes, no explanations, no extra text."@
    }
}

/// The instruction names the languages it is given: the target language
/// stands, whole and unchanged, just before the fixed closing sentence; for a
/// named source it stands, whole and unchanged, after the fixed opening;
/// nothing else depends on them.
pub proof fn law_instruction_names_languages(source: Seq<char>, target: Seq<char>)
    ensures
        ({
            let r = instruction_view(source, target);
            let end = r.len() - 81;
            &&& r.len() >= 61 + target.len() + 81
            &&& r.subrange(end - target.len(), end) == target
            &&& detects_source(source) ==> r.len() == 61 + target.len() + 81
            &&& !detects_source(source) ==> {
                &&& r.len() == 61 + source.len() + 6 + target.len() + 81
                &&& r.subrange(61, 61 + source.len() as int) == source
            }
        }),
        forall|t2: Seq<char>|
            instruction_view(source, target) == #[trigger] instruction_view(source, t2) ==> target == t2,
{
    reveal_strlit("You are a translation engine. Translate the user's text into ");
    reveal_strlit("You are a translation engine. Translate the user's text from ");
    reveal_strlit(" into ");
    reveal_strlit(". Output ONLY the translation itself — no quotes, no explanations, no extra text.");
    let tail = ". Output ONLY the translation itself — no quotes, no explanations, no extra text."@;
    let r = instruction_view(source, target);
    if detects_source(source) {
        let p = "You are a translation engine. Translate the user's text into "@;
        assert(r == p + target + tail);
        assert((p + target + tail).subrange(61, 61 + target.len() as int) =~= target);
    } else {
        let p = "You are a translation engine. Translate the user's text from "@;
        assert(r == p + source + " into "@ + target + tail);
        assert((p + source + " into "@ + target + tail).subrange(61, 61 + source.len() as int) =~= source);
        let e: int = (61 + source.len() + 6 + target.len()) as int;
        assert((p + source + " into "@ + target + tail).subrange(e - target.len(), e) =~= target);
    }
    assert forall|t2: Seq<char>|
        instruction_view(source, target) == #[trigger] instruction_view(source, t2) implies target == t2 by {
        let r2 = instruction_view(source, t2);
        if detects_source(source) {
            let p = "You are a translation engine. Translate the user's text into "@;
            assert(r2 == p + t2 + tail);
            assert(r == p + target + tail);
            assert(target =~= r.subrange(61, r.len() - 81));
            assert(t2 =~= r2.subrange(61, r2.len() - 81));
        } else {
            let p = "You are a translation engine. Translate the user's text from "@;
            let q = p + source + " into "@;
            assert(r2 == q + t2 + tail);
            assert(r == q + target + tail);
            assert(target =~= r.subrange(q.len() as int, r.len() - 81));
            assert(t2 =~= r2.subrange(q.len() as int, r2.len() - 81));
        }
    }
}

/// The JSON payload: the model, the system instruction and the user's text,
/// temperature 0, no streaming. An Anthropic-compatible API takes the
/// instruction as `system` and needs `max_tokens`.
pub open spec fn request_body_view(provider: Provider, model: Seq<char>, instruction: Seq<char>, text: Seq<char>) -> Seq<char> {
    match provider {
        Provider::OpenAi => "{\"model\":"@ + json_string(model)
            + ",\"messages\":[{\"role\":\"system\",\"content\":"@ + json_string(instruction)
            + "},{\"role\":\"user\",\"content\":"@ + json_string(text)
            + "}],\"temperature\":0,\"stream\":false}"@,
        Provider::Anthropic => "{\"model\":"@ + json_string(model)
            + ",\"max_tokens\":4096,\"system\":"@ + json_string(instruction)
            + ",\"messages\":[{\"role\":\"user\",\"content\":"@ + json_string(text)
            + "}],\"temperature\":0,\"stream\":false}"@,
    }
}

/// What the provider's reply holds where its answer goes: OpenAI-compatible
/// replies at `choices[0].message.content`, Anthropic-compatible ones at
/// `content[0].text`.
pub open spec fn reply_lookup(provider: Provider, body: Seq<u8>) -> Option<Option<Seq<char>>> {
    match provider {
        Provider::OpenAi => json_text_key_item_key_key(body, "choices"@, 0, "message"@, "content"@),
        Provider::Anthropic => json_text_key_item_key(body, "content"@, 0, "text"@),
    }
}

/// Trailing slashes on the base URL do not change the endpoint.
pub proof fn law_trailing_slash_ignored(provider: Provider, base: Seq<char>)
    ensures
        chat_url_view(provider, base.push('/')) == chat_url_view(provider, base),
{
    assert(base.push('/').drop_last() =~= base);
}

/// The endpoint for the configured provider and base URL.
pub fn chat_url(provider: Provider, base: &str) -> (u: String)
    ensures
        u@ == chat_url_view(provider, base@),
{
    let path = match provider {
        Provider::OpenAi => "/chat/completions",
        Provider::Anthropic => "/messages",
    };
    concat_strs(trim_end_matches_char(base, '/'), path)
}

/// The headers for the configured provider and API key.
pub fn request_headers(provider: Provider, api_key: &str) -> (h: Vec<(String, String)>)
    ensures
        headers_of(h@) == headers_view(provider, api_key@),
{
    let mut h: Vec<(String, String)> = Vec::new();
    match provider {
        Provider::OpenAi => {
            h.push((String::from_str("Authorization"), concat_strs("Bearer ", api_key)));
        },
        Provider::Anthropic => {
            h.push((String::from_str("x-api-key"), String::from_str(api_key)));
            h.push((String::from_str("anthropic-version"), String::from_str(ANTHROPIC_VERSION)));
        },
    }
    h.push((String::from_str("Content-Type"), String::from_str("application/json")));
    assert(headers_of(h@) =~= headers_view(provider, api_key@));
    h
}

/// The system instruction for text in `source`, to be rendered in `target`.
pub fn instruction_for(source: &str, target: &str) -> (s: String)
    ensures
        s@ == instruction_view(source@, target@),
{
    let tail = ". Output ONLY the translation itself — no quotes, no explanations, no extra text.";
    if str_eq_ignore_ascii_case(source, "auto") || source.is_empty() {
        let mut s = String::from_str("You are a translation engine. Translate the user's text into ");
        s.append(target);
        s.append(tail);
        s
    } else {
        let mut s = String::from_str("You are a translation engine. Translate the user's text from ");
        s.append(source);
        s.append(" into ");
        s.append(target);
        s.append(tail);
        s
    }
}

fn quoted(s: &str) -> (q: String)
    ensures
        q@ == json_string(s@),
{
    match json_quote(s) {
        Ok(q) => q,
        Err(_) => String::new(),
    }
}

/// The JSON payload for the provider, `model`, `instruction` and `text`.
pub fn request_body(provider: Provider, model: &str, instruction: &str, text: &str) -> (b: String)
    ensures
        b@ == request_body_view(provider, model@, instruction@, text@),
{
    let qm = quoted(model);
    let qi = quoted(instruction);
    let qt = quoted(text);
    let mut b = String::from_str("{\"model\":");
    b.append(qm.as_str());
    match provider {
        Provider::OpenAi => {
            b.append(",\"messages\":[{\"role\":\"system\",\"content\":");
            b.append(qi.as_str());
            b.append("},{\"role\":\"user\",\"content\":");
        },
        Provider::Anthropic => {
            b.append(",\"max_tokens\":4096,\"system\":");
            b.append(qi.as_str());
            b.append(",\"messages\":[{\"role\":\"user\",\"content\":");
        },
    }
    b.append(qt.as_str());
    b.append("}],\"temperature\":0,\"stream\":false}");
    b
}

/// The first half of a translation. Blank text needs no request: `Ok(None)`,
/// whose translation is the empty string. Settings without an API key (blank
/// once trimmed) give `MISSING_API_KEY_MESSAGE`. Otherwise the request goes to
/// the configured provider's endpoint with the configured model, the API key
/// as configured, the instruction for the configured languages and the
/// trimmed text.
pub fn begin_translation(text: &str, settings: &Settings) -> (r: Result<Option<ChatRequest>, String>)
    ensures
        r matches Ok(None) <==> is_blank(text@),
        r is Err <==> !is_blank(text@) && is_blank(settings.api_key@),
        r matches Err(m) ==> m@ == MISSING_API_KEY_MESSAGE@,
        r matches Ok(Some(req)) ==> {
            &&& req.url@ == chat_url_view(settings.provider, settings.base_url@)
            &&& headers_of(req.headers@) == headers_view(settings.provider, settings.api_key@)
            &&& req.body@ == request_body_view(
                settings.provider,
                settings.model@,
                instruction_view(settings.source_lang@, settings.target_lang@),
                trim(text@),
            )
        },
{
    let t = trim_str(text);
    if t.is_empty() {
        return Ok(None);
    }
    if trim_str(settings.api_key.as_str()).is_empty() {
        return Err(String::from_str(MISSING_API_KEY_MESSAGE));
    }
    let instruction = instruction_for(settings.source_lang.as_str(), settings.target_lang.as_str());
    Ok(Some(ChatRequest {
        url: chat_url(settings.provider, settings.base_url.as_str()),
        headers: request_headers(settings.provider, settings.api_key.as_str()),
        body: request_body(settings.provider, settings.model.as_str(), instruction.as_str(), t),
    }))
}

/// The message given when the endpoint answers outside 2xx.
pub open spec fn api_error_view(status: Seq<char>, detail: Seq<char>) -> Seq<char> {
    "DeepSeek API error "@ + status + ": "@ + detail
}

/// What a translation gives for what the reply holds where its answer goes:
/// an error where the body was not JSON, the empty string where no string
/// stands there, else that string trimmed.
pub open spec fn answer_from(found: Option<Option<Seq<char>>>) -> Result<Seq<char>, Seq<char>> {
    match found {
        None => Err(UNDECODABLE_REPLY_MESSAGE@),
        Some(None) => Ok(Seq::empty()),
        Some(Some(t)) => Ok(trim(t)),
    }
}

/// An answer is the string found in the reply, with only whitespace taken
/// off its two ends: it is one unbroken stretch `t[a..b]` of the found text,
/// nothing outside that stretch is anything but whitespace, and it neither
/// begins nor ends with whitespace. Where no string is found the answer is
/// empty; where the body is not JSON it is an error.
pub proof fn law_answer_is_found_text_trimmed(t: Seq<char>) -> (ab: (int, int))
    ensures
        0 <= ab.0 <= ab.1 <= t.len(),
        answer_from(Some(Some(t))) == Ok::<Seq<char>, Seq<char>>(t.subrange(ab.0, ab.1)),
        forall|i: int| 0 <= i < ab.0 ==> is_white_space(#[trigger] t[i]),
        forall|i: int| ab.1 <= i < t.len() ==> is_white_space(#[trigger] t[i]),
        ab.0 < ab.1 ==> !is_white_space(t[ab.0]) && !is_white_space(t[ab.1 - 1]),
        answer_from(Some(None)) == Ok::<Seq<char>, Seq<char>>(Seq::empty()),
        answer_from(None) is Err,
{
    law_trim_keeps_interior(t)
}

/// `answer_from`, for a lookup's result.
pub fn answer_text(found: Option<Option<String>>) -> (r: Result<String, String>)
    ensures
        match r {
            Ok(t) => answer_from(found_view(found)) == Ok::<Seq<char>, Seq<char>>(t@),
            Err(m) => answer_from(found_view(found)) == Err::<Seq<char>, Seq<char>>(m@),
        },
{
    match found {
        None => Err(String::from_str(UNDECODABLE_REPLY_MESSAGE)),
        Some(None) => Ok(String::new()),
        Some(Some(c)) => Ok(String::from_str(trim_str(c.as_str()))),
    }
}

/// What a translation gives for an answer whose body is `body`.
pub open spec fn answer_view(provider: Provider, body: Seq<u8>) -> Result<Seq<char>, Seq<char>> {
    answer_from(reply_lookup(provider, body))
}

/// The second half of a translation: for an answer, the trimmed text that the
/// provider's reply holds where its answer goes (the empty string where it
/// holds no string there, an error where the body is not JSON); for a
/// rejection, the API error.
pub fn finish_translation(provider: Provider, reply: ChatReply) -> (r: Result<String, String>)
    ensures
        match reply {
            ChatReply::Rejected { status, detail } => r matches Err(m) && m@ == api_error_view(status@, detail@),
            ChatReply::Answered { body } => match r {
                Ok(t) => answer_view(provider, body@) == Ok::<Seq<char>, Seq<char>>(t@),
                Err(m) => answer_view(provider, body@) == Err::<Seq<char>, Seq<char>>(m@),
            },
        },
{
    match reply {
        ChatReply::Rejected { status, detail } => {
            let mut m = String::from_str("DeepSeek API error ");
            m.append(status.as_str());
            m.append(": ");
            m.append(detail.as_str());
            Err(m)
        },
        ChatReply::Answered { body } => {
            let found = match provider {
                Provider::OpenAi => json_str_key_item_key_key(body.as_slice(), "choices", 0, "message", "content"),
                Provider::Anthropic => json_str_key_item_key(body.as_slice(), "content", 0, "text"),
            };
            answer_text(found)
        },
    }
}

} // verus!
