//! The two completion backends: selection, wire requests, and the
//! interpretation of their replies.

use vstd::prelude::*;
use crate::models::{
    Agent, GeminiContent, GeminiPart, GeminiRequest, GeminiResponse, GeminiSystemInstruction,
    GroqRequest, GroqResponse, Message, MessageView, contents_view, history_view, messages_view,
    parts_view, text,
};

verus! {

/// Which backend answers completions.
#[derive(Clone, Copy, Debug, PartialEq, Eq, Structural)]
pub enum ProviderKind {
    /// The primary, OpenAI-style chat completion backend.
    Groq,
    /// The fallback backend with role-remapped conversations.
    Gemini,
}

/// The backend chosen at start-up and the credential it is called with.
#[derive(Debug)]
pub struct ProviderConfig {
    pub kind: ProviderKind,
    pub api_key: String,
}

/// Chooses the backend from the configured credentials: the primary one when
/// its key is present, else the fallback one, else none (the process cannot
/// start).
pub fn select_provider(groq_api_key: Option<String>, gemini_api_key: Option<String>) -> (r:
    Option<ProviderConfig>)
    ensures
        groq_api_key matches Some(k) ==> r matches Some(c) && c.kind == ProviderKind::Groq
            && c.api_key@ == k@,
        groq_api_key is None && gemini_api_key is Some ==> (r matches Some(c) && c.kind
            == ProviderKind::Gemini && c.api_key@ == gemini_api_key->0@),
        groq_api_key is None && gemini_api_key is None ==> r is None,
{
    match groq_api_key {
        Some(k) => Some(ProviderConfig { kind: ProviderKind::Groq, api_key: k }),
        None => match gemini_api_key {
            Some(k) => Some(ProviderConfig { kind: ProviderKind::Gemini, api_key: k }),
            None => None,
        },
    }
}

/// The Gemini role of a history message: "assistant" becomes "model", "user"
/// stays, any other role is dropped.
pub open spec fn gemini_role(role: Seq<char>) -> Option<Seq<char>> {
    if role == "user"@ {
        Some("user"@)
    } else if role == "assistant"@ {
        Some("model"@)
    } else {
        None
    }
}

/// The history in Gemini form, in order, without the messages of unknown role.
pub open spec fn gemini_history(h: Seq<MessageView>) -> Seq<(Seq<char>, Seq<Seq<char>>)>
    decreases h.len(),
{
    if h.len() == 0 {
        Seq::empty()
    } else {
        let rest = gemini_history(h.drop_last());
        match gemini_role(h.last().role) {
            Some(role) => rest.push((role, seq![h.last().content])),
            None => rest,
        }
    }
}

/// The contents of a Gemini request: the mapped history, then the user's text.
pub open spec fn gemini_contents(h: Seq<MessageView>, user_text: Seq<char>) -> Seq<
    (Seq<char>, Seq<Seq<char>>),
> {
    gemini_history(h).push(("user"@, seq![user_text]))
}

fn gemini_message(role: &str, content: String) -> (r: GeminiContent)
    ensures
        r.role@ == role@,
        parts_view(r.parts@) == seq![content@],
{
    let mut parts: Vec<GeminiPart> = Vec::new();
    parts.push(GeminiPart { text: content });
    assert(parts_view(parts@) =~= seq![parts@[0].text@]);
    GeminiContent { role: text(role), parts }
}

/// Builds the Gemini request: the history with roles remapped (unknown roles
/// dropped), the user's text last, and the agent's prompt as system
/// instruction.
pub fn build_gemini_request(agent: &Agent, user_text: &str, history: &Option<Vec<Message>>) -> (r:
    GeminiRequest)
    ensures
        contents_view(r.contents@) == gemini_contents(history_view(*history), user_text@),
        r.system_instruction matches Some(si) && parts_view(si.parts@) == seq![
            agent.system_prompt@,
        ],
{
    let ghost h = history_view(*history);
    let mut contents: Vec<GeminiContent> = Vec::new();
    if let Some(msgs) = history {
        let user = text("user");
        let assistant = text("assistant");
        let mut i: usize = 0;
        while i < msgs.len()
            invariant
                h == messages_view(msgs@),
                i <= msgs@.len(),
                user@ == "user"@,
                assistant@ == "assistant"@,
                contents_view(contents@) == gemini_history(h.subrange(0, i as int)),
            decreases msgs@.len() - i,
        {
            let msg = &msgs[i];
            let ghost prev = contents@;
            assert(h.subrange(0, i + 1).drop_last() == h.subrange(0, i as int));
            assert(h.subrange(0, i + 1).last() == msg@);
            if msg.role == user {
                contents.push(gemini_message("user", msg.content.clone()));
                assert(contents_view(contents@) =~= contents_view(prev).push(
                    ("user"@, seq![msg.content@]),
                ));
            } else if msg.role == assistant {
                contents.push(gemini_message("model", msg.content.clone()));
                assert(contents_view(contents@) =~= contents_view(prev).push(
                    ("model"@, seq![msg.content@]),
                ));
            }
            i = i + 1;
        }
        assert(h.subrange(0, i as int) == h);
    } else {
        assert(contents_view(contents@) =~= gemini_history(h));
    }
    let ghost prev = contents@;
    contents.push(gemini_message("user", text(user_text)));
    assert(contents_view(contents@) =~= contents_view(prev).push(("user"@, seq![user_text@])));
    let mut parts: Vec<GeminiPart> = Vec::new();
    parts.push(GeminiPart { text: agent.system_prompt.clone() });
    assert(parts_view(parts@) =~= seq![agent.system_prompt@]);
    GeminiRequest { contents, system_instruction: Some(GeminiSystemInstruction { parts }) }
}

/// The model that the chat completion backend is asked for.
pub open spec fn groq_model() -> Seq<char> {
    "llama-3.3-70b-versatile"@
}

/// Sampling temperature of chat completions, in tenths.
pub const GROQ_TEMPERATURE_TENTHS: u32 = 7;

/// Upper bound on the tokens of one chat completion.
pub const GROQ_MAX_TOKENS: u32 = 1024;

/// The messages of a chat completion request: the system prompt, the history
/// as given, then the user's text.
pub open spec fn groq_messages(system_prompt: Seq<char>, h: Seq<MessageView>, user_text: Seq<char>)
    -> Seq<MessageView> {
    seq![MessageView { role: "system"@, content: system_prompt }] + h + seq![
        MessageView { role: "user"@, content: user_text },
    ]
}

fn chat_message(role: &str, content: String) -> (r: Message)
    ensures
        r@ == (MessageView { role: role@, content: content@ }),
{
    Message { role: text(role), content }
}

/// Builds the chat completion request: the agent's prompt as system message,
/// the history with roles kept, then the user's text.
pub fn build_groq_request(agent: &Agent, user_text: &str, history: &Option<Vec<Message>>) -> (r:
    GroqRequest)
    ensures
        r.model@ == groq_model(),
        messages_view(r.messages@) == groq_messages(
            agent.system_prompt@,
            history_view(*history),
            user_text@,
        ),
        r.temperature_tenths == GROQ_TEMPERATURE_TENTHS,
        r.max_tokens == GROQ_MAX_TOKENS,
{
    let ghost h = history_view(*history);
    let mut messages: Vec<Message> = Vec::new();
    messages.push(chat_message("system", agent.system_prompt.clone()));
    if let Some(msgs) = history {
        let mut i: usize = 0;
        while i < msgs.len()
            invariant
                h == messages_view(msgs@),
                i <= msgs@.len(),
                messages_view(messages@) == seq![
                    MessageView { role: "system"@, content: agent.system_prompt@ },
                ] + h.subrange(0, i as int),
            decreases msgs@.len() - i,
        {
            let ghost prev = messages@;
            let m = &msgs[i];
            messages.push(Message { role: m.role.clone(), content: m.content.clone() });
            assert(messages_view(messages@) =~= messages_view(prev).push(h[i as int]));
            assert(h.subrange(0, i + 1) =~= h.subrange(0, i as int).push(h[i as int]));
            i = i + 1;
        }
        assert(h.subrange(0, i as int) == h);
    }
    let ghost prev = messages@;
    messages.push(chat_message("user", text(user_text)));
    assert(messages_view(messages@) =~= messages_view(prev).push(
        MessageView { role: "user"@, content: user_text@ },
    ));
    assert(messages_view(messages@) =~= groq_messages(agent.system_prompt@, h, user_text@));
    GroqRequest {
        model: text("llama-3.3-70b-versatile"),
        messages,
        temperature_tenths: GROQ_TEMPERATURE_TENTHS,
        max_tokens: GROQ_MAX_TOKENS,
    }
}

/// A chat completion request for the given prompt, history and user text.
pub open spec fn groq_request_for(
    b: GroqRequest,
    system_prompt: Seq<char>,
    h: Seq<MessageView>,
    user_text: Seq<char>,
) -> bool {
    &&& b.model@ == groq_model()
    &&& messages_view(b.messages@) == groq_messages(system_prompt, h, user_text)
    &&& b.temperature_tenths == GROQ_TEMPERATURE_TENTHS
    &&& b.max_tokens == GROQ_MAX_TOKENS
}

/// A Gemini request for the given prompt, history and user text.
pub open spec fn gemini_request_for(
    b: GeminiRequest,
    system_prompt: Seq<char>,
    h: Seq<MessageView>,
    user_text: Seq<char>,
) -> bool {
    &&& contents_view(b.contents@) == gemini_contents(h, user_text)
    &&& match b.system_instruction {
        Some(si) => parts_view(si.parts@) == seq![system_prompt],
        None => false,
    }
}

/// The body of a backend request.
#[derive(Debug)]
pub enum WireRequest {
    Groq(GroqRequest),
    Gemini(GeminiRequest),
}

/// Everything needed to perform one backend call: where to post, the
/// authentication header, and the body.
#[derive(Debug)]
pub struct ProviderCall {
    pub url: String,
    pub auth_header: String,
    pub auth_value: String,
    pub body: WireRequest,
}

pub open spec fn groq_url() -> Seq<char> {
    "https://api.groq.com/openai/v1/chat/completions"@
}

/// The generateContent endpoint of a Gemini model.
pub open spec fn gemini_url(model: Seq<char>) -> Seq<char> {
    "https://generativelanguage.googleapis.com/v1beta/models/"@ + model + ":generateContent"@
}

/// Describes the backend call for one completion: the request body of the
/// active backend, its endpoint, and its authentication (a bearer token for
/// the primary backend, an API-key header for the fallback).
pub fn build_call(
    config: &ProviderConfig,
    agent: &Agent,
    user_text: &str,
    history: &Option<Vec<Message>>,
) -> (r: ProviderCall)
    ensures
        config.kind == ProviderKind::Groq ==> {
            &&& r.url@ == groq_url()
            &&& r.auth_header@ == "Authorization"@
            &&& r.auth_value@ == "Bearer "@ + config.api_key@
            &&& r.body matches WireRequest::Groq(b) && groq_request_for(
                b,
                agent.system_prompt@,
                history_view(*history),
                user_text@,
            )
        },
        config.kind == ProviderKind::Gemini ==> {
            &&& r.url@ == gemini_url(agent.model@)
            &&& r.auth_header@ == "x-goog-api-key"@
            &&& r.auth_value@ == config.api_key@
            &&& r.body matches WireRequest::Gemini(b) && gemini_request_for(
                b,
                agent.system_prompt@,
                history_view(*history),
                user_text@,
            )
        },
{
    match config.kind {
        ProviderKind::Groq => {
            let body = build_groq_request(agent, user_text, history);
            let auth_value = text("Bearer ").concat(config.api_key.as_str());
            ProviderCall {
                url: text("https://api.groq.com/openai/v1/chat/completions"),
                auth_header: text("Authorization"),
                auth_value,
                body: WireRequest::Groq(body),
            }
        },
        ProviderKind::Gemini => {
            let body = build_gemini_request(agent, user_text, history);
            let url = text("https://generativelanguage.googleapis.com/v1beta/models/").concat(
                agent.model.as_str(),
            ).concat(":generateContent");
            ProviderCall {
                url,
                auth_header: text("x-goog-api-key"),
                auth_value: config.api_key.clone(),
                body: WireRequest::Gemini(body),
            }
        },
    }
}

/// The decimal digit character of `d < 10`.
pub open spec fn digit_char(d: nat) -> char {
    ((d + 48) as u8) as char
}

/// The decimal notation of `n`, without leading zeros.
pub open spec fn decimal(n: nat) -> Seq<char>
    decreases n,
{
    if n < 10 {
        seq![digit_char(n)]
    } else {
        decimal(n / 10).push(digit_char(n % 10))
    }
}

fn digit_text(d: u64) -> (r: &'static str)
    requires
        d < 10,
    ensures
        r@ == seq![digit_char(d as nat)],
{
    if d == 0 {
        proof { reveal_strlit("0"); }
        "0"
    } else if d == 1 {
        proof { reveal_strlit("1"); }
        "1"
    } else if d == 2 {
        proof { reveal_strlit("2"); }
        "2"
    } else if d == 3 {
        proof { reveal_strlit("3"); }
        "3"
    } else if d == 4 {
        proof { reveal_strlit("4"); }
        "4"
    } else if d == 5 {
        proof { reveal_strlit("5"); }
        "5"
    } else if d == 6 {
        proof { reveal_strlit("6"); }
        "6"
    } else if d == 7 {
        proof { reveal_strlit("7"); }
        "7"
    } else if d == 8 {
        proof { reveal_strlit("8"); }
        "8"
    } else {
        proof { reveal_strlit("9"); }
        "9"
    }
}

/// Writes `n` in decimal.
pub fn decimal_text(n: u64) -> (r: String)
    ensures
        r@ == decimal(n as nat),
    decreases n,
{
    if n < 10 {
        text(digit_text(n))
    } else {
        let mut r = decimal_text(n / 10);
        r.append(digit_text(n % 10));
        r
    }
}

/// Why a backend call failed.
#[derive(Debug)]
pub enum ProviderFailure {
    /// The request could not be sent or its response could not be read.
    Transport { detail: String },
    /// The backend answered with a status outside 200..=299.
    Remote { status: u16, body: String },
    /// The response body is not of the expected shape.
    Decode { reason: String, body: String },
}

/// A failed backend call, with the backend that failed.
#[derive(Debug)]
pub struct ProviderError {
    pub provider: ProviderKind,
    pub failure: ProviderFailure,
}

/// The backend's name, as used in diagnostics.
pub open spec fn provider_name(kind: ProviderKind) -> Seq<char> {
    match kind {
        ProviderKind::Groq => "Groq"@,
        ProviderKind::Gemini => "Gemini"@,
    }
}

/// The diagnostic text of a failed backend call.
pub open spec fn failure_details(e: ProviderError) -> Seq<char> {
    let name = provider_name(e.provider);
    match e.failure {
        ProviderFailure::Transport { detail } => name + " API request failed: "@ + detail@,
        ProviderFailure::Remote { status, body } => name + " API error ("@ + decimal(
            status as nat,
        ) + "): "@ + body@,
        ProviderFailure::Decode { reason, body } => "Failed to parse "@ + name + " response: "@
            + reason@ + ". Raw: "@ + body@,
    }
}

fn provider_name_text(kind: ProviderKind) -> (r: String)
    ensures
        r@ == provider_name(kind),
{
    match kind {
        ProviderKind::Groq => text("Groq"),
        ProviderKind::Gemini => text("Gemini"),
    }
}

impl ProviderError {
    /// The diagnostic text of this failure; it is never empty.
    pub fn details(&self) -> (r: String)
        ensures
            r@ == failure_details(*self),
            r@.len() > 0,
    {
        let name = provider_name_text(self.provider);
        proof {
            reveal_strlit(" API request failed: ");
            reveal_strlit(" API error (");
            reveal_strlit("Failed to parse ");
        }
        match &self.failure {
            ProviderFailure::Transport { detail } => {
                name.concat(" API request failed: ").concat(detail.as_str())
            },
            ProviderFailure::Remote { status, body } => {
                let code = decimal_text(*status as u64);
                name.concat(" API error (").concat(code.as_str()).concat("): ").concat(
                    body.as_str(),
                )
            },
            ProviderFailure::Decode { reason, body } => {
                text("Failed to parse ").concat(name.as_str()).concat(" response: ").concat(
                    reason.as_str(),
                ).concat(". Raw: ").concat(body.as_str())
            },
        }
    }
}

/// Whether an HTTP status reports success.
pub open spec fn is_success(status: u16) -> bool {
    200 <= status <= 299
}

/// A completion: the reply and, when the backend reported it, the tokens used.
#[derive(Debug)]
pub struct Completion {
    pub reply_text: String,
    pub tokens_used: Option<u32>,
}

/// The reply used when Gemini returns no candidate text.
pub open spec fn no_response_text() -> Seq<char> {
    "Sorry, I couldn't generate a response."@
}

/// The reply text of a Gemini response: the first part of the first
/// candidate, or the fixed apology when there is none.
pub open spec fn gemini_reply_text(r: GeminiResponse) -> Seq<char> {
    if r.candidates@.len() > 0 && r.candidates@[0].content.parts@.len() > 0 {
        r.candidates@[0].content.parts@[0].text@
    } else {
        no_response_text()
    }
}

/// The total token count of a Gemini response, if reported.
pub open spec fn gemini_tokens(r: GeminiResponse) -> Option<u32> {
    match r.usage_metadata {
        Some(u) => u.total_token_count,
        None => None,
    }
}

/// The completion carried by a Gemini response. An empty candidate list is a
/// valid answer and yields the fixed apology.
pub fn gemini_completion(resp: &GeminiResponse) -> (r: Completion)
    ensures
        r.reply_text@ == gemini_reply_text(*resp),
        r.tokens_used == gemini_tokens(*resp),
{
    let reply_text = if resp.candidates.len() > 0 && resp.candidates[0].content.parts.len() > 0 {
        resp.candidates[0].content.parts[0].text.clone()
    } else {
        text("Sorry, I couldn't generate a response.")
    };
    let tokens_used = match &resp.usage_metadata {
        Some(u) => u.total_token_count,
        None => None,
    };
    Completion { reply_text, tokens_used }
}

/// The reply text of a chat completion: the content of the first choice.
pub open spec fn groq_reply_text(r: GroqResponse) -> Option<Seq<char>> {
    if r.choices@.len() > 0 {
        match r.choices@[0].content {
            Some(c) => Some(c@),
            None => None,
        }
    } else {
        None
    }
}

/// The total token count of a chat completion, if reported, cast to `u32`.
pub open spec fn groq_tokens(r: GroqResponse) -> Option<u32> {
    match r.usage {
        Some(u) => match u.total_tokens {
            Some(t) => Some(t as u32),
            None => None,
        },
        None => None,
    }
}

/// The reason given when a chat completion has no reply content.
pub open spec fn missing_content_reason() -> Seq<char> {
    "missing field choices[0].message.content"@
}

/// The completion carried by a chat completion response, or `None` when the
/// first choice has no message content.
pub fn groq_completion(resp: &GroqResponse) -> (r: Option<Completion>)
    ensures
        r is Some <==> groq_reply_text(*resp) is Some,
        r matches Some(c) ==> c.reply_text@ == groq_reply_text(*resp)->0 && c.tokens_used
            == groq_tokens(*resp),
{
    if resp.choices.len() == 0 {
        return None;
    }
    match &resp.choices[0].content {
        Some(c) => {
            let tokens_used = match &resp.usage {
                Some(u) => match u.total_tokens {
                    Some(t) => Some(t as u32),
                    None => None,
                },
                None => None,
            };
            Some(Completion { reply_text: c.clone(), tokens_used })
        },
        None => None,
    }
}

/// `e` reports that `kind` answered with a failing status and body.
pub open spec fn is_remote_error(e: ProviderError, kind: ProviderKind, status: u16, body: Seq<char>)
    -> bool {
    &&& e.provider == kind
    &&& e.failure matches ProviderFailure::Remote { status: s, body: b } && s == status && b@ == body
}

/// `e` reports that the body that `kind` sent could not be decoded.
pub open spec fn is_decode_error(
    e: ProviderError,
    kind: ProviderKind,
    reason: Seq<char>,
    body: Seq<char>,
) -> bool {
    &&& e.provider == kind
    &&& e.failure matches ProviderFailure::Decode { reason: m, body: b } && m@ == reason && b@ == body
}

/// Interprets a Gemini answer: its status, its raw body, and the body decoded
/// as a Gemini response (or the decoder's complaint).
pub fn gemini_reply(status: u16, body: String, decoded: Result<GeminiResponse, String>) -> (r:
    Result<Completion, ProviderError>)
    ensures
        !is_success(status) ==> (r matches Err(e) && is_remote_error(
            e,
            ProviderKind::Gemini,
            status,
            body@,
        )),
        is_success(status) && decoded is Err ==> (r matches Err(e) && is_decode_error(
            e,
            ProviderKind::Gemini,
            decoded->Err_0@,
            body@,
        )),
        is_success(status) && decoded is Ok ==> (r matches Ok(c) && c.reply_text@
            == gemini_reply_text(decoded->Ok_0) && c.tokens_used == gemini_tokens(decoded->Ok_0)),
{
    if !(200 <= status && status <= 299) {
        return Err(
            ProviderError {
                provider: ProviderKind::Gemini,
                failure: ProviderFailure::Remote { status, body },
            },
        );
    }
    match decoded {
        Ok(resp) => Ok(gemini_completion(&resp)),
        Err(reason) => Err(
            ProviderError {
                provider: ProviderKind::Gemini,
                failure: ProviderFailure::Decode { reason, body },
            },
        ),
    }
}

/// Interprets a chat completion answer: its status, its raw body, and the
/// body decoded as a chat completion (or the decoder's complaint). A first
/// choice without message content is a decoding failure.
pub fn groq_reply(status: u16, body: String, decoded: Result<GroqResponse, String>) -> (r: Result<
    Completion,
    ProviderError,
>)
    ensures
        !is_success(status) ==> (r matches Err(e) && is_remote_error(
            e,
            ProviderKind::Groq,
            status,
            body@,
        )),
        is_success(status) && decoded is Err ==> (r matches Err(e) && is_decode_error(
            e,
            ProviderKind::Groq,
            decoded->Err_0@,
            body@,
        )),
        is_success(status) && decoded is Ok && groq_reply_text(decoded->Ok_0) is None ==> (r matches Err(e)
            && is_decode_error(e, ProviderKind::Groq, missing_content_reason(), body@)),
        is_success(status) && decoded is Ok && groq_reply_text(decoded->Ok_0) is Some ==> (r matches Ok(c)
            && c.reply_text@ == groq_reply_text(decoded->Ok_0)->0 && c.tokens_used == groq_tokens(
            decoded->Ok_0,
        )),
{
    if !(200 <= status && status <= 299) {
        return Err(
            ProviderError { provider: ProviderKind::Groq, failure: ProviderFailure::Remote { status, body } },
        );
    }
    match decoded {
        Ok(resp) => match groq_completion(&resp) {
            Some(c) => Ok(c),
            None => Err(
                ProviderError {
                    provider: ProviderKind::Groq,
                    failure: ProviderFailure::Decode {
                        reason: text("missing field choices[0].message.content"),
                        body,
                    },
                },
            ),
        },
        Err(reason) => Err(
            ProviderError { provider: ProviderKind::Groq, failure: ProviderFailure::Decode { reason, body } },
        ),
    }
}

} // verus!
