//! Data types exchanged by the dispatcher, the catalog and the backends, with
//! their mathematical views.

use vstd::prelude::*;

verus! {

/// Declares serde_json's `Value` so that request ids can be carried from a
/// request to its response; nothing inside a value is read.
#[verifier::external_type_specification]
#[verifier::external_body]
pub struct ExJsonValue(serde_json::Value);

/// An owned copy of a string slice.
pub(crate) fn text(s: &str) -> (r: String)
    ensures
        r@ == s@,
{
    String::from_str(s)
}

/// Mathematical view of a `String` sequence.
pub open spec fn strings_view(v: Seq<String>) -> Seq<Seq<char>> {
    v.map_values(|s: String| s@)
}

/// Information about an agent of the catalog.
#[derive(Debug)]
pub struct Agent {
    pub id: String,
    pub name: String,
    pub description: String,
    pub capabilities: Vec<String>,
    pub model: String,
    pub system_prompt: String,
}

pub struct AgentView {
    pub id: Seq<char>,
    pub name: Seq<char>,
    pub description: Seq<char>,
    pub capabilities: Seq<Seq<char>>,
    pub model: Seq<char>,
    pub system_prompt: Seq<char>,
}

impl View for Agent {
    type V = AgentView;

    open spec fn view(&self) -> AgentView {
        AgentView {
            id: self.id@,
            name: self.name@,
            description: self.description@,
            capabilities: strings_view(self.capabilities@),
            model: self.model@,
            system_prompt: self.system_prompt@,
        }
    }
}

pub open spec fn agents_view(v: Seq<Agent>) -> Seq<AgentView> {
    v.map_values(|a: Agent| a@)
}

/// Result of the `list_agents` method.
#[derive(Debug)]
pub struct ListAgentsResult {
    pub agents: Vec<Agent>,
}

/// Parameters of the `process_text` method.
#[derive(Debug)]
pub struct ProcessTextParams {
    pub agent_id: String,
    pub user_text: String,
    pub conversation_history: Option<Vec<Message>>,
}

/// A message of the conversation history; `role` is "user" or "assistant".
#[derive(Debug)]
pub struct Message {
    pub role: String,
    pub content: String,
}

pub struct MessageView {
    pub role: Seq<char>,
    pub content: Seq<char>,
}

impl View for Message {
    type V = MessageView;

    open spec fn view(&self) -> MessageView {
        MessageView { role: self.role@, content: self.content@ }
    }
}

pub open spec fn messages_view(v: Seq<Message>) -> Seq<MessageView> {
    v.map_values(|m: Message| m@)
}

/// The history a caller supplied; an absent history is an empty one.
pub open spec fn history_view(h: Option<Vec<Message>>) -> Seq<MessageView> {
    match h {
        Some(v) => messages_view(v@),
        None => Seq::empty(),
    }
}

/// Result of the `process_text` method.
#[derive(Debug)]
pub struct ProcessTextResult {
    pub agent_id: String,
    pub reply_text: String,
    pub metadata: ProcessingMetadata,
}

/// Metadata about one completion. The confidence is a fixed placeholder,
/// held in hundredths.
#[derive(Debug)]
pub struct ProcessingMetadata {
    pub model: String,
    pub tokens_used: Option<u32>,
    pub processing_time_ms: u64,
    pub confidence_hundredths: u32,
}

/// Request body of the Gemini generateContent endpoint.
#[derive(Debug)]
pub struct GeminiRequest {
    pub contents: Vec<GeminiContent>,
    pub system_instruction: Option<GeminiSystemInstruction>,
}

/// One message of a Gemini conversation; `role` is "user" or "model".
#[derive(Debug)]
pub struct GeminiContent {
    pub role: String,
    pub parts: Vec<GeminiPart>,
}

/// A text part of a Gemini message.
#[derive(Debug)]
pub struct GeminiPart {
    pub text: String,
}

/// The system instruction of a Gemini request.
#[derive(Debug)]
pub struct GeminiSystemInstruction {
    pub parts: Vec<GeminiPart>,
}

/// Response body of the Gemini generateContent endpoint.
#[derive(Debug)]
pub struct GeminiResponse {
    pub candidates: Vec<GeminiCandidate>,
    pub usage_metadata: Option<GeminiUsageMetadata>,
}

/// One candidate answer of Gemini.
#[derive(Debug)]
pub struct GeminiCandidate {
    pub content: GeminiContent,
}

/// Token usage reported by Gemini.
#[derive(Debug)]
pub struct GeminiUsageMetadata {
    pub prompt_token_count: Option<u32>,
    pub candidates_token_count: Option<u32>,
    pub total_token_count: Option<u32>,
}

pub open spec fn parts_view(v: Seq<GeminiPart>) -> Seq<Seq<char>> {
    v.map_values(|p: GeminiPart| p.text@)
}

/// A Gemini message seen as its role and the texts of its parts.
pub open spec fn content_view(c: GeminiContent) -> (Seq<char>, Seq<Seq<char>>) {
    (c.role@, parts_view(c.parts@))
}

pub open spec fn contents_view(v: Seq<GeminiContent>) -> Seq<(Seq<char>, Seq<Seq<char>>)> {
    v.map_values(|c: GeminiContent| content_view(c))
}

/// Request body of the OpenAI-style chat completion endpoint. The sampling
/// temperature is held in tenths.
#[derive(Debug)]
pub struct GroqRequest {
    pub model: String,
    pub messages: Vec<Message>,
    pub temperature_tenths: u32,
    pub max_tokens: u32,
}

/// The fields that are read from an OpenAI-style chat completion response.
#[derive(Debug)]
pub struct GroqResponse {
    pub choices: Vec<GroqChoice>,
    pub usage: Option<GroqUsage>,
}

/// One choice of a chat completion: the content of its message, if any.
#[derive(Debug)]
pub struct GroqChoice {
    pub content: Option<String>,
}

/// Token usage of a chat completion.
#[derive(Debug)]
pub struct GroqUsage {
    pub total_tokens: Option<u64>,
}

/// A JSON-RPC 2.0 request; `params` is the method's decoded parameters.
#[derive(Debug)]
pub struct JsonRpcRequest<T> {
    pub jsonrpc: String,
    pub method: String,
    pub params: Option<T>,
    pub id: serde_json::Value,
}

/// A JSON-RPC 2.0 response.
#[derive(Debug)]
pub struct JsonRpcResponse<T> {
    pub jsonrpc: String,
    pub result: Option<T>,
    pub error: Option<JsonRpcError>,
    pub id: serde_json::Value,
}

/// A JSON-RPC 2.0 error object.
#[derive(Debug)]
pub struct JsonRpcError {
    pub code: i32,
    pub message: String,
    pub data: Option<ErrorData>,
}

/// Structured diagnostics attached to an internal error.
#[derive(Debug)]
pub struct ErrorData {
    pub details: String,
}

/// The result of one of the two methods.
#[derive(Debug)]
pub enum RpcResult {
    Agents(ListAgentsResult),
    Processed(ProcessTextResult),
}

} // verus!
