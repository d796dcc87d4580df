//! JSON-RPC dispatch: envelope validation, routing, and the `process_text`
//! pipeline around the backend call.
//!
//! The backend call itself is performed by the caller: `handle_jsonrpc`
//! either answers at once or hands back a `PendingCompletion`, and
//! `finish_process_text` turns the call's outcome into the response.

use vstd::prelude::*;
use crate::agents::{
    catalog, catalog_entry, find_agent_by_id, get_agents, ids_distinct, in_catalog,
    lemma_catalog_well_formed,
};
use crate::models::{
    Agent, AgentView, ErrorData, JsonRpcError, JsonRpcRequest, JsonRpcResponse, ListAgentsResult,
    Message, ProcessTextParams, ProcessTextResult, ProcessingMetadata, RpcResult, agents_view,
    history_view, text,
};
use crate::provider::{Completion, ProviderError, failure_details};

verus! {

/// The envelope's `jsonrpc` field is not "2.0".
pub const INVALID_REQUEST: i32 = -32600;

/// The method is unknown.
pub const METHOD_NOT_FOUND: i32 = -32601;

/// The parameters are missing or malformed, or name an unknown agent.
pub const INVALID_PARAMS: i32 = -32602;

/// The backend call failed.
pub const INTERNAL_ERROR: i32 = -32603;

/// The fixed confidence reported with every completion, in hundredths.
pub const CONFIDENCE_HUNDREDTHS: u32 = 95;

/// A request whose parameters were decoded as those of `process_text`:
/// `Err` carries the decoder's complaint.
pub type RpcRequest = JsonRpcRequest<Result<ProcessTextParams, String>>;

/// A response of either method.
pub type RpcResponse = JsonRpcResponse<RpcResult>;

/// What the dispatcher asks for next.
#[derive(Debug)]
pub enum Step {
    /// The response is ready.
    Reply(RpcResponse),
    /// A completion must be obtained from the active backend, then handed to
    /// `finish_process_text`.
    Complete(PendingCompletion),
}

/// A `process_text` request whose agent has been resolved.
#[derive(Debug)]
pub struct PendingCompletion {
    pub agent: Agent,
    pub user_text: String,
    pub conversation_history: Option<Vec<Message>>,
    pub id: serde_json::Value,
}

pub open spec fn invalid_request_message() -> Seq<char> {
    "Invalid Request: jsonrpc must be '2.0'"@
}

pub open spec fn method_not_found_message(method: Seq<char>) -> Seq<char> {
    "Method not found: "@ + method
}

pub open spec fn missing_params_message() -> Seq<char> {
    "Invalid params: agent_id and user_text are required"@
}

pub open spec fn invalid_params_message(reason: Seq<char>) -> Seq<char> {
    "Invalid params: "@ + reason
}

pub open spec fn agent_not_found_message(agent_id: Seq<char>) -> Seq<char> {
    "Agent not found: "@ + agent_id
}

/// The message of an internal error; the diagnostics go to its data only.
pub open spec fn internal_error_message() -> Seq<char> {
    "Internal error: processing failed"@
}

/// `needle` occurs in `hay`.
pub open spec fn contains(hay: Seq<char>, needle: Seq<char>) -> bool {
    exists|i: int| 0 <= i <= hay.len() - needle.len() && #[trigger] hay.subrange(i, i + needle.len()) == needle
}

/// A response carries version "2.0" and exactly one of result and error.
pub open spec fn well_formed<T>(r: JsonRpcResponse<T>) -> bool {
    &&& r.jsonrpc@ == "2.0"@
    &&& (r.result is Some <==> r.error is None)
}

/// `r` is an error response with the given code and message, echoing `id`.
pub open spec fn is_error<T>(r: JsonRpcResponse<T>, code: i32, message: Seq<char>, id: serde_json::Value) -> bool {
    &&& well_formed(r)
    &&& r.id == id
    &&& r.error matches Some(e) && e.code == code && e.message@ == message && e.data is None
}

/// The agents listed by a response (empty when it lists none).
pub open spec fn listed_agents(r: RpcResponse) -> Seq<AgentView> {
    match r.result {
        Some(RpcResult::Agents(l)) => agents_view(l.agents@),
        _ => Seq::empty(),
    }
}

/// `r` is the answer of `list_agents` to a request with this id.
pub open spec fn is_list_agents_response(r: RpcResponse, id: serde_json::Value) -> bool {
    &&& well_formed(r)
    &&& r.id == id
    &&& r.result matches Some(RpcResult::Agents(l))
    &&& listed_agents(r) == catalog()
}

/// The id a step answers to.
pub open spec fn step_id(s: Step) -> serde_json::Value {
    match s {
        Step::Reply(r) => r.id,
        Step::Complete(p) => p.id,
    }
}

/// What `process_text` does with a request.
pub open spec fn process_text_step(request: RpcRequest, s: Step) -> bool {
    match request.params {
        None => s matches Step::Reply(r) && is_error(
            r,
            INVALID_PARAMS,
            missing_params_message(),
            request.id,
        ),
        Some(Err(reason)) => s matches Step::Reply(r) && is_error(
            r,
            INVALID_PARAMS,
            invalid_params_message(reason@),
            request.id,
        ),
        Some(Ok(p)) => if in_catalog(p.agent_id@) {
            &&& s matches Step::Complete(c)
            &&& c.agent@ == catalog_entry(p.agent_id@)
            &&& c.user_text@ == p.user_text@
            &&& history_view(c.conversation_history) == history_view(p.conversation_history)
            &&& c.id == request.id
        } else {
            s matches Step::Reply(r) && is_error(
                r,
                INVALID_PARAMS,
                agent_not_found_message(p.agent_id@),
                request.id,
            )
        },
    }
}

/// What the dispatcher does with a request.
pub open spec fn dispatch(request: RpcRequest, s: Step) -> bool {
    if request.jsonrpc@ != "2.0"@ {
        s matches Step::Reply(r) && is_error(r, INVALID_REQUEST, invalid_request_message(), request.id)
    } else if request.method@ == "list_agents"@ {
        s matches Step::Reply(r) && is_list_agents_response(r, request.id)
    } else if request.method@ == "process_text"@ {
        process_text_step(request, s)
    } else {
        s matches Step::Reply(r) && is_error(
            r,
            METHOD_NOT_FOUND,
            method_not_found_message(request.method@),
            request.id,
        )
    }
}

/// The response to a resolved `process_text` request, given the backend's
/// outcome and the time it took.
pub open spec fn finished(
    p: PendingCompletion,
    outcome: Result<Completion, ProviderError>,
    elapsed_ms: u64,
    r: RpcResponse,
) -> bool {
    &&& well_formed(r)
    &&& r.id == p.id
    &&& match outcome {
        Ok(c) => r.result matches Some(RpcResult::Processed(t)) && {
            &&& t.agent_id@ == p.agent.id@
            &&& t.reply_text@ == c.reply_text@
            &&& t.metadata.model@ == p.agent.model@
            &&& t.metadata.tokens_used == c.tokens_used
            &&& t.metadata.processing_time_ms == elapsed_ms
            &&& t.metadata.confidence_hundredths == CONFIDENCE_HUNDREDTHS
        },
        Err(e) => r.error matches Some(err) && {
            &&& err.code == INTERNAL_ERROR
            &&& err.message@ == internal_error_message()
            &&& err.data matches Some(d) && d.details@ == failure_details(e)
        },
    }
}

fn error_response(code: i32, message: String, id: serde_json::Value) -> (r: RpcResponse)
    ensures
        is_error(r, code, message@, id),
{
    JsonRpcResponse {
        jsonrpc: text("2.0"),
        result: None,
        error: Some(JsonRpcError { code, message, data: None }),
        id,
    }
}

/// Answers `list_agents`: the whole catalog, in order.
pub fn handle_list_agents<T>(request: JsonRpcRequest<T>) -> (r: RpcResponse)
    ensures
        is_list_agents_response(r, request.id),
{
    let agents = get_agents();
    JsonRpcResponse {
        jsonrpc: text("2.0"),
        result: Some(RpcResult::Agents(ListAgentsResult { agents })),
        error: None,
        id: request.id,
    }
}

/// Validates the parameters of `process_text` and resolves its agent: either
/// an "Invalid params" error or the completion to obtain.
pub fn handle_process_text(request: RpcRequest) -> (r: Step)
    ensures
        process_text_step(request, r),
        step_id(r) == request.id,
{
    match request.params {
        None => Step::Reply(
            error_response(
                INVALID_PARAMS,
                text("Invalid params: agent_id and user_text are required"),
                request.id,
            ),
        ),
        Some(Err(reason)) => Step::Reply(
            error_response(INVALID_PARAMS, text("Invalid params: ").concat(reason.as_str()), request.id),
        ),
        Some(Ok(params)) => match find_agent_by_id(params.agent_id.as_str()) {
            None => Step::Reply(
                error_response(
                    INVALID_PARAMS,
                    text("Agent not found: ").concat(params.agent_id.as_str()),
                    request.id,
                ),
            ),
            Some(agent) => Step::Complete(
                PendingCompletion {
                    agent,
                    user_text: params.user_text,
                    conversation_history: params.conversation_history,
                    id: request.id,
                },
            ),
        },
    }
}

/// Validates the envelope's version and routes by method name.
pub fn handle_jsonrpc(request: RpcRequest) -> (r: Step)
    ensures
        dispatch(request, r),
        step_id(r) == request.id,
        request.jsonrpc@ == "2.0"@ && request.method@ != "list_agents"@ && request.method@
            != "process_text"@ ==> (r matches Step::Reply(resp) && resp.error matches Some(e)
            && contains(e.message@, request.method@)),
{
    if request.jsonrpc != text("2.0") {
        return Step::Reply(error_response(INVALID_REQUEST, text("Invalid Request: jsonrpc must be '2.0'"), request.id));
    }
    if request.method == text("list_agents") {
        Step::Reply(handle_list_agents(request))
    } else if request.method == text("process_text") {
        handle_process_text(request)
    } else {
        let prefix = text("Method not found: ");
        let message = prefix.concat(request.method.as_str());
        proof {
            let n = prefix@.len() as int;
            assert(message@.subrange(n, n + request.method@.len()) =~= request.method@);
        }
        Step::Reply(error_response(METHOD_NOT_FOUND, message, request.id))
    }
}

/// Turns the backend's outcome into the response: the reply with its
/// metadata, or an internal error whose data carries the diagnostics.
pub fn finish_process_text(
    pending: PendingCompletion,
    outcome: Result<Completion, ProviderError>,
    elapsed_ms: u64,
) -> (r: RpcResponse)
    ensures
        finished(pending, outcome, elapsed_ms, r),
{
    match outcome {
        Ok(c) => {
            let metadata = ProcessingMetadata {
                model: pending.agent.model.clone(),
                tokens_used: c.tokens_used,
                processing_time_ms: elapsed_ms,
                confidence_hundredths: CONFIDENCE_HUNDREDTHS,
            };
            let result = ProcessTextResult {
                agent_id: pending.agent.id.clone(),
                reply_text: c.reply_text,
                metadata,
            };
            JsonRpcResponse {
                jsonrpc: text("2.0"),
                result: Some(RpcResult::Processed(result)),
                error: None,
                id: pending.id,
            }
        },
        Err(e) => {
            let details = e.details();
            JsonRpcResponse {
                jsonrpc: text("2.0"),
                result: None,
                error: Some(
                    JsonRpcError {
                        code: INTERNAL_ERROR,
                        message: text("Internal error: processing failed"),
                        data: Some(ErrorData { details }),
                    },
                ),
                id: pending.id,
            }
        },
    }
}

/// Listing the agents gives the same non-empty list, without two agents of
/// one id, whatever the request and however often it is asked.
pub proof fn law_list_agents_stable(
    r1: RpcResponse,
    id1: serde_json::Value,
    r2: RpcResponse,
    id2: serde_json::Value,
)
    requires
        is_list_agents_response(r1, id1),
        is_list_agents_response(r2, id2),
    ensures
        listed_agents(r1) == listed_agents(r2),
        listed_agents(r1).len() > 0,
        ids_distinct(listed_agents(r1)),
{
    lemma_catalog_well_formed();
}

/// The response to a request carries the request's id, whatever the method
/// and whether it succeeds or fails, also when a backend call comes between.
pub proof fn law_id_round_trip(
    request: RpcRequest,
    s: Step,
    outcome: Result<Completion, ProviderError>,
    elapsed_ms: u64,
    r: RpcResponse,
)
    requires
        dispatch(request, s),
        s matches Step::Reply(x) ==> r == x,
        s matches Step::Complete(p) ==> finished(p, outcome, elapsed_ms, r),
    ensures
        r.id == request.id,
{
}

/// A failed backend call yields an internal error whose message is the same
/// for every failure and whose data carries non-empty diagnostics.
pub proof fn law_backend_failure_is_internal_error(
    p: PendingCompletion,
    e: ProviderError,
    elapsed_ms: u64,
    r: RpcResponse,
)
    requires
        finished(p, Err(e), elapsed_ms, r),
    ensures
        r.result is None,
        r.error is Some,
        r.error->0.code == INTERNAL_ERROR,
        r.error->0.message@ == internal_error_message(),
        r.error->0.data matches Some(d) && d.details@.len() > 0,
{
    reveal_strlit("Groq");
    reveal_strlit("Gemini");
    reveal_strlit("Failed to parse ");
}

} // verus!
