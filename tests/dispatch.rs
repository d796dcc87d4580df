use mcp_server::agents::{find_agent_by_id, get_agents};
use mcp_server::handlers::{
    finish_process_text, handle_jsonrpc, handle_list_agents, PendingCompletion, RpcRequest,
    RpcResponse, Step, CONFIDENCE_HUNDREDTHS, INTERNAL_ERROR, INVALID_PARAMS, INVALID_REQUEST,
    METHOD_NOT_FOUND,
};
use mcp_server::models::{JsonRpcRequest, Message, ProcessTextParams, RpcResult};
use mcp_server::provider::{Completion, ProviderError, ProviderFailure, ProviderKind};
use serde_json::Value;

fn request(jsonrpc: &str, method: &str, params: Option<Result<ProcessTextParams, String>>, id: Value) -> RpcRequest {
    JsonRpcRequest { jsonrpc: jsonrpc.to_string(), method: method.to_string(), params, id }
}

fn process_params(agent_id: &str, user_text: &str) -> Option<Result<ProcessTextParams, String>> {
    Some(Ok(ProcessTextParams {
        agent_id: agent_id.to_string(),
        user_text: user_text.to_string(),
        conversation_history: None,
    }))
}

fn reply(step: Step) -> RpcResponse {
    match step {
        Step::Reply(r) => r,
        Step::Complete(_) => panic!("expected an immediate reply"),
    }
}

fn pending(step: Step) -> PendingCompletion {
    match step {
        Step::Complete(p) => p,
        Step::Reply(_) => panic!("expected a backend call"),
    }
}

fn ids() -> Vec<Value> {
    vec![Value::Null, Value::from(7), Value::from("req-1")]
}

fn failures() -> Vec<ProviderError> {
    vec![
        ProviderError {
            provider: ProviderKind::Groq,
            failure: ProviderFailure::Transport { detail: "connection refused at 10.0.0.1".to_string() },
        },
        ProviderError {
            provider: ProviderKind::Gemini,
            failure: ProviderFailure::Remote { status: 401, body: "bad key SECRET-REDACTED".to_string() },
        },
        ProviderError {
            provider: ProviderKind::Groq,
            failure: ProviderFailure::Decode { reason: "expected value".to_string(), body: "<html>".to_string() },
        },
    ]
}

#[test]
fn wrong_version_is_invalid_request() {
    for id in ids() {
        for version in ["1.0", "", "2.0 "] {
            let r = reply(handle_jsonrpc(request(version, "list_agents", None, id.clone())));
            let e = r.error.expect("error expected");
            assert_eq!(e.code, INVALID_REQUEST);
            assert_eq!(e.code, -32600);
            assert_eq!(e.message, "Invalid Request: jsonrpc must be '2.0'");
            assert!(r.result.is_none());
            assert_eq!(r.id, id);
            assert_eq!(r.jsonrpc, "2.0");
        }
    }
}

#[test]
fn unknown_method_is_method_not_found() {
    for id in ids() {
        let r = reply(handle_jsonrpc(request("2.0", "delete_agent", None, id.clone())));
        let e = r.error.expect("error expected");
        assert_eq!(e.code, METHOD_NOT_FOUND);
        assert_eq!(e.code, -32601);
        assert_eq!(e.message, "Method not found: delete_agent");
        assert!(e.message.contains("delete_agent"));
        assert!(r.result.is_none());
        assert_eq!(r.id, id);
    }
}

#[test]
fn list_agents_is_stable() {
    let ids_of = |r: RpcResponse| -> Vec<String> {
        assert!(r.error.is_none());
        match r.result {
            Some(RpcResult::Agents(l)) => l.agents.into_iter().map(|a| a.id).collect(),
            _ => panic!("agents expected"),
        }
    };
    let first = ids_of(reply(handle_jsonrpc(request("2.0", "list_agents", None, Value::from(1)))));
    let second = ids_of(handle_list_agents(request("2.0", "list_agents", None, Value::Null)));
    assert_eq!(first, second);
    assert_eq!(first, vec!["agent_001", "agent_002", "agent_003", "agent_004"]);
    let mut sorted = first.clone();
    sorted.sort();
    sorted.dedup();
    assert_eq!(sorted.len(), first.len());
}

#[test]
fn catalog_lookup() {
    let agents = get_agents();
    assert_eq!(agents.len(), 4);
    let a = find_agent_by_id("agent_002").expect("agent_002 exists");
    assert_eq!(a.name, "Web3 Expert");
    assert_eq!(a.capabilities, vec!["web3", "crypto", "blockchain", "nft"]);
    assert_eq!(a.model, "mixtral-8x7b-32768");
    assert!(find_agent_by_id("agent_005").is_none());
    assert!(find_agent_by_id("").is_none());
}

#[test]
fn unknown_agent_is_invalid_params() {
    for id in ids() {
        let r = reply(handle_jsonrpc(request("2.0", "process_text", process_params("agent_999", "hello"), id.clone())));
        let e = r.error.expect("error expected");
        assert_eq!(e.code, INVALID_PARAMS);
        assert_eq!(e.code, -32602);
        assert_eq!(e.message, "Agent not found: agent_999");
        assert_eq!(r.id, id);
    }
}

#[test]
fn missing_user_text_is_invalid_params() {
    let params = Some(Err("missing field `user_text`".to_string()));
    let r = reply(handle_jsonrpc(request("2.0", "process_text", params, Value::from(3))));
    let e = r.error.expect("error expected");
    assert_eq!(e.code, -32602);
    assert_eq!(e.message, "Invalid params: missing field `user_text`");
    assert_eq!(r.id, Value::from(3));

    let r = reply(handle_jsonrpc(request("2.0", "process_text", None, Value::from(4))));
    let e = r.error.expect("error expected");
    assert_eq!(e.code, -32602);
    assert_eq!(e.message, "Invalid params: agent_id and user_text are required");
    assert!(r.result.is_none());
}

#[test]
fn backend_failure_is_internal_error() {
    for id in ids() {
        for failure in failures() {
            let p = pending(handle_jsonrpc(request("2.0", "process_text", process_params("agent_003", "hi"), id.clone())));
            let expected = failure.details();
            let r = finish_process_text(p, Err(failure), 12);
            let e = r.error.expect("error expected");
            assert_eq!(e.code, INTERNAL_ERROR);
            assert_eq!(e.code, -32603);
            assert_eq!(e.message, "Internal error: processing failed");
            for raw in ["10.0.0.1", "SECRET-REDACTED", "<html>", "401"] {
                assert!(!e.message.contains(raw));
            }
            let details = e.data.expect("data expected").details;
            assert!(!details.is_empty());
            assert_eq!(details, expected);
            assert!(r.result.is_none());
            assert_eq!(r.id, id);
        }
    }
}

#[test]
fn failure_details_text() {
    let f = failures();
    assert_eq!(f[0].details(), "Groq API request failed: connection refused at 10.0.0.1");
    assert_eq!(f[1].details(), "Gemini API error (401): bad key SECRET-REDACTED");
    assert_eq!(f[2].details(), "Failed to parse Groq response: expected value. Raw: <html>");
}

#[test]
fn successful_completion_builds_result() {
    let p = pending(handle_jsonrpc(request("2.0", "process_text", process_params("agent_001", "hello"), Value::from("abc"))));
    assert_eq!(p.agent.id, "agent_001");
    assert_eq!(p.user_text, "hello");
    let model = find_agent_by_id("agent_001").unwrap().model;
    let outcome = Completion { reply_text: "hi".to_string(), tokens_used: Some(5) };
    let r = finish_process_text(p, Ok(outcome), 0);
    assert!(r.error.is_none());
    assert_eq!(r.id, Value::from("abc"));
    match r.result {
        Some(RpcResult::Processed(t)) => {
            assert_eq!(t.agent_id, "agent_001");
            assert_eq!(t.reply_text, "hi");
            assert_eq!(t.metadata.tokens_used, Some(5));
            assert_eq!(t.metadata.model, model);
            assert_eq!(t.metadata.processing_time_ms, 0);
            assert_eq!(t.metadata.confidence_hundredths, CONFIDENCE_HUNDREDTHS);
            assert_eq!(t.metadata.confidence_hundredths, 95);
        }
        _ => panic!("completion result expected"),
    }
}

#[test]
fn pending_completion_keeps_history() {
    let params = Some(Ok(ProcessTextParams {
        agent_id: "agent_004".to_string(),
        user_text: "why?".to_string(),
        conversation_history: Some(vec![
            Message { role: "user".to_string(), content: "a".to_string() },
            Message { role: "assistant".to_string(), content: "b".to_string() },
        ]),
    }));
    let p = pending(handle_jsonrpc(request("2.0", "process_text", params, Value::Null)));
    assert_eq!(p.agent.name, "Code Assistant");
    let h = p.conversation_history.expect("history kept");
    assert_eq!(h.len(), 2);
    assert_eq!(h[1].content, "b");
    assert_eq!(p.id, Value::Null);
}

#[test]
fn id_round_trips_on_every_outcome() {
    for id in ids() {
        let r = reply(handle_jsonrpc(request("2.0", "list_agents", None, id.clone())));
        assert_eq!(r.id, id);
        let p = pending(handle_jsonrpc(request("2.0", "process_text", process_params("agent_002", "x"), id.clone())));
        assert_eq!(p.id, id);
        let r = finish_process_text(p, Ok(Completion { reply_text: "y".to_string(), tokens_used: None }), 3);
        assert_eq!(r.id, id);
        let r = reply(handle_jsonrpc(request("1.0", "process_text", None, id.clone())));
        assert_eq!(r.id, id);
    }
}

#[test]
fn responses_hold_exactly_one_of_result_and_error() {
    let r = reply(handle_jsonrpc(request("2.0", "list_agents", None, Value::Null)));
    assert!(r.result.is_some() && r.error.is_none());
    let r = reply(handle_jsonrpc(request("2.0", "nope", None, Value::Null)));
    assert!(r.result.is_none() && r.error.is_some());
    assert!(r.error.unwrap().data.is_none());
}
