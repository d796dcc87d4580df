use mcp_server::agents::find_agent_by_id;
use mcp_server::models::{
    GeminiCandidate, GeminiContent, GeminiPart, GeminiResponse, GeminiUsageMetadata, GroqChoice,
    GroqResponse, GroqUsage, Message,
};
use mcp_server::provider::{
    build_call, build_gemini_request, build_groq_request, decimal_text, gemini_reply, groq_reply,
    select_provider, ProviderConfig, ProviderFailure, ProviderKind, WireRequest,
};

fn history() -> Vec<Message> {
    vec![
        Message { role: "user".to_string(), content: "q1".to_string() },
        Message { role: "assistant".to_string(), content: "a1".to_string() },
        Message { role: "tool".to_string(), content: "dropped".to_string() },
        Message { role: "user".to_string(), content: "q2".to_string() },
    ]
}

fn gemini_response(texts: Vec<&str>, total: Option<u32>) -> GeminiResponse {
    GeminiResponse {
        candidates: texts
            .into_iter()
            .map(|t| GeminiCandidate {
                content: GeminiContent { role: "model".to_string(), parts: vec![GeminiPart { text: t.to_string() }] },
            })
            .collect(),
        usage_metadata: Some(GeminiUsageMetadata {
            prompt_token_count: Some(1),
            candidates_token_count: Some(2),
            total_token_count: total,
        }),
    }
}

#[test]
fn primary_credential_wins() {
    let c = select_provider(Some("g".to_string()), Some("m".to_string())).unwrap();
    assert_eq!(c.kind, ProviderKind::Groq);
    assert_eq!(c.api_key, "g");
    let c = select_provider(None, Some("m".to_string())).unwrap();
    assert_eq!(c.kind, ProviderKind::Gemini);
    assert_eq!(c.api_key, "m");
    assert!(select_provider(None, None).is_none());
}

#[test]
fn gemini_request_remaps_roles() {
    let agent = find_agent_by_id("agent_001").unwrap();
    let r = build_gemini_request(&agent, "now", &Some(history()));
    let roles: Vec<&str> = r.contents.iter().map(|c| c.role.as_str()).collect();
    assert_eq!(roles, vec!["user", "model", "user", "user"]);
    let texts: Vec<&str> = r.contents.iter().map(|c| c.parts[0].text.as_str()).collect();
    assert_eq!(texts, vec!["q1", "a1", "q2", "now"]);
    let si = r.system_instruction.unwrap();
    assert_eq!(si.parts.len(), 1);
    assert_eq!(si.parts[0].text, agent.system_prompt);

    let r = build_gemini_request(&agent, "only", &None);
    assert_eq!(r.contents.len(), 1);
    assert_eq!(r.contents[0].role, "user");
}

#[test]
fn groq_request_keeps_history() {
    let agent = find_agent_by_id("agent_004").unwrap();
    let r = build_groq_request(&agent, "now", &Some(history()));
    let roles: Vec<&str> = r.messages.iter().map(|m| m.role.as_str()).collect();
    assert_eq!(roles, vec!["system", "user", "assistant", "tool", "user", "user"]);
    assert_eq!(r.messages[0].content, agent.system_prompt);
    assert_eq!(r.messages[5].content, "now");
    assert_eq!(r.model, "llama-3.3-70b-versatile");
    assert_eq!(r.temperature_tenths, 7);
    assert_eq!(r.max_tokens, 1024);
}

#[test]
fn calls_target_the_active_backend() {
    let agent = find_agent_by_id("agent_002").unwrap();
    let groq = ProviderConfig { kind: ProviderKind::Groq, api_key: "k1".to_string() };
    let c = build_call(&groq, &agent, "t", &None);
    assert_eq!(c.url, "https://api.groq.com/openai/v1/chat/completions");
    assert_eq!(c.auth_header, "Authorization");
    assert_eq!(c.auth_value, "Bearer k1");
    assert!(matches!(c.body, WireRequest::Groq(_)));

    let gemini = ProviderConfig { kind: ProviderKind::Gemini, api_key: "k2".to_string() };
    let c = build_call(&gemini, &agent, "t", &None);
    assert_eq!(
        c.url,
        "https://generativelanguage.googleapis.com/v1beta/models/mixtral-8x7b-32768:generateContent"
    );
    assert_eq!(c.auth_header, "x-goog-api-key");
    assert_eq!(c.auth_value, "k2");
    assert!(matches!(c.body, WireRequest::Gemini(_)));
}

#[test]
fn gemini_replies() {
    let c = gemini_reply(200, "{}".to_string(), Ok(gemini_response(vec!["first", "second"], Some(9)))).unwrap();
    assert_eq!(c.reply_text, "first");
    assert_eq!(c.tokens_used, Some(9));

    let c = gemini_reply(200, "{}".to_string(), Ok(gemini_response(vec![], None))).unwrap();
    assert_eq!(c.reply_text, "Sorry, I couldn't generate a response.");
    assert_eq!(c.tokens_used, None);

    let e = gemini_reply(503, "busy".to_string(), Ok(gemini_response(vec!["x"], None))).err().unwrap();
    assert!(matches!(e.failure, ProviderFailure::Remote { status: 503, .. }));
    assert_eq!(e.details(), "Gemini API error (503): busy");

    let e = gemini_reply(200, "nope".to_string(), Err("expected value".to_string())).err().unwrap();
    assert_eq!(e.provider, ProviderKind::Gemini);
    assert_eq!(e.details(), "Failed to parse Gemini response: expected value. Raw: nope");
}

#[test]
fn groq_replies() {
    let ok = GroqResponse {
        choices: vec![GroqChoice { content: Some("hello".to_string()) }],
        usage: Some(GroqUsage { total_tokens: Some(42) }),
    };
    let c = groq_reply(200, "{}".to_string(), Ok(ok)).unwrap();
    assert_eq!(c.reply_text, "hello");
    assert_eq!(c.tokens_used, Some(42));

    let big = GroqResponse {
        choices: vec![GroqChoice { content: Some("x".to_string()) }],
        usage: Some(GroqUsage { total_tokens: Some((1u64 << 32) + 3) }),
    };
    assert_eq!(groq_reply(299, "{}".to_string(), Ok(big)).unwrap().tokens_used, Some(3));

    let empty = GroqResponse { choices: vec![], usage: None };
    let e = groq_reply(200, "{\"choices\":[]}".to_string(), Ok(empty)).err().unwrap();
    assert_eq!(
        e.details(),
        "Failed to parse Groq response: missing field choices[0].message.content. Raw: {\"choices\":[]}"
    );

    let no_content = GroqResponse { choices: vec![GroqChoice { content: None }], usage: None };
    assert!(groq_reply(200, "{}".to_string(), Ok(no_content)).is_err());

    let e = groq_reply(199, "early".to_string(), Err("ignored".to_string())).err().unwrap();
    assert_eq!(e.details(), "Groq API error (199): early");
    let e = groq_reply(300, "moved".to_string(), Err("ignored".to_string())).err().unwrap();
    assert_eq!(e.details(), "Groq API error (300): moved");
}

#[test]
fn decimal_formatting() {
    assert_eq!(decimal_text(0), "0");
    assert_eq!(decimal_text(7), "7");
    assert_eq!(decimal_text(404), "404");
    assert_eq!(decimal_text(65535), "65535");
    assert_eq!(decimal_text(u64::MAX), u64::MAX.to_string());
}
