use solana_cli_sentinel::analysis::Analysis;
use solana_cli_sentinel::config::Config;
use solana_cli_sentinel::error::SentinelError;
use solana_cli_sentinel::json::{JsonMember, JsonValue};
use solana_cli_sentinel::llm::{alert_text_from_reply, authorization_header, build_prompt, chat_request_body};

fn make_config() -> Config {
    Config {
        target_rpc_url: "http://localhost:8899".to_string(),
        reference_rpc_url: "https://api.mainnet-beta.solana.com".to_string(),
        poll_interval_secs: 10,
        slot_lag_threshold: 5,
        rtt_threshold_ms: 500,
        alert_cooldown_secs: 300,
        mistral_api_key: "test-key".to_string(),
        mistral_model: "mistral-small-latest".to_string(),
        telegram_bot_token: "test-token".to_string(),
        telegram_chat_id: "test-chat".to_string(),
    }
}

fn make_analysis(slot_delta: i64, target_rtt_ms: u64) -> Analysis {
    Analysis {
        slot_delta,
        target_rtt_ms,
        reference_rtt_ms: 50,
        is_slot_lagging: slot_delta < -5,
        is_rtt_high: target_rtt_ms > 500,
        needs_alert: slot_delta < -5 || target_rtt_ms > 500,
    }
}

fn obj(members: Vec<(&str, JsonValue)>) -> JsonValue {
    JsonValue::Object(
        members
            .into_iter()
            .map(|(k, v)| JsonMember { key: k.to_string(), value: v })
            .collect(),
    )
}

#[test]
fn test_prompt_contains_url() {
    let cfg = make_config();
    let analysis = make_analysis(-10, 200);
    let prompt = build_prompt("http://my-node:8899", &analysis, &cfg);
    assert!(prompt.contains("http://my-node:8899"));
}

#[test]
fn test_prompt_contains_slot_issue() {
    let cfg = make_config();
    let analysis = make_analysis(-10, 200);
    let prompt = build_prompt("http://my-node:8899", &analysis, &cfg);
    assert!(prompt.contains("отставание слотов"));
    assert!(prompt.contains("-10"));
}

#[test]
fn test_prompt_contains_rtt_issue() {
    let cfg = make_config();
    let analysis = make_analysis(0, 800);
    let prompt = build_prompt("http://my-node:8899", &analysis, &cfg);
    assert!(prompt.contains("высокий RTT"));
    assert!(prompt.contains("800ms"));
}

#[test]
fn test_prompt_contains_both_issues() {
    let cfg = make_config();
    let analysis = make_analysis(-20, 1200);
    let prompt = build_prompt("http://my-node:8899", &analysis, &cfg);
    assert!(prompt.contains("отставание слотов"));
    assert!(prompt.contains("высокий RTT"));
}

#[test]
fn prompt_is_exact() {
    let cfg = make_config();
    let analysis = make_analysis(-20, 1200);
    let prompt = build_prompt("http://n:1", &analysis, &cfg);
    assert_eq!(
        prompt,
        "Ты — система мониторинга Solana-ноды. Зафиксирован инцидент.\n\
         Нода: http://n:1\n\
         Проблемы: отставание слотов: -20 (порог: 5); высокий RTT: 1200ms (порог: 500ms)\n\n\
         Напиши краткий технический алерт на русском языке.\n\
         Требования: максимум 200 символов, только текст, без markdown, без emoji."
    );
}

#[test]
fn chat_request_body_carries_model_and_prompt() {
    let cfg = make_config();
    let body = chat_request_body(&cfg, "hello");
    assert_eq!(body.get("model").and_then(|v| v.as_str()), Some("mistral-small-latest"));
    match body.get("max_tokens") {
        Some(JsonValue::Number(n)) => assert_eq!(n, "256"),
        other => panic!("unexpected max_tokens: {:?}", other),
    }
    let message = body.get("messages").and_then(|m| m.at(0)).expect("one message");
    assert_eq!(message.get("role").and_then(|v| v.as_str()), Some("user"));
    assert_eq!(message.get("content").and_then(|v| v.as_str()), Some("hello"));
    assert!(body.get("messages").and_then(|m| m.at(1)).is_none());
}

#[test]
fn authorization_is_bearer_key() {
    assert_eq!(authorization_header(&make_config()), "Bearer test-key");
}

#[test]
fn reply_content_is_trimmed() {
    let reply = obj(vec![(
        "choices",
        JsonValue::Array(vec![obj(vec![(
            "message",
            obj(vec![("content", JsonValue::String("  \n Нода отстаёт \u{3000}".to_string()))]),
        )])]),
    )]);
    let text = alert_text_from_reply(&reply).expect("content present");
    assert_eq!(text, "Нода отстаёт");
}

#[test]
fn reply_without_content_is_llm_error() {
    let reply = obj(vec![("choices", JsonValue::Array(vec![]))]);
    match alert_text_from_reply(&reply) {
        Err(SentinelError::Llm(msg)) => assert_eq!(
            msg,
            "поле choices[0].message.content отсутствует в ответе: {\"choices\":[]}"
        ),
        other => panic!("unexpected: {:?}", other),
    }
}

#[test]
fn reply_with_non_string_content_is_llm_error() {
    let reply = obj(vec![(
        "choices",
        JsonValue::Array(vec![obj(vec![("message", obj(vec![("content", JsonValue::Null)]))])]),
    )]);
    assert!(matches!(alert_text_from_reply(&reply), Err(SentinelError::Llm(_))));
}

#[test]
fn long_reply_is_cut_to_200_characters() {
    let content = format!("  {}  ", "ы".repeat(201));
    let reply = obj(vec![(
        "choices",
        JsonValue::Array(vec![obj(vec![(
            "message",
            obj(vec![("content", JsonValue::String(content))]),
        )])]),
    )]);
    let text = alert_text_from_reply(&reply).expect("content present");
    assert_eq!(text.chars().count(), 200);
    assert_eq!(text, "ы".repeat(200));
}

#[test]
fn reply_of_exactly_200_characters_is_kept() {
    let content = "a".repeat(200);
    let reply = obj(vec![(
        "choices",
        JsonValue::Array(vec![obj(vec![(
            "message",
            obj(vec![("content", JsonValue::String(content.clone()))]),
        )])]),
    )]);
    assert_eq!(alert_text_from_reply(&reply).expect("content present"), content);
}

#[test]
fn missing_content_error_prints_the_reply_as_serde_json_does() {
    let reply = obj(vec![
        ("object", JsonValue::String("error".to_string())),
        ("code", JsonValue::Number("429".to_string())),
        ("choices", JsonValue::Array(vec![JsonValue::Null, JsonValue::Bool(true)])),
    ]);
    match alert_text_from_reply(&reply) {
        Err(SentinelError::Llm(msg)) => assert_eq!(
            msg,
            "поле choices[0].message.content отсутствует в ответе: {\"choices\":[null,true],\"code\":429,\"object\":\"error\"}"
        ),
        other => panic!("unexpected: {:?}", other),
    }
}
