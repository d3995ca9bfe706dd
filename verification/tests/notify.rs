use solana_cli_sentinel::config::Config;
use solana_cli_sentinel::error::SentinelError;
use solana_cli_sentinel::json::{JsonMember, JsonValue};
use solana_cli_sentinel::notify::{check_send_reply, send_message_body, send_message_url};

fn make_config() -> Config {
    Config {
        target_rpc_url: "http://localhost:8899".to_string(),
        reference_rpc_url: "https://api.mainnet-beta.solana.com".to_string(),
        poll_interval_secs: 10,
        slot_lag_threshold: 5,
        rtt_threshold_ms: 500,
        alert_cooldown_secs: 300,
        mistral_api_key: "test-key".to_string(),
        mistral_model: "mistral-small-latest".to_string(),
        telegram_bot_token: "123:ABC".to_string(),
        telegram_chat_id: "-1001234567890".to_string(),
    }
}

fn obj(members: Vec<(&str, JsonValue)>) -> JsonValue {
    JsonValue::Object(
        members
            .into_iter()
            .map(|(k, v)| JsonMember { key: k.to_string(), value: v })
            .collect(),
    )
}

#[test]
fn url_holds_the_token() {
    assert_eq!(
        send_message_url(&make_config()),
        "https://api.telegram.org/bot123:ABC/sendMessage"
    );
}

#[test]
fn body_has_chat_text_and_html_mode() {
    let body = send_message_body(&make_config(), "ALERT <b>x</b>");
    assert_eq!(body.get("chat_id").and_then(|v| v.as_str()), Some("-1001234567890"));
    assert_eq!(body.get("text").and_then(|v| v.as_str()), Some("ALERT <b>x</b>"));
    assert_eq!(body.get("parse_mode").and_then(|v| v.as_str()), Some("HTML"));
    assert!(body.get("other").is_none());
}

#[test]
fn ok_true_is_accepted() {
    let reply = obj(vec![("ok", JsonValue::Bool(true)), ("result", JsonValue::Null)]);
    assert!(check_send_reply(&reply).is_ok());
}

#[test]
fn ok_false_reports_description() {
    let reply = obj(vec![
        ("ok", JsonValue::Bool(false)),
        ("description", JsonValue::String("Bad Request: chat not found".to_string())),
    ]);
    match check_send_reply(&reply) {
        Err(SentinelError::Telegram(d)) => assert_eq!(d, "Bad Request: chat not found"),
        other => panic!("unexpected: {:?}", other),
    }
}

#[test]
fn missing_ok_or_description_uses_default_text() {
    for reply in [obj(vec![]), JsonValue::Null, obj(vec![("ok", JsonValue::String("true".to_string()))])] {
        match check_send_reply(&reply) {
            Err(SentinelError::Telegram(d)) => assert_eq!(d, "неизвестная ошибка"),
            other => panic!("unexpected: {:?}", other),
        }
    }
}
