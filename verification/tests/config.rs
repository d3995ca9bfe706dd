use solana_cli_sentinel::config::{Config, EnvVars};
use solana_cli_sentinel::error::SentinelError;

fn vars() -> EnvVars {
    EnvVars {
        solana_target_rpc_url: Some("http://10.0.0.1:8899".to_string()),
        solana_reference_rpc_url: None,
        sentinel_poll_interval_secs: None,
        sentinel_slot_lag_threshold: None,
        sentinel_rtt_threshold_ms: None,
        sentinel_alert_cooldown_secs: None,
        mistral_api_key: Some("sk-abcdefghij".to_string()),
        mistral_model: None,
        telegram_bot_token: Some("123:ABC".to_string()),
        telegram_chat_id: Some("-100".to_string()),
    }
}

fn config_error(v: EnvVars) -> String {
    match Config::from_vars(v) {
        Err(SentinelError::Config(msg)) => msg,
        other => panic!("expected a configuration error, got {:?}", other),
    }
}

#[test]
fn defaults_apply_when_optional_variables_are_unset() {
    let cfg = Config::from_vars(vars()).expect("valid");
    assert_eq!(cfg.target_rpc_url, "http://10.0.0.1:8899");
    assert_eq!(cfg.reference_rpc_url, "https://api.mainnet-beta.solana.com");
    assert_eq!(cfg.poll_interval_secs, 10);
    assert_eq!(cfg.slot_lag_threshold, 5);
    assert_eq!(cfg.rtt_threshold_ms, 500);
    assert_eq!(cfg.alert_cooldown_secs, 300);
    assert_eq!(cfg.mistral_api_key, "sk-abcdefghij");
    assert_eq!(cfg.mistral_model, "mistral-small-latest");
    assert_eq!(cfg.telegram_bot_token, "123:ABC");
    assert_eq!(cfg.telegram_chat_id, "-100");
}

#[test]
fn set_variables_override_defaults() {
    let mut v = vars();
    v.solana_reference_rpc_url = Some("http://ref".to_string());
    v.sentinel_poll_interval_secs = Some("30".to_string());
    v.sentinel_slot_lag_threshold = Some("+7".to_string());
    v.sentinel_rtt_threshold_ms = Some("0750".to_string());
    v.sentinel_alert_cooldown_secs = Some("18446744073709551615".to_string());
    v.mistral_model = Some("mistral-large".to_string());
    let cfg = Config::from_vars(v).expect("valid");
    assert_eq!(cfg.reference_rpc_url, "http://ref");
    assert_eq!(cfg.poll_interval_secs, 30);
    assert_eq!(cfg.slot_lag_threshold, 7);
    assert_eq!(cfg.rtt_threshold_ms, 750);
    assert_eq!(cfg.alert_cooldown_secs, u64::MAX);
    assert_eq!(cfg.mistral_model, "mistral-large");
}

#[test]
fn missing_target_url_is_reported_first() {
    let mut v = vars();
    v.solana_target_rpc_url = None;
    v.telegram_chat_id = None;
    assert_eq!(
        config_error(v),
        "обязательная переменная 'SOLANA_TARGET_RPC_URL' не задана в .env или окружении"
    );
}

#[test]
fn missing_secrets_are_reported() {
    let mut v = vars();
    v.mistral_api_key = None;
    assert!(config_error(v).contains("'MISTRAL_API_KEY'"));
    let mut v = vars();
    v.telegram_bot_token = None;
    assert!(config_error(v).contains("'TELEGRAM_BOT_TOKEN'"));
    let mut v = vars();
    v.telegram_chat_id = None;
    assert!(config_error(v).contains("'TELEGRAM_CHAT_ID'"));
}

#[test]
fn non_numeric_values_are_rejected() {
    for bad in ["", "+", "-1", "12a", "1 ", " 1", "18446744073709551616", "١٢"] {
        let mut v = vars();
        v.sentinel_rtt_threshold_ms = Some(bad.to_string());
        assert_eq!(
            config_error(v),
            format!("переменная 'SENTINEL_RTT_THRESHOLD_MS' должна быть числом, получено: '{bad}'"),
            "value {bad:?}"
        );
    }
}

#[test]
fn numbers_are_checked_before_the_api_key() {
    let mut v = vars();
    v.mistral_api_key = None;
    v.sentinel_poll_interval_secs = Some("ten".to_string());
    assert!(config_error(v).contains("SENTINEL_POLL_INTERVAL_SECS"));
}

#[test]
fn summary_is_exact() {
    let cfg = Config::from_vars(vars()).expect("valid");
    assert_eq!(
        cfg.summary(),
        "target=http://10.0.0.1:8899 reference=https://api.mainnet-beta.solana.com interval=10s slot_lag_threshold=5 rtt_threshold_ms=500ms cooldown=300s model=mistral-small-latest api_key=sk-abcde*** bot_token=123:ABC***"
    );
}

#[test]
fn summary_prints_zero_durations_as_debug_does() {
    let mut v = vars();
    v.sentinel_poll_interval_secs = Some("0".to_string());
    v.sentinel_alert_cooldown_secs = Some("0".to_string());
    let cfg = Config::from_vars(v).expect("valid");
    let s = cfg.summary();
    assert!(s.contains(&format!("interval={:?} ", std::time::Duration::from_secs(0))));
    assert!(s.contains("cooldown=0ns "));
    assert!(!s.contains("-100"));
}

#[test]
fn summary_masks_long_secrets() {
    let mut v = vars();
    v.mistral_api_key = Some("0123456789".to_string());
    v.telegram_bot_token = Some("123456:ABCDEFGHIJ".to_string());
    let s = Config::from_vars(v).expect("valid").summary();
    assert!(s.ends_with(" api_key=01234567*** bot_token=123456:A***"));
    assert!(!s.contains("0123456789"));
    assert!(!s.contains("123456:AB"));
}
