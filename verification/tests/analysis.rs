use solana_cli_sentinel::analysis::{analyze, can_analyze, Analysis};
use solana_cli_sentinel::config::Config;
use solana_cli_sentinel::metrics::{NodeMetrics, ProbeResult};

/// A test configuration with the given thresholds; the secrets are stubs.
fn make_config(slot_lag_threshold: u64, rtt_threshold_ms: u64) -> Config {
    Config {
        target_rpc_url: "http://localhost:8899".to_string(),
        reference_rpc_url: "https://api.mainnet-beta.solana.com".to_string(),
        poll_interval_secs: 10,
        slot_lag_threshold,
        rtt_threshold_ms,
        alert_cooldown_secs: 300,
        mistral_api_key: "test-key".to_string(),
        mistral_model: "mistral-small-latest".to_string(),
        telegram_bot_token: "test-token".to_string(),
        telegram_chat_id: "test-chat".to_string(),
    }
}

/// A test probe with the given slots and target response time.
fn make_probe(target_slot: u64, target_rtt_ms: u64, reference_slot: u64) -> ProbeResult {
    ProbeResult {
        target: NodeMetrics {
            slot: target_slot,
            rtt_ms: target_rtt_ms,
            node_url: "http://localhost:8899".to_string(),
        },
        reference: NodeMetrics {
            slot: reference_slot,
            rtt_ms: 50,
            node_url: "https://api.mainnet-beta.solana.com".to_string(),
        },
    }
}

#[test]
fn test_no_alert_when_everything_is_fine() {
    let cfg = make_config(5, 500);
    let probe = make_probe(100_000 - 3, 200, 100_000);
    let analysis = analyze(&probe, &cfg);

    assert_eq!(analysis.slot_delta, -3);
    assert!(!analysis.is_slot_lagging);
    assert!(!analysis.is_rtt_high);
    assert!(!analysis.needs_alert);
}

#[test]
fn test_alert_when_slot_lagging() {
    let cfg = make_config(5, 500);
    let probe = make_probe(100_000 - 10, 200, 100_000);
    let analysis = analyze(&probe, &cfg);

    assert_eq!(analysis.slot_delta, -10);
    assert!(analysis.is_slot_lagging);
    assert!(!analysis.is_rtt_high);
    assert!(analysis.needs_alert);
}

#[test]
fn test_alert_when_rtt_high() {
    let cfg = make_config(5, 500);
    let probe = make_probe(100_000, 800, 100_000);
    let analysis = analyze(&probe, &cfg);

    assert!(!analysis.is_slot_lagging);
    assert!(analysis.is_rtt_high);
    assert!(analysis.needs_alert);
}

#[test]
fn test_alert_when_both_conditions_violated() {
    let cfg = make_config(5, 500);
    let probe = make_probe(100_000 - 20, 1200, 100_000);
    let analysis = analyze(&probe, &cfg);

    assert!(analysis.is_slot_lagging);
    assert!(analysis.is_rtt_high);
    assert!(analysis.needs_alert);
}

#[test]
fn test_no_alert_at_exact_threshold() {
    let cfg = make_config(5, 500);
    let probe = make_probe(100_000 - 5, 500, 100_000);
    let analysis = analyze(&probe, &cfg);

    assert!(!analysis.is_slot_lagging);
    assert!(!analysis.is_rtt_high);
    assert!(!analysis.needs_alert);
}

#[test]
fn test_target_ahead_of_reference() {
    let cfg = make_config(5, 500);
    let probe = make_probe(100_010, 100, 100_000);
    let analysis = analyze(&probe, &cfg);

    assert_eq!(analysis.slot_delta, 10);
    assert!(!analysis.is_slot_lagging);
    assert!(!analysis.needs_alert);
}

#[test]
fn test_status_text_ok() {
    let cfg = make_config(5, 500);
    let probe = make_probe(100_000, 100, 100_000);
    let analysis = analyze(&probe, &cfg);
    assert_eq!(analysis.status_text(), "OK");
}

#[test]
fn test_status_text_lagging() {
    let cfg = make_config(5, 500);
    let probe = make_probe(99_990, 100, 100_000);
    let analysis = analyze(&probe, &cfg);
    assert!(analysis.status_text().contains("отставание слотов"));
}

#[test]
fn status_text_lists_both_problems_exactly() {
    let cfg = make_config(5, 500);
    let probe = make_probe(99_980, 1200, 100_000);
    let analysis = analyze(&probe, &cfg);
    assert_eq!(
        analysis.status_text(),
        "отставание слотов: -20 (порог: нарушен), высокий RTT: 1200ms (ref: 50ms)"
    );
}

#[test]
fn status_text_rtt_only() {
    let cfg = make_config(5, 500);
    let probe = make_probe(100_000, 800, 100_000);
    let analysis = analyze(&probe, &cfg);
    assert_eq!(analysis.status_text(), "высокий RTT: 800ms (ref: 50ms)");
}

#[test]
fn status_text_of_inconsistent_analysis_is_empty() {
    let analysis = Analysis {
        slot_delta: 0,
        target_rtt_ms: 0,
        reference_rtt_ms: 0,
        is_slot_lagging: false,
        is_rtt_high: false,
        needs_alert: true,
    };
    assert_eq!(analysis.status_text(), "");
}

#[test]
fn lag_one_past_threshold_alerts() {
    let cfg = make_config(5, 500);
    let probe = make_probe(100_000 - 6, 501, 100_000);
    let analysis = analyze(&probe, &cfg);
    assert!(analysis.is_slot_lagging);
    assert!(analysis.is_rtt_high);
    assert_eq!(analysis.target_rtt_ms, 501);
    assert_eq!(analysis.reference_rtt_ms, 50);
}

#[test]
fn zero_threshold_alerts_on_any_lag() {
    let cfg = make_config(0, 500);
    let behind = analyze(&make_probe(99, 10, 100), &cfg);
    let level = analyze(&make_probe(100, 10, 100), &cfg);
    assert!(behind.is_slot_lagging);
    assert!(!level.is_slot_lagging);
}

#[test]
fn can_analyze_rejects_overflowing_inputs() {
    let cfg = make_config(5, 500);
    assert!(can_analyze(&make_probe(10, 1, 20), &cfg));
    assert!(!can_analyze(&make_probe(i64::MAX as u64, 1, u64::MAX), &cfg));
    let bad = make_config(1u64 << 63, 500);
    assert!(!can_analyze(&make_probe(10, 1, 20), &bad));
}
