use codex_overlay::normalize::{CodexUsageState, RawQuotaWindow, RawRateLimits};
use codex_overlay::session::{UsageTracker, AUTH_REQUIRED};
use codex_overlay::supervisor::{
    after_connection, reconnecting_state, retry_sleep_millis, sleep_millis_with, Backoff, ConnectOutcome,
};

#[test]
fn backoff_doubles_up_to_thirty_seconds() {
    let mut backoff = Backoff::new();
    let mut waits = Vec::new();
    for _ in 0..7 {
        let retry = after_connection(backoff, &CodexUsageState::default(), ConnectOutcome::Failed("Rate-limit refresh failed".to_string())).unwrap();
        assert_eq!(retry.state.status, "stale");
        assert_eq!(retry.state.error_message.as_deref(), Some("Codex app-server is reconnecting"));
        waits.push(retry.wait_secs);
        backoff = retry.next;
    }
    assert_eq!(waits, vec![1, 2, 4, 8, 16, 30, 30]);
}

#[test]
fn auth_failure_waits_and_resets() {
    let backoff = Backoff { delay_secs: 16, show_reconnecting: true };
    let retry = after_connection(backoff, &CodexUsageState::default(), ConnectOutcome::Failed(AUTH_REQUIRED.to_string())).unwrap();
    assert_eq!(retry.state.status, "logged-out");
    assert_eq!(retry.state.error_message.as_deref(), Some("Run codex login"));
    assert_eq!(retry.wait_secs, 30);
    assert_eq!(retry.next, Backoff { delay_secs: 1, show_reconnecting: false });
}

#[test]
fn missing_cli_and_ended_sessions() {
    let retry = after_connection(Backoff::new(), &CodexUsageState::default(), ConnectOutcome::Failed("Codex CLI not found".to_string())).unwrap();
    assert_eq!(retry.state.status, "codex-not-found");
    let retry = after_connection(Backoff { delay_secs: 4, show_reconnecting: false }, &CodexUsageState::default(), ConnectOutcome::Ended).unwrap();
    assert_eq!(retry.state.status, "stale");
    assert_eq!(retry.wait_secs, 4);
    assert_eq!(retry.next, Backoff { delay_secs: 8, show_reconnecting: true });
    assert!(after_connection(Backoff::new(), &CodexUsageState::default(), ConnectOutcome::Stopped).is_none());
    assert_eq!(reconnecting_state(&CodexUsageState::default()).status, "reconnecting");
}

#[test]
fn retry_sleep_has_bounded_jitter() {
    assert_eq!(sleep_millis_with(2, 1234), 2034);
    assert_eq!(sleep_millis_with(30, 399), 30399);
    let mut seen = std::collections::HashSet::new();
    for _ in 0..50 {
        let ms = retry_sleep_millis(5);
        assert!((5000..5400).contains(&ms));
        seen.insert(ms);
    }
    assert!(seen.len() > 1);
}

#[test]
fn tracker_merges_sparse_reports() {
    let first = RawRateLimits {
        primary: Some(RawQuotaWindow { used_percent: Some(20f64.to_bits()), window_duration_mins: Some(300), resets_at: Some(1000) }),
        ..Default::default()
    };
    let mut tracker = UsageTracker::start_at(first, Some(2), 10);
    assert_eq!(tracker.state.status, "connected");
    assert_eq!(tracker.state.primary.as_ref().unwrap().label, "5h");
    tracker.refresh_at(
        RawRateLimits {
            primary: Some(RawQuotaWindow { used_percent: Some(25f64.to_bits()), window_duration_mins: None, resets_at: None }),
            ..Default::default()
        },
        None,
        20,
    );
    let primary = tracker.state.primary.as_ref().unwrap();
    assert_eq!(primary.used_percent, Some(25f64.to_bits()));
    assert_eq!(primary.resets_at, Some(1000));
    assert_eq!(tracker.state.reset_credit_count, Some(2));
    assert_eq!(tracker.state.last_successful_refresh_at, Some(20));
    tracker.refresh_at(RawRateLimits::default(), Some(5), 30);
    assert_eq!(tracker.credits, Some(5));
}

fn connected_state() -> CodexUsageState {
    let raw = RawRateLimits {
        primary: Some(RawQuotaWindow { used_percent: Some(20f64.to_bits()), window_duration_mins: Some(300), resets_at: Some(1000) }),
        secondary: Some(RawQuotaWindow { used_percent: Some(40f64.to_bits()), window_duration_mins: Some(10080), resets_at: Some(2000) }),
        ..Default::default()
    };
    UsageTracker::start_at(raw, Some(3), 500).state
}

#[test]
fn temporary_failures_keep_the_last_values() {
    let last = connected_state();
    let retry = after_connection(Backoff::new(), &last, ConnectOutcome::Failed("Rate-limit refresh failed".to_string())).unwrap();
    assert_eq!(retry.state.status, "stale");
    let primary = retry.state.primary.as_ref().unwrap();
    assert_eq!(primary.used_percent, Some(20f64.to_bits()));
    assert_eq!(primary.label, "5h");
    assert_eq!(retry.state.secondary.as_ref().unwrap().label, "7d");
    assert_eq!(retry.state.reset_credit_count, Some(3));
    assert_eq!(retry.state.last_successful_refresh_at, Some(500));

    let missing = after_connection(Backoff::new(), &last, ConnectOutcome::Failed("Codex CLI not found".to_string())).unwrap();
    assert_eq!(missing.state.status, "codex-not-found");
    assert!(missing.state.primary.is_some());

    let ended = after_connection(Backoff::new(), &last, ConnectOutcome::Ended).unwrap();
    assert_eq!(ended.state.status, "stale");
    assert!(ended.state.secondary.is_some());

    let reconnecting = reconnecting_state(&retry.state);
    assert_eq!(reconnecting.status, "reconnecting");
    assert!(reconnecting.error_message.is_none());
    assert_eq!(reconnecting.primary.as_ref().unwrap().label, "5h");
}

#[test]
fn logged_out_drops_the_values() {
    let retry = after_connection(Backoff::new(), &connected_state(), ConnectOutcome::Failed(AUTH_REQUIRED.to_string())).unwrap();
    assert_eq!(retry.state.status, "logged-out");
    assert!(retry.state.primary.is_none() && retry.state.secondary.is_none());
    assert!(retry.state.reset_credit_count.is_none());
}
