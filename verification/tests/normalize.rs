use codex_overlay::json::{extend_members, Json, JsonNumber};
use codex_overlay::normalize::{
    apply_limits, apply_limits_at, duration_label, merge_limits, merge_window, quota, CodexUsageState,
    RawQuotaWindow, RawRateLimits,
};

fn pct(v: f64) -> Option<u64> {
    Some(v.to_bits())
}

#[test]
fn labels() {
    assert_eq!(duration_label(Some(15)), "15m");
    assert_eq!(duration_label(Some(60)), "1h");
    assert_eq!(duration_label(Some(90)), "1h30m");
    assert_eq!(duration_label(Some(300)), "5h");
    assert_eq!(duration_label(Some(1440)), "1d");
    assert_eq!(duration_label(Some(10080)), "7d");
}

#[test]
fn labels_of_unknown_and_odd_lengths() {
    assert_eq!(duration_label(None), "-");
    assert_eq!(duration_label(Some(0)), "-");
    assert_eq!(duration_label(Some(-60)), "-");
    assert_eq!(duration_label(Some(1)), "1m");
    assert_eq!(duration_label(Some(59)), "59m");
    assert_eq!(duration_label(Some(61)), "1h1m");
    assert_eq!(duration_label(Some(1500)), "25h");
    assert_eq!(duration_label(Some(1441)), "24h1m");
    assert_eq!(duration_label(Some(2880)), "2d");
}

#[test]
fn sparse_merge_preserves_fields() {
    let mut old = RawRateLimits {
        primary: Some(RawQuotaWindow {
            used_percent: pct(20.),
            window_duration_mins: Some(300),
            resets_at: Some(1000),
        }),
        secondary: Some(RawQuotaWindow {
            used_percent: pct(40.),
            window_duration_mins: Some(10080),
            resets_at: Some(2000),
        }),
        ..Default::default()
    };
    merge_limits(
        &mut old,
        RawRateLimits {
            primary: Some(RawQuotaWindow {
                used_percent: pct(25.),
                ..Default::default()
            }),
            ..Default::default()
        },
    );
    assert_eq!(old.primary.unwrap().resets_at, Some(1000));
    assert_eq!(old.secondary.unwrap().window_duration_mins, Some(10080));
}

#[test]
fn merge_takes_present_fields_and_keeps_the_rest() {
    let mut current = Some(RawQuotaWindow { used_percent: pct(20.), window_duration_mins: Some(300), resets_at: Some(1000) });
    merge_window(&mut current, Some(RawQuotaWindow { used_percent: pct(25.), window_duration_mins: None, resets_at: Some(5) }));
    assert_eq!(current, Some(RawQuotaWindow { used_percent: pct(25.), window_duration_mins: Some(300), resets_at: Some(5) }));
    merge_window(&mut current, None);
    assert_eq!(current, Some(RawQuotaWindow { used_percent: pct(25.), window_duration_mins: Some(300), resets_at: Some(5) }));
    let mut missing = None;
    merge_window(&mut missing, Some(RawQuotaWindow { used_percent: None, window_duration_mins: Some(60), resets_at: None }));
    assert_eq!(missing, Some(RawQuotaWindow { used_percent: None, window_duration_mins: Some(60), resets_at: None }));
}

#[test]
fn merging_twice_is_merging_once() {
    let update = Some(RawQuotaWindow { used_percent: pct(30.), window_duration_mins: None, resets_at: Some(9) });
    let mut once = Some(RawQuotaWindow { used_percent: pct(20.), window_duration_mins: Some(300), resets_at: Some(1) });
    merge_window(&mut once, update);
    let mut twice = once;
    merge_window(&mut twice, update);
    assert_eq!(once, twice);
}

#[test]
fn empty_report_changes_nothing() {
    let mut current = RawRateLimits {
        primary: Some(RawQuotaWindow { used_percent: pct(20.), window_duration_mins: Some(300), resets_at: Some(1) }),
        rate_limit_reached_type: Some("primary".to_string()),
        supplemental: vec![("k".to_string(), Json::Null)],
        ..Default::default()
    };
    merge_limits(&mut current, RawRateLimits::default());
    assert_eq!(current.primary, Some(RawQuotaWindow { used_percent: pct(20.), window_duration_mins: Some(300), resets_at: Some(1) }));
    assert!(current.secondary.is_none());
    assert_eq!(current.rate_limit_reached_type.as_deref(), Some("primary"));
    assert_eq!(current.supplemental.len(), 1);
}

#[test]
fn merge_replaces_limit_type_and_extends_supplemental() {
    let mut current = RawRateLimits {
        rate_limit_reached_type: Some("primary".to_string()),
        supplemental: vec![
            ("planType".to_string(), Json::Str("plus".to_string())),
            ("count".to_string(), Json::Number(JsonNumber::PosInt(1))),
        ],
        ..Default::default()
    };
    merge_limits(
        &mut current,
        RawRateLimits {
            supplemental: vec![
                ("count".to_string(), Json::Number(JsonNumber::PosInt(2))),
                ("extra".to_string(), Json::Bool(true)),
            ],
            ..Default::default()
        },
    );
    assert_eq!(current.rate_limit_reached_type.as_deref(), Some("primary"));
    assert_eq!(current.supplemental.len(), 3);
    assert!(matches!(current.supplemental[1], (ref k, Json::Number(JsonNumber::PosInt(2))) if k == "count"));
    assert!(matches!(current.supplemental[2], (ref k, Json::Bool(true)) if k == "extra"));
    merge_limits(
        &mut current,
        RawRateLimits { rate_limit_reached_type: Some("secondary".to_string()), ..Default::default() },
    );
    assert_eq!(current.rate_limit_reached_type.as_deref(), Some("secondary"));
}

#[test]
fn quota_carries_label_and_values() {
    let q = quota(RawQuotaWindow { used_percent: pct(28.), window_duration_mins: Some(300), resets_at: Some(77) });
    assert_eq!(q.label, "5h");
    assert_eq!(q.used_percent, pct(28.));
    assert_eq!(q.window_duration_mins, Some(300));
    assert_eq!(q.resets_at, Some(77));
}

#[test]
fn default_state_is_starting() {
    let s = CodexUsageState::default();
    assert_eq!(s.status, "starting");
    assert!(s.primary.is_none() && s.secondary.is_none() && s.error_message.is_none());
    assert!(s.last_successful_refresh_at.is_none() && s.reset_credit_count.is_none());
}

#[test]
fn apply_limits_marks_connected() {
    let mut state = CodexUsageState::default();
    state.error_message = Some("old".to_string());
    let raw = RawRateLimits {
        primary: Some(RawQuotaWindow { used_percent: pct(10.), window_duration_mins: Some(10080), resets_at: None }),
        rate_limit_reached_type: Some("primary".to_string()),
        ..Default::default()
    };
    apply_limits_at(&mut state, &raw, Some(3), 1234);
    assert_eq!(state.status, "connected");
    assert_eq!(state.primary.as_ref().unwrap().label, "7d");
    assert!(state.secondary.is_none());
    assert_eq!(state.reset_credit_count, Some(3));
    assert_eq!(state.last_successful_refresh_at, Some(1234));
    assert_eq!(state.rate_limit_reached_type.as_deref(), Some("primary"));
    assert!(state.error_message.is_none());
}

#[test]
fn apply_limits_stamps_the_current_time() {
    let mut state = CodexUsageState::default();
    apply_limits(&mut state, &RawRateLimits::default(), None);
    let stamped = state.last_successful_refresh_at.unwrap();
    // 2023-11-14 and later: the clock was read, not some constant.
    assert!(stamped > 1_700_000_000);
    assert_eq!(state.status, "connected");
}

#[test]
fn later_update_member_wins() {
    let mut members = vec![("a".to_string(), Json::Bool(false))];
    extend_members(
        &mut members,
        vec![("a".to_string(), Json::Number(JsonNumber::PosInt(1))), ("a".to_string(), Json::Number(JsonNumber::PosInt(2)))],
    );
    assert_eq!(members.len(), 1);
    assert!(matches!(members[0].1, Json::Number(JsonNumber::PosInt(2))));
}
