use vstd::prelude::*;
use crate::client::{INITIALIZE_ID, spec_request_id};
use crate::json::{Json, lookup_after, member_from};
use crate::normalize::{
    CodexUsageState, RawQuotaWindow, RawRateLimits, empty_window, is_merge, keeps_values, pick, same_limits, spec_merge_window,
};
use crate::json::spec_compact_text;
use crate::placement::{
    MonitorInfo, centered_x, centered_y, find_named, find_overlapping, overlaps, restore_target, spec_intersects,
    spec_restore,
};
use crate::protocol::{
    MAX_ERROR_CHARS, error_text, names_auth_failure, spec_auth_error_subject, spec_classify_incoming,
    spec_is_auth_error, spec_notification_method, spec_response_id, Incoming,
};
use crate::text::{contains, opt_string_view};
use crate::session::{AccountAuth, AuthPoll, spec_auth_poll};
use crate::supervisor::{MAX_BACKOFF_SECS, doubled};
use crate::text::{lower, lower_char, prefix};


verus! {

/// A window update with no fields leaves the window as it was, and no update
/// at all leaves it too.
pub proof fn law_merge_window_empty_update(current: Option<RawQuotaWindow>)
    ensures
        spec_merge_window(current, None) == current,
        current is Some ==> spec_merge_window(current, Some(empty_window())) == current,
{
}

/// Merging the same sparse window update twice gives what merging it once gives.
pub proof fn law_merge_window_idempotent(current: Option<RawQuotaWindow>, update: Option<RawQuotaWindow>)
    ensures
        spec_merge_window(spec_merge_window(current, update), update) == spec_merge_window(current, update),
{
}

/// A sparse update keeps every field it does not carry and takes every field
/// it carries.
pub proof fn law_sparse_merge_preserves_fields(current: RawQuotaWindow, update: RawQuotaWindow)
    ensures
        spec_merge_window(Some(current), Some(update)) == Some(RawQuotaWindow {
            used_percent: pick(update.used_percent, current.used_percent),
            window_duration_mins: pick(update.window_duration_mins, current.window_duration_mins),
            resets_at: pick(update.resets_at, current.resets_at),
        }),
{
}

/// Merging a report that carries nothing changes nothing that can be read.
pub proof fn law_merge_empty_report(current: RawRateLimits, update: RawRateLimits, merged: RawRateLimits)
    requires
        update.is_empty(),
        is_merge(current, update, merged),
    ensures
        same_limits(merged, current),
{
    assert forall|k: Seq<char>| #[trigger] member_from(merged.supplemental@, k, 0) == member_from(current.supplemental@, k, 0) by {
        assert(member_from(merged.supplemental@, k, 0) == lookup_after(current.supplemental@, update.supplemental@, k));
    }
}

/// Request ids handed out after start-up never collide with the id of the
/// `initialize` request, and never go below the counter's value.
pub proof fn law_request_ids_skip_initialize(ticket: u64)
    ensures
        spec_request_id(ticket) != INITIALIZE_ID,
        spec_request_id(ticket) >= ticket,
{
}

/// A message that answers a request is never taken for a notification.
pub proof fn law_response_is_not_notification(message: Json)
    ensures
        spec_response_id(message) is Some ==> spec_notification_method(message) is None,
        spec_classify_incoming(message) == Incoming::Notification ==> spec_notification_method(message) is Some,
{
}

/// The error text passed on from a failed response is a prefix of the
/// server's text, at most `MAX_ERROR_CHARS` characters long, and all of it
/// when it is short enough.
pub proof fn law_error_text_bounded(message: Json)
    ensures
        prefix(error_text(message), MAX_ERROR_CHARS as nat).len() <= MAX_ERROR_CHARS,
        error_text(message).take(prefix(error_text(message), MAX_ERROR_CHARS as nat).len() as int)
            == prefix(error_text(message), MAX_ERROR_CHARS as nat),
        error_text(message).len() <= MAX_ERROR_CHARS ==> prefix(error_text(message), MAX_ERROR_CHARS as nat) == error_text(message),
{
}

/// Lower-casing twice is lower-casing once, so detection of authentication
/// failures ignores ASCII case.
pub proof fn law_lower_idempotent(s: Seq<char>)
    ensures
        lower(lower(s)) == lower(s),
{
    assert forall|i: int| 0 <= i < s.len() implies #[trigger] lower(lower(s))[i] == lower(s)[i] by {
        let c = s[i];
        if 'A' <= c && c <= 'Z' {
            assert(lower_char(c) as u32 == c as u32 + 32);
        }
    }
    assert(lower(lower(s)) =~= lower(s));
}

/// Detection of authentication failures ignores ASCII case: a text and its
/// lower-cased form are judged alike.
pub proof fn law_auth_detection_ignores_case(text: Seq<char>)
    ensures
        names_auth_failure(lower(lower(text))) == names_auth_failure(lower(text)),
{
    law_lower_idempotent(text);
}

/// The values last shown survive a temporary failure and the reconnecting
/// state after it: a state that keeps the values of one that kept the values
/// of `shown` keeps the values of `shown`.
pub proof fn law_values_survive_reconnect(shown: CodexUsageState, stale: CodexUsageState, reconnecting: CodexUsageState)
    requires
        keeps_values(stale, shown),
        keeps_values(reconnecting, stale),
    ensures
        keeps_values(reconnecting, shown),
{
}

/// Delay before the next attempt after `n` ordinary failures in a row.
pub open spec fn delay_after(n: nat) -> u64
    decreases n,
{
    if n == 0 { 1 } else { doubled(delay_after((n - 1) as nat)) }
}

/// The reconnect backoff is bounded: it starts at one second, never leaves
/// `1..=MAX_BACKOFF_SECS`, never shrinks while failures go on, and reaches
/// the cap after five failures.
pub proof fn law_backoff_bounded(n: nat)
    ensures
        1 <= delay_after(n) <= MAX_BACKOFF_SECS,
        delay_after(n) <= delay_after(n + 1),
        n >= 5 ==> delay_after(n) == MAX_BACKOFF_SECS,
    decreases n,
{
    if n > 0 {
        law_backoff_bounded((n - 1) as nat);
    }
    if n == 5 {
        assert(delay_after(0) == 1);
        assert(delay_after(1) == 2);
        assert(delay_after(2) == 4);
        assert(delay_after(3) == 8);
        assert(delay_after(4) == 16);
    }
}

/// Polling the login goes on only for a ChatGPT login, and reports a login
/// kind only when it changed.
pub proof fn law_auth_poll(current: AccountAuth, next: AccountAuth)
    ensures
        (spec_auth_poll(current, next) == AuthPoll::Proceed) == (next == AccountAuth::ChatGpt),
        spec_auth_poll(current, next) matches AuthPoll::Report(k) ==> k == next && k != current,
{
}

/// The overlay is restored whenever some monitor is available, and only then.
pub proof fn law_restore_needs_a_monitor(ms: Seq<MonitorInfo>, saved: Option<String>, x: i32, y: i32, w: u32, h: u32)
    ensures
        spec_restore(ms, saved, x, y, w, h) is Some <==> ms.len() > 0,
{
    crate::placement::lemma_targets_in_range(ms, saved, x, y, w, h);
}

/// A saved position, negative coordinates included, is kept as it is when it
/// overlaps the monitor it was saved on, or, when that monitor is gone, any
/// monitor.
pub proof fn law_restore_keeps_valid_position(ms: Seq<MonitorInfo>, saved: Option<String>, x: i32, y: i32, w: u32, h: u32)
    ensures
        find_named(ms, saved, 0) matches Some(t) && overlaps(ms[t], x, y, w, h)
            ==> spec_restore(ms, saved, x, y, w, h) == Some((x as int, y as int)),
        find_named(ms, saved, 0) is None && find_overlapping(ms, x, y, w, h, 0) is Some
            ==> spec_restore(ms, saved, x, y, w, h) == Some((x as int, y as int)),
{
    crate::placement::lemma_find_overlapping_in_range(ms, x, y, w, h, 0);
}

/// A position that is not kept is moved onto an available monitor: centred
/// on it, `TOP_MARGIN` below its top.
pub proof fn law_restore_recovers_onto_monitor(ms: Seq<MonitorInfo>, saved: Option<String>, x: i32, y: i32, w: u32, h: u32)
    ensures
        match spec_restore(ms, saved, x, y, w, h) {
            Some(p) => p != (x as int, y as int) ==>
                exists|t: int| 0 <= t < ms.len() && p == (centered_x(ms[t], w), centered_y(ms[t])),
            None => true,
        },
{
    crate::placement::lemma_targets_in_range(ms, saved, x, y, w, h);
    if let Some(t) = restore_target(ms, saved, x, y, w, h) {
        if !overlaps(ms[t], x, y, w, h) {
            assert(0 <= t < ms.len() && spec_restore(ms, saved, x, y, w, h) == Some((centered_x(ms[t], w), centered_y(ms[t]))));
        }
    }
}

/// The pixel `(px, py)` lies in the rectangle at `(x, y)` of size `w`×`h`.
pub open spec fn in_rect(px: int, py: int, x: int, y: int, w: int, h: int) -> bool {
    x <= px < x + w && y <= py < y + h
}

/// A window and a monitor of positive sizes intersect exactly when some
/// pixel lies in both: a window that only partly overlaps the monitor, its
/// top-left corner outside, intersects it too.
pub proof fn law_intersects_means_shared_pixel(x: int, y: int, w: int, h: int, mx: int, my: int, mw: int, mh: int)
    requires
        w > 0,
        h > 0,
        mw > 0,
        mh > 0,
    ensures
        spec_intersects(x, y, w, h, mx, my, mw, mh) <==> exists|px: int, py: int|
            #[trigger] in_rect(px, py, x, y, w, h) && #[trigger] in_rect(px, py, mx, my, mw, mh),
{
    if spec_intersects(x, y, w, h, mx, my, mw, mh) {
        let px = if x < mx { mx } else { x };
        let py = if y < my { my } else { y };
        assert(in_rect(px, py, x, y, w, h) && in_rect(px, py, mx, my, mw, mh));
    }
}

/// A saved position whose window shares a pixel with the monitor it was
/// saved on is kept as it is, whatever its corner: negative coordinates and
/// positions straddling two monitors included.
pub proof fn law_restore_keeps_position_overlapping_its_monitor(
    ms: Seq<MonitorInfo>,
    saved: Option<String>,
    x: i32,
    y: i32,
    w: u32,
    h: u32,
    t: int,
    px: int,
    py: int,
)
    requires
        find_named(ms, saved, 0) == Some(t),
        0 < w <= i32::MAX,
        0 < h <= i32::MAX,
        0 < ms[t].width <= i32::MAX,
        0 < ms[t].height <= i32::MAX,
        in_rect(px, py, x as int, y as int, w as int, h as int),
        in_rect(px, py, ms[t].x as int, ms[t].y as int, ms[t].width as int, ms[t].height as int),
    ensures
        spec_restore(ms, saved, x, y, w, h) == Some((x as int, y as int)),
{
    assert((w as i32) as int == w as int);
    assert((h as i32) as int == h as int);
    assert((ms[t].width as i32) as int == ms[t].width as int);
    assert((ms[t].height as i32) as int == ms[t].height as int);
    law_intersects_means_shared_pixel(x as int, y as int, w as int, h as int,
        ms[t].x as int, ms[t].y as int, ms[t].width as int, ms[t].height as int);
    assert(overlaps(ms[t], x, y, w, h));
}

/// A reply whose error text (compact JSON, lower-cased) carries any of the
/// markers of a lost login is an authentication failure: an invalidated
/// token, HTTP 401, a 401 status, or "unauthorized".
pub proof fn law_auth_markers_are_auth_failures(message: Json)
    ensures ({
        let t = lower(spec_compact_text(spec_auth_error_subject(message)));
        &&& contains(t, "token_invalidated"@) ==> spec_is_auth_error(message)
        &&& contains(t, "authentication token has been invalidated"@) ==> spec_is_auth_error(message)
        &&& contains(t, "http 401"@) ==> spec_is_auth_error(message)
        &&& contains(t, "\"status\":401"@) ==> spec_is_auth_error(message)
        &&& contains(t, "unauthorized"@) ==> spec_is_auth_error(message)
    }),
{
}

/// Any text carrying one of the markers, once lower-cased, names an
/// authentication failure.
pub proof fn law_auth_marker_text(text: Seq<char>)
    ensures
        contains(lower(text), "token_invalidated"@) ==> names_auth_failure(lower(text)),
        contains(lower(text), "authentication token has been invalidated"@) ==> names_auth_failure(lower(text)),
        contains(lower(text), "http 401"@) ==> names_auth_failure(lower(text)),
        contains(lower(text), "\"status\":401"@) ==> names_auth_failure(lower(text)),
        contains(lower(text), "unauthorized"@) ==> names_auth_failure(lower(text)),
{
}

/// A sparse report changes only what it carries: without a limit type the
/// current one stays (whatever windows the report has), with one it is
/// taken; a window it lacks stays, and a window field it lacks stays.
pub proof fn law_merge_changes_only_what_update_carries(current: RawRateLimits, update: RawRateLimits, merged: RawRateLimits)
    requires
        is_merge(current, update, merged),
    ensures
        update.rate_limit_reached_type is None
            ==> opt_string_view(merged.rate_limit_reached_type) == opt_string_view(current.rate_limit_reached_type),
        update.rate_limit_reached_type matches Some(u)
            ==> (merged.rate_limit_reached_type matches Some(m) && m@ == u@),
        update.primary is None ==> merged.primary == current.primary,
        update.secondary is None ==> merged.secondary == current.secondary,
        update.primary matches Some(u) ==> (merged.primary matches Some(p) && {
            &&& u.used_percent is Some ==> p.used_percent == u.used_percent
            &&& u.window_duration_mins is Some ==> p.window_duration_mins == u.window_duration_mins
            &&& u.resets_at is Some ==> p.resets_at == u.resets_at
            &&& current.primary matches Some(c) ==> {
                &&& u.used_percent is None ==> p.used_percent == c.used_percent
                &&& u.window_duration_mins is None ==> p.window_duration_mins == c.window_duration_mins
                &&& u.resets_at is None ==> p.resets_at == c.resets_at
            }
        }),
{
}

/// The state shown after a temporary failure, and while reconnecting, carries
/// the last shown quota windows in full (percentage, length, label and reset
/// time), the credits and the time of the last refresh.
pub proof fn law_kept_values_are_the_last_windows_in_full(s: CodexUsageState, last: CodexUsageState)
    requires
        keeps_values(s, last),
    ensures
        s.primary is Some <==> last.primary is Some,
        s.secondary is Some <==> last.secondary is Some,
        s.primary matches Some(p) ==> (last.primary matches Some(q) && p.used_percent == q.used_percent
            && p.window_duration_mins == q.window_duration_mins && p.label@ == q.label@ && p.resets_at == q.resets_at),
        s.secondary matches Some(p) ==> (last.secondary matches Some(q) && p.used_percent == q.used_percent
            && p.window_duration_mins == q.window_duration_mins && p.label@ == q.label@ && p.resets_at == q.resets_at),
        s.reset_credit_count == last.reset_credit_count,
        s.last_successful_refresh_at == last.last_successful_refresh_at,
{
}

} // verus!
