use vstd::prelude::*;
use crate::json::{Json, extend_members, keys_unique, lookup_after, member_from};
use crate::text::opt_string_view;
use crate::text::{decimal, push_char, push_decimal};

verus! {

/// One quota window as the app-server reports it. `used_percent` holds the
/// IEEE-754 bit pattern of the used percentage.
#[derive(Clone, Copy, Debug, PartialEq, Eq, Structural)]
pub struct RawQuotaWindow {
    pub used_percent: Option<u64>,
    pub window_duration_mins: Option<i64>,
    pub resets_at: Option<i64>,
}

/// A (possibly sparse) rate-limit snapshot. `supplemental` keeps the members
/// of the report that have no field of their own, each key at most once.
#[derive(Debug)]
pub struct RawRateLimits {
    pub primary: Option<RawQuotaWindow>,
    pub secondary: Option<RawQuotaWindow>,
    pub rate_limit_reached_type: Option<String>,
    pub supplemental: Vec<(String, Json)>,
}

/// A quota window prepared for display.
#[derive(Debug)]
pub struct QuotaWindow {
    pub used_percent: Option<u64>,
    pub window_duration_mins: Option<i64>,
    pub label: String,
    pub resets_at: Option<i64>,
}

/// What the overlay shows.
#[derive(Debug)]
pub struct CodexUsageState {
    pub status: String,
    pub primary: Option<QuotaWindow>,
    pub secondary: Option<QuotaWindow>,
    pub plan_type: Option<String>,
    pub rate_limit_reached_type: Option<String>,
    pub reset_credit_count: Option<i64>,
    pub last_successful_refresh_at: Option<i64>,
    pub error_message: Option<String>,
}

pub open spec fn empty_window() -> RawQuotaWindow {
    RawQuotaWindow { used_percent: None, window_duration_mins: None, resets_at: None }
}

impl Default for RawQuotaWindow {
    fn default() -> (r: Self)
        ensures
            r == empty_window(),
    {
        RawQuotaWindow { used_percent: None, window_duration_mins: None, resets_at: None }
    }
}

impl RawRateLimits {
    pub open spec fn wf(self) -> bool {
        keys_unique(self.supplemental@)
    }

    pub open spec fn is_empty(self) -> bool {
        &&& self.primary is None
        &&& self.secondary is None
        &&& self.rate_limit_reached_type is None
        &&& self.supplemental@.len() == 0
    }
}

impl Default for RawRateLimits {
    fn default() -> (r: Self)
        ensures
            r.is_empty(),
            r.wf(),
    {
        RawRateLimits { primary: None, secondary: None, rate_limit_reached_type: None, supplemental: Vec::new() }
    }
}

/// The state before the first connection.
pub open spec fn is_initial_state(s: CodexUsageState) -> bool {
    &&& s.status@ == "starting"@
    &&& s.primary is None
    &&& s.secondary is None
    &&& s.plan_type is None
    &&& s.rate_limit_reached_type is None
    &&& s.reset_credit_count is None
    &&& s.last_successful_refresh_at is None
    &&& s.error_message is None
}

impl Default for CodexUsageState {
    fn default() -> (r: Self)
        ensures
            is_initial_state(r),
    {
        CodexUsageState {
            status: String::from_str("starting"),
            primary: None,
            secondary: None,
            plan_type: None,
            rate_limit_reached_type: None,
            reset_credit_count: None,
            last_successful_refresh_at: None,
            error_message: None,
        }
    }
}

/// Short label of a window length: whole days, whole hours, hours and
/// minutes above an hour, minutes, or `-` when unknown or not positive.
pub open spec fn spec_duration_label(minutes: Option<i64>) -> Seq<char> {
    match minutes {
        Some(m) => if m > 0 && m % 1440 == 0 {
            decimal((m / 1440) as nat) + seq!['d']
        } else if m > 0 && m % 60 == 0 {
            decimal((m / 60) as nat) + seq!['h']
        } else if m > 60 {
            decimal((m / 60) as nat) + seq!['h'] + decimal((m % 60) as nat) + seq!['m']
        } else if m > 0 {
            decimal(m as nat) + seq!['m']
        } else {
            seq!['-']
        },
        None => seq!['-'],
    }
}

pub fn duration_label(minutes: Option<i64>) -> (r: String)
    ensures
        r@ == spec_duration_label(minutes),
{
    let mut s = String::new();
    match minutes {
        Some(m) if m > 0 && m % 1440 == 0 => {
            push_decimal(&mut s, (m / 1440) as u64);
            push_char(&mut s, 'd');
        },
        Some(m) if m > 0 && m % 60 == 0 => {
            push_decimal(&mut s, (m / 60) as u64);
            push_char(&mut s, 'h');
        },
        Some(m) if m > 60 => {
            push_decimal(&mut s, (m / 60) as u64);
            push_char(&mut s, 'h');
            push_decimal(&mut s, (m % 60) as u64);
            push_char(&mut s, 'm');
        },
        Some(m) if m > 0 => {
            push_decimal(&mut s, m as u64);
            push_char(&mut s, 'm');
        },
        _ => {
            push_char(&mut s, '-');
        },
    }
    assert(s@ =~= spec_duration_label(minutes));
    s
}

/// `q` is the display form of `raw`.
pub open spec fn is_quota_of(q: QuotaWindow, raw: RawQuotaWindow) -> bool {
    &&& q.used_percent == raw.used_percent
    &&& q.window_duration_mins == raw.window_duration_mins
    &&& q.label@ == spec_duration_label(raw.window_duration_mins)
    &&& q.resets_at == raw.resets_at
}

pub open spec fn is_opt_quota_of(q: Option<QuotaWindow>, raw: Option<RawQuotaWindow>) -> bool {
    match (q, raw) {
        (Some(q), Some(raw)) => is_quota_of(q, raw),
        (None, None) => true,
        _ => false,
    }
}

pub fn quota(raw: RawQuotaWindow) -> (q: QuotaWindow)
    ensures
        is_quota_of(q, raw),
{
    QuotaWindow {
        used_percent: raw.used_percent,
        label: duration_label(raw.window_duration_mins),
        window_duration_mins: raw.window_duration_mins,
        resets_at: raw.resets_at,
    }
}

fn opt_quota(raw: Option<RawQuotaWindow>) -> (q: Option<QuotaWindow>)
    ensures
        is_opt_quota_of(q, raw),
{
    match raw {
        Some(w) => Some(quota(w)),
        None => None,
    }
}

/// `new` when it is present, else `old`.
pub open spec fn pick<T>(new: Option<T>, old: Option<T>) -> Option<T> {
    if new is Some { new } else { old }
}

/// Result of merging a sparse window update into the current window: every
/// field present in the update replaces the current one, the others stay.
pub open spec fn spec_merge_window(current: Option<RawQuotaWindow>, update: Option<RawQuotaWindow>) -> Option<RawQuotaWindow> {
    match update {
        None => current,
        Some(u) => {
            let base = match current {
                Some(c) => c,
                None => empty_window(),
            };
            Some(RawQuotaWindow {
                used_percent: pick(u.used_percent, base.used_percent),
                window_duration_mins: pick(u.window_duration_mins, base.window_duration_mins),
                resets_at: pick(u.resets_at, base.resets_at),
            })
        },
    }
}

pub fn merge_window(current: &mut Option<RawQuotaWindow>, update: Option<RawQuotaWindow>)
    ensures
        *final(current) == spec_merge_window(*old(current), update),
{
    if let Some(update) = update {
        let mut target = match *current {
            Some(c) => c,
            None => RawQuotaWindow::default(),
        };
        if update.used_percent.is_some() {
            target.used_percent = update.used_percent;
        }
        if update.window_duration_mins.is_some() {
            target.window_duration_mins = update.window_duration_mins;
        }
        if update.resets_at.is_some() {
            target.resets_at = update.resets_at;
        }
        *current = Some(target);
    }
}

/// `merged` is what merging the sparse `update` into `current` gives: each
/// window merged field by field, the limit type replaced when the update has
/// one, and the update's supplemental members stored over the current ones.
pub open spec fn is_merge(current: RawRateLimits, update: RawRateLimits, merged: RawRateLimits) -> bool {
    &&& merged.primary == spec_merge_window(current.primary, update.primary)
    &&& merged.secondary == spec_merge_window(current.secondary, update.secondary)
    &&& opt_string_view(merged.rate_limit_reached_type)
        == pick(opt_string_view(update.rate_limit_reached_type), opt_string_view(current.rate_limit_reached_type))
    &&& forall|k: Seq<char>| #[trigger] member_from(merged.supplemental@, k, 0)
        == lookup_after(current.supplemental@, update.supplemental@, k)
}

/// `a` and `b` hold the same quota window.
pub open spec fn same_quota(a: QuotaWindow, b: QuotaWindow) -> bool {
    &&& a.used_percent == b.used_percent
    &&& a.window_duration_mins == b.window_duration_mins
    &&& a.label@ == b.label@
    &&& a.resets_at == b.resets_at
}

pub open spec fn same_opt_quota(a: Option<QuotaWindow>, b: Option<QuotaWindow>) -> bool {
    match (a, b) {
        (Some(a), Some(b)) => same_quota(a, b),
        (None, None) => true,
        _ => false,
    }
}

/// `s` shows the values of `last`: both quota windows, the plan and limit
/// types, the reset credits and the time of the last refresh.
pub open spec fn keeps_values(s: CodexUsageState, last: CodexUsageState) -> bool {
    &&& same_opt_quota(s.primary, last.primary)
    &&& same_opt_quota(s.secondary, last.secondary)
    &&& opt_string_view(s.plan_type) == opt_string_view(last.plan_type)
    &&& opt_string_view(s.rate_limit_reached_type) == opt_string_view(last.rate_limit_reached_type)
    &&& s.reset_credit_count == last.reset_credit_count
    &&& s.last_successful_refresh_at == last.last_successful_refresh_at
}

/// `a` and `b` are the same state.
pub open spec fn same_state(a: CodexUsageState, b: CodexUsageState) -> bool {
    &&& keeps_values(a, b)
    &&& a.status@ == b.status@
    &&& opt_string_view(a.error_message) == opt_string_view(b.error_message)
}

fn copy_quota(q: &Option<QuotaWindow>) -> (r: Option<QuotaWindow>)
    ensures
        same_opt_quota(r, *q),
{
    match q {
        Some(q) => Some(QuotaWindow {
            used_percent: q.used_percent,
            window_duration_mins: q.window_duration_mins,
            label: q.label.clone(),
            resets_at: q.resets_at,
        }),
        None => None,
    }
}

/// The values of `last` under a new status and error text.
pub fn with_status(last: &CodexUsageState, status: &str, error_message: Option<&str>) -> (s: CodexUsageState)
    ensures
        keeps_values(s, *last),
        s.status@ == status@,
        match error_message {
            Some(m) => s.error_message matches Some(e) && e@ == m@,
            None => s.error_message is None,
        },
{
    CodexUsageState {
        status: String::from_str(status),
        primary: copy_quota(&last.primary),
        secondary: copy_quota(&last.secondary),
        plan_type: clone_opt_string(&last.plan_type),
        rate_limit_reached_type: clone_opt_string(&last.rate_limit_reached_type),
        reset_credit_count: last.reset_credit_count,
        last_successful_refresh_at: last.last_successful_refresh_at,
        error_message: match error_message {
            Some(m) => Some(String::from_str(m)),
            None => None,
        },
    }
}

/// A copy of a state.
pub fn copy_state(s: &CodexUsageState) -> (r: CodexUsageState)
    ensures
        same_state(r, *s),
{
    CodexUsageState {
        status: s.status.clone(),
        primary: copy_quota(&s.primary),
        secondary: copy_quota(&s.secondary),
        plan_type: clone_opt_string(&s.plan_type),
        rate_limit_reached_type: clone_opt_string(&s.rate_limit_reached_type),
        reset_credit_count: s.reset_credit_count,
        last_successful_refresh_at: s.last_successful_refresh_at,
        error_message: clone_opt_string(&s.error_message),
    }
}

/// `a` holds what `b` holds: the same windows, limit type and supplemental
/// members (looked up by key).
pub open spec fn same_limits(a: RawRateLimits, b: RawRateLimits) -> bool {
    &&& a.primary == b.primary
    &&& a.secondary == b.secondary
    &&& opt_string_view(a.rate_limit_reached_type) == opt_string_view(b.rate_limit_reached_type)
    &&& forall|k: Seq<char>| #[trigger] member_from(a.supplemental@, k, 0) == member_from(b.supplemental@, k, 0)
}

/// Merges a sparse rate-limit update into the last complete snapshot.
pub fn merge_limits(current: &mut RawRateLimits, update: RawRateLimits)
    ensures
        is_merge(*old(current), update, *final(current)),
        old(current).wf() ==> final(current).wf(),
{
    let RawRateLimits { primary, secondary, rate_limit_reached_type, supplemental } = update;
    merge_window(&mut current.primary, primary);
    merge_window(&mut current.secondary, secondary);
    if rate_limit_reached_type.is_some() {
        current.rate_limit_reached_type = rate_limit_reached_type;
    }
    extend_members(&mut current.supplemental, supplemental);
}

/// Current UNIX time in whole seconds: chrono's `Utc::now().timestamp()`.
/// The value depends on the clock, so nothing is claimed of it.
#[verifier::external_body]
fn unix_now() -> i64 {
    chrono::Utc::now().timestamp()
}

fn clone_opt_string(s: &Option<String>) -> (r: Option<String>)
    ensures
        opt_string_view(r) == opt_string_view(*s),
{
    match s {
        Some(s) => Some(s.clone()),
        None => None,
    }
}

/// `state` shows the snapshot `raw` with `credits`, refreshed at `now`.
pub open spec fn shows_limits(state: CodexUsageState, raw: RawRateLimits, credits: Option<i64>, now: i64) -> bool {
    &&& state.status@ == "connected"@
    &&& is_opt_quota_of(state.primary, raw.primary)
    &&& is_opt_quota_of(state.secondary, raw.secondary)
    &&& opt_string_view(state.rate_limit_reached_type) == opt_string_view(raw.rate_limit_reached_type)
    &&& state.reset_credit_count == credits
    &&& state.last_successful_refresh_at == Some(now)
    &&& state.error_message is None
}

/// Puts a snapshot on display as refreshed at `now`; the plan type is kept.
pub fn apply_limits_at(state: &mut CodexUsageState, raw: &RawRateLimits, credits: Option<i64>, now: i64)
    ensures
        shows_limits(*final(state), *raw, credits, now),
        opt_string_view(final(state).plan_type) == opt_string_view(old(state).plan_type),
{
    state.primary = opt_quota(raw.primary);
    state.secondary = opt_quota(raw.secondary);
    state.rate_limit_reached_type = clone_opt_string(&raw.rate_limit_reached_type);
    state.reset_credit_count = credits;
    state.last_successful_refresh_at = Some(now);
    state.status = String::from_str("connected");
    state.error_message = None;
}

/// Puts a snapshot on display, stamped with the current time.
pub fn apply_limits(state: &mut CodexUsageState, raw: &RawRateLimits, credits: Option<i64>)
    ensures
        final(state).last_successful_refresh_at is Some,
        shows_limits(*final(state), *raw, credits, final(state).last_successful_refresh_at->0),
        opt_string_view(final(state).plan_type) == opt_string_view(old(state).plan_type),
{
    let now = unix_now();
    apply_limits_at(state, raw, credits, now);
}

} // verus!
