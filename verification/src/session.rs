use vstd::prelude::*;
use crate::client::ClientError;
use crate::json::{Json, deref_opt};
use crate::normalize::{
    CodexUsageState, RawRateLimits, apply_limits, apply_limits_at, is_merge, merge_limits, pick, shows_limits,
};
use crate::text::opt_string_view;
use crate::text::{chars_of, lower, string_from_chars, to_ascii_lowercase};

verus! {

/// Text that `connection_error` gives for an authentication failure.
pub const AUTH_REQUIRED: &'static str = "auth-required";

/// What kind of login the Codex CLI reports.
#[derive(Clone, Copy, Debug, PartialEq, Eq, Structural)]
pub enum AccountAuth {
    Missing,
    ChatGpt,
    Unsupported,
}

/// `s` without its `'_'` and `'-'` characters.
pub open spec fn strip_separators(s: Seq<char>) -> Seq<char>
    decreases s.len(),
{
    if s.len() == 0 {
        s
    } else {
        let rest = strip_separators(s.drop_last());
        if s.last() == '_' || s.last() == '-' { rest } else { rest.push(s.last()) }
    }
}

/// The account's `type` member, else its `authType` member, read as a string
/// (empty when it is not one).
pub open spec fn auth_type_text(account: Json) -> Seq<char> {
    let tag = match account.field("type"@) {
        Some(t) => Some(t),
        None => account.field("authType"@),
    };
    match tag {
        Some(t) => match t.str_value() {
            Some(s) => s,
            None => Seq::empty(),
        },
        None => Seq::empty(),
    }
}

/// Classification of an `account/read` response: no account object is
/// `Missing`; an account whose type reads `chatgpt` (ignoring ASCII case,
/// `_` and `-`) is `ChatGpt`; any other account is `Unsupported`.
pub open spec fn spec_account_auth(value: Json) -> AccountAuth {
    match value.field("result"@) {
        None => AccountAuth::Missing,
        Some(result) => match result.field("account"@) {
            None => AccountAuth::Missing,
            Some(account) => if !(account is Object) {
                AccountAuth::Missing
            } else if strip_separators(lower(auth_type_text(account))) == "chatgpt"@ {
                AccountAuth::ChatGpt
            } else {
                AccountAuth::Unsupported
            },
        },
    }
}

fn strip_separators_exec(s: &Vec<char>) -> (r: Vec<char>)
    ensures
        r@ == strip_separators(s@),
{
    let mut r: Vec<char> = Vec::new();
    let mut i: usize = 0;
    while i < s.len()
        invariant
            i <= s.len(),
            r@ == strip_separators(s@.take(i as int)),
        decreases s.len() - i,
    {
        let c = s[i];
        assert(s@.take(i + 1).drop_last() =~= s@.take(i as int));
        if c != '_' && c != '-' {
            r.push(c);
        }
        i = i + 1;
    }
    assert(s@.take(s.len() as int) =~= s@);
    r
}

pub fn account_auth(value: &Json) -> (r: AccountAuth)
    ensures
        r == spec_account_auth(*value),
{
    let account = match value.get("result") {
        Some(result) => match result.get("account") {
            Some(account) => account,
            None => return AccountAuth::Missing,
        },
        None => return AccountAuth::Missing,
    };
    if account.is_null() || !account.is_object() {
        return AccountAuth::Missing;
    }
    let tag = match account.get("type") {
        Some(t) => Some(t),
        None => account.get("authType"),
    };
    let text: &str = match tag {
        Some(t) => match t.as_str() {
            Some(s) => s,
            None => "",
        },
        None => "",
    };
    proof {
        reveal_strlit("");
        assert(text@ == auth_type_text(*account));
    }
    let normalized = string_from_chars(&strip_separators_exec(&to_ascii_lowercase(&chars_of(text))));
    if normalized == String::from_str("chatgpt") {
        AccountAuth::ChatGpt
    } else {
        AccountAuth::Unsupported
    }
}

/// The state shown while the login is not usable: `unsupported-auth` for an
/// account that is not a ChatGPT login, `logged-out` otherwise.
pub open spec fn is_auth_state(s: CodexUsageState, auth: AccountAuth) -> bool {
    &&& s.status@ == (if auth == AccountAuth::Unsupported { "unsupported-auth"@ } else { "logged-out"@ })
    &&& s.primary is None
    &&& s.secondary is None
    &&& s.plan_type is None
    &&& s.rate_limit_reached_type is None
    &&& s.reset_credit_count is None
    &&& s.last_successful_refresh_at is None
    &&& s.error_message is None
}

pub fn auth_state(auth: AccountAuth) -> (s: CodexUsageState)
    ensures
        is_auth_state(s, auth),
{
    let mut state = CodexUsageState::default();
    state.status = match auth {
        AccountAuth::Unsupported => String::from_str("unsupported-auth"),
        _ => String::from_str("logged-out"),
    };
    state
}

/// The text a failed connection step reports: `AUTH_REQUIRED` for an
/// authentication failure, the message of a process failure, else `fallback`.
pub open spec fn spec_connection_error(error: ClientError, fallback: Seq<char>) -> Seq<char> {
    match error {
        ClientError::Authentication => AUTH_REQUIRED@,
        ClientError::Process(m) => m@,
        _ => fallback,
    }
}

pub fn connection_error(error: ClientError, fallback: &str) -> (r: String)
    ensures
        r@ == spec_connection_error(error, fallback@),
{
    match error {
        ClientError::Authentication => String::from_str(AUTH_REQUIRED),
        ClientError::Process(message) => message,
        _ => String::from_str(fallback),
    }
}

/// Where a rate-limit report sits in a message: its `result` member, or the
/// message itself.
pub open spec fn limits_source(value: Json) -> Json {
    match value.field("result"@) {
        Some(r) => r,
        None => value,
    }
}

/// The `rateLimitResetCredits.availableCount` of the report, as an `i64`.
pub open spec fn spec_reset_credits(value: Json) -> Option<i64> {
    match limits_source(value).field("rateLimitResetCredits"@) {
        Some(c) => match c.field("availableCount"@) {
            Some(n) => n.i64_value(),
            None => None,
        },
        None => None,
    }
}

/// The `rateLimits` member of the report, which decodes into `RawRateLimits`.
pub fn rate_limits_payload(value: &Json) -> (r: Option<&Json>)
    ensures
        deref_opt(r) == limits_source(*value).field("rateLimits"@),
{
    let source = match value.get("result") {
        Some(r) => r,
        None => value,
    };
    source.get("rateLimits")
}

pub fn reset_credits(value: &Json) -> (r: Option<i64>)
    ensures
        r == spec_reset_credits(*value),
{
    let source = match value.get("result") {
        Some(r) => r,
        None => value,
    };
    match source.get("rateLimitResetCredits") {
        Some(c) => match c.get("availableCount") {
            Some(n) => n.as_i64(),
            None => None,
        },
        None => None,
    }
}

/// A rate-limit report: the snapshot decoded from `rate_limits_payload(value)`
/// (`None` when that failed or was absent, which counts as an empty snapshot)
/// and the reset credits.
pub fn parse_limits(value: &Json, decoded: Option<RawRateLimits>) -> (r: (RawRateLimits, Option<i64>))
    ensures
        match decoded {
            Some(d) => r.0 == d,
            None => r.0.is_empty() && r.0.wf(),
        },
        r.1 == spec_reset_credits(*value),
{
    let limits = match decoded {
        Some(d) => d,
        None => RawRateLimits::default(),
    };
    (limits, reset_credits(value))
}

/// The payload of a rate-limit notification: for a message whose `method` is
/// `account/rateLimits/updated`, its `params` member or the message itself.
pub open spec fn spec_rate_limits_update(message: Json) -> Option<Json> {
    let is_update = match message.field("method"@) {
        Some(m) => m.str_value() == Some("account/rateLimits/updated"@),
        None => false,
    };
    if is_update {
        match message.field("params"@) {
            Some(p) => Some(p),
            None => Some(message),
        }
    } else {
        None
    }
}

pub fn rate_limits_update(message: &Json) -> (r: Option<&Json>)
    ensures
        deref_opt(r) == spec_rate_limits_update(*message),
{
    let is_update = match message.get("method") {
        Some(m) => match m.as_str() {
            Some(s) => String::from_str(s) == String::from_str("account/rateLimits/updated"),
            None => false,
        },
        None => false,
    };
    if is_update {
        match message.get("params") {
            Some(p) => Some(p),
            None => Some(message),
        }
    } else {
        None
    }
}

/// What to do after polling the login again while it is not usable.
#[derive(Clone, Copy, Debug, PartialEq, Eq, Structural)]
pub enum AuthPoll {
    /// The login is a ChatGPT one now: go on to read the rate limits.
    Proceed,
    /// The login changed to another unusable kind: show it.
    Report(AccountAuth),
    /// Nothing changed.
    Wait,
}

pub open spec fn spec_auth_poll(current: AccountAuth, next: AccountAuth) -> AuthPoll {
    if next == AccountAuth::ChatGpt {
        AuthPoll::Proceed
    } else if next != current {
        AuthPoll::Report(next)
    } else {
        AuthPoll::Wait
    }
}

pub fn auth_poll(current: AccountAuth, next: AccountAuth) -> (r: AuthPoll)
    ensures
        r == spec_auth_poll(current, next),
{
    if next == AccountAuth::ChatGpt {
        AuthPoll::Proceed
    } else if next != current {
        AuthPoll::Report(next)
    } else {
        AuthPoll::Wait
    }
}


/// Rate limits of one app-server session: the merged snapshot, the last known
/// reset credits and the state shown for them.
#[derive(Debug)]
pub struct UsageTracker {
    pub raw: RawRateLimits,
    pub credits: Option<i64>,
    pub state: CodexUsageState,
}

impl UsageTracker {
    /// The shown state is the snapshot's, refreshed at `now`.
    pub open spec fn shows(self, now: i64) -> bool {
        shows_limits(self.state, self.raw, self.credits, now)
    }

    /// Starts a session from its first report, as refreshed at `now`.
    pub fn start_at(raw: RawRateLimits, credits: Option<i64>, now: i64) -> (t: Self)
        ensures
            t.raw == raw,
            t.credits == credits,
            t.shows(now),
            t.state.plan_type is None,
    {
        let mut state = CodexUsageState::default();
        apply_limits_at(&mut state, &raw, credits, now);
        UsageTracker { raw, credits, state }
    }

    /// Starts a session from its first report, stamped with the current time.
    pub fn start(raw: RawRateLimits, credits: Option<i64>) -> (t: Self)
        ensures
            t.raw == raw,
            t.credits == credits,
            t.state.last_successful_refresh_at is Some,
            t.shows(t.state.last_successful_refresh_at->0),
            t.state.plan_type is None,
    {
        let mut state = CodexUsageState::default();
        apply_limits(&mut state, &raw, credits);
        UsageTracker { raw, credits, state }
    }

    /// Merges a later (possibly sparse) report in and shows the result as
    /// refreshed at `now`; reset credits are only replaced by known ones.
    pub fn refresh_at(&mut self, update: RawRateLimits, credits: Option<i64>, now: i64)
        ensures
            opt_string_view(final(self).state.plan_type) == opt_string_view(old(self).state.plan_type),
            is_merge(old(self).raw, update, final(self).raw),
            old(self).raw.wf() ==> final(self).raw.wf(),
            final(self).credits == pick(credits, old(self).credits),
            final(self).shows(now),
    {
        merge_limits(&mut self.raw, update);
        if credits.is_some() {
            self.credits = credits;
        }
        apply_limits_at(&mut self.state, &self.raw, self.credits, now);
    }

    /// Merges a later report in, stamped with the current time.
    pub fn refresh(&mut self, update: RawRateLimits, credits: Option<i64>)
        ensures
            opt_string_view(final(self).state.plan_type) == opt_string_view(old(self).state.plan_type),
            is_merge(old(self).raw, update, final(self).raw),
            old(self).raw.wf() ==> final(self).raw.wf(),
            final(self).credits == pick(credits, old(self).credits),
            final(self).state.last_successful_refresh_at is Some,
            final(self).shows(final(self).state.last_successful_refresh_at->0),
    {
        merge_limits(&mut self.raw, update);
        if credits.is_some() {
            self.credits = credits;
        }
        apply_limits(&mut self.state, &self.raw, self.credits);
    }
}

} // verus!
