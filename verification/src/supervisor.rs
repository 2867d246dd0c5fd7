use vstd::prelude::*;
use crate::normalize::{CodexUsageState, keeps_values, with_status};
use crate::session::AUTH_REQUIRED;
use crate::text::{chars_of, contains, contains_exec};

verus! {

/// Longest wait, in seconds, between two connection attempts.
pub const MAX_BACKOFF_SECS: u64 = 30;

/// Wait after an authentication failure, in seconds.
pub const AUTH_RETRY_SECS: u64 = 30;

/// Largest random addition to a wait, in milliseconds (exclusive).
pub const JITTER_MILLIS: u64 = 400;

/// Reconnection state between two attempts.
#[derive(Clone, Copy, Debug, PartialEq, Eq, Structural)]
pub struct Backoff {
    /// Wait before the next attempt after an ordinary failure, in seconds.
    pub delay_secs: u64,
    /// Whether a `reconnecting` state is shown when the next attempt starts.
    pub show_reconnecting: bool,
}

impl Backoff {
    pub open spec fn wf(self) -> bool {
        1 <= self.delay_secs <= MAX_BACKOFF_SECS
    }

    /// The state when supervision starts.
    pub fn new() -> (b: Self)
        ensures
            b.delay_secs == 1,
            b.show_reconnecting,
            b.wf(),
    {
        Backoff { delay_secs: 1, show_reconnecting: true }
    }
}

/// How one connection attempt ended.
#[derive(Debug)]
pub enum ConnectOutcome {
    /// It ended because the overlay is quitting.
    Stopped,
    /// The session ended without an error.
    Ended,
    /// It failed with this text (see `connection_error`).
    Failed(String),
}

/// What follows a connection attempt that did not end supervision.
#[derive(Debug)]
pub struct Retry {
    /// The state to show until the next attempt.
    pub state: CodexUsageState,
    /// Wait before the next attempt, in seconds.
    pub wait_secs: u64,
    /// Backoff for the attempt after that.
    pub next: Backoff,
}

pub open spec fn doubled(delay: u64) -> u64 {
    if delay * 2 < MAX_BACKOFF_SECS { (delay * 2) as u64 } else { MAX_BACKOFF_SECS }
}

/// The state shown while an attempt starts: `reconnecting`, with the values
/// last shown kept on display.
pub fn reconnecting_state(last: &CodexUsageState) -> (s: CodexUsageState)
    ensures
        s.status@ == "reconnecting"@,
        s.error_message is None,
        keeps_values(s, *last),
{
    with_status(last, "reconnecting", None)
}

/// The retry plan after an attempt: `None` when the overlay is quitting.
/// A temporary failure keeps the values last shown (`last`) on display: an
/// ended session is shown `stale` and retried after the current delay, a
/// failure is shown `codex-not-found` (text containing "not found") or
/// `stale`. For `AUTH_REQUIRED` the state is `logged-out` without values,
/// retried after `AUTH_RETRY_SECS` with the delay reset to 1 and no
/// `reconnecting` state next. Otherwise the delay doubles, capped at
/// `MAX_BACKOFF_SECS`.
pub fn after_connection(backoff: Backoff, last: &CodexUsageState, outcome: ConnectOutcome) -> (r: Option<Retry>)
    requires
        backoff.wf(),
    ensures
        match outcome {
            ConnectOutcome::Stopped => r is None,
            ConnectOutcome::Ended => r matches Some(retry) && {
                &&& retry.state.status@ == "stale"@
                &&& retry.state.error_message matches Some(m) && m@ == "Codex app-server is reconnecting"@
                &&& keeps_values(retry.state, *last)
                &&& retry.wait_secs == backoff.delay_secs
                &&& retry.next.delay_secs == doubled(backoff.delay_secs)
                &&& retry.next.show_reconnecting
            },
            ConnectOutcome::Failed(e) => r matches Some(retry) && if e@ == AUTH_REQUIRED@ {
                &&& retry.state.status@ == "logged-out"@
                &&& retry.state.error_message matches Some(m) && m@ == "Run codex login"@
                &&& retry.state.primary is None && retry.state.secondary is None
                &&& retry.state.plan_type is None && retry.state.rate_limit_reached_type is None
                &&& retry.state.reset_credit_count is None && retry.state.last_successful_refresh_at is None
                &&& retry.wait_secs == AUTH_RETRY_SECS
                &&& retry.next.delay_secs == 1
                &&& !retry.next.show_reconnecting
            } else {
                &&& retry.state.status@ == (if contains(e@, "not found"@) { "codex-not-found"@ } else { "stale"@ })
                &&& retry.state.error_message matches Some(m) && m@ == "Codex app-server is reconnecting"@
                &&& keeps_values(retry.state, *last)
                &&& retry.wait_secs == backoff.delay_secs
                &&& retry.next.delay_secs == doubled(backoff.delay_secs)
                &&& retry.next.show_reconnecting
            },
        },
        r matches Some(retry) ==> retry.next.wf() && 1 <= retry.wait_secs <= MAX_BACKOFF_SECS,
{
    let next_delay = if backoff.delay_secs * 2 < MAX_BACKOFF_SECS { backoff.delay_secs * 2 } else { MAX_BACKOFF_SECS };
    match outcome {
        ConnectOutcome::Stopped => None,
        ConnectOutcome::Ended => Some(Retry {
            state: with_status(last, "stale", Some("Codex app-server is reconnecting")),
            wait_secs: backoff.delay_secs,
            next: Backoff { delay_secs: next_delay, show_reconnecting: true },
        }),
        ConnectOutcome::Failed(error) => {
            if error == String::from_str(AUTH_REQUIRED) {
                let mut state = CodexUsageState::default();
                state.status = String::from_str("logged-out");
                state.error_message = Some(String::from_str("Run codex login"));
                Some(Retry {
                    state,
                    wait_secs: AUTH_RETRY_SECS,
                    next: Backoff { delay_secs: 1, show_reconnecting: false },
                })
            } else {
                let status = if contains_exec(&chars_of(error.as_str()), &chars_of("not found")) {
                    "codex-not-found"
                } else {
                    "stale"
                };
                Some(Retry {
                    state: with_status(last, status, Some("Codex app-server is reconnecting")),
                    wait_secs: backoff.delay_secs,
                    next: Backoff { delay_secs: next_delay, show_reconnecting: true },
                })
            }
        },
    }
}

/// A random `u64` from `rand::random`; nothing is claimed of its value.
#[verifier::external_body]
fn random_u64() -> u64 {
    rand::random::<u64>()
}

/// Milliseconds to sleep before retrying after `wait_secs` seconds, given a
/// random value: the wait plus `random % JITTER_MILLIS`.
pub fn sleep_millis_with(wait_secs: u64, random: u64) -> (ms: u64)
    requires
        wait_secs * 1000 + JITTER_MILLIS <= u64::MAX,
    ensures
        ms == wait_secs * 1000 + random % JITTER_MILLIS,
{
    wait_secs * 1000 + random % JITTER_MILLIS
}

/// Milliseconds to sleep before retrying: the wait plus a random jitter
/// below `JITTER_MILLIS`.
pub fn retry_sleep_millis(wait_secs: u64) -> (ms: u64)
    requires
        wait_secs * 1000 + JITTER_MILLIS <= u64::MAX,
    ensures
        wait_secs * 1000 <= ms < wait_secs * 1000 + JITTER_MILLIS,
{
    sleep_millis_with(wait_secs, random_u64())
}

} // verus!
