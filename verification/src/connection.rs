use vstd::prelude::*;
use crate::client::ClientError;
use crate::json::Json;
use crate::laws::law_merge_empty_report;
use crate::normalize::{CodexUsageState, RawRateLimits, is_initial_state, is_merge, pick, same_limits};
use crate::session::{
    AccountAuth, AuthPoll, UsageTracker, account_auth, auth_poll, auth_state, connection_error, is_auth_state,
    parse_limits, rate_limits_update, spec_account_auth, spec_auth_poll, spec_connection_error,
    spec_rate_limits_update, spec_reset_credits,
};
use crate::text::opt_string_view;

verus! {

/// Deadline of every request to the app-server, in seconds.
pub const REQUEST_TIMEOUT_SECS: u64 = 10;

/// Interval between two account reads while the login is not usable, in
/// seconds (the first read after the first report waits a whole interval).
pub const AUTH_POLL_SECS: u64 = 30;

/// Interval between two rate-limit reads of a running session, in seconds
/// (the first one follows the first report at once).
pub const LIMITS_REFRESH_SECS: u64 = 60;

/// How often the stop and refresh flags are looked at while waiting, in ms.
pub const FLAG_POLL_MILLIS: u64 = 250;

/// Where one app-server session stands.
#[derive(Clone, Copy, Debug, PartialEq, Eq, Structural)]
pub enum Stage {
    /// Starting the CLI.
    Spawning,
    /// The `initialize` handshake is under way.
    Initializing,
    /// The first `account/read` is under way.
    ReadingAccount,
    /// The login is not usable; waiting for the next account poll.
    WaitingForLogin(AccountAuth),
    /// An account poll is under way; the login was of this kind.
    PollingAccount(AccountAuth),
    /// The first `account/rateLimits/read` is under way.
    ReadingLimits,
    /// Showing the rate limits; waiting for a tick or a notification.
    Tracking,
    /// A periodic `account/rateLimits/read` is under way.
    RefreshingLimits,
}

/// A session: its stage and its rate limits; `tracker.state` is the state
/// the session shows.
#[derive(Debug)]
pub struct SessionState {
    pub stage: Stage,
    pub tracker: UsageTracker,
}

/// What happened since the last step.
#[derive(Debug)]
pub enum SessionEvent {
    /// The CLI started.
    Spawned,
    /// The `initialize` handshake (and the `initialized` notification) succeeded.
    Initialized,
    /// An `account/read` answered.
    AccountRead(Json),
    /// An `account/rateLimits/read` answered; `decoded` is what its
    /// `rate_limits_payload` decodes into (`None` when it does not).
    LimitsRead { report: Json, decoded: Option<RawRateLimits> },
    /// A notification arrived; `decoded` is what the `rate_limits_payload` of
    /// its `rate_limits_update` decodes into.
    Notification { message: Json, decoded: Option<RawRateLimits> },
    /// The account poll interval elapsed.
    AuthTick,
    /// The rate-limit interval elapsed.
    LimitsTick,
    /// The app-server's output ended.
    StreamClosed,
    /// The overlay is quitting.
    Stop,
    /// A manual refresh was asked for.
    Refresh,
    /// The step under way failed.
    Failed(ClientError),
}

/// What to do next.
#[derive(Debug)]
pub enum Next {
    Spawn,
    Initialize,
    ReadAccount,
    ReadLimits,
    /// Wait for the next event of the stage.
    Wait,
    /// End the session (shutting the child down first when `shutdown`).
    End { shutdown: bool, result: Result<(), String> },
}

/// The step's answer: whether to show `tracker.state` now, and what next.
#[derive(Debug)]
pub struct SessionAction {
    pub emit: bool,
    pub next: Next,
}

/// Stages in which a request to the app-server is under way.
pub open spec fn is_request_stage(stage: Stage) -> bool {
    !(stage is WaitingForLogin || stage is Tracking)
}

/// Text a failure reports when `connection_error` has nothing more specific.
pub open spec fn failure_text(stage: Stage) -> Seq<char> {
    match stage {
        Stage::Spawning => "Could not start Codex app-server"@,
        Stage::Initializing => "Codex app-server initialization failed"@,
        Stage::ReadingAccount | Stage::PollingAccount(_) => "Could not read Codex account"@,
        Stage::ReadingLimits => "Could not read rate limits"@,
        _ => "Rate-limit refresh failed"@,
    }
}

fn failure_fallback(stage: Stage) -> (r: &'static str)
    ensures
        r@ == failure_text(stage),
{
    match stage {
        Stage::Spawning => "Could not start Codex app-server",
        Stage::Initializing => "Codex app-server initialization failed",
        Stage::ReadingAccount | Stage::PollingAccount(_) => "Could not read Codex account",
        Stage::ReadingLimits => "Could not read rate limits",
        _ => "Rate-limit refresh failed",
    }
}

/// Nothing changes and nothing is done: the event does not belong to the stage.
pub open spec fn stays(before: SessionState, r: (SessionState, SessionAction)) -> bool {
    r.0 == before && !r.1.emit && r.1.next is Wait
}

/// Moves to `stage` with the same rate limits, showing nothing new.
pub open spec fn moves(before: SessionState, r: (SessionState, SessionAction), stage: Stage) -> bool {
    r.0.stage == stage && r.0.tracker == before.tracker && !r.1.emit
}

/// Ends the session, shutting the child down or not, with `Ok` (`text` is
/// `None`) or with the error text.
pub open spec fn ends(r: (SessionState, SessionAction), shutdown: bool, text: Option<Seq<char>>) -> bool {
    &&& !r.1.emit
    &&& r.1.next matches Next::End { shutdown: sd, result } && sd == shutdown && match text {
        None => result is Ok,
        Some(t) => result matches Err(m) && m@ == t,
    }
}

/// Shows the login state of `auth` and waits for the next account poll.
pub open spec fn shows_login(before: SessionState, r: (SessionState, SessionAction), auth: AccountAuth) -> bool {
    &&& r.0.stage == Stage::WaitingForLogin(auth)
    &&& r.0.tracker.raw == before.tracker.raw
    &&& r.0.tracker.credits == before.tracker.credits
    &&& is_auth_state(r.0.tracker.state, auth)
    &&& r.1.emit
    &&& r.1.next is Wait
}

/// `t` starts from the first report: its decoded snapshot (empty when it did
/// not decode) and its reset credits, shown as refreshed now.
pub open spec fn started(t: UsageTracker, report: Json, decoded: Option<RawRateLimits>) -> bool {
    &&& match decoded {
        Some(d) => t.raw == d,
        None => t.raw.is_empty() && t.raw.wf(),
    }
    &&& t.credits == spec_reset_credits(report)
    &&& t.state.last_successful_refresh_at is Some
    &&& t.shows(t.state.last_successful_refresh_at->0)
    &&& t.state.plan_type is None
}

/// `new` is `old` with a later report merged in and shown as refreshed now;
/// the credits are replaced only by known ones.
pub open spec fn refreshed(old: UsageTracker, new: UsageTracker, report: Json, decoded: Option<RawRateLimits>) -> bool {
    &&& match decoded {
        Some(d) => is_merge(old.raw, d, new.raw),
        None => same_limits(new.raw, old.raw),
    }
    &&& new.credits == pick(spec_reset_credits(report), old.credits)
    &&& new.state.last_successful_refresh_at is Some
    &&& new.shows(new.state.last_successful_refresh_at->0)
    &&& opt_string_view(new.state.plan_type) == opt_string_view(old.state.plan_type)
}

/// A new session: nothing shown yet, the CLI to be started.
pub fn session_start() -> (r: (SessionState, SessionAction))
    ensures
        r.0.stage == Stage::Spawning,
        r.0.tracker.raw.is_empty() && r.0.tracker.raw.wf(),
        r.0.tracker.credits is None,
        is_initial_state(r.0.tracker.state),
        !r.1.emit,
        r.1.next is Spawn,
{
    let tracker = UsageTracker { raw: RawRateLimits::default(), credits: None, state: CodexUsageState::default() };
    (SessionState { stage: Stage::Spawning, tracker }, SessionAction { emit: false, next: Next::Spawn })
}

fn merge_report(tracker: &mut UsageTracker, report: &Json, decoded: Option<RawRateLimits>)
    ensures
        refreshed(*old(tracker), *final(tracker), *report, decoded),
{
    let ghost was_none = decoded is None;
    let (update, credits) = parse_limits(report, decoded);
    let ghost u = update;
    tracker.refresh(update, credits);
    proof {
        if was_none {
            law_merge_empty_report(old(tracker).raw, u, tracker.raw);
        }
    }
}

/// One step of an app-server session: the initialize handshake, then
/// `account/read`; a login that is not ChatGPT is shown and polled every
/// `AUTH_POLL_SECS` until it is; then `account/rateLimits/read`, shown, and
/// refreshed every `LIMITS_REFRESH_SECS` and on each rate-limit notification.
/// A failed step ends the session with its `connection_error` text; in the
/// waiting stages a stop ends it with `Ok`, a refresh with "Manual refresh
/// requested", and the end of the output with "Codex app-server exited".
pub fn session_step(state: SessionState, event: SessionEvent) -> (r: (SessionState, SessionAction))
    ensures
        match event {
            SessionEvent::Spawned => if state.stage == Stage::Spawning {
                moves(state, r, Stage::Initializing) && r.1.next is Initialize
            } else {
                stays(state, r)
            },
            SessionEvent::Initialized => if state.stage == Stage::Initializing {
                moves(state, r, Stage::ReadingAccount) && r.1.next is ReadAccount
            } else {
                stays(state, r)
            },
            SessionEvent::AccountRead(v) => match state.stage {
                Stage::ReadingAccount => if spec_account_auth(v) == AccountAuth::ChatGpt {
                    moves(state, r, Stage::ReadingLimits) && r.1.next is ReadLimits
                } else {
                    shows_login(state, r, spec_account_auth(v))
                },
                Stage::PollingAccount(current) => match spec_auth_poll(current, spec_account_auth(v)) {
                    AuthPoll::Proceed => moves(state, r, Stage::ReadingLimits) && r.1.next is ReadLimits,
                    AuthPoll::Report(next) => shows_login(state, r, next),
                    AuthPoll::Wait => moves(state, r, Stage::WaitingForLogin(current)) && r.1.next is Wait,
                },
                _ => stays(state, r),
            },
            SessionEvent::LimitsRead { report, decoded } => match state.stage {
                Stage::ReadingLimits => r.0.stage == Stage::Tracking && started(r.0.tracker, report, decoded)
                    && r.1.emit && r.1.next is Wait,
                Stage::RefreshingLimits => r.0.stage == Stage::Tracking && refreshed(state.tracker, r.0.tracker, report, decoded)
                    && r.1.emit && r.1.next is Wait,
                _ => stays(state, r),
            },
            SessionEvent::Notification { message, decoded } => if state.stage == Stage::Tracking {
                match spec_rate_limits_update(message) {
                    Some(payload) => r.0.stage == Stage::Tracking && refreshed(state.tracker, r.0.tracker, payload, decoded)
                        && r.1.emit && r.1.next is Wait,
                    None => stays(state, r),
                }
            } else {
                stays(state, r)
            },
            SessionEvent::AuthTick => match state.stage {
                Stage::WaitingForLogin(a) => moves(state, r, Stage::PollingAccount(a)) && r.1.next is ReadAccount,
                _ => stays(state, r),
            },
            SessionEvent::LimitsTick => if state.stage == Stage::Tracking {
                moves(state, r, Stage::RefreshingLimits) && r.1.next is ReadLimits
            } else {
                stays(state, r)
            },
            SessionEvent::StreamClosed => if state.stage == Stage::Tracking {
                ends(r, false, Some("Codex app-server exited"@))
            } else {
                stays(state, r)
            },
            SessionEvent::Stop => if !is_request_stage(state.stage) {
                ends(r, true, None)
            } else {
                stays(state, r)
            },
            SessionEvent::Refresh => if !is_request_stage(state.stage) {
                ends(r, true, Some("Manual refresh requested"@))
            } else {
                stays(state, r)
            },
            SessionEvent::Failed(e) => if is_request_stage(state.stage) {
                ends(r, false, Some(spec_connection_error(e, failure_text(state.stage))))
            } else {
                stays(state, r)
            },
        },
{
    let SessionState { stage, mut tracker } = state;
    let wait = SessionAction { emit: false, next: Next::Wait };
    match event {
        SessionEvent::Spawned => match stage {
            Stage::Spawning => (SessionState { stage: Stage::Initializing, tracker }, SessionAction { emit: false, next: Next::Initialize }),
            _ => (SessionState { stage, tracker }, wait),
        },
        SessionEvent::Initialized => match stage {
            Stage::Initializing => (SessionState { stage: Stage::ReadingAccount, tracker }, SessionAction { emit: false, next: Next::ReadAccount }),
            _ => (SessionState { stage, tracker }, wait),
        },
        SessionEvent::AccountRead(v) => match stage {
            Stage::ReadingAccount => {
                let auth = account_auth(&v);
                if auth == AccountAuth::ChatGpt {
                    (SessionState { stage: Stage::ReadingLimits, tracker }, SessionAction { emit: false, next: Next::ReadLimits })
                } else {
                    tracker.state = auth_state(auth);
                    (SessionState { stage: Stage::WaitingForLogin(auth), tracker }, SessionAction { emit: true, next: Next::Wait })
                }
            },
            Stage::PollingAccount(current) => match auth_poll(current, account_auth(&v)) {
                AuthPoll::Proceed => (SessionState { stage: Stage::ReadingLimits, tracker }, SessionAction { emit: false, next: Next::ReadLimits }),
                AuthPoll::Report(next) => {
                    tracker.state = auth_state(next);
                    (SessionState { stage: Stage::WaitingForLogin(next), tracker }, SessionAction { emit: true, next: Next::Wait })
                },
                AuthPoll::Wait => (SessionState { stage: Stage::WaitingForLogin(current), tracker }, wait),
            },
            _ => (SessionState { stage, tracker }, wait),
        },
        SessionEvent::LimitsRead { report, decoded } => match stage {
            Stage::ReadingLimits => {
                let (raw, credits) = parse_limits(&report, decoded);
                let started = UsageTracker::start(raw, credits);
                (SessionState { stage: Stage::Tracking, tracker: started }, SessionAction { emit: true, next: Next::Wait })
            },
            Stage::RefreshingLimits => {
                merge_report(&mut tracker, &report, decoded);
                (SessionState { stage: Stage::Tracking, tracker }, SessionAction { emit: true, next: Next::Wait })
            },
            _ => (SessionState { stage, tracker }, wait),
        },
        SessionEvent::Notification { message, decoded } => match stage {
            Stage::Tracking => match rate_limits_update(&message) {
                Some(payload) => {
                    merge_report(&mut tracker, payload, decoded);
                    (SessionState { stage, tracker }, SessionAction { emit: true, next: Next::Wait })
                },
                None => (SessionState { stage, tracker }, wait),
            },
            _ => (SessionState { stage, tracker }, wait),
        },
        SessionEvent::AuthTick => match stage {
            Stage::WaitingForLogin(a) => (SessionState { stage: Stage::PollingAccount(a), tracker }, SessionAction { emit: false, next: Next::ReadAccount }),
            _ => (SessionState { stage, tracker }, wait),
        },
        SessionEvent::LimitsTick => match stage {
            Stage::Tracking => (SessionState { stage: Stage::RefreshingLimits, tracker }, SessionAction { emit: false, next: Next::ReadLimits }),
            _ => (SessionState { stage, tracker }, wait),
        },
        SessionEvent::StreamClosed => match stage {
            Stage::Tracking => (SessionState { stage, tracker }, SessionAction {
                emit: false,
                next: Next::End { shutdown: false, result: Err(String::from_str("Codex app-server exited")) },
            }),
            _ => (SessionState { stage, tracker }, wait),
        },
        SessionEvent::Stop => match stage {
            Stage::WaitingForLogin(_) | Stage::Tracking => (SessionState { stage, tracker }, SessionAction {
                emit: false,
                next: Next::End { shutdown: true, result: Ok(()) },
            }),
            _ => (SessionState { stage, tracker }, wait),
        },
        SessionEvent::Refresh => match stage {
            Stage::WaitingForLogin(_) | Stage::Tracking => (SessionState { stage, tracker }, SessionAction {
                emit: false,
                next: Next::End { shutdown: true, result: Err(String::from_str("Manual refresh requested")) },
            }),
            _ => (SessionState { stage, tracker }, wait),
        },
        SessionEvent::Failed(e) => match stage {
            Stage::WaitingForLogin(_) | Stage::Tracking => (SessionState { stage, tracker }, wait),
            _ => {
                let text = connection_error(e, failure_fallback(stage));
                (SessionState { stage, tracker }, SessionAction {
                    emit: false,
                    next: Next::End { shutdown: false, result: Err(text) },
                })
            },
        },
    }
}

} // verus!
