use vstd::prelude::*;
use crate::json::{Json, compact_text, parse_json, spec_compact_text, spec_parse_json};
use crate::text::{chars_of, contains, contains_exec, lower, prefix, to_ascii_lowercase};

verus! {

/// Longest error text, in characters, that is passed on from the app-server.
pub const MAX_ERROR_CHARS: usize = 180;

/// Text used when an error response carries no readable message.
pub open spec fn default_error_text() -> Seq<char> {
    "Codex app-server returned an error"@
}

/// The request id that a message answers: its `id` member when that is a
/// non-negative integer.
pub open spec fn spec_response_id(message: Json) -> Option<u64> {
    match message.field("id"@) {
        Some(id) => id.u64_value(),
        None => None,
    }
}

/// The method of a notification: a message without `id` whose `method` is a string.
pub open spec fn spec_notification_method(message: Json) -> Option<Seq<char>> {
    if message.field("id"@) is None {
        match message.field("method"@) {
            Some(m) => m.str_value(),
            None => None,
        }
    } else {
        None
    }
}

/// The text of `error.message` when it is a string, else the default text.
pub open spec fn error_text(message: Json) -> Seq<char> {
    match message.field("error"@) {
        Some(error) => match error.field("message"@) {
            Some(text) => match text.str_value() {
                Some(s) => s,
                None => default_error_text(),
            },
            None => default_error_text(),
        },
        None => default_error_text(),
    }
}

/// The part of a message that is inspected for authentication failures: its
/// `error` member, or the whole message when there is none.
pub open spec fn spec_auth_error_subject(message: Json) -> Json {
    match message.field("error"@) {
        Some(error) => error,
        None => message,
    }
}

/// Lower-case text that names an invalidated or missing login.
pub open spec fn names_auth_failure(lowered: Seq<char>) -> bool {
    ||| contains(lowered, "token_invalidated"@)
    ||| contains(lowered, "authentication token has been invalidated"@)
    ||| contains(lowered, "http 401"@)
    ||| contains(lowered, "\"status\":401"@)
    ||| contains(lowered, "unauthorized"@)
}

pub fn response_id(message: &Json) -> (r: Option<u64>)
    ensures
        r == spec_response_id(*message),
{
    match message.get("id") {
        Some(id) => id.as_u64(),
        None => None,
    }
}

pub fn notification_method(message: &Json) -> (r: Option<&str>)
    ensures
        match r {
            Some(m) => spec_notification_method(*message) == Some(m@),
            None => spec_notification_method(*message) is None,
        },
{
    if message.get("id").is_none() {
        match message.get("method") {
            Some(m) => m.as_str(),
            None => None,
        }
    } else {
        None
    }
}

/// The error text of a failed response, cut to `MAX_ERROR_CHARS` characters.
pub fn sanitized_error(message: &Json) -> (r: String)
    ensures
        r@ == prefix(error_text(*message), MAX_ERROR_CHARS as nat),
{
    let source: &str = match message.get("error") {
        Some(error) => match error.get("message") {
            Some(text) => match text.as_str() {
                Some(s) => s,
                None => "Codex app-server returned an error",
            },
            None => "Codex app-server returned an error",
        },
        None => "Codex app-server returned an error",
    };
    let n = source.unicode_len();
    let keep = if n < MAX_ERROR_CHARS { n } else { MAX_ERROR_CHARS };
    let cut = source.substring_char(0, keep);
    let r = String::from_str(cut);
    assert(source@.subrange(0, keep as int) =~= prefix(source@, MAX_ERROR_CHARS as nat));
    r
}

/// The member of a message whose serialized text `is_auth_error` inspects.
pub fn auth_error_subject(message: &Json) -> (r: &Json)
    ensures
        *r == spec_auth_error_subject(*message),
{
    match message.get("error") {
        Some(error) => error,
        None => message,
    }
}

/// Whether a message's error names an authentication failure: the compact
/// JSON text of `auth_error_subject(message)`, lower-cased, mentions an
/// invalidated token, HTTP 401 or "unauthorized".
pub open spec fn spec_is_auth_error(message: Json) -> bool {
    names_auth_failure(lower(spec_compact_text(spec_auth_error_subject(message))))
}

pub fn is_auth_error(message: &Json) -> (r: bool)
    ensures
        r == spec_is_auth_error(*message),
{
    let text = compact_text(auth_error_subject(message));
    auth_failure_text(text.as_str())
}

/// Whether a text names an authentication failure, ignoring ASCII case.
pub fn auth_failure_text(text: &str) -> (r: bool)
    ensures
        r == names_auth_failure(lower(text@)),
{
    let lowered = to_ascii_lowercase(&chars_of(text));
    contains_exec(&lowered, &chars_of("token_invalidated"))
        || contains_exec(&lowered, &chars_of("authentication token has been invalidated"))
        || contains_exec(&lowered, &chars_of("http 401"))
        || contains_exec(&lowered, &chars_of("\"status\":401"))
        || contains_exec(&lowered, &chars_of("unauthorized"))
}

/// What the reader of the app-server's output does with a message.
#[derive(Clone, Copy, Debug, PartialEq, Eq, Structural)]
pub enum Incoming {
    /// The answer to the pending request with this id.
    Response(u64),
    /// A notification for the subscriber.
    Notification,
    /// Anything else, dropped.
    Ignored,
}

pub open spec fn spec_classify_incoming(message: Json) -> Incoming {
    match spec_response_id(message) {
        Some(id) => Incoming::Response(id),
        None => if spec_notification_method(message) is Some {
            Incoming::Notification
        } else {
            Incoming::Ignored
        },
    }
}

/// Routes one message read from the app-server.
pub fn classify_incoming(message: &Json) -> (r: Incoming)
    ensures
        r == spec_classify_incoming(*message),
{
    match response_id(message) {
        Some(id) => Incoming::Response(id),
        None => if notification_method(message).is_some() {
            Incoming::Notification
        } else {
            Incoming::Ignored
        },
    }
}

} // verus!

verus! {

/// Reads one line of the app-server's output: the message it holds and where
/// it goes, or `None` for a line that is not JSON (it is discarded).
pub fn route_line(line: &str) -> (r: Option<(Json, Incoming)>)
    ensures
        match spec_parse_json(line@) {
            None => r is None,
            Some(v) => r matches Some(p) && p.0 == v && p.1 == spec_classify_incoming(v),
        },
{
    match parse_json(line) {
        None => None,
        Some(v) => {
            let route = classify_incoming(&v);
            Some((v, route))
        },
    }
}

} // verus!
