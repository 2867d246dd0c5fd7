use vstd::prelude::*;
use crate::json::{Json, JsonNumber, compact_text, spec_compact_text};
use crate::process::ProcessError;
use crate::protocol::{error_text, is_auth_error, sanitized_error, spec_is_auth_error, MAX_ERROR_CHARS};
use crate::text::{prefix, push_char};

verus! {

/// Why a request to the app-server failed.
#[derive(Debug)]
pub enum ClientError {
    Process(String),
    Authentication,
    Timeout,
    Server(String),
    Closed,
}

/// Id of the `initialize` request; every later request gets a larger one.
pub const INITIALIZE_ID: u64 = 1;

/// The id a request gets from the value its counter held: the larger of the
/// value and 2.
pub open spec fn spec_request_id(ticket: u64) -> u64 {
    if ticket < 2 { 2 } else { ticket }
}

/// The id a request gets from the value its counter held: never below 2, so
/// it cannot be taken for the `initialize` request.
pub fn request_id(ticket: u64) -> (id: u64)
    ensures
        id == spec_request_id(ticket),
{
    if ticket < 2 { 2 } else { ticket }
}

/// A string as a JSON value.
pub fn json_str(s: &str) -> (r: Json)
    ensures
        r.str_value() == Some(s@),
{
    Json::Str(String::from_str(s))
}

/// `r` is an object with exactly the members `method` (a string equal to
/// `method`), then `id` when given, then `params`.
pub open spec fn is_message(r: Json, id: Option<u64>, method: Seq<char>, params: Json) -> bool {
    match r {
        Json::Object(m) => {
            &&& m@[0].0@ == "method"@
            &&& m@[0].1.str_value() == Some(method)
            &&& match id {
                Some(id) => {
                    &&& m@.len() == 3
                    &&& m@[1].0@ == "id"@
                    &&& m@[1].1 == Json::Number(JsonNumber::PosInt(id))
                    &&& m@[2].0@ == "params"@
                    &&& m@[2].1 == params
                },
                None => {
                    &&& m@.len() == 2
                    &&& m@[1].0@ == "params"@
                    &&& m@[1].1 == params
                },
            }
        },
        _ => false,
    }
}

/// A request: `{"method": method, "id": id, "params": params}`.
pub fn request_message(id: u64, method: &str, params: Json) -> (r: Json)
    ensures
        is_message(r, Some(id), method@, params),
{
    let mut members: Vec<(String, Json)> = Vec::new();
    members.push((String::from_str("method"), json_str(method)));
    members.push((String::from_str("id"), Json::Number(JsonNumber::PosInt(id))));
    members.push((String::from_str("params"), params));
    Json::Object(members)
}

/// A notification: `{"method": method, "params": params}`.
pub fn notification_message(method: &str, params: Json) -> (r: Json)
    ensures
        is_message(r, None, method@, params),
{
    let mut members: Vec<(String, Json)> = Vec::new();
    members.push((String::from_str("method"), json_str(method)));
    members.push((String::from_str("params"), params));
    Json::Object(members)
}

/// Decides the outcome of a reply: success without an `error` member, an
/// authentication failure when `is_auth_error` holds, else a server error
/// carrying the sanitized error text.
pub fn classify_reply(response: &Json) -> (r: Result<(), ClientError>)
    ensures
        response.field("error"@) is None ==> r is Ok,
        response.field("error"@) is Some && spec_is_auth_error(*response) ==> r matches Err(ClientError::Authentication),
        response.field("error"@) is Some && !spec_is_auth_error(*response) ==>
            (r matches Err(ClientError::Server(text)) && text@ == prefix(error_text(*response), MAX_ERROR_CHARS as nat)),
{
    if response.get("error").is_none() {
        Ok(())
    } else if is_auth_error(response) {
        Err(ClientError::Authentication)
    } else {
        Err(ClientError::Server(sanitized_error(response)))
    }
}

/// `r` is an object whose members are exactly `keys`, in order, with string
/// values `values`.
pub open spec fn is_string_object(r: Json, keys: Seq<Seq<char>>, values: Seq<Seq<char>>) -> bool {
    match r {
        Json::Object(m) => {
            &&& m@.len() == keys.len() == values.len()
            &&& forall|i: int| 0 <= i < m@.len() ==> #[trigger] m@[i].0@ == keys[i] && m@[i].1.str_value() == Some(values[i])
        },
        _ => false,
    }
}

/// Parameters of the `initialize` request: the client's name, title and version.
pub fn initialize_params() -> (r: Json)
    ensures
        r matches Json::Object(m) && m@.len() == 1 && m@[0].0@ == "clientInfo"@
            && is_string_object(m@[0].1, seq!["name"@, "title"@, "version"@],
                seq!["codex_usage_overlay"@, "Codex Usage Overlay"@, "0.1.0"@]),
{
    let mut info: Vec<(String, Json)> = Vec::new();
    info.push((String::from_str("name"), json_str("codex_usage_overlay")));
    info.push((String::from_str("title"), json_str("Codex Usage Overlay")));
    info.push((String::from_str("version"), json_str("0.1.0")));
    let mut members: Vec<(String, Json)> = Vec::new();
    members.push((String::from_str("clientInfo"), Json::Object(info)));
    Json::Object(members)
}

/// Parameters of `account/read`: do not refresh the login token.
pub fn read_account_params() -> (r: Json)
    ensures
        r matches Json::Object(m) && m@.len() == 1 && m@[0].0@ == "refreshToken"@ && m@[0].1 == Json::Bool(false),
{
    let mut members: Vec<(String, Json)> = Vec::new();
    members.push((String::from_str("refreshToken"), Json::Bool(false)));
    Json::Object(members)
}

/// The empty object, the parameters of `initialized` and `account/rateLimits/read`.
pub fn empty_params() -> (r: Json)
    ensures
        r matches Json::Object(m) && m@.len() == 0,
{
    Json::Object(Vec::new())
}

/// The line written to the app-server for a message: its compact JSON text
/// and a newline.
pub fn message_line(message: &Json) -> (r: String)
    ensures
        r@ == spec_compact_text(*message).push('\n'),
{
    let mut line = compact_text(message);
    push_char(&mut line, '\n');
    line
}

/// The error a failed start of the CLI becomes.
pub fn client_error_from_process(e: ProcessError) -> (r: ClientError)
    ensures
        match e {
            ProcessError::NotFound => r matches ClientError::Process(m) && m@ == "Codex CLI not found"@,
            ProcessError::Start(s) => r matches ClientError::Process(m) && m@ == s@,
        },
{
    match e {
        ProcessError::NotFound => ClientError::Process(String::from_str("Codex CLI not found")),
        ProcessError::Start(s) => ClientError::Process(s),
    }
}

} // verus!
