use codex_overlay::client::{
    classify_reply, client_error_from_process, empty_params, initialize_params, message_line, notification_message,
    read_account_params, request_id, request_message, ClientError,
};
use codex_overlay::json::{parse_json, Json};
use codex_overlay::process::{first_line, ProcessError};
use codex_overlay::protocol::{
    auth_error_subject, auth_failure_text, classify_incoming, is_auth_error, notification_method, response_id, sanitized_error,
    Incoming,
};
use codex_overlay::session::{
    account_auth, auth_poll, auth_state, connection_error, parse_limits, rate_limits_payload,
    rate_limits_update, reset_credits, AccountAuth, AuthPoll, AUTH_REQUIRED,
};

fn parse(text: &str) -> Json {
    parse_json(text).unwrap()
}

#[test]
fn detects_nested_auth_failures() {
    assert!(is_auth_error(&parse(
        r#"{"error": {"message": "response: HTTP 401", "data": {"code": "token_invalidated", "status": 401}}}"#
    )));
    assert!(!is_auth_error(&parse(r#"{"error": {"message": "app-server unavailable"}}"#)));
}

#[test]
fn auth_failure_text_ignores_case() {
    assert!(auth_failure_text(r#"{"message":"Unauthorized"}"#));
    assert!(auth_failure_text(r#"{"status":401}"#));
    assert!(auth_failure_text("Authentication token has been INVALIDATED"));
    assert!(!auth_failure_text(r#"{"status":403}"#));
    assert!(!auth_failure_text(""));
    // The compact text is inspected: spacing in the line read does not matter.
    assert!(is_auth_error(&parse(r#"{"error": {"data": {"status" :  401}}}"#)));
}

#[test]
fn whole_message_is_inspected_without_error_member() {
    let message = parse(r#"{"result": {"detail": "HTTP 401"}}"#);
    assert!(is_auth_error(&message));
    assert!(matches!(auth_error_subject(&message), Json::Object(m) if m[0].0 == "result"));
    let with_error = parse(r#"{"error": "x", "id": 1}"#);
    assert!(matches!(auth_error_subject(&with_error), Json::Str(s) if s == "x"));
}

#[test]
fn detects_missing_auth() {
    assert_eq!(account_auth(&parse(r#"{"result":{"account":null}}"#)), AccountAuth::Missing);
    assert_eq!(account_auth(&parse(r#"{"result":{}}"#)), AccountAuth::Missing);
    assert_eq!(account_auth(&parse(r#"{}"#)), AccountAuth::Missing);
}

#[test]
fn detects_supported_and_unsupported_auth() {
    assert_eq!(account_auth(&parse(r#"{"result":{"account":{"type":"chatgpt"}}}"#)), AccountAuth::ChatGpt);
    assert_eq!(account_auth(&parse(r#"{"result":{"account":{"type":"apiKey"}}}"#)), AccountAuth::Unsupported);
    assert_eq!(account_auth(&parse(r#"{"result":{"account":{"authType":"api_key"}}}"#)), AccountAuth::Unsupported);
    assert_eq!(
        account_auth(&parse(r#"{"result":{"account":{"type":"amazonBedrock"}}}"#)),
        AccountAuth::Unsupported
    );
}

#[test]
fn auth_type_is_normalized() {
    assert_eq!(account_auth(&parse(r#"{"result":{"account":{"type":"Chat_GPT"}}}"#)), AccountAuth::ChatGpt);
    assert_eq!(account_auth(&parse(r#"{"result":{"account":{"authType":"chat-gpt"}}}"#)), AccountAuth::ChatGpt);
    assert_eq!(account_auth(&parse(r#"{"result":{"account":{"type":5,"authType":"chatgpt"}}}"#)), AccountAuth::Unsupported);
    assert_eq!(account_auth(&parse(r#"{"result":{"account":"chatgpt"}}"#)), AccountAuth::Missing);
    assert_eq!(account_auth(&parse(r#"{"result":{"account":{}}}"#)), AccountAuth::Unsupported);
}

#[test]
fn auth_states() {
    assert_eq!(auth_state(AccountAuth::Unsupported).status, "unsupported-auth");
    assert_eq!(auth_state(AccountAuth::Missing).status, "logged-out");
    assert!(auth_state(AccountAuth::Missing).primary.is_none());
}

#[test]
fn auth_polling() {
    assert_eq!(auth_poll(AccountAuth::Missing, AccountAuth::ChatGpt), AuthPoll::Proceed);
    assert_eq!(auth_poll(AccountAuth::Missing, AccountAuth::Unsupported), AuthPoll::Report(AccountAuth::Unsupported));
    assert_eq!(auth_poll(AccountAuth::Missing, AccountAuth::Missing), AuthPoll::Wait);
}

#[test]
fn response_ids_and_methods() {
    assert_eq!(response_id(&parse(r#"{"id": 7, "result": {}}"#)), Some(7));
    assert_eq!(response_id(&parse(r#"{"id": -7}"#)), None);
    assert_eq!(response_id(&parse(r#"{"id": "7"}"#)), None);
    assert_eq!(response_id(&parse(r#"{"method": "x"}"#)), None);
    assert_eq!(notification_method(&parse(r#"{"method": "account/rateLimits/updated"}"#)), Some("account/rateLimits/updated"));
    assert_eq!(notification_method(&parse(r#"{"id": 3, "method": "x"}"#)), None);
    assert_eq!(notification_method(&parse(r#"{"method": 3}"#)), None);
}

#[test]
fn incoming_messages_are_routed() {
    assert_eq!(classify_incoming(&parse(r#"{"id": 2, "result": {}}"#)), Incoming::Response(2));
    assert_eq!(classify_incoming(&parse(r#"{"method": "turn/started", "params": {}}"#)), Incoming::Notification);
    assert_eq!(classify_incoming(&parse(r#"{"id": null, "method": "x"}"#)), Incoming::Ignored);
    assert_eq!(classify_incoming(&parse(r#"[1, 2]"#)), Incoming::Ignored);
}

#[test]
fn sanitized_errors() {
    assert_eq!(sanitized_error(&parse(r#"{"error": {"message": "boom"}}"#)), "boom");
    assert_eq!(sanitized_error(&parse(r#"{"error": {"code": 1}}"#)), "Codex app-server returned an error");
    assert_eq!(sanitized_error(&parse(r#"{"error": "flat"}"#)), "Codex app-server returned an error");
    let long = "é".repeat(300);
    let text = sanitized_error(&parse(&format!(r#"{{"error": {{"message": "{}"}}}}"#, long)));
    assert_eq!(text.chars().count(), 180);
    assert!(long.starts_with(&text));
}

#[test]
fn replies_are_classified() {
    let ok = parse(r#"{"id": 2, "result": {}}"#);
    assert!(classify_reply(&ok).is_ok());
    let auth = parse(r#"{"id": 2, "error": {"message": "Unauthorized"}}"#);
    assert!(matches!(classify_reply(&auth), Err(ClientError::Authentication)));
    let server = parse(r#"{"id": 2, "error": {"message": "overloaded"}}"#);
    match classify_reply(&server) {
        Err(ClientError::Server(m)) => assert_eq!(m, "overloaded"),
        other => panic!("unexpected {:?}", other),
    }
}

#[test]
fn request_messages() {
    assert_eq!(request_id(0), 2);
    assert_eq!(request_id(1), 2);
    assert_eq!(request_id(9), 9);
    let request = request_message(5, "account/read", read_account_params());
    assert_eq!(message_line(&request), "{\"id\":5,\"method\":\"account/read\",\"params\":{\"refreshToken\":false}}\n");
    let init = request_message(1, "initialize", initialize_params());
    assert_eq!(
        message_line(&init),
        r#"{"id":1,"method":"initialize","params":{"clientInfo":{"name":"codex_usage_overlay","title":"Codex Usage Overlay","version":"0.1.0"}}}"#
            .to_string()
            + "\n"
    );
    let note = notification_message("initialized", empty_params());
    assert_eq!(message_line(&note), "{\"method\":\"initialized\",\"params\":{}}\n");
    // Numbers keep their form through parsing and writing.
    assert_eq!(message_line(&parse(r#"[1.5, -2, 18446744073709551615, 1e21, 20.0]"#)), "[1.5,-2,18446744073709551615,1e+21,20.0]\n");
}

#[test]
fn connection_errors() {
    assert_eq!(connection_error(ClientError::Authentication, "x"), AUTH_REQUIRED);
    assert_eq!(connection_error(ClientError::Process("Codex CLI not found".to_string()), "x"), "Codex CLI not found");
    assert_eq!(connection_error(ClientError::Timeout, "Could not read rate limits"), "Could not read rate limits");
    assert_eq!(connection_error(ClientError::Server("boom".to_string()), "fallback"), "fallback");
    assert!(matches!(client_error_from_process(ProcessError::NotFound), ClientError::Process(m) if m == "Codex CLI not found"));
    assert!(matches!(client_error_from_process(ProcessError::Start("bad".to_string())), ClientError::Process(m) if m == "bad"));
}

#[test]
fn rate_limit_reports() {
    let response = parse(
        r#"{"id": 3, "result": {"rateLimits": {"primary": {"usedPercent": 28}}, "rateLimitResetCredits": {"availableCount": 4}}}"#,
    );
    assert!(matches!(rate_limits_payload(&response), Some(Json::Object(_))));
    assert_eq!(reset_credits(&response), Some(4));
    let bare = parse(r#"{"rateLimits": {}, "rateLimitResetCredits": {"availableCount": -2}}"#);
    assert!(rate_limits_payload(&bare).is_some());
    assert_eq!(reset_credits(&bare), Some(-2));
    assert_eq!(reset_credits(&parse(r#"{"result": {"rateLimitResetCredits": {"availableCount": 1.5}}}"#)), None);
    let (limits, credits) = parse_limits(&response, None);
    assert!(limits.primary.is_none() && limits.supplemental.is_empty());
    assert_eq!(credits, Some(4));
}

#[test]
fn rate_limit_notifications() {
    let update = parse(r#"{"method": "account/rateLimits/updated", "params": {"rateLimits": {}}}"#);
    assert!(matches!(rate_limits_update(&update), Some(Json::Object(m)) if m[0].0 == "rateLimits"));
    let bare = parse(r#"{"method": "account/rateLimits/updated"}"#);
    assert!(matches!(rate_limits_update(&bare), Some(Json::Object(m)) if m[0].0 == "method"));
    assert!(rate_limits_update(&parse(r#"{"method": "turn/started", "params": {}}"#)).is_none());
}

#[test]
fn first_lines() {
    assert_eq!(first_line(""), None);
    assert_eq!(first_line("C:\\codex.cmd\r\nC:\\other\r\n").as_deref(), Some("C:\\codex.cmd"));
    assert_eq!(first_line("one\ntwo").as_deref(), Some("one"));
    assert_eq!(first_line("only").as_deref(), Some("only"));
    assert_eq!(first_line("\n").as_deref(), Some(""));
    assert_eq!(first_line("tail\r").as_deref(), Some("tail\r"));
}
