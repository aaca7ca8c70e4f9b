use notify_relay::auth::{authorize, bearer_credential_of, same_text, AuthOutcome};
use notify_relay::chat_id::{parse_chat_id, push_chat_id, ChatId};
use notify_relay::config::RelayConfig;
use notify_relay::listener::{plan_reply, reply_text_for};
use notify_relay::relay::{
    plan_chat, plan_notify, reply_for, send_outcome, MessagePayload, Rejection, SendRequest,
    SettingsPayload, TextMode,
};

fn open_config() -> RelayConfig {
    RelayConfig::new(false, None, None)
}

fn guarded_config() -> RelayConfig {
    RelayConfig::new(true, Some("s3cret".to_string()), None)
}

fn payload(message: &str, silent: Option<bool>) -> MessagePayload {
    MessagePayload {
        message: message.to_string(),
        settings: SettingsPayload::from_field(silent),
    }
}

fn assert_send(r: &SendRequest, chat: i64, text: &str, silent: bool) {
    assert_eq!(r.chat_id, ChatId(chat));
    assert_eq!(r.text, text);
    assert_eq!(r.silent, silent);
    assert_eq!(r.mode, TextMode::Plain);
}

#[test]
fn chat_hook_sends_hello_silently_and_replies_empty() {
    let r = plan_chat(&open_config(), "42", None, Some(payload("hello", Some(true)))).unwrap();
    assert_send(&r, 42, "hello", true);
    let reply = reply_for(&send_outcome(Ok(())));
    assert_eq!(reply.status, 200);
    assert_eq!(reply.body, "");
}

#[test]
fn notify_sends_to_default_chat() {
    let config = RelayConfig::new(false, None, Some("99".to_string()));
    let r = plan_notify(
        &config,
        Some(SettingsPayload::from_field(Some(false))),
        Some("server down".to_string()),
    )
    .unwrap();
    assert_send(&r, 99, "server down", false);
}

#[test]
fn chat_hook_passes_message_and_chat_through() {
    let r = plan_chat(&open_config(), "-100123", None, Some(payload("disk full", Some(false))))
        .unwrap();
    assert_send(&r, -100123, "disk full", false);
}

#[test]
fn silent_defaults_to_false() {
    assert!(!SettingsPayload::from_field(None).silent);
    assert!(SettingsPayload::from_field(Some(true)).silent);
    assert!(!SettingsPayload::from_field(Some(false)).silent);
    let r = plan_chat(&open_config(), "7", None, Some(payload("hi", None))).unwrap();
    assert_send(&r, 7, "hi", false);
}

#[test]
fn wrong_bearer_token_is_unauthorized() {
    let config = guarded_config();
    let r = plan_chat(&config, "42", Some("Bearer wrong"), Some(payload("hello", None)));
    assert_eq!(r.unwrap_err(), Rejection::Unauthorized);
    let r = plan_chat(&config, "42", None, Some(payload("hello", None)));
    assert_eq!(r.unwrap_err(), Rejection::Unauthorized);
    let r = plan_chat(&config, "42", Some("s3cret"), Some(payload("hello", None)));
    assert_eq!(r.unwrap_err(), Rejection::Unauthorized);
    let r = plan_chat(&config, "42", Some("Bearer s3cret2"), Some(payload("hello", None)));
    assert_eq!(r.unwrap_err(), Rejection::Unauthorized);
    let reply = reply_for(&Err(Rejection::Unauthorized));
    assert_eq!(reply.status, 401);
}

#[test]
fn unauthorized_comes_before_payload_errors() {
    let r = plan_chat(&guarded_config(), "x", Some("Bearer nope"), None);
    assert_eq!(r.unwrap_err(), Rejection::Unauthorized);
}

#[test]
fn right_bearer_token_is_granted() {
    let r = plan_chat(&guarded_config(), "42", Some("Bearer s3cret"), Some(payload("ok", None)))
        .unwrap();
    assert_send(&r, 42, "ok", false);
}

#[test]
fn missing_secret_is_a_configuration_failure() {
    let config = RelayConfig::new(true, None, None);
    let r = plan_chat(&config, "42", Some("Bearer s3cret"), Some(payload("ok", None)));
    assert_eq!(r.unwrap_err(), Rejection::BearerTokenNotConfigured);
    assert_eq!(reply_for(&Err(Rejection::BearerTokenNotConfigured)).status, 500);
}

#[test]
fn missing_secret_comes_after_client_errors() {
    let config = RelayConfig::new(true, None, None);
    let r = plan_chat(&config, "42", None, None);
    assert_eq!(r.unwrap_err(), Rejection::MalformedPayload);
    assert_eq!(reply_for(&Err(Rejection::MalformedPayload)).status, 400);
    let r = plan_chat(&config, "abc", Some("Bearer x"), Some(payload("hello", None)));
    assert_eq!(r.unwrap_err(), Rejection::InvalidChatId);
    let r = plan_chat(&config, "99999999999999999999", None, None);
    assert_eq!(r.unwrap_err(), Rejection::InvalidChatId);
    assert_eq!(reply_for(&Err(Rejection::InvalidChatId)).status, 400);
}

#[test]
fn notify_without_default_chat_fails() {
    let r = plan_notify(
        &open_config(),
        Some(SettingsPayload::from_field(None)),
        Some("server down".to_string()),
    );
    assert_eq!(r.unwrap_err(), Rejection::DefaultChatNotConfigured);
    let reply = reply_for(&Err(Rejection::DefaultChatNotConfigured));
    assert_eq!(reply.status, 500);
    assert_eq!(reply.body, "`DEFAULT_CHAT_ID` is required but not set");
}

#[test]
fn notify_with_unparseable_default_chat_fails() {
    let config = RelayConfig::new(false, None, Some("ninety-nine".to_string()));
    let r = plan_notify(&config, Some(SettingsPayload::from_field(None)), Some("x".to_string()));
    assert_eq!(r.unwrap_err(), Rejection::InvalidDefaultChatId);
    assert_eq!(reply_for(&Err(Rejection::InvalidDefaultChatId)).status, 500);
}

#[test]
fn notify_with_malformed_query_or_body_is_client_error() {
    let config = RelayConfig::new(false, None, Some("99".to_string()));
    let r = plan_notify(&config, None, Some("x".to_string()));
    assert_eq!(r.unwrap_err(), Rejection::MalformedPayload);
    let r = plan_notify(&config, Some(SettingsPayload::from_field(None)), None);
    assert_eq!(r.unwrap_err(), Rejection::MalformedPayload);
}

#[test]
fn malformed_json_is_client_error() {
    let r = plan_chat(&open_config(), "42", None, None);
    assert_eq!(r.unwrap_err(), Rejection::MalformedPayload);
    let reply = reply_for(&Err(Rejection::MalformedPayload));
    assert_eq!(reply.status, 400);
    assert_eq!(reply.body, "malformed request payload");
}

#[test]
fn non_integer_chat_id_is_client_error() {
    let r = plan_chat(&open_config(), "abc", None, Some(payload("hello", None)));
    assert_eq!(r.unwrap_err(), Rejection::InvalidChatId);
    assert_eq!(reply_for(&Err(Rejection::InvalidChatId)).status, 400);
}

#[test]
fn failed_send_returns_error_text() {
    let outcome = send_outcome(Err("Bad Request: chat not found".to_string()));
    assert_eq!(
        outcome,
        Err(Rejection::SendFailed("Bad Request: chat not found".to_string()))
    );
    let reply = reply_for(&outcome);
    assert_eq!(reply.status, 502);
    assert_eq!(reply.body, "Bad Request: chat not found");
}

#[test]
fn parse_chat_id_accepts_signed_decimals() {
    assert_eq!(parse_chat_id("42"), Some(ChatId(42)));
    assert_eq!(parse_chat_id("-7"), Some(ChatId(-7)));
    assert_eq!(parse_chat_id("+5"), Some(ChatId(5)));
    assert_eq!(parse_chat_id("00042"), Some(ChatId(42)));
    assert_eq!(parse_chat_id("0"), Some(ChatId(0)));
    assert_eq!(parse_chat_id("9223372036854775807"), Some(ChatId(i64::MAX)));
    assert_eq!(parse_chat_id("-9223372036854775808"), Some(ChatId(i64::MIN)));
}

#[test]
fn parse_chat_id_rejects_other_text() {
    assert_eq!(parse_chat_id(""), None);
    assert_eq!(parse_chat_id("-"), None);
    assert_eq!(parse_chat_id("+"), None);
    assert_eq!(parse_chat_id("abc"), None);
    assert_eq!(parse_chat_id("12a"), None);
    assert_eq!(parse_chat_id(" 12"), None);
    assert_eq!(parse_chat_id("--1"), None);
    assert_eq!(parse_chat_id("9223372036854775808"), None);
    assert_eq!(parse_chat_id("-9223372036854775809"), None);
    assert_eq!(parse_chat_id("99999999999999999999999"), None);
}

#[test]
fn push_chat_id_writes_decimal() {
    let mut s = String::from("id=");
    push_chat_id(&mut s, ChatId(12345));
    assert_eq!(s, "id=12345");
    let mut s = String::new();
    push_chat_id(&mut s, ChatId(i64::MIN));
    assert_eq!(s, "-9223372036854775808");
    let mut s = String::new();
    push_chat_id(&mut s, ChatId(0));
    assert_eq!(s, "0");
}

#[test]
fn rendered_chat_id_parses_back() {
    for v in [0i64, 1, -1, 12345, -100987654321, i64::MAX, i64::MIN] {
        let mut s = String::new();
        push_chat_id(&mut s, ChatId(v));
        assert_eq!(parse_chat_id(&s), Some(ChatId(v)));
    }
}

#[test]
fn listener_reply_names_sender() {
    let r = plan_reply(ChatId(12345));
    assert_eq!(r.chat_id, ChatId(12345));
    assert!(r.text.contains("12345"));
    assert!(!r.silent);
    assert_eq!(r.mode, TextMode::MarkdownV2);
}

#[test]
fn listener_reply_text_is_exact() {
    assert_eq!(
        reply_text_for(ChatId(-42)),
        "This bot is for sending custom notifications\\. If you found this randomly, it is probably not for you\\.\n\nYour personal ID is `-42`"
    );
}

#[test]
fn bearer_credential_strips_scheme() {
    assert_eq!(bearer_credential_of("Bearer abc"), Some("abc"));
    assert_eq!(bearer_credential_of("Bearer "), Some(""));
    assert_eq!(bearer_credential_of("Basic abc"), None);
    assert_eq!(bearer_credential_of("bearer abc"), None);
    assert_eq!(bearer_credential_of("Bearer"), None);
}

#[test]
fn same_text_compares_characters() {
    assert!(same_text("abc", "abc"));
    assert!(same_text("", ""));
    assert!(!same_text("abc", "abd"));
    assert!(!same_text("abc", "ab"));
}

#[test]
fn authorize_without_requirement_grants() {
    assert_eq!(authorize(&open_config(), None), AuthOutcome::Granted);
    assert_eq!(authorize(&open_config(), Some("Bearer x")), AuthOutcome::Granted);
    assert_eq!(authorize(&guarded_config(), Some("Bearer s3cret")), AuthOutcome::Granted);
    assert_eq!(authorize(&guarded_config(), Some("Bearer x")), AuthOutcome::Denied);
}
