//! What a webhook request leads to: one outbound message, or a rejection.

use vstd::prelude::*;
use crate::auth::{AuthOutcome, authorize, config_auth_spec};
use crate::chat_id::{ChatId, parse_chat_id, parse_i64_spec};
use crate::config::{RelayConfig, str_view};

verus! {

/// Per-message settings of a webhook request.
#[derive(Clone, Copy, Debug, PartialEq, Eq, Structural)]
pub struct SettingsPayload {
    /// Deliver without a notification alert.
    pub silent: bool,
}

impl SettingsPayload {
    /// The settings for a request whose `silent` field may be absent; an
    /// absent field means a normal, notifying delivery.
    pub fn from_field(silent: Option<bool>) -> (r: SettingsPayload)
        ensures
            r.silent == match silent {
                Some(b) => b,
                None => false,
            },
    {
        match silent {
            Some(b) => SettingsPayload { silent: b },
            None => SettingsPayload { silent: false },
        }
    }
}

/// The body of `POST /chat/{id}`: the text to send and its settings.
#[derive(Clone, Debug)]
pub struct MessagePayload {
    pub message: String,
    pub settings: SettingsPayload,
}

/// How the platform renders the text of an outbound message.
#[derive(Clone, Copy, Debug, PartialEq, Eq, Structural)]
pub enum TextMode {
    /// Sent as it is.
    Plain,
    /// Rendered with the platform's MarkdownV2 formatting.
    MarkdownV2,
}

/// One outbound send-message call.
#[derive(Clone, Debug)]
pub struct SendRequest {
    pub chat_id: ChatId,
    pub text: String,
    /// Whether the recipient's notification is suppressed.
    pub silent: bool,
    pub mode: TextMode,
}

/// Why a webhook request ended without a message being delivered.
#[derive(Clone, Debug, PartialEq, Eq)]
pub enum Rejection {
    /// The bearer token was absent or wrong.
    Unauthorized,
    /// Authorization is required but no secret was configured.
    BearerTokenNotConfigured,
    /// The chat identifier in the path is not an integer.
    InvalidChatId,
    /// The body or the query could not be read.
    MalformedPayload,
    /// `POST /notify` was called but no default chat was configured.
    DefaultChatNotConfigured,
    /// The configured default chat is not an integer.
    InvalidDefaultChatId,
    /// The messaging platform refused or could not be reached; the text says why.
    SendFailed(String),
}

impl Rejection {
    pub open spec fn status_spec(self) -> u16 {
        match self {
            Rejection::Unauthorized => 401,
            Rejection::BearerTokenNotConfigured => 500,
            Rejection::InvalidChatId => 400,
            Rejection::MalformedPayload => 400,
            Rejection::DefaultChatNotConfigured => 500,
            Rejection::InvalidDefaultChatId => 500,
            Rejection::SendFailed(_) => 502,
        }
    }

    pub open spec fn description_spec(self) -> Seq<char> {
        match self {
            Rejection::Unauthorized => "missing or invalid bearer token"@,
            Rejection::BearerTokenNotConfigured => "`BEARER_TOKEN` is required but not set"@,
            Rejection::InvalidChatId => "chat id is not an integer"@,
            Rejection::MalformedPayload => "malformed request payload"@,
            Rejection::DefaultChatNotConfigured => "`DEFAULT_CHAT_ID` is required but not set"@,
            Rejection::InvalidDefaultChatId => "`DEFAULT_CHAT_ID` is not an integer"@,
            Rejection::SendFailed(e) => e@,
        }
    }

    /// The HTTP status code of the response.
    pub fn status(&self) -> (r: u16)
        ensures
            r == self.status_spec(),
    {
        match self {
            Rejection::Unauthorized => 401,
            Rejection::BearerTokenNotConfigured => 500,
            Rejection::InvalidChatId => 400,
            Rejection::MalformedPayload => 400,
            Rejection::DefaultChatNotConfigured => 500,
            Rejection::InvalidDefaultChatId => 500,
            Rejection::SendFailed(_) => 502,
        }
    }

    /// The plain-text body of the response.
    pub fn description(&self) -> (r: String)
        ensures
            r@ == self.description_spec(),
    {
        match self {
            Rejection::Unauthorized => String::from_str("missing or invalid bearer token"),
            Rejection::BearerTokenNotConfigured => String::from_str(
                "`BEARER_TOKEN` is required but not set",
            ),
            Rejection::InvalidChatId => String::from_str("chat id is not an integer"),
            Rejection::MalformedPayload => String::from_str("malformed request payload"),
            Rejection::DefaultChatNotConfigured => String::from_str(
                "`DEFAULT_CHAT_ID` is required but not set",
            ),
            Rejection::InvalidDefaultChatId => String::from_str(
                "`DEFAULT_CHAT_ID` is not an integer",
            ),
            Rejection::SendFailed(e) => e.clone(),
        }
    }
}

/// The HTTP response to a webhook request.
#[derive(Clone, Debug)]
pub struct Reply {
    pub status: u16,
    pub body: String,
}

/// The send request for a message to a chat with the given settings, in plain text.
pub open spec fn plain_send(req: SendRequest, chat: ChatId, text: Seq<char>, silent: bool) -> bool {
    req.chat_id == chat && req.text@ == text && req.silent == silent && req.mode
        == TextMode::Plain
}

/// Decides `POST /chat/{id}`. `id_text` is the path segment, `authorization`
/// the `Authorization` header, and `payload` the body, `None` where it could
/// not be read as a payload. `Ok` holds the one message to send; `Err` means
/// nothing is sent. A wrong or absent bearer token is reported first; then an
/// unreadable chat id or body, as client errors; a missing secret only after
/// those.
pub fn plan_chat(
    config: &RelayConfig,
    id_text: &str,
    authorization: Option<&str>,
    payload: Option<MessagePayload>,
) -> (r: Result<SendRequest, Rejection>)
    ensures
        config_auth_spec(*config, str_view(authorization)) == AuthOutcome::Denied ==> r
            == Err::<SendRequest, Rejection>(Rejection::Unauthorized),
        config_auth_spec(*config, str_view(authorization)) != AuthOutcome::Denied ==> {
            match (parse_i64_spec(id_text@), payload) {
                (None, _) => r == Err::<SendRequest, Rejection>(Rejection::InvalidChatId),
                (Some(_), None) => r == Err::<SendRequest, Rejection>(Rejection::MalformedPayload),
                (Some(v), Some(p)) => if config_auth_spec(*config, str_view(authorization))
                    == AuthOutcome::SecretMissing {
                    r == Err::<SendRequest, Rejection>(Rejection::BearerTokenNotConfigured)
                } else {
                    r is Ok && plain_send(r->Ok_0, ChatId(v), p.message@, p.settings.silent)
                },
            }
        },
{
    let verdict = authorize(config, authorization);
    if verdict == AuthOutcome::Denied {
        return Err(Rejection::Unauthorized);
    }
    let chat_id = match parse_chat_id(id_text) {
        Some(c) => c,
        None => {
            return Err(Rejection::InvalidChatId);
        },
    };
    let p = match payload {
        Some(p) => p,
        None => {
            return Err(Rejection::MalformedPayload);
        },
    };
    if verdict == AuthOutcome::SecretMissing {
        return Err(Rejection::BearerTokenNotConfigured);
    }
    Ok(SendRequest { chat_id, text: p.message, silent: p.settings.silent, mode: TextMode::Plain })
}

/// Decides `POST /notify`. `settings` comes from the query and `body` is the
/// raw text of the message; either is `None` where it could not be read. The
/// destination is the configured default chat.
pub fn plan_notify(
    config: &RelayConfig,
    settings: Option<SettingsPayload>,
    body: Option<String>,
) -> (r: Result<SendRequest, Rejection>)
    ensures
        settings is None || body is None ==> r == Err::<SendRequest, Rejection>(
            Rejection::MalformedPayload,
        ),
        settings is Some && body is Some ==> {
            match config.default_chat_id {
                None => r == Err::<SendRequest, Rejection>(Rejection::DefaultChatNotConfigured),
                Some(d) => match parse_i64_spec(d@) {
                    None => r == Err::<SendRequest, Rejection>(Rejection::InvalidDefaultChatId),
                    Some(v) => r is Ok && plain_send(
                        r->Ok_0,
                        ChatId(v),
                        body->0@,
                        settings->0.silent,
                    ),
                },
            }
        },
{
    let settings = match settings {
        Some(s) => s,
        None => {
            return Err(Rejection::MalformedPayload);
        },
    };
    let text = match body {
        Some(b) => b,
        None => {
            return Err(Rejection::MalformedPayload);
        },
    };
    let chat_id = match &config.default_chat_id {
        None => {
            return Err(Rejection::DefaultChatNotConfigured);
        },
        Some(d) => match parse_chat_id(d.as_str()) {
            Some(c) => c,
            None => {
                return Err(Rejection::InvalidDefaultChatId);
            },
        },
    };
    Ok(SendRequest { chat_id, text, silent: settings.silent, mode: TextMode::Plain })
}

/// The rejection, if any, that an outbound send's result leads to; a failed
/// send hands its error text on unchanged.
pub fn send_outcome(result: Result<(), String>) -> (r: Result<(), Rejection>)
    ensures
        match result {
            Ok(()) => r == Ok::<(), Rejection>(()),
            Err(e) => r == Err::<(), Rejection>(Rejection::SendFailed(e)),
        },
{
    match result {
        Ok(()) => Ok(()),
        Err(e) => Err(Rejection::SendFailed(e)),
    }
}

/// The HTTP response for a request's outcome: status 200 with an empty body
/// on success, otherwise the rejection's status and text.
pub fn reply_for(outcome: &Result<(), Rejection>) -> (r: Reply)
    ensures
        match outcome {
            Ok(()) => r.status == 200 && r.body@ == Seq::<char>::empty(),
            Err(e) => r.status == e.status_spec() && r.body@ == e.description_spec(),
        },
{
    match outcome {
        Ok(()) => Reply { status: 200, body: String::new() },
        Err(e) => Reply { status: e.status(), body: e.description() },
    }
}

} // verus!
