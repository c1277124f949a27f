//! The password factor: one token exchange with the user's password, which
//! the provider may answer by asking for a second factor.

use vstd::prelude::*;
use crate::outcome::{Notice, NoticeView, Outcome};
use crate::settings::{Config, ConfigView};
use crate::text::same_text;
use crate::transport::{Reply, ReplyView, Request, RequestView};

verus! {

/// The form of a password exchange. The password is sent as it is, empty or
/// not: the provider decides.
pub open spec fn password_form(
    config: ConfigView,
    username: Seq<char>,
    password: Seq<char>,
) -> RequestView {
    RequestView {
        endpoint: "token"@,
        fields: seq![
            ("client_id"@, config.client_id),
            ("client_secret"@, config.client_secret),
            ("grant_type"@, "password"@),
            ("scope"@, "openid"@),
            ("username"@, username),
            ("password"@, password),
        ],
        escalate: true,
    }
}

/// The request that exchanges a password for a token.
pub fn password_request(config: &Config, username: &str, password: &str) -> (request: Request)
    ensures
        request@ == password_form(config@, username@, password@),
{
    let mut request = Request::new("token", true);
    request.push("client_id", config.client_id.as_str());
    request.push("client_secret", config.client_secret.as_str());
    request.push("grant_type", "password");
    request.push("scope", "openid");
    request.push("username", username);
    request.push("password", password);
    assert(request@.fields =~= password_form(config@, username@, password@).fields);
    request
}

/// What a password exchange came to.
#[derive(Clone, Debug, PartialEq, Eq)]
pub enum PasswordVerdict {
    /// The attempt is decided as far as this exchange goes.
    Settled { outcome: Outcome, notice: Option<Notice> },
    /// The password was right and the provider asks for a second factor. Not
    /// a failure: `token` binds the second factor to this exchange, `message`
    /// is the provider's explanation for the user.
    StepUp { token: String, message: String },
}

pub ghost enum PasswordVerdictView {
    Settled { outcome: Outcome, notice: Option<NoticeView> },
    StepUp { token: Seq<char>, message: Seq<char> },
}

impl View for PasswordVerdict {
    type V = PasswordVerdictView;

    open spec fn view(&self) -> PasswordVerdictView {
        match self {
            PasswordVerdict::Settled { outcome, notice } => PasswordVerdictView::Settled {
                outcome: *outcome,
                notice: match notice {
                    Some(n) => Some(n@),
                    None => None,
                },
            },
            PasswordVerdict::StepUp { token, message } => PasswordVerdictView::StepUp {
                token: token@,
                message: message@,
            },
        }
    }
}

/// How the reply to a password exchange is read.
///
/// A success status settles the attempt as a success whatever the body
/// holds. A refusal whose error code is `mfa_required` is the step-up. Any
/// other refusal, with or without a readable body, is a failed
/// authentication. No response at all says nothing about the password: the
/// provider is unavailable.
pub open spec fn password_verdict(reply: ReplyView) -> PasswordVerdictView {
    match reply {
        ReplyView::Answered { success: true, .. } => PasswordVerdictView::Settled {
            outcome: Outcome::Success,
            notice: Some(
                NoticeView { text: "Password authentication succeeded"@, is_error: false },
            ),
        },
        ReplyView::Answered { success: false, body: Some(body) } => {
            if body.error_code() == "mfa_required"@ {
                PasswordVerdictView::StepUp {
                    token: body.step_up_token(),
                    message: body.explanation(),
                }
            } else {
                PasswordVerdictView::Settled {
                    outcome: Outcome::AuthenticationFailed,
                    notice: None,
                }
            }
        },
        ReplyView::Answered { success: false, body: None } => PasswordVerdictView::Settled {
            outcome: Outcome::AuthenticationFailed,
            notice: Some(NoticeView { text: "Password authentication failed"@, is_error: true }),
        },
        ReplyView::Unreachable => PasswordVerdictView::Settled {
            outcome: Outcome::Unavailable,
            notice: Some(NoticeView { text: "Password authentication failed"@, is_error: true }),
        },
    }
}

/// Reads the reply to a password exchange.
pub fn judge_password(reply: &Reply) -> (verdict: PasswordVerdict)
    ensures
        verdict@ == password_verdict(reply@),
{
    match reply {
        Reply::Answered { success: true, .. } => PasswordVerdict::Settled {
            outcome: Outcome::Success,
            notice: Some(Notice::info(String::from_str("Password authentication succeeded"))),
        },
        Reply::Answered { success: false, body: Some(body) } => {
            let code = body.error_code();
            if same_text(code.as_str(), "mfa_required") {
                PasswordVerdict::StepUp {
                    token: body.step_up_token(),
                    message: body.explanation(),
                }
            } else {
                PasswordVerdict::Settled { outcome: Outcome::AuthenticationFailed, notice: None }
            }
        },
        Reply::Answered { success: false, body: None } => PasswordVerdict::Settled {
            outcome: Outcome::AuthenticationFailed,
            notice: Some(Notice::error(String::from_str("Password authentication failed"))),
        },
        Reply::Unreachable => PasswordVerdict::Settled {
            outcome: Outcome::Unavailable,
            notice: Some(Notice::error(String::from_str("Password authentication failed"))),
        },
    }
}

} // verus!
