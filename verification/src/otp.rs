//! The one-time passcode factor: one token exchange with a passcode that the
//! user typed.

use vstd::prelude::*;
use crate::outcome::{Notice, NoticeView, Outcome};
use crate::settings::{Config, ConfigView};
use crate::transport::{Reply, ReplyView, Request, RequestView};

verus! {

/// The form of a passcode exchange.
///
/// With a step-up token the grant is the step-up one and the token says who
/// signs in; without, the grant is the primary one and the username is sent
/// as a login hint.
pub open spec fn otp_form(
    config: ConfigView,
    step_up: Option<Seq<char>>,
    username: Seq<char>,
    passcode: Seq<char>,
) -> RequestView {
    RequestView {
        endpoint: "token"@,
        fields: seq![
            ("client_id"@, config.client_id),
            ("client_secret"@, config.client_secret),
            ("scope"@, "openid"@),
            ("otp"@, passcode),
        ] + match step_up {
            Some(token) => seq![
                ("grant_type"@, "http://auth0.com/oauth/grant-type/mfa-otp"@),
                ("mfa_token"@, token),
            ],
            None => seq![
                ("grant_type"@, "urn:okta:params:oauth:grant-type:otp"@),
                ("login_hint"@, username),
            ],
        },
        escalate: true,
    }
}

/// The request that exchanges a passcode for a token.
pub fn otp_request(
    config: &Config,
    step_up: &Option<String>,
    username: &str,
    passcode: &str,
) -> (request: Request)
    ensures
        request@ == otp_form(config@, step_up.deep_view(), username@, passcode@),
{
    let mut request = Request::new("token", true);
    request.push("client_id", config.client_id.as_str());
    request.push("client_secret", config.client_secret.as_str());
    request.push("scope", "openid");
    request.push("otp", passcode);
    match step_up {
        Some(token) => {
            request.push("grant_type", "http://auth0.com/oauth/grant-type/mfa-otp");
            request.push("mfa_token", token.as_str());
        },
        None => {
            request.push("grant_type", "urn:okta:params:oauth:grant-type:otp");
            request.push("login_hint", username);
        },
    }
    assert(request@.fields =~= otp_form(
        config@,
        step_up.deep_view(),
        username@,
        passcode@,
    ).fields);
    request
}

/// How the reply to a passcode exchange is read: a success status is a
/// success, any refusal is a failed authentication whatever its error code,
/// and no response at all means that the provider is unavailable.
pub open spec fn otp_verdict(reply: ReplyView) -> (Outcome, NoticeView) {
    match reply {
        ReplyView::Answered { success: true, .. } => (
            Outcome::Success,
            NoticeView { text: "OTP authentication succeeded"@, is_error: false },
        ),
        ReplyView::Answered { success: false, .. } => (
            Outcome::AuthenticationFailed,
            NoticeView { text: "OTP authentication failed"@, is_error: true },
        ),
        ReplyView::Unreachable => (
            Outcome::Unavailable,
            NoticeView { text: "OTP authentication failed"@, is_error: true },
        ),
    }
}

/// Reads the reply to a passcode exchange: the outcome, and the line that
/// tells the user.
pub fn judge_otp(reply: &Reply) -> (verdict: (Outcome, Notice))
    ensures
        (verdict.0, verdict.1@) == otp_verdict(reply@),
{
    match reply {
        Reply::Answered { success: true, .. } => (
            Outcome::Success,
            Notice::info(String::from_str("OTP authentication succeeded")),
        ),
        Reply::Answered { success: false, .. } => (
            Outcome::AuthenticationFailed,
            Notice::error(String::from_str("OTP authentication failed")),
        ),
        Reply::Unreachable => (
            Outcome::Unavailable,
            Notice::error(String::from_str("OTP authentication failed")),
        ),
    }
}

} // verus!
