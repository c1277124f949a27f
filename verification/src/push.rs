//! The push factor: the provider is asked to send a push, the user may be
//! shown a number to match on the device, and the approval is then polled for.

use vstd::prelude::*;
use crate::body::BodyView;
use crate::outcome::Style;
use crate::settings::{Config, ConfigView};
use crate::text::{join, same_text};
use crate::transport::{Reply, ReplyView, Request, RequestView};

verus! {

/// The form that starts a push.
///
/// With a step-up token it goes to the challenge endpoint, names the
/// out-of-band grant as the challenge it supports and carries the token;
/// without, it goes to the out-of-band authentication endpoint with the
/// username as a login hint. Both ask for the push channel.
pub open spec fn push_form(
    config: ConfigView,
    step_up: Option<Seq<char>>,
    username: Seq<char>,
) -> RequestView {
    RequestView {
        endpoint: match step_up {
            Some(_) => "challenge"@,
            None => "oob-authenticate"@,
        },
        fields: seq![
            ("client_id"@, config.client_id),
            ("client_secret"@, config.client_secret),
            ("channel_hint"@, "push"@),
        ] + match step_up {
            Some(token) => seq![
                ("challenge_types_supported"@, "http://auth0.com/oauth/grant-type/mfa-oob"@),
                ("mfa_token"@, token),
            ],
            None => seq![("login_hint"@, username)],
        },
        escalate: true,
    }
}

/// The request that starts a push.
pub fn push_request(config: &Config, step_up: &Option<String>, username: &str) -> (request:
    Request)
    ensures
        request@ == push_form(config@, step_up.deep_view(), username@),
{
    let mut request = match step_up {
        Some(_) => Request::new("challenge", true),
        None => Request::new("oob-authenticate", true),
    };
    request.push("client_id", config.client_id.as_str());
    request.push("client_secret", config.client_secret.as_str());
    request.push("channel_hint", "push");
    match step_up {
        Some(token) => {
            request.push(
                "challenge_types_supported",
                "http://auth0.com/oauth/grant-type/mfa-oob",
            );
            request.push("mfa_token", token.as_str());
        },
        None => {
            request.push("login_hint", username);
        },
    }
    assert(request@.fields =~= push_form(config@, step_up.deep_view(), username@).fields);
    request
}

/// The form of one poll for the approval of a push. A refusal is the normal
/// answer while the user has not approved, so it is not logged as an error.
pub open spec fn poll_form(
    config: ConfigView,
    step_up: Option<Seq<char>>,
    oob_code: Seq<char>,
) -> RequestView {
    RequestView {
        endpoint: "token"@,
        fields: seq![
            ("client_id"@, config.client_id),
            ("client_secret"@, config.client_secret),
            ("scope"@, "openid"@),
            ("oob_code"@, oob_code),
        ] + match step_up {
            Some(token) => seq![
                ("grant_type"@, "http://auth0.com/oauth/grant-type/mfa-oob"@),
                ("mfa_token"@, token),
            ],
            None => seq![("grant_type"@, "urn:okta:params:oauth:grant-type:oob"@)],
        },
        escalate: false,
    }
}

/// The request of one poll for the approval of a push.
pub fn poll_request(config: &Config, step_up: &Option<String>, oob_code: &str) -> (request:
    Request)
    ensures
        request@ == poll_form(config@, step_up.deep_view(), oob_code@),
{
    let mut request = Request::new("token", false);
    request.push("client_id", config.client_id.as_str());
    request.push("client_secret", config.client_secret.as_str());
    request.push("scope", "openid");
    request.push("oob_code", oob_code);
    match step_up {
        Some(token) => {
            request.push("grant_type", "http://auth0.com/oauth/grant-type/mfa-oob");
            request.push("mfa_token", token.as_str());
        },
        None => {
            request.push("grant_type", "urn:okta:params:oauth:grant-type:oob");
        },
    }
    assert(request@.fields =~= poll_form(config@, step_up.deep_view(), oob_code@).fields);
    request
}

/// A push that the provider has sent and that awaits approval.
#[derive(Clone, Debug, PartialEq, Eq)]
pub struct Challenge {
    /// The code that stands for this push in every poll.
    pub oob_code: String,
    /// The number that the user has to match on the device, if there is one.
    pub binding_code: Option<String>,
    /// Seconds for which the approval may be waited for.
    pub lifetime: u64,
    /// Seconds between two polls.
    pub pause: u64,
}

pub ghost struct ChallengeView {
    pub oob_code: Seq<char>,
    pub binding_code: Option<Seq<char>>,
    pub lifetime: u64,
    pub pause: u64,
}

impl View for Challenge {
    type V = ChallengeView;

    open spec fn view(&self) -> ChallengeView {
        ChallengeView {
            oob_code: self.oob_code@,
            binding_code: self.binding_code.deep_view(),
            lifetime: self.lifetime,
            pause: self.pause,
        }
    }
}

impl ChallengeView {
    /// The challenge that a response body describes.
    pub open spec fn of(body: BodyView) -> ChallengeView {
        ChallengeView {
            oob_code: body.out_of_band_code(),
            binding_code: body.binding_code,
            lifetime: body.lifetime(),
            pause: body.pause(),
        }
    }
}

/// How the reply to the request for a push is read: there is a challenge
/// exactly when the status is a success and the body could be read. Anything
/// else means that the provider is unavailable; it says nothing about the
/// user's credentials.
pub open spec fn push_started(reply: ReplyView) -> Option<ChallengeView> {
    match reply {
        ReplyView::Answered { success: true, body: Some(body) } => Some(ChallengeView::of(body)),
        _ => None,
    }
}

/// Reads the reply to the request for a push.
pub fn judge_push(reply: &Reply) -> (challenge: Option<Challenge>)
    ensures
        challenge is Some <==> push_started(reply@) is Some,
        challenge matches Some(c) ==> c@ == push_started(reply@)->0,
{
    match reply {
        Reply::Answered { success: true, body: Some(body) } => Some(
            Challenge {
                oob_code: body.out_of_band_code(),
                binding_code: body.binding_code.clone(),
                lifetime: body.lifetime(),
                pause: body.pause(),
            },
        ),
        _ => None,
    }
}

/// The line that tells the user which number to pick.
pub open spec fn number_line(binding_code: Seq<char>) -> Seq<char> {
    "The correct answer is "@ + binding_code
}

/// How a line that the user must not miss is put to the user.
///
/// The service `sshd` shows questions only, so there the line becomes a
/// question that asks for the enter key, answered unseen; everywhere else it
/// is a passive informational line.
pub open spec fn must_see(service: Seq<char>, line: Seq<char>) -> (Seq<char>, Style) {
    if service == "sshd"@ {
        (line + "\nPress enter to continue: "@, Style::PromptHidden)
    } else {
        (line, Style::Info)
    }
}

/// The text and the style with which the number of a push is shown to the
/// user under the given service.
pub fn number_display(service: &str, binding_code: &str) -> (display: (String, Style))
    ensures
        (display.0@, display.1) == must_see(service@, number_line(binding_code@)),
{
    let mut line = join("The correct answer is ", binding_code);
    if same_text(service, "sshd") {
        line.append("\nPress enter to continue: ");
        (line, Style::PromptHidden)
    } else {
        (line, Style::Info)
    }
}

} // verus!
