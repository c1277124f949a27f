//! What holds of every attempt: properties of the transition function of
//! the machine and of the functions it is built from, each with its proof.

use vstd::prelude::*;
use crate::attempt::{AttemptView, PhaseView};
use crate::body::BodyView;
use crate::bypass::{bypass_decision, BypassDecision};
use crate::exchange::{ActionView, EventView, StepView};
use crate::otp::otp_form;
use crate::outcome::Outcome;
use crate::password::{password_verdict, PasswordVerdictView};
use crate::poller::poll_verdict;
use crate::push::push_form;
use crate::settings::{mode_is_private, ConfigView, FlagsView};
use crate::transport::{ReplyView, RequestView};

verus! {

/// Without bypass groups the bypass rule decides nothing, whatever a lookup
/// of the user's groups would give, and no attempt whose configuration has
/// none ever asks for that lookup.
pub proof fn law_no_bypass_groups_no_lookup(
    attempt: AttemptView,
    event: EventView,
    memberships: Option<Seq<Seq<char>>>,
)
    ensures
        bypass_decision(Seq::empty(), memberships) == BypassDecision::NoDecision,
        attempt.advance(event).0.config.bypass_groups.len() == 0 ==> !(attempt.advance(
            event,
        ).1.action is LookupGroups),
{
}

/// With bypass groups configured, a user whom the system does not know is
/// reported as unknown: the rule says so, and an attempt that waits for the
/// user's groups ends as an unknown principal.
pub proof fn law_unknown_user_is_reported(attempt: AttemptView)
    requires
        attempt.config.bypass_groups.len() > 0,
    ensures
        bypass_decision(attempt.config.bypass_groups, None) == BypassDecision::UserUnknown,
        attempt.phase is AwaitGroups && attempt.step_up is None ==> attempt.advance(
            EventView::Groups(None),
        ) == attempt.halt(Outcome::UnknownPrincipal, None),
{
}

/// A reply to a password with a success status is a success whatever its
/// body holds, and the attempt ends with it.
pub proof fn law_password_success_is_final(
    attempt: AttemptView,
    cached: bool,
    body: Option<BodyView>,
)
    requires
        attempt.phase == (PhaseView::AwaitPasswordReply { cached }),
    ensures
        password_verdict(ReplyView::Answered { success: true, body }) matches PasswordVerdictView::Settled {
            outcome,
            ..
        } && outcome == Outcome::Success,
        attempt.advance(
            EventView::Replied(ReplyView::Answered { success: true, body }),
        ).1.action == ActionView::Finish(Outcome::Success),
{
}

/// A refusal of a password with the error code `mfa_required` does not end
/// the attempt: the token of the body is kept as the step-up token, and the
/// next action belongs to the second factor.
pub proof fn law_step_up_continues(attempt: AttemptView, cached: bool, body: BodyView)
    requires
        attempt.phase == (PhaseView::AwaitPasswordReply { cached }),
        body.error_code() == "mfa_required"@,
    ensures
        ({
            let next = attempt.advance(
                EventView::Replied(ReplyView::Answered { success: false, body: Some(body) }),
            );
            &&& next.0.step_up == Some(body.step_up_token())
            &&& !(next.0.phase is Done)
            &&& !(next.1.action is Finish)
            &&& !(next.1.action is LookupGroups)
            &&& next.0.phase is AwaitPasscode || next.0.phase is AwaitPushReply
        }),
{
}

/// Once a step-up token is held it stays held, the user's groups are never
/// asked for, and an answer about them decides nothing: the second factor
/// goes on.
pub proof fn law_step_up_overrides_bypass(attempt: AttemptView, event: EventView)
    requires
        attempt.step_up is Some,
    ensures
        attempt.advance(event).0.step_up is Some,
        !(attempt.advance(event).1.action is LookupGroups),
        attempt.phase is AwaitGroups && event is Groups ==> attempt.advance(event)
            == attempt.pick_factor(None),
{
}

/// A field name that no field has gives no value.
pub proof fn lemma_value_of_missing(request: RequestView, name: Seq<char>)
    requires
        forall|i: int| 0 <= i < request.fields.len() ==> (#[trigger] request.fields[i]).0 != name,
    ensures
        request.value_of(name) == None::<Seq<char>>,
    decreases request.fields.len(),
{
    if request.fields.len() > 0 {
        let rest = RequestView { fields: request.fields.drop_first(), ..request };
        assert forall|i: int| 0 <= i < rest.fields.len() implies (#[trigger] rest.fields[i]).0
            != name by {
            assert(rest.fields[i] == request.fields[i + 1]);
        }
        lemma_value_of_missing(rest, name);
    }
}

/// The value of a field name is that of the first field which has it.
pub proof fn lemma_value_of_first(request: RequestView, name: Seq<char>, at: int)
    requires
        0 <= at < request.fields.len(),
        request.fields[at].0 == name,
        forall|i: int| 0 <= i < at ==> (#[trigger] request.fields[i]).0 != name,
    ensures
        request.value_of(name) == Some(request.fields[at].1),
    decreases at,
{
    if at > 0 {
        let rest = RequestView { fields: request.fields.drop_first(), ..request };
        assert(request.fields[0].0 != name);
        assert(rest.fields[at - 1] == request.fields[at]);
        assert forall|i: int| 0 <= i < at - 1 implies (#[trigger] rest.fields[i]).0 != name by {
            assert(rest.fields[i] == request.fields[i + 1]);
        }
        lemma_value_of_first(rest, name, at - 1);
    }
}

/// The names of the fields of a passcode exchange differ from one another.
proof fn lemma_otp_names_differ()
    ensures
        "login_hint"@ != "client_id"@,
        "login_hint"@ != "client_secret"@,
        "login_hint"@ != "scope"@,
        "login_hint"@ != "otp"@,
        "login_hint"@ != "grant_type"@,
        "login_hint"@ != "mfa_token"@,
        "mfa_token"@ != "client_id"@,
        "mfa_token"@ != "client_secret"@,
        "mfa_token"@ != "scope"@,
        "mfa_token"@ != "otp"@,
        "mfa_token"@ != "grant_type"@,
        "grant_type"@ != "client_id"@,
        "grant_type"@ != "client_secret"@,
        "grant_type"@ != "scope"@,
        "grant_type"@ != "otp"@,
{
    reveal_strlit("login_hint");
    reveal_strlit("client_id");
    reveal_strlit("client_secret");
    reveal_strlit("scope");
    reveal_strlit("otp");
    reveal_strlit("grant_type");
    reveal_strlit("mfa_token");
    assert("mfa_token"@[0] != "client_id"@[0]);
    assert("grant_type"@[0] != "login_hint"@[0]);
}

/// The fields of a passcode exchange are decided by whether a step-up token
/// is held. With one, the grant is the step-up grant, the token is sent and
/// there is no login hint; without one, the grant is the primary grant, the
/// username is sent as the login hint and there is no token.
pub proof fn law_otp_fields_follow_step_up(
    config: ConfigView,
    step_up: Option<Seq<char>>,
    username: Seq<char>,
    passcode: Seq<char>,
)
    ensures
        ({
            let form = otp_form(config, step_up, username, passcode);
            match step_up {
                Some(token) => {
                    &&& form.value_of("grant_type"@) == Some(
                        "http://auth0.com/oauth/grant-type/mfa-otp"@,
                    )
                    &&& form.value_of("mfa_token"@) == Some(token)
                    &&& form.value_of("login_hint"@) == None::<Seq<char>>
                },
                None => {
                    &&& form.value_of("grant_type"@) == Some(
                        "urn:okta:params:oauth:grant-type:otp"@,
                    )
                    &&& form.value_of("login_hint"@) == Some(username)
                    &&& form.value_of("mfa_token"@) == None::<Seq<char>>
                },
            }
        }),
{
    lemma_otp_names_differ();
    let form = otp_form(config, step_up, username, passcode);
    assert(form.fields.len() == 6);
    lemma_value_of_first(form, "grant_type"@, 4);
    match step_up {
        Some(token) => {
            lemma_value_of_first(form, "mfa_token"@, 5);
            lemma_value_of_missing(form, "login_hint"@);
        },
        None => {
            lemma_value_of_first(form, "login_hint"@, 5);
            lemma_value_of_missing(form, "mfa_token"@);
        },
    }
}

/// While an attempt polls, a refusal with the error code `invalid_grant`
/// ends it at once as a failed authentication, whatever time is left.
pub proof fn law_decline_ends_attempt(attempt: AttemptView, body: BodyView, elapsed: u64)
    requires
        attempt.phase is Polling,
        body.error_code() == "invalid_grant"@,
    ensures
        attempt.advance(
            EventView::Polled {
                reply: ReplyView::Answered { success: false, body: Some(body) },
                elapsed,
            },
        ).1.action == ActionView::Finish(Outcome::AuthenticationFailed),
{
}

/// While an attempt polls, a poll that comes back after the lifetime of the
/// push with neither an approval nor a decline ends the attempt, and the
/// provider counts as unavailable. An attempt that polls ends in success
/// only on a reply with a success status and a readable body.
pub proof fn law_deadline_ends_attempt(attempt: AttemptView, reply: ReplyView, elapsed: u64)
    requires
        attempt.phase is Polling,
    ensures
        poll_verdict(reply) is Pending && elapsed > attempt.phase->Polling_challenge.lifetime
            ==> attempt.advance(EventView::Polled { reply, elapsed }) == attempt.halt(
            Outcome::Unavailable,
            None,
        ),
        attempt.advance(EventView::Polled { reply, elapsed }).1.action == ActionView::Finish(
            Outcome::Success,
        ) ==> reply matches ReplyView::Answered { success: true, body: Some(_) },
        attempt.advance(EventView::Polled { reply, elapsed }).1.action is Poll ==> elapsed
            <= attempt.phase->Polling_challenge.lifetime,
{
}

/// A mode with any read or write bit for the group or for everyone else is
/// not private.
pub proof fn lemma_shared_mode_is_not_private(mode: u32)
    requires
        mode & 0o066 != 0,
    ensures
        !mode_is_private(mode),
{
    assert(mode & 0o066 != 0 ==> mode & 0o077 != 0) by (bit_vector);
}

/// A configuration file that the group or everyone else can read or write
/// ends the attempt as unusable, and nothing is sent to the provider before
/// the file's mode has been found private.
pub proof fn law_shared_config_is_fatal(attempt: AttemptView, event: EventView, mode: u32)
    ensures
        attempt.phase is AwaitConfigMode && mode & 0o066 != 0 ==> attempt.advance(
            EventView::ConfigMode(mode),
        ).1.action == ActionView::Finish(Outcome::ServiceUnusable),
        attempt.phase is AwaitUser || attempt.phase is AwaitConfigMode ==> !attempt.advance(
            event,
        ).1.action.reaches_provider(),
        attempt.phase is AwaitConfigMode && attempt.advance(event).1.action is LoadConfig
            ==> event is ConfigMode && mode_is_private(event->ConfigMode_0),
{
    if mode & 0o066 != 0 {
        lemma_shared_mode_is_not_private(mode);
    }
}

/// With the push flag set, the password factor switched off and no bypass
/// group configured, the loading of a usable configuration is followed at
/// once by the request for a push: the user is asked nothing.
pub proof fn law_autopush_goes_straight_to_push(attempt: AttemptView, config: ConfigView)
    requires
        attempt.phase is AwaitConfig,
        attempt.flags.autopush,
        !attempt.flags.password_auth,
        config.usable(),
        config.bypass_groups.len() == 0,
    ensures
        attempt.advance(EventView::ConfigLoaded(config)).1 == (StepView {
            notice: None,
            action: ActionView::Post(push_form(config, attempt.step_up, attempt.username)),
        }),
{
}

/// An attempt that is over stays over: whatever comes, it names the same
/// outcome and asks for nothing else.
pub proof fn law_outcome_is_final(attempt: AttemptView, event: EventView, outcome: Outcome)
    requires
        attempt.phase == PhaseView::Done(outcome),
    ensures
        attempt.advance(event) == (
            attempt,
            StepView { notice: None, action: ActionView::Finish(outcome) },
        ),
{
}

/// An action is `Finish` exactly when the attempt is over after it, and the
/// outcome it names is the one the attempt keeps.
pub proof fn law_finish_means_done(attempt: AttemptView, event: EventView)
    ensures
        attempt.advance(event).1.action is Finish <==> attempt.advance(event).0.phase is Done,
        attempt.advance(event).1.action matches ActionView::Finish(outcome) ==> attempt.advance(
            event,
        ).0.phase == PhaseView::Done(outcome),
{
}

/// An attempt is coherent when it begins and stays so whatever comes, and
/// its flags never change.
pub proof fn law_attempts_stay_coherent(
    args: Seq<Seq<char>>,
    attempt: AttemptView,
    event: EventView,
)
    ensures
        AttemptView::initial(args).coherent(),
        AttemptView::initial(args).flags == FlagsView::of(args),
        attempt.advance(event).0.flags == attempt.flags,
        attempt.coherent() ==> attempt.advance(event).0.coherent(),
{
}

/// What a coherent attempt sends to the provider is sent on behalf of a
/// user with a name, and the bypass rule never gets its turn after a
/// password was checked.
pub proof fn law_requests_follow_the_user(attempt: AttemptView, event: EventView)
    requires
        attempt.coherent(),
    ensures
        attempt.advance(event).1.action.reaches_provider() ==> attempt.advance(
            event,
        ).0.username.len() > 0 && attempt.advance(event).0.config.usable(),
        attempt.advance(event).1.action is LookupGroups ==> !attempt.flags.password_auth,
{
}

} // verus!
