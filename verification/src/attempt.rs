//! One authentication attempt, from the user's name to the outcome.
//!
//! An [`Attempt`] is a state machine. `begin` gives the first action for the
//! host; `advance` takes what came of the last action and gives the next
//! one, until that is `Finish`. What the machine does is said by
//! [`AttemptView::advance`], a function on the views of state and event.

use vstd::prelude::*;
use crate::body::text_or_empty;
use crate::bypass::{bypass_decision, bypass_needs_lookup, evaluate_bypass, BypassDecision};
use crate::exchange::{Action, ActionView, Answer, AnswerView, Event, EventView, Step, StepView};
use crate::otp::{judge_otp, otp_form, otp_request, otp_verdict};
use crate::outcome::{Notice, NoticeView, Outcome, Style};
use crate::password::{
    judge_password,
    password_form,
    password_request,
    password_verdict,
    PasswordVerdict,
    PasswordVerdictView,
};
use crate::poller::{after_poll, poll_step, PollStep, PollStepView};
use crate::push::{
    judge_push,
    must_see,
    number_display,
    number_line,
    poll_form,
    poll_request,
    push_form,
    push_request,
    push_started,
    Challenge,
    ChallengeView,
};
use crate::settings::{mode_is_private, permissions_acceptable, Config, ConfigView, Flags, FlagsView};
use crate::text::join;

verus! {

/// Where an attempt stands: what it is waiting for.
#[derive(Debug)]
pub enum Phase {
    AwaitUser,
    AwaitConfigMode,
    AwaitConfig,
    AwaitCachedSecret,
    AwaitPassword,
    /// `cached` says whether the password sent was the one that the host held.
    AwaitPasswordReply { cached: bool },
    AwaitGroups,
    AwaitPasscode,
    AwaitOtpReply,
    AwaitPushReply,
    AwaitService { challenge: Challenge },
    AwaitNumberShown { challenge: Challenge },
    Polling { challenge: Challenge },
    Done(Outcome),
}

pub ghost enum PhaseView {
    AwaitUser,
    AwaitConfigMode,
    AwaitConfig,
    AwaitCachedSecret,
    AwaitPassword,
    AwaitPasswordReply { cached: bool },
    AwaitGroups,
    AwaitPasscode,
    AwaitOtpReply,
    AwaitPushReply,
    AwaitService { challenge: ChallengeView },
    AwaitNumberShown { challenge: ChallengeView },
    Polling { challenge: ChallengeView },
    Done(Outcome),
}

impl View for Phase {
    type V = PhaseView;

    open spec fn view(&self) -> PhaseView {
        match self {
            Phase::AwaitUser => PhaseView::AwaitUser,
            Phase::AwaitConfigMode => PhaseView::AwaitConfigMode,
            Phase::AwaitConfig => PhaseView::AwaitConfig,
            Phase::AwaitCachedSecret => PhaseView::AwaitCachedSecret,
            Phase::AwaitPassword => PhaseView::AwaitPassword,
            Phase::AwaitPasswordReply { cached } => PhaseView::AwaitPasswordReply {
                cached: *cached,
            },
            Phase::AwaitGroups => PhaseView::AwaitGroups,
            Phase::AwaitPasscode => PhaseView::AwaitPasscode,
            Phase::AwaitOtpReply => PhaseView::AwaitOtpReply,
            Phase::AwaitPushReply => PhaseView::AwaitPushReply,
            Phase::AwaitService { challenge } => PhaseView::AwaitService { challenge: challenge@ },
            Phase::AwaitNumberShown { challenge } => PhaseView::AwaitNumberShown {
                challenge: challenge@,
            },
            Phase::Polling { challenge } => PhaseView::Polling { challenge: challenge@ },
            Phase::Done(outcome) => PhaseView::Done(*outcome),
        }
    }
}

/// The state of one attempt. It lives for one authentication call and is
/// shared with no other.
#[derive(Debug)]
pub struct Attempt {
    phase: Phase,
    flags: Flags,
    username: String,
    config: Config,
    step_up: Option<String>,
}

pub ghost struct AttemptView {
    pub phase: PhaseView,
    pub flags: FlagsView,
    /// The user who signs in; empty until resolved.
    pub username: Seq<char>,
    /// The provider configuration; empty until loaded.
    pub config: ConfigView,
    /// The step-up token, from the moment the provider has issued one.
    pub step_up: Option<Seq<char>>,
}

/// The text that an answer stands for where it is no failure: nothing is the
/// empty text.
pub open spec fn answer_text(answer: AnswerView) -> Seq<char> {
    match answer {
        AnswerView::Given(text) => text,
        _ => Seq::empty(),
    }
}

/// The line shown when the configuration cannot be used, with the reason.
pub open spec fn unusable_line(reason: Seq<char>) -> NoticeView {
    NoticeView { text: "pam_okta_auth configuration is unusable: "@ + reason, is_error: true }
}

impl AttemptView {
    /// The attempt before anything has happened.
    pub open spec fn initial(args: Seq<Seq<char>>) -> AttemptView {
        AttemptView {
            phase: PhaseView::AwaitUser,
            flags: FlagsView::of(args),
            username: Seq::empty(),
            config: ConfigView::empty(),
            step_up: None,
        }
    }

    /// What holds of an attempt at every moment of its life.
    ///
    /// Until the user is resolved nothing is known. From then on the user
    /// has a name; once the configuration is loaded it names a host. A
    /// step-up token exists only where the password factor is switched on,
    /// and never while a password is still being checked or while the
    /// bypass rule has its turn, which it has only with bypass groups and
    /// without the password factor. The service is asked for only to show a
    /// number.
    pub open spec fn coherent(self) -> bool {
        match self.phase {
            PhaseView::Done(_) => true,
            PhaseView::AwaitUser => {
                &&& self.username.len() == 0
                &&& self.config == ConfigView::empty()
                &&& self.step_up is None
            },
            PhaseView::AwaitConfigMode | PhaseView::AwaitConfig => {
                &&& self.username.len() > 0
                &&& self.step_up is None
            },
            PhaseView::AwaitCachedSecret
            | PhaseView::AwaitPassword
            | PhaseView::AwaitPasswordReply { .. } => {
                &&& self.username.len() > 0
                &&& self.config.usable()
                &&& self.step_up is None
                &&& self.flags.password_auth
            },
            PhaseView::AwaitGroups => {
                &&& self.username.len() > 0
                &&& self.config.usable()
                &&& self.step_up is None
                &&& !self.flags.password_auth
                &&& self.config.bypass_groups.len() > 0
            },
            PhaseView::AwaitService { challenge } => {
                &&& self.username.len() > 0
                &&& self.config.usable()
                &&& self.step_up is Some ==> self.flags.password_auth
                &&& challenge.binding_code is Some
            },
            _ => {
                &&& self.username.len() > 0
                &&& self.config.usable()
                &&& self.step_up is Some ==> self.flags.password_auth
            },
        }
    }

    /// The attempt in another phase.
    pub open spec fn at(self, phase: PhaseView) -> AttemptView {
        AttemptView { phase, ..self }
    }

    /// The attempt ends.
    pub open spec fn halt(self, outcome: Outcome, notice: Option<NoticeView>) -> (
        AttemptView,
        StepView,
    ) {
        (self.at(PhaseView::Done(outcome)), StepView { notice, action: ActionView::Finish(outcome) })
    }

    /// The user is asked for the password.
    pub open spec fn ask_password(self, notice: Option<NoticeView>) -> (AttemptView, StepView) {
        (
            self.at(PhaseView::AwaitPassword),
            StepView {
                notice,
                action: ActionView::Converse {
                    text: "Okta password: "@,
                    style: Style::PromptHidden,
                },
            },
        )
    }

    /// A password is sent to the provider, or the attempt ends because the
    /// host failed to come up with one. No password is the empty password.
    pub open spec fn send_password(self, cached: bool, answer: AnswerView) -> (
        AttemptView,
        StepView,
    ) {
        match answer {
            AnswerView::Failed(code) => self.halt(Outcome::InteractionFailed(code), None),
            _ => (
                self.at(PhaseView::AwaitPasswordReply { cached }),
                StepView {
                    notice: None,
                    action: ActionView::Post(
                        password_form(self.config, self.username, answer_text(answer)),
                    ),
                },
            ),
        }
    }

    /// The push factor starts.
    pub open spec fn start_push(self, notice: Option<NoticeView>) -> (AttemptView, StepView) {
        (
            self.at(PhaseView::AwaitPushReply),
            StepView {
                notice,
                action: ActionView::Post(push_form(self.config, self.step_up, self.username)),
            },
        )
    }

    /// The second factor is picked: a push at once where the flags say so,
    /// otherwise the user is asked for a passcode and told that none means
    /// a push.
    pub open spec fn pick_factor(self, notice: Option<NoticeView>) -> (AttemptView, StepView) {
        if self.flags.autopush {
            self.start_push(notice)
        } else {
            (
                self.at(PhaseView::AwaitPasscode),
                StepView {
                    notice,
                    action: ActionView::Converse {
                        text: "Okta passcode (leave blank to initiate a push): "@,
                        style: Style::PromptVisible,
                    },
                },
            )
        }
    }

    /// The bypass rule gets its turn, unless a step-up token is held or no
    /// bypass group is configured: then the factors follow at once, and no
    /// group is looked up.
    pub open spec fn consider_bypass(self) -> (AttemptView, StepView) {
        if self.step_up is None && self.config.bypass_groups.len() > 0 {
            (
                self.at(PhaseView::AwaitGroups),
                StepView {
                    notice: None,
                    action: ActionView::LookupGroups { username: self.username },
                },
            )
        } else {
            self.pick_factor(None)
        }
    }

    /// What follows the loading of the configuration. With the password
    /// factor switched on, the credential that the host holds is fetched
    /// where a flag asks for it, and the user is asked otherwise. Without,
    /// the bypass rule is next.
    pub open spec fn after_config(self) -> (AttemptView, StepView) {
        if self.flags.password_auth {
            if self.flags.try_first_pass || self.flags.use_first_pass {
                (
                    self.at(PhaseView::AwaitCachedSecret),
                    StepView { notice: None, action: ActionView::FetchCachedSecret },
                )
            } else {
                self.ask_password(None)
            }
        } else {
            self.consider_bypass()
        }
    }

    /// A round of waiting and polling starts.
    pub open spec fn poll(self, challenge: ChallengeView, notice: Option<NoticeView>) -> (
        AttemptView,
        StepView,
    ) {
        (
            self.at(PhaseView::Polling { challenge }),
            StepView {
                notice,
                action: ActionView::Poll {
                    wait: challenge.pause,
                    request: poll_form(self.config, self.step_up, challenge.oob_code),
                },
            },
        )
    }

    /// The user's name has come. No name and an empty name both mean that
    /// the principal is unknown.
    pub open spec fn on_user(self, answer: AnswerView) -> (AttemptView, StepView) {
        match answer {
            AnswerView::Failed(code) => self.halt(Outcome::InteractionFailed(code), None),
            AnswerView::Given(name) if name.len() > 0 => (
                AttemptView { username: name, ..self.at(PhaseView::AwaitConfigMode) },
                StepView {
                    notice: None,
                    action: ActionView::InspectConfig { path: self.flags.config_path },
                },
            ),
            _ => self.halt(Outcome::UnknownPrincipal, None),
        }
    }

    /// The mode of the configuration file has come. The file is read only if
    /// the mode is private.
    pub open spec fn on_config_mode(self, mode: u32) -> (AttemptView, StepView) {
        if mode_is_private(mode) {
            (
                self.at(PhaseView::AwaitConfig),
                StepView {
                    notice: None,
                    action: ActionView::LoadConfig { path: self.flags.config_path },
                },
            )
        } else {
            self.halt(Outcome::ServiceUnusable, Some(unusable_line("unacceptable permissions"@)))
        }
    }

    /// The configuration has come. One that names no host cannot be used.
    pub open spec fn on_config(self, config: ConfigView) -> (AttemptView, StepView) {
        if config.usable() {
            (AttemptView { config, ..self }).after_config()
        } else {
            self.halt(Outcome::ServiceUnusable, None)
        }
    }

    /// The reply to a password has come.
    ///
    /// A step-up keeps the token and goes on to the second factor, past the
    /// bypass rule. Anything else ends the attempt, with one exception: where
    /// the password was the one that the host held, the flags do not insist
    /// on it and it did not succeed, the user is asked for one.
    pub open spec fn on_password_reply(self, cached: bool, verdict: PasswordVerdictView) -> (
        AttemptView,
        StepView,
    ) {
        match verdict {
            PasswordVerdictView::StepUp { token, message } => (AttemptView {
                step_up: Some(token),
                ..self
            }).pick_factor(Some(NoticeView { text: message, is_error: false })),
            PasswordVerdictView::Settled { outcome, notice } => {
                if cached && !self.flags.use_first_pass && outcome != Outcome::Success {
                    self.ask_password(notice)
                } else {
                    self.halt(outcome, notice)
                }
            },
        }
    }

    /// The user's groups have come. With a step-up token held they count for
    /// nothing.
    pub open spec fn on_groups(self, memberships: Option<Seq<Seq<char>>>) -> (
        AttemptView,
        StepView,
    ) {
        if self.step_up is Some {
            self.pick_factor(None)
        } else {
            match bypass_decision(self.config.bypass_groups, memberships) {
                BypassDecision::Accept => self.halt(Outcome::Success, None),
                BypassDecision::UserUnknown => self.halt(Outcome::UnknownPrincipal, None),
                BypassDecision::NoDecision => self.pick_factor(None),
            }
        }
    }

    /// The answer to the passcode question has come: a passcode goes to the
    /// provider, no passcode or an empty one starts a push.
    pub open spec fn on_passcode(self, answer: AnswerView) -> (AttemptView, StepView) {
        match answer {
            AnswerView::Failed(code) => self.halt(Outcome::InteractionFailed(code), None),
            AnswerView::Given(passcode) if passcode.len() > 0 => (
                self.at(PhaseView::AwaitOtpReply),
                StepView {
                    notice: None,
                    action: ActionView::Post(
                        otp_form(self.config, self.step_up, self.username, passcode),
                    ),
                },
            ),
            _ => self.start_push(None),
        }
    }

    /// The reply to the request for a push has come. Where the provider gave
    /// a number to match, the number is shown before any poll.
    pub open spec fn on_push_reply(self, started: Option<ChallengeView>) -> (
        AttemptView,
        StepView,
    ) {
        let sent = Some(NoticeView { text: "Successfully initiated Okta push"@, is_error: false });
        match started {
            None => self.halt(Outcome::Unavailable, None),
            Some(challenge) => if challenge.binding_code is Some {
                (
                    self.at(PhaseView::AwaitService { challenge }),
                    StepView { notice: sent, action: ActionView::QueryService },
                )
            } else {
                self.poll(challenge, sent)
            },
        }
    }

    /// The name of the service has come: the number is put to the user in
    /// the way that this service is sure to show.
    pub open spec fn on_service(self, challenge: ChallengeView, service: Seq<char>) -> (
        AttemptView,
        StepView,
    ) {
        let shown = must_see(service, number_line(text_or_empty(challenge.binding_code)));
        (
            self.at(PhaseView::AwaitNumberShown { challenge }),
            StepView {
                notice: None,
                action: ActionView::Converse { text: shown.0, style: shown.1 },
            },
        )
    }

    /// The number was put to the user, or was not: an attempt whose number
    /// could not be shown ends there.
    pub open spec fn on_number_shown(self, challenge: ChallengeView, answer: AnswerView) -> (
        AttemptView,
        StepView,
    ) {
        match answer {
            AnswerView::Failed(code) => self.halt(Outcome::InteractionFailed(code), None),
            _ => self.poll(challenge, None),
        }
    }

    /// The reply to a poll has come.
    pub open spec fn on_poll(self, challenge: ChallengeView, step: PollStepView) -> (
        AttemptView,
        StepView,
    ) {
        match step {
            PollStepView::Again => self.poll(challenge, None),
            PollStepView::Done { outcome, notice } => self.halt(outcome, notice),
        }
    }

    /// The next state and the step to take, for every state and every event.
    ///
    /// An attempt that is over stays over and names its outcome again. An
    /// event that is no answer to what the attempt waits for ends it as
    /// unusable.
    pub open spec fn advance(self, event: EventView) -> (AttemptView, StepView) {
        match (self.phase, event) {
            (PhaseView::Done(outcome), _) => (
                self,
                StepView { notice: None, action: ActionView::Finish(outcome) },
            ),
            (PhaseView::AwaitUser, EventView::User(answer)) => self.on_user(answer),
            (PhaseView::AwaitConfigMode, EventView::ConfigMode(mode)) => self.on_config_mode(mode),
            (PhaseView::AwaitConfigMode, EventView::ConfigUnreadable(reason)) => self.halt(
                Outcome::ServiceUnusable,
                Some(unusable_line(reason)),
            ),
            (PhaseView::AwaitConfig, EventView::ConfigUnreadable(reason)) => self.halt(
                Outcome::ServiceUnusable,
                Some(unusable_line(reason)),
            ),
            (PhaseView::AwaitConfig, EventView::ConfigUndecodable) => self.halt(
                Outcome::ServiceUnusable,
                None,
            ),
            (PhaseView::AwaitConfig, EventView::ConfigLoaded(config)) => self.on_config(config),
            (PhaseView::AwaitCachedSecret, EventView::CachedSecret(answer)) => self.send_password(
                true,
                answer,
            ),
            (PhaseView::AwaitPassword, EventView::Conversed(answer)) => self.send_password(
                false,
                answer,
            ),
            (PhaseView::AwaitPasswordReply { cached }, EventView::Replied(reply)) => {
                self.on_password_reply(cached, password_verdict(reply))
            },
            (PhaseView::AwaitGroups, EventView::Groups(memberships)) => self.on_groups(
                memberships,
            ),
            (PhaseView::AwaitPasscode, EventView::Conversed(answer)) => self.on_passcode(answer),
            (PhaseView::AwaitOtpReply, EventView::Replied(reply)) => self.halt(
                otp_verdict(reply).0,
                Some(otp_verdict(reply).1),
            ),
            (PhaseView::AwaitPushReply, EventView::Replied(reply)) => self.on_push_reply(
                push_started(reply),
            ),
            (PhaseView::AwaitService { challenge }, EventView::Service(service)) => {
                self.on_service(challenge, service)
            },
            (PhaseView::AwaitNumberShown { challenge }, EventView::Conversed(answer)) => {
                self.on_number_shown(challenge, answer)
            },
            (PhaseView::Polling { challenge }, EventView::Polled { reply, elapsed }) => {
                self.on_poll(challenge, poll_step(challenge.lifetime, reply, elapsed))
            },
            _ => self.halt(Outcome::ServiceUnusable, None),
        }
    }
}

impl View for Attempt {
    type V = AttemptView;

    closed spec fn view(&self) -> AttemptView {
        AttemptView {
            phase: self.phase@,
            flags: self.flags@,
            username: self.username@,
            config: self.config@,
            step_up: self.step_up.deep_view(),
        }
    }
}

/// The view of a line that may not be there.
pub open spec fn seen(notice: Option<Notice>) -> Option<NoticeView> {
    match notice {
        Some(n) => Some(n@),
        None => None,
    }
}

/// The text that an answer stands for where it is no failure.
fn text_of(answer: Answer) -> (text: String)
    ensures
        text@ == answer_text(answer@),
{
    match answer {
        Answer::Given(text) => text,
        _ => String::new(),
    }
}

/// The line shown when the configuration cannot be used.
fn unusable_notice(reason: &str) -> (notice: Notice)
    ensures
        notice@ == unusable_line(reason@),
{
    Notice::error(join("pam_okta_auth configuration is unusable: ", reason))
}

impl Attempt {
    /// Starts an attempt with the module arguments. The first thing to do is
    /// to find out who signs in.
    pub fn begin(args: &Vec<String>) -> (start: (Attempt, Step))
        ensures
            start.0@ == AttemptView::initial(args.deep_view()),
            start.1@ == (StepView { notice: None, action: ActionView::ResolveUser }),
    {
        let attempt = Attempt {
            phase: Phase::AwaitUser,
            flags: Flags::parse(args),
            username: String::new(),
            config: Config::empty(),
            step_up: None,
        };
        (attempt, Step { notice: None, action: Action::ResolveUser })
    }

    /// The outcome, once the attempt is over.
    pub fn outcome(&self) -> (outcome: Option<Outcome>)
        ensures
            outcome == match self@.phase {
                PhaseView::Done(o) => Some(o),
                _ => None,
            },
    {
        match &self.phase {
            Phase::Done(o) => Some(*o),
            _ => None,
        }
    }

    /// Whether the provider has issued a step-up token in this attempt.
    pub fn holds_step_up(&self) -> (held: bool)
        ensures
            held == self@.step_up is Some,
    {
        self.step_up.is_some()
    }

    /// The module arguments as this attempt understood them.
    pub fn flags(&self) -> (flags: &Flags)
        ensures
            flags@ == self@.flags,
    {
        &self.flags
    }

    fn halt(self, outcome: Outcome, notice: Option<Notice>) -> (next: (Attempt, Step))
        ensures
            (next.0@, next.1@) == self@.halt(outcome, seen(notice)),
    {
        let mut attempt = self;
        attempt.phase = Phase::Done(outcome);
        (attempt, Step { notice, action: Action::Finish(outcome) })
    }

    fn ask_password(self, notice: Option<Notice>) -> (next: (Attempt, Step))
        ensures
            (next.0@, next.1@) == self@.ask_password(seen(notice)),
    {
        let mut attempt = self;
        attempt.phase = Phase::AwaitPassword;
        let action = Action::Converse {
            text: String::from_str("Okta password: "),
            style: Style::PromptHidden,
        };
        (attempt, Step { notice, action })
    }

    fn send_password(self, cached: bool, answer: Answer) -> (next: (Attempt, Step))
        ensures
            (next.0@, next.1@) == self@.send_password(cached, answer@),
    {
        match answer {
            Answer::Failed(code) => self.halt(Outcome::InteractionFailed(code), None),
            other => {
                let password = text_of(other);
                let request = password_request(
                    &self.config,
                    self.username.as_str(),
                    password.as_str(),
                );
                let mut attempt = self;
                attempt.phase = Phase::AwaitPasswordReply { cached };
                (attempt, Step { notice: None, action: Action::Post(request) })
            },
        }
    }

    fn start_push(self, notice: Option<Notice>) -> (next: (Attempt, Step))
        ensures
            (next.0@, next.1@) == self@.start_push(seen(notice)),
    {
        let request = push_request(&self.config, &self.step_up, self.username.as_str());
        let mut attempt = self;
        attempt.phase = Phase::AwaitPushReply;
        (attempt, Step { notice, action: Action::Post(request) })
    }

    fn pick_factor(self, notice: Option<Notice>) -> (next: (Attempt, Step))
        ensures
            (next.0@, next.1@) == self@.pick_factor(seen(notice)),
    {
        if self.flags.autopush {
            self.start_push(notice)
        } else {
            let mut attempt = self;
            attempt.phase = Phase::AwaitPasscode;
            let action = Action::Converse {
                text: String::from_str("Okta passcode (leave blank to initiate a push): "),
                style: Style::PromptVisible,
            };
            (attempt, Step { notice, action })
        }
    }

    fn consider_bypass(self) -> (next: (Attempt, Step))
        ensures
            (next.0@, next.1@) == self@.consider_bypass(),
    {
        if self.step_up.is_none() && bypass_needs_lookup(&self.config.bypass_groups) {
            let username = self.username.clone();
            let mut attempt = self;
            attempt.phase = Phase::AwaitGroups;
            (attempt, Step { notice: None, action: Action::LookupGroups { username } })
        } else {
            self.pick_factor(None)
        }
    }

    fn after_config(self) -> (next: (Attempt, Step))
        ensures
            (next.0@, next.1@) == self@.after_config(),
    {
        if self.flags.password_auth {
            if self.flags.try_first_pass || self.flags.use_first_pass {
                let mut attempt = self;
                attempt.phase = Phase::AwaitCachedSecret;
                (attempt, Step { notice: None, action: Action::FetchCachedSecret })
            } else {
                self.ask_password(None)
            }
        } else {
            self.consider_bypass()
        }
    }

    fn poll(self, challenge: Challenge, notice: Option<Notice>) -> (next: (Attempt, Step))
        ensures
            (next.0@, next.1@) == self@.poll(challenge@, seen(notice)),
    {
        let request = poll_request(&self.config, &self.step_up, challenge.oob_code.as_str());
        let wait = challenge.pause;
        let mut attempt = self;
        attempt.phase = Phase::Polling { challenge };
        (attempt, Step { notice, action: Action::Poll { wait, request } })
    }

    fn on_user(self, answer: Answer) -> (next: (Attempt, Step))
        ensures
            (next.0@, next.1@) == self@.on_user(answer@),
    {
        match answer {
            Answer::Failed(code) => self.halt(Outcome::InteractionFailed(code), None),
            Answer::Given(name) => {
                if name.as_str().is_empty() {
                    self.halt(Outcome::UnknownPrincipal, None)
                } else {
                    let path = self.flags.config_path.clone();
                    let mut attempt = self;
                    attempt.phase = Phase::AwaitConfigMode;
                    attempt.username = name;
                    (attempt, Step { notice: None, action: Action::InspectConfig { path } })
                }
            },
            Answer::Nothing => self.halt(Outcome::UnknownPrincipal, None),
        }
    }

    fn on_config_mode(self, mode: u32) -> (next: (Attempt, Step))
        ensures
            (next.0@, next.1@) == self@.on_config_mode(mode),
    {
        if permissions_acceptable(mode) {
            let path = self.flags.config_path.clone();
            let mut attempt = self;
            attempt.phase = Phase::AwaitConfig;
            (attempt, Step { notice: None, action: Action::LoadConfig { path } })
        } else {
            self.halt(Outcome::ServiceUnusable, Some(unusable_notice("unacceptable permissions")))
        }
    }

    fn on_config(self, config: Config) -> (next: (Attempt, Step))
        ensures
            (next.0@, next.1@) == self@.on_config(config@),
    {
        if config.is_usable() {
            let mut attempt = self;
            attempt.config = config;
            attempt.after_config()
        } else {
            self.halt(Outcome::ServiceUnusable, None)
        }
    }

    fn on_password_reply(self, cached: bool, verdict: PasswordVerdict) -> (next: (Attempt, Step))
        ensures
            (next.0@, next.1@) == self@.on_password_reply(cached, verdict@),
    {
        match verdict {
            PasswordVerdict::StepUp { token, message } => {
                let mut attempt = self;
                attempt.step_up = Some(token);
                attempt.pick_factor(Some(Notice::info(message)))
            },
            PasswordVerdict::Settled { outcome, notice } => {
                if cached && !self.flags.use_first_pass && outcome != Outcome::Success {
                    self.ask_password(notice)
                } else {
                    self.halt(outcome, notice)
                }
            },
        }
    }

    fn on_groups(self, memberships: Option<Vec<String>>) -> (next: (Attempt, Step))
        ensures
            (next.0@, next.1@) == self@.on_groups(memberships.deep_view()),
    {
        if self.step_up.is_some() {
            self.pick_factor(None)
        } else {
            match evaluate_bypass(&self.config.bypass_groups, &memberships) {
                BypassDecision::Accept => self.halt(Outcome::Success, None),
                BypassDecision::UserUnknown => self.halt(Outcome::UnknownPrincipal, None),
                BypassDecision::NoDecision => self.pick_factor(None),
            }
        }
    }

    fn on_passcode(self, answer: Answer) -> (next: (Attempt, Step))
        ensures
            (next.0@, next.1@) == self@.on_passcode(answer@),
    {
        match answer {
            Answer::Failed(code) => self.halt(Outcome::InteractionFailed(code), None),
            Answer::Given(passcode) => {
                if passcode.as_str().is_empty() {
                    self.start_push(None)
                } else {
                    let request = otp_request(
                        &self.config,
                        &self.step_up,
                        self.username.as_str(),
                        passcode.as_str(),
                    );
                    let mut attempt = self;
                    attempt.phase = Phase::AwaitOtpReply;
                    (attempt, Step { notice: None, action: Action::Post(request) })
                }
            },
            Answer::Nothing => self.start_push(None),
        }
    }

    fn on_push_reply(self, started: Option<Challenge>) -> (next: (Attempt, Step))
        ensures
            (next.0@, next.1@) == self@.on_push_reply(
                match started {
                    Some(c) => Some(c@),
                    None => None,
                },
            ),
    {
        match started {
            None => self.halt(Outcome::Unavailable, None),
            Some(challenge) => {
                let sent = Some(Notice::info(String::from_str("Successfully initiated Okta push")));
                if challenge.binding_code.is_some() {
                    let mut attempt = self;
                    attempt.phase = Phase::AwaitService { challenge };
                    (attempt, Step { notice: sent, action: Action::QueryService })
                } else {
                    self.poll(challenge, sent)
                }
            },
        }
    }

    fn on_service(self, challenge: Challenge, service: String) -> (next: (Attempt, Step))
        ensures
            (next.0@, next.1@) == self@.on_service(challenge@, service@),
    {
        let number = match &challenge.binding_code {
            Some(code) => code.clone(),
            None => String::new(),
        };
        let shown = number_display(service.as_str(), number.as_str());
        let mut attempt = self;
        attempt.phase = Phase::AwaitNumberShown { challenge };
        (attempt, Step { notice: None, action: Action::Converse { text: shown.0, style: shown.1 } })
    }

    fn on_number_shown(self, challenge: Challenge, answer: Answer) -> (next: (Attempt, Step))
        ensures
            (next.0@, next.1@) == self@.on_number_shown(challenge@, answer@),
    {
        match answer {
            Answer::Failed(code) => self.halt(Outcome::InteractionFailed(code), None),
            _ => self.poll(challenge, None),
        }
    }

    fn on_poll(self, challenge: Challenge, step: PollStep) -> (next: (Attempt, Step))
        ensures
            (next.0@, next.1@) == self@.on_poll(challenge@, step@),
    {
        match step {
            PollStep::Again => self.poll(challenge, None),
            PollStep::Done { outcome, notice } => self.halt(outcome, notice),
        }
    }

    /// Takes what came of the last action and gives the next state and the
    /// next step. Any event is taken in any state.
    pub fn advance(self, event: Event) -> (next: (Attempt, Step))
        ensures
            (next.0@, next.1@) == self@.advance(event@),
    {
        let Attempt { phase, flags, username, config, step_up } = self;
        // Every arm below sets the phase anew; the one put here is never read.
        let attempt = Attempt { phase: Phase::AwaitUser, flags, username, config, step_up };
        match (phase, event) {
            (Phase::Done(outcome), _) => {
                let mut same = attempt;
                same.phase = Phase::Done(outcome);
                (same, Step { notice: None, action: Action::Finish(outcome) })
            },
            (Phase::AwaitUser, Event::User(answer)) => attempt.on_user(answer),
            (Phase::AwaitConfigMode, Event::ConfigMode(mode)) => attempt.on_config_mode(mode),
            (Phase::AwaitConfigMode, Event::ConfigUnreadable(reason)) => attempt.halt(
                Outcome::ServiceUnusable,
                Some(unusable_notice(reason.as_str())),
            ),
            (Phase::AwaitConfig, Event::ConfigUnreadable(reason)) => attempt.halt(
                Outcome::ServiceUnusable,
                Some(unusable_notice(reason.as_str())),
            ),
            (Phase::AwaitConfig, Event::ConfigUndecodable) => attempt.halt(
                Outcome::ServiceUnusable,
                None,
            ),
            (Phase::AwaitConfig, Event::ConfigLoaded(loaded)) => attempt.on_config(loaded),
            (Phase::AwaitCachedSecret, Event::CachedSecret(answer)) => attempt.send_password(
                true,
                answer,
            ),
            (Phase::AwaitPassword, Event::Conversed(answer)) => attempt.send_password(
                false,
                answer,
            ),
            (Phase::AwaitPasswordReply { cached }, Event::Replied(reply)) => {
                let verdict = judge_password(&reply);
                attempt.on_password_reply(cached, verdict)
            },
            (Phase::AwaitGroups, Event::Groups(memberships)) => attempt.on_groups(memberships),
            (Phase::AwaitPasscode, Event::Conversed(answer)) => attempt.on_passcode(answer),
            (Phase::AwaitOtpReply, Event::Replied(reply)) => {
                let verdict = judge_otp(&reply);
                attempt.halt(verdict.0, Some(verdict.1))
            },
            (Phase::AwaitPushReply, Event::Replied(reply)) => {
                let started = judge_push(&reply);
                attempt.on_push_reply(started)
            },
            (Phase::AwaitService { challenge }, Event::Service(service)) => attempt.on_service(
                challenge,
                service,
            ),
            (Phase::AwaitNumberShown { challenge }, Event::Conversed(answer)) => {
                attempt.on_number_shown(challenge, answer)
            },
            (Phase::Polling { challenge }, Event::Polled { reply, elapsed }) => {
                let step = after_poll(challenge.lifetime, &reply, elapsed);
                attempt.on_poll(challenge, step)
            },
            _ => attempt.halt(Outcome::ServiceUnusable, None),
        }
    }
}

} // verus!
