use pam_okta_auth::attempt::Attempt;
use pam_okta_auth::exchange::{Action, Answer, Event, Step};
use pam_okta_auth::otp::otp_request;
use pam_okta_auth::outcome::{Notice, Outcome, Style};
use pam_okta_auth::password::password_request;
use pam_okta_auth::push::{poll_request, push_request};
use pam_okta_auth::settings::Config;
use pam_okta_auth::transport::Reply;

fn args(list: &[&str]) -> Vec<String> {
    list.iter().map(|a| a.to_string()).collect()
}

fn config(bypass: &[&str]) -> Config {
    Config {
        host: "example.okta.com".to_string(),
        client_id: "the-id".to_string(),
        client_secret: "the-secret".to_string(),
        bypass_groups: args(bypass),
        http_proxy: String::new(),
        debug: false,
    }
}

fn given(text: &str) -> Answer {
    Answer::Given(text.to_string())
}

fn quiet(action: Action) -> Step {
    Step { notice: None, action }
}

fn finish(outcome: Outcome) -> Step {
    quiet(Action::Finish(outcome))
}

fn info(text: &str) -> Option<Notice> {
    Some(Notice::info(text.to_string()))
}

fn error(text: &str) -> Option<Notice> {
    Some(Notice::error(text.to_string()))
}

fn refusal(json: &str) -> Reply {
    Reply::from_response(false, Some(json))
}

fn ask_password() -> Action {
    Action::Converse { text: "Okta password: ".to_string(), style: Style::PromptHidden }
}

fn ask_passcode() -> Action {
    Action::Converse {
        text: "Okta passcode (leave blank to initiate a push): ".to_string(),
        style: Style::PromptVisible,
    }
}

/// Feeds the events one after the other and returns the state with the last step.
fn drive(flags: &[&str], events: Vec<Event>) -> (Attempt, Step) {
    let (mut attempt, mut step) = Attempt::begin(&args(flags));
    for event in events {
        let next = attempt.advance(event);
        attempt = next.0;
        step = next.1;
    }
    (attempt, step)
}

/// The events up to a loaded configuration for the user alice.
fn loaded(config: Config) -> Vec<Event> {
    vec![Event::User(given("alice")), Event::ConfigMode(0o600), Event::ConfigLoaded(config)]
}

fn then(mut events: Vec<Event>, more: Vec<Event>) -> Vec<Event> {
    events.extend(more);
    events
}

#[test]
fn an_attempt_begins_by_resolving_the_user() {
    let (attempt, step) = Attempt::begin(&args(&["autopush", "nonsense"]));
    assert_eq!(step, quiet(Action::ResolveUser));
    assert_eq!(attempt.outcome(), None);
    assert!(!attempt.holds_step_up());
    assert!(attempt.flags().autopush);
    assert_eq!(attempt.flags().unrecognized, args(&["nonsense"]));
}

#[test]
fn an_absent_user_is_an_unknown_principal() {
    let (attempt, step) = drive(&[], vec![Event::User(Answer::Nothing)]);
    assert_eq!(step, finish(Outcome::UnknownPrincipal));
    assert_eq!(attempt.outcome(), Some(Outcome::UnknownPrincipal));
    let (_, step) = drive(&[], vec![Event::User(given(""))]);
    assert_eq!(step, finish(Outcome::UnknownPrincipal));
}

#[test]
fn a_failed_user_query_is_handed_back() {
    let (attempt, step) = drive(&[], vec![Event::User(Answer::Failed(19))]);
    assert_eq!(step, finish(Outcome::InteractionFailed(19)));
    assert_eq!(attempt.outcome(), Some(Outcome::InteractionFailed(19)));
}

#[test]
fn the_configuration_is_inspected_before_it_is_read() {
    let (_, step) = drive(&[], vec![Event::User(given("alice"))]);
    assert_eq!(
        step,
        quiet(Action::InspectConfig { path: "/etc/security/pam_okta_auth.toml".to_string() })
    );
    let (_, step) = drive(
        &["config_file=/opt/okta.toml"],
        vec![Event::User(given("alice")), Event::ConfigMode(0o400)],
    );
    assert_eq!(step, quiet(Action::LoadConfig { path: "/opt/okta.toml".to_string() }));
}

#[test]
fn a_shared_configuration_file_is_fatal_before_any_request() {
    for mode in [0o644u32, 0o640, 0o604, 0o660, 0o606, 0o620, 0o602, 0o610, 0o601, 0o100644] {
        let (mut attempt, mut step) = Attempt::begin(&args(&["autopush"]));
        let mut seen = vec![step.action.clone()];
        for event in [Event::User(given("alice")), Event::ConfigMode(mode)] {
            let next = attempt.advance(event);
            attempt = next.0;
            step = next.1;
            seen.push(step.action.clone());
        }
        assert_eq!(
            step,
            Step {
                notice: error("pam_okta_auth configuration is unusable: unacceptable permissions"),
                action: Action::Finish(Outcome::ServiceUnusable),
            },
            "mode {:o}",
            mode
        );
        assert_eq!(attempt.outcome(), Some(Outcome::ServiceUnusable));
        assert!(seen.iter().all(|a| !matches!(a, Action::Post(_) | Action::Poll { .. } | Action::LoadConfig { .. })));
    }
}

#[test]
fn a_configuration_that_cannot_be_inspected_or_read_is_fatal() {
    let (_, step) = drive(
        &[],
        vec![
            Event::User(given("alice")),
            Event::ConfigUnreadable("No such file or directory (os error 2)".to_string()),
        ],
    );
    assert_eq!(
        step,
        Step {
            notice: error(
                "pam_okta_auth configuration is unusable: No such file or directory (os error 2)"
            ),
            action: Action::Finish(Outcome::ServiceUnusable),
        }
    );
    let (_, step) = drive(
        &[],
        vec![
            Event::User(given("alice")),
            Event::ConfigMode(0o600),
            Event::ConfigUnreadable("Permission denied".to_string()),
        ],
    );
    assert_eq!(
        step,
        Step {
            notice: error("pam_okta_auth configuration is unusable: Permission denied"),
            action: Action::Finish(Outcome::ServiceUnusable),
        }
    );
}

#[test]
fn an_undecodable_or_hostless_configuration_is_fatal() {
    let (_, step) = drive(
        &[],
        vec![Event::User(given("alice")), Event::ConfigMode(0o600), Event::ConfigUndecodable],
    );
    assert_eq!(step, finish(Outcome::ServiceUnusable));
    let mut hostless = config(&[]);
    hostless.host = String::new();
    let (_, step) = drive(&["autopush"], loaded(hostless));
    assert_eq!(step, finish(Outcome::ServiceUnusable));
}

#[test]
fn autopush_goes_from_the_configuration_straight_to_the_push() {
    let (mut attempt, mut step) = Attempt::begin(&args(&["autopush"]));
    let mut seen = vec![step.action.clone()];
    for event in loaded(config(&[])) {
        let next = attempt.advance(event);
        attempt = next.0;
        step = next.1;
        seen.push(step.action.clone());
    }
    assert_eq!(step, quiet(Action::Post(push_request(&config(&[]), &None, "alice"))));
    assert_eq!(seen.len(), 4);
    assert!(matches!(seen[0], Action::ResolveUser));
    assert!(matches!(seen[1], Action::InspectConfig { .. }));
    assert!(matches!(seen[2], Action::LoadConfig { .. }));
    assert!(seen.iter().all(|a| !matches!(a, Action::Converse { .. } | Action::LookupGroups { .. })));
    assert_eq!(attempt.outcome(), None);
}

#[test]
fn without_autopush_the_user_is_asked_for_a_passcode() {
    let (_, step) = drive(&[], loaded(config(&[])));
    assert_eq!(step, quiet(ask_passcode()));
}

#[test]
fn a_passcode_goes_to_the_provider() {
    let events = then(loaded(config(&[])), vec![Event::Conversed(given("123456"))]);
    let (_, step) = drive(&[], events.clone());
    assert_eq!(step, quiet(Action::Post(otp_request(&config(&[]), &None, "alice", "123456"))));

    let (attempt, step) = drive(
        &[],
        then(events.clone(), vec![Event::Replied(Reply::from_response(true, Some("{}")))]),
    );
    assert_eq!(
        step,
        Step { notice: info("OTP authentication succeeded"), action: Action::Finish(Outcome::Success) }
    );
    assert_eq!(attempt.outcome(), Some(Outcome::Success));

    let (_, step) = drive(
        &[],
        then(events.clone(), vec![Event::Replied(refusal(r#"{"error":"invalid_grant"}"#))]),
    );
    assert_eq!(
        step,
        Step {
            notice: error("OTP authentication failed"),
            action: Action::Finish(Outcome::AuthenticationFailed),
        }
    );

    let (_, step) = drive(&[], then(events, vec![Event::Replied(Reply::Unreachable)]));
    assert_eq!(
        step,
        Step {
            notice: error("OTP authentication failed"),
            action: Action::Finish(Outcome::Unavailable),
        }
    );
}

#[test]
fn a_blank_passcode_starts_a_push() {
    let push = quiet(Action::Post(push_request(&config(&[]), &None, "alice")));
    let (_, step) = drive(&[], then(loaded(config(&[])), vec![Event::Conversed(given(""))]));
    assert_eq!(step, push);
    let (_, step) = drive(&[], then(loaded(config(&[])), vec![Event::Conversed(Answer::Nothing)]));
    assert_eq!(step, push);
}

#[test]
fn a_failed_passcode_question_is_handed_back() {
    let (_, step) = drive(&[], then(loaded(config(&[])), vec![Event::Conversed(Answer::Failed(20))]));
    assert_eq!(step, finish(Outcome::InteractionFailed(20)));
}

#[test]
fn three_polls_at_ten_seconds_fit_a_thirty_second_push() {
    let pending = || refusal(r#"{"error":"authorization_pending"}"#);
    let poll = quiet(Action::Poll { wait: 10, request: poll_request(&config(&[]), &None, "oob1") });

    let mut events = then(
        loaded(config(&[])),
        vec![Event::Replied(Reply::from_response(
            true,
            Some(r#"{"oob_code":"oob1","expires_in":30,"interval":10}"#),
        ))],
    );
    let (_, step) = drive(&["autopush"], events.clone());
    assert_eq!(
        step,
        Step { notice: info("Successfully initiated Okta push"), action: poll.action.clone() }
    );
    let mut slept = 10;

    events.push(Event::Polled { reply: pending(), elapsed: slept });
    let (_, step) = drive(&["autopush"], events.clone());
    assert_eq!(step, poll);
    slept += 10;

    events.push(Event::Polled { reply: Reply::Unreachable, elapsed: slept });
    let (_, step) = drive(&["autopush"], events.clone());
    assert_eq!(step, poll);
    slept += 10;

    events.push(Event::Polled { reply: Reply::from_response(true, Some("{}")), elapsed: slept });
    let (attempt, step) = drive(&["autopush"], events);
    assert_eq!(
        step,
        Step { notice: info("Push acknowledged"), action: Action::Finish(Outcome::Success) }
    );
    assert_eq!(attempt.outcome(), Some(Outcome::Success));
    assert_eq!(slept, 30);
}

#[test]
fn a_decline_stops_the_polling_at_once() {
    let events = then(
        loaded(config(&[])),
        vec![
            Event::Replied(Reply::from_response(
                true,
                Some(r#"{"oob_code":"oob1","expires_in":300,"interval":5}"#),
            )),
            Event::Polled { reply: refusal(r#"{"error":"slow_down"}"#), elapsed: 5 },
            Event::Polled {
                reply: refusal(r#"{"error":"invalid_grant","error_description":"User rejected"}"#),
                elapsed: 10,
            },
        ],
    );
    let (attempt, step) = drive(&["autopush"], events);
    assert_eq!(
        step,
        Step {
            notice: error("Polling failed: User rejected"),
            action: Action::Finish(Outcome::AuthenticationFailed),
        }
    );
    assert_eq!(attempt.outcome(), Some(Outcome::AuthenticationFailed));
}

#[test]
fn a_push_that_nobody_answers_times_out_as_unavailable() {
    let pending = || refusal(r#"{"error":"authorization_pending"}"#);
    let events = then(
        loaded(config(&[])),
        vec![
            Event::Replied(Reply::from_response(
                true,
                Some(r#"{"oob_code":"oob1","expires_in":30,"interval":10}"#),
            )),
            Event::Polled { reply: pending(), elapsed: 10 },
            Event::Polled { reply: pending(), elapsed: 20 },
            Event::Polled { reply: pending(), elapsed: 30 },
        ],
    );
    let (attempt, step) = drive(&["autopush"], events.clone());
    assert!(matches!(step.action, Action::Poll { wait: 10, .. }));
    assert_eq!(attempt.outcome(), None);

    let (attempt, step) =
        drive(&["autopush"], then(events, vec![Event::Polled { reply: pending(), elapsed: 41 }]));
    assert_eq!(step, finish(Outcome::Unavailable));
    assert_eq!(attempt.outcome(), Some(Outcome::Unavailable));
}

#[test]
fn a_push_without_expiry_is_polled_once() {
    let events = then(
        loaded(config(&[])),
        vec![Event::Replied(Reply::from_response(true, Some(r#"{"oob_code":"oob1"}"#)))],
    );
    let (_, step) = drive(&["autopush"], events.clone());
    assert_eq!(
        step,
        Step {
            notice: info("Successfully initiated Okta push"),
            action: Action::Poll { wait: 10, request: poll_request(&config(&[]), &None, "oob1") },
        }
    );
    let (_, step) = drive(
        &["autopush"],
        then(events, vec![Event::Polled { reply: Reply::Unreachable, elapsed: 10 }]),
    );
    assert_eq!(step, finish(Outcome::Unavailable));
}

#[test]
fn a_push_that_cannot_be_started_is_unavailable() {
    for reply in [
        Reply::Unreachable,
        refusal(r#"{"error":"invalid_grant"}"#),
        Reply::from_response(true, Some("not json")),
        Reply::from_response(false, None),
    ] {
        let (_, step) = drive(&["autopush"], then(loaded(config(&[])), vec![Event::Replied(reply)]));
        assert_eq!(step, finish(Outcome::Unavailable));
    }
}

#[test]
fn a_number_is_shown_before_any_poll() {
    let start = then(
        loaded(config(&[])),
        vec![Event::Replied(Reply::from_response(
            true,
            Some(r#"{"oob_code":"oob1","expires_in":60,"interval":2,"binding_code":"57"}"#),
        ))],
    );
    let (_, step) = drive(&["autopush"], start.clone());
    assert_eq!(
        step,
        Step { notice: info("Successfully initiated Okta push"), action: Action::QueryService }
    );

    let under_sshd = then(start.clone(), vec![Event::Service("sshd".to_string())]);
    let (_, step) = drive(&["autopush"], under_sshd.clone());
    assert_eq!(
        step,
        quiet(Action::Converse {
            text: "The correct answer is 57\nPress enter to continue: ".to_string(),
            style: Style::PromptHidden,
        })
    );
    let (_, step) = drive(&["autopush"], then(under_sshd, vec![Event::Conversed(given(""))]));
    assert_eq!(
        step,
        quiet(Action::Poll { wait: 2, request: poll_request(&config(&[]), &None, "oob1") })
    );

    let under_login = then(start, vec![Event::Service("login".to_string())]);
    let (_, step) = drive(&["autopush"], under_login.clone());
    assert_eq!(
        step,
        quiet(Action::Converse { text: "The correct answer is 57".to_string(), style: Style::Info })
    );
    let (_, step) = drive(&["autopush"], then(under_login.clone(), vec![Event::Conversed(Answer::Nothing)]));
    assert!(matches!(step.action, Action::Poll { wait: 2, .. }));

    let (attempt, step) =
        drive(&["autopush"], then(under_login, vec![Event::Conversed(Answer::Failed(19))]));
    assert_eq!(step, finish(Outcome::InteractionFailed(19)));
    assert_eq!(attempt.outcome(), Some(Outcome::InteractionFailed(19)));
}

#[test]
fn the_password_is_asked_for_when_no_flag_says_otherwise() {
    let (_, step) = drive(&["password_auth"], loaded(config(&["wheel"])));
    assert_eq!(step, quiet(ask_password()));
    let events = then(loaded(config(&[])), vec![Event::Conversed(given("hunter2"))]);
    let (_, step) = drive(&["password_auth"], events.clone());
    assert_eq!(step, quiet(Action::Post(password_request(&config(&[]), "alice", "hunter2"))));

    let (attempt, step) = drive(
        &["password_auth"],
        then(events.clone(), vec![Event::Replied(Reply::from_response(true, Some("whatever")))]),
    );
    assert_eq!(
        step,
        Step {
            notice: info("Password authentication succeeded"),
            action: Action::Finish(Outcome::Success),
        }
    );
    assert_eq!(attempt.outcome(), Some(Outcome::Success));

    let (_, step) = drive(
        &["password_auth"],
        then(events, vec![Event::Replied(refusal(r#"{"error":"invalid_grant"}"#))]),
    );
    assert_eq!(step, finish(Outcome::AuthenticationFailed));
}

#[test]
fn no_answer_to_the_password_question_is_the_empty_password() {
    let events = then(loaded(config(&[])), vec![Event::Conversed(Answer::Nothing)]);
    let (_, step) = drive(&["password_auth"], events);
    assert_eq!(step, quiet(Action::Post(password_request(&config(&[]), "alice", ""))));
    let events = then(loaded(config(&[])), vec![Event::Conversed(Answer::Failed(19))]);
    let (_, step) = drive(&["password_auth"], events);
    assert_eq!(step, finish(Outcome::InteractionFailed(19)));
}

#[test]
fn a_step_up_keeps_the_token_and_skips_the_bypass() {
    let mfa = refusal(r#"{"error":"mfa_required","error_description":"MFA needed","mfa_token":"tok"}"#);
    let events = then(
        loaded(config(&["wheel"])),
        vec![Event::Conversed(given("hunter2")), Event::Replied(mfa)],
    );
    let (attempt, step) = drive(&["password_auth"], events.clone());
    assert_eq!(step, Step { notice: info("MFA needed"), action: ask_passcode() });
    assert!(attempt.holds_step_up());
    assert_eq!(attempt.outcome(), None);

    let with_code = then(events.clone(), vec![Event::Conversed(given("123456"))]);
    let (_, step) = drive(&["password_auth"], with_code);
    assert_eq!(
        step,
        quiet(Action::Post(otp_request(&config(&["wheel"]), &Some("tok".to_string()), "alice", "123456")))
    );

    let blank = then(events.clone(), vec![Event::Conversed(given(""))]);
    let (_, step) = drive(&["password_auth"], blank.clone());
    assert_eq!(
        step,
        quiet(Action::Post(push_request(&config(&["wheel"]), &Some("tok".to_string()), "alice")))
    );
    let (_, step) = drive(
        &["password_auth"],
        then(blank, vec![Event::Replied(Reply::from_response(true, Some(r#"{"oob_code":"o"}"#)))]),
    );
    assert_eq!(
        step,
        Step {
            notice: info("Successfully initiated Okta push"),
            action: Action::Poll {
                wait: 10,
                request: poll_request(&config(&["wheel"]), &Some("tok".to_string()), "o"),
            },
        }
    );

    let (attempt, step) = drive(
        &["password_auth"],
        then(events, vec![Event::Groups(Some(args(&["wheel"])))]),
    );
    assert_ne!(step.action, Action::Finish(Outcome::Success));
    assert_ne!(attempt.outcome(), Some(Outcome::Success));
}

#[test]
fn a_step_up_with_autopush_goes_to_the_challenge_endpoint() {
    let mfa = refusal(r#"{"error":"mfa_required","mfa_token":"tok"}"#);
    let events = then(
        loaded(config(&[])),
        vec![Event::Conversed(given("hunter2")), Event::Replied(mfa)],
    );
    let (_, step) = drive(&["password_auth", "autopush"], events);
    assert_eq!(
        step,
        Step {
            notice: info(""),
            action: Action::Post(push_request(&config(&[]), &Some("tok".to_string()), "alice")),
        }
    );
    match step.action {
        Action::Post(request) => assert_eq!(request.endpoint, "challenge"),
        other => panic!("unexpected action {:?}", other),
    }
}

#[test]
fn try_first_pass_falls_back_to_asking() {
    let flags = ["password_auth", "try_first_pass"];
    let (_, step) = drive(&flags, loaded(config(&[])));
    assert_eq!(step, quiet(Action::FetchCachedSecret));

    let sent = then(loaded(config(&[])), vec![Event::CachedSecret(given("stored"))]);
    let (_, step) = drive(&flags, sent.clone());
    assert_eq!(step, quiet(Action::Post(password_request(&config(&[]), "alice", "stored"))));

    let (_, step) =
        drive(&flags, then(sent.clone(), vec![Event::Replied(refusal(r#"{"error":"invalid_grant"}"#))]));
    assert_eq!(step, quiet(ask_password()));

    let (_, step) = drive(&flags, then(sent.clone(), vec![Event::Replied(Reply::Unreachable)]));
    assert_eq!(step, Step { notice: error("Password authentication failed"), action: ask_password() });

    let (_, step) = drive(
        &flags,
        then(sent.clone(), vec![Event::Replied(Reply::from_response(true, None))]),
    );
    assert_eq!(
        step,
        Step {
            notice: info("Password authentication succeeded"),
            action: Action::Finish(Outcome::Success),
        }
    );

    let asked = then(
        sent,
        vec![
            Event::Replied(refusal(r#"{"error":"invalid_grant"}"#)),
            Event::Conversed(given("typed")),
        ],
    );
    let (_, step) = drive(&flags, asked.clone());
    assert_eq!(step, quiet(Action::Post(password_request(&config(&[]), "alice", "typed"))));
    let (_, step) =
        drive(&flags, then(asked, vec![Event::Replied(refusal(r#"{"error":"invalid_grant"}"#))]));
    assert_eq!(step, finish(Outcome::AuthenticationFailed));
}

#[test]
fn use_first_pass_never_asks() {
    let flags = ["password_auth", "use_first_pass"];
    let sent = then(loaded(config(&[])), vec![Event::CachedSecret(Answer::Nothing)]);
    let (_, step) = drive(&flags, sent.clone());
    assert_eq!(step, quiet(Action::Post(password_request(&config(&[]), "alice", ""))));

    let (_, step) =
        drive(&flags, then(sent.clone(), vec![Event::Replied(refusal(r#"{"error":"invalid_grant"}"#))]));
    assert_eq!(step, finish(Outcome::AuthenticationFailed));

    let (_, step) = drive(&flags, then(sent.clone(), vec![Event::Replied(Reply::Unreachable)]));
    assert_eq!(
        step,
        Step {
            notice: error("Password authentication failed"),
            action: Action::Finish(Outcome::Unavailable),
        }
    );

    let (_, step) = drive(
        &flags,
        then(sent, vec![Event::Replied(refusal(r#"{"error":"mfa_required","mfa_token":"t"}"#))]),
    );
    assert_eq!(step, Step { notice: info(""), action: ask_passcode() });

    let (_, step) =
        drive(&flags, then(loaded(config(&[])), vec![Event::CachedSecret(Answer::Failed(4))]));
    assert_eq!(step, finish(Outcome::InteractionFailed(4)));
}

#[test]
fn the_first_pass_flags_mean_nothing_without_password_auth() {
    let (_, step) = drive(&["try_first_pass", "use_first_pass"], loaded(config(&[])));
    assert_eq!(step, quiet(ask_passcode()));
}

#[test]
fn bypass_groups_are_looked_up_when_no_password_is_checked() {
    let (_, step) = drive(&["autopush"], loaded(config(&["breakglass"])));
    assert_eq!(step, quiet(Action::LookupGroups { username: "alice".to_string() }));

    let events = |groups| then(loaded(config(&["breakglass"])), vec![Event::Groups(groups)]);
    let (attempt, step) = drive(&["autopush"], events(Some(args(&["users", "breakglass"]))));
    assert_eq!(step, finish(Outcome::Success));
    assert_eq!(attempt.outcome(), Some(Outcome::Success));

    let (_, step) = drive(&["autopush"], events(None));
    assert_eq!(step, finish(Outcome::UnknownPrincipal));

    let (_, step) = drive(&["autopush"], events(Some(args(&["users"]))));
    assert_eq!(step, quiet(Action::Post(push_request(&config(&["breakglass"]), &None, "alice"))));

    let (_, step) = drive(&[], events(Some(args(&["Breakglass"]))));
    assert_eq!(step, quiet(ask_passcode()));
}

#[test]
fn without_bypass_groups_nothing_is_looked_up() {
    for flags in [&[][..], &["autopush"][..], &["password_auth"][..], &["password_auth", "try_first_pass"][..]] {
        let (mut attempt, mut step) = Attempt::begin(&args(flags));
        for event in loaded(config(&[])) {
            let next = attempt.advance(event);
            attempt = next.0;
            step = next.1;
            assert!(!matches!(step.action, Action::LookupGroups { .. }));
        }
    }
}

#[test]
fn an_attempt_that_is_over_stays_over() {
    let (attempt, _) = drive(&[], vec![Event::User(Answer::Nothing)]);
    let (attempt, step) = attempt.advance(Event::User(given("alice")));
    assert_eq!(step, finish(Outcome::UnknownPrincipal));
    let (attempt, step) = attempt.advance(Event::Replied(Reply::from_response(true, Some("{}"))));
    assert_eq!(step, finish(Outcome::UnknownPrincipal));
    assert_eq!(attempt.outcome(), Some(Outcome::UnknownPrincipal));
}

#[test]
fn an_event_that_answers_nothing_ends_the_attempt() {
    let (attempt, step) = drive(&[], vec![Event::Replied(Reply::from_response(true, Some("{}")))]);
    assert_eq!(step, finish(Outcome::ServiceUnusable));
    assert_eq!(attempt.outcome(), Some(Outcome::ServiceUnusable));

    let (_, step) = drive(&[], vec![Event::User(given("alice")), Event::ConfigLoaded(config(&[]))]);
    assert_eq!(step, finish(Outcome::ServiceUnusable));

    let (_, step) = drive(
        &["autopush"],
        then(loaded(config(&[])), vec![Event::Polled { reply: Reply::Unreachable, elapsed: 0 }]),
    );
    assert_eq!(step, finish(Outcome::ServiceUnusable));
}
