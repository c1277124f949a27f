//! What passes between an attempt and its host: the actions that the attempt
//! asks for and the events that the host answers with.

use vstd::prelude::*;
use crate::outcome::{Notice, NoticeView, Outcome, Style};
use crate::settings::{Config, ConfigView};
use crate::transport::{Reply, ReplyView, Request, RequestView};

verus! {

/// What the host got when it asked for a text: a user name, a stored
/// credential, the answer to a question.
#[derive(Clone, Debug, PartialEq, Eq)]
pub enum Answer {
    /// This text.
    Given(String),
    /// Nothing, without an error.
    Nothing,
    /// The host could not ask; the code is the host's own.
    Failed(i32),
}

pub ghost enum AnswerView {
    Given(Seq<char>),
    Nothing,
    Failed(i32),
}

impl View for Answer {
    type V = AnswerView;

    open spec fn view(&self) -> AnswerView {
        match self {
            Answer::Given(text) => AnswerView::Given(text@),
            Answer::Nothing => AnswerView::Nothing,
            Answer::Failed(code) => AnswerView::Failed(*code),
        }
    }
}

/// What the host reports back after an action.
#[derive(Clone, Debug, PartialEq, Eq)]
pub enum Event {
    /// The name of the user who signs in, after `ResolveUser`.
    User(Answer),
    /// The mode bits of the configuration file, after `InspectConfig`.
    ConfigMode(u32),
    /// The configuration file could not be inspected or read, after
    /// `InspectConfig` or `LoadConfig`; with the reason as a text.
    ConfigUnreadable(String),
    /// The configuration file was read and is no configuration, after
    /// `LoadConfig`.
    ConfigUndecodable,
    /// The configuration, after `LoadConfig`.
    ConfigLoaded(Config),
    /// The credential that the host already holds, after `FetchCachedSecret`.
    CachedSecret(Answer),
    /// What came of a conversation with the user, after `Converse`.
    Conversed(Answer),
    /// The name of the service on whose behalf the user signs in, after
    /// `QueryService`; empty where the host cannot tell.
    Service(String),
    /// The names of the groups that the user is in, after `LookupGroups`;
    /// `None` where the system does not know the user.
    Groups(Option<Vec<String>>),
    /// The reply to a request, after `Post`.
    Replied(Reply),
    /// The reply to a poll, after `Poll`, with the whole seconds that have
    /// elapsed since the host received the first `Poll` of this attempt.
    Polled { reply: Reply, elapsed: u64 },
}

pub ghost enum EventView {
    User(AnswerView),
    ConfigMode(u32),
    ConfigUnreadable(Seq<char>),
    ConfigUndecodable,
    ConfigLoaded(ConfigView),
    CachedSecret(AnswerView),
    Conversed(AnswerView),
    Service(Seq<char>),
    Groups(Option<Seq<Seq<char>>>),
    Replied(ReplyView),
    Polled { reply: ReplyView, elapsed: u64 },
}

impl View for Event {
    type V = EventView;

    open spec fn view(&self) -> EventView {
        match self {
            Event::User(answer) => EventView::User(answer@),
            Event::ConfigMode(mode) => EventView::ConfigMode(*mode),
            Event::ConfigUnreadable(reason) => EventView::ConfigUnreadable(reason@),
            Event::ConfigUndecodable => EventView::ConfigUndecodable,
            Event::ConfigLoaded(config) => EventView::ConfigLoaded(config@),
            Event::CachedSecret(answer) => EventView::CachedSecret(answer@),
            Event::Conversed(answer) => EventView::Conversed(answer@),
            Event::Service(name) => EventView::Service(name@),
            Event::Groups(groups) => EventView::Groups(groups.deep_view()),
            Event::Replied(reply) => EventView::Replied(reply@),
            Event::Polled { reply, elapsed } => EventView::Polled {
                reply: reply@,
                elapsed: *elapsed,
            },
        }
    }
}

/// What the host is to do next.
#[derive(Clone, Debug, PartialEq, Eq)]
pub enum Action {
    /// Find out who signs in.
    ResolveUser,
    /// Look up the mode bits of the configuration file, without reading it.
    InspectConfig { path: String },
    /// Read and decode the configuration file.
    LoadConfig { path: String },
    /// Hand over the credential that the host already holds, if any.
    FetchCachedSecret,
    /// Put a text to the user in the given style and wait for what comes of it.
    Converse { text: String, style: Style },
    /// Tell on behalf of which service the user signs in.
    QueryService,
    /// Look up the local groups of the user.
    LookupGroups { username: String },
    /// Post a request to the provider.
    Post(Request),
    /// Sleep for `wait` seconds, then post the request to the provider.
    Poll { wait: u64, request: Request },
    /// Return the outcome: the attempt is over.
    Finish(Outcome),
}

pub ghost enum ActionView {
    ResolveUser,
    InspectConfig { path: Seq<char> },
    LoadConfig { path: Seq<char> },
    FetchCachedSecret,
    Converse { text: Seq<char>, style: Style },
    QueryService,
    LookupGroups { username: Seq<char> },
    Post(RequestView),
    Poll { wait: u64, request: RequestView },
    Finish(Outcome),
}

impl View for Action {
    type V = ActionView;

    open spec fn view(&self) -> ActionView {
        match self {
            Action::ResolveUser => ActionView::ResolveUser,
            Action::InspectConfig { path } => ActionView::InspectConfig { path: path@ },
            Action::LoadConfig { path } => ActionView::LoadConfig { path: path@ },
            Action::FetchCachedSecret => ActionView::FetchCachedSecret,
            Action::Converse { text, style } => ActionView::Converse {
                text: text@,
                style: *style,
            },
            Action::QueryService => ActionView::QueryService,
            Action::LookupGroups { username } => ActionView::LookupGroups {
                username: username@,
            },
            Action::Post(request) => ActionView::Post(request@),
            Action::Poll { wait, request } => ActionView::Poll {
                wait: *wait,
                request: request@,
            },
            Action::Finish(outcome) => ActionView::Finish(*outcome),
        }
    }
}

impl ActionView {
    /// Whether the action sends anything to the provider.
    pub open spec fn reaches_provider(self) -> bool {
        self is Post || self is Poll
    }
}

/// One step of an attempt: a line for the user, if there is one, which the
/// host shows without waiting for anything, and then the action.
#[derive(Clone, Debug, PartialEq, Eq)]
pub struct Step {
    pub notice: Option<Notice>,
    pub action: Action,
}

pub ghost struct StepView {
    pub notice: Option<NoticeView>,
    pub action: ActionView,
}

impl View for Step {
    type V = StepView;

    open spec fn view(&self) -> StepView {
        StepView {
            notice: match self.notice {
                Some(n) => Some(n@),
                None => None,
            },
            action: self.action@,
        }
    }
}

} // verus!
