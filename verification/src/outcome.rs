//! What an authentication attempt can end in, and what is shown on the way.

use vstd::prelude::*;

verus! {

/// The single result of one authentication attempt.
#[derive(Clone, Copy, Debug, PartialEq, Eq, Structural)]
pub enum Outcome {
    /// The principal is authenticated.
    Success,
    /// The provider turned the credential down, or the user declined a push.
    AuthenticationFailed,
    /// The provider could not be asked or did not settle in time. Not a
    /// statement about the credential: a later attempt may succeed.
    Unavailable,
    /// The principal is not known.
    UnknownPrincipal,
    /// The module's own configuration cannot be used.
    ServiceUnusable,
    /// The host failed to carry out a query or a conversation; the code is
    /// the host's own and is handed back untouched.
    InteractionFailed(i32),
}

/// How a conversation message is presented to the user.
#[derive(Clone, Copy, Debug, PartialEq, Eq, Structural)]
pub enum Style {
    /// A question whose answer is not echoed.
    PromptHidden,
    /// A question whose answer is echoed.
    PromptVisible,
    /// A passive informational line.
    Info,
    /// A passive error line.
    Error,
}

/// A line for the user that needs no answer and whose delivery is not awaited.
#[derive(Clone, Debug, PartialEq, Eq)]
pub struct Notice {
    pub text: String,
    pub is_error: bool,
}

pub ghost struct NoticeView {
    pub text: Seq<char>,
    pub is_error: bool,
}

impl View for Notice {
    type V = NoticeView;

    open spec fn view(&self) -> NoticeView {
        NoticeView { text: self.text@, is_error: self.is_error }
    }
}

impl Notice {
    pub fn info(text: String) -> (notice: Notice)
        ensures
            notice@ == (NoticeView { text: text@, is_error: false }),
    {
        Notice { text, is_error: false }
    }

    pub fn error(text: String) -> (notice: Notice)
        ensures
            notice@ == (NoticeView { text: text@, is_error: true }),
    {
        Notice { text, is_error: true }
    }
}

} // verus!
