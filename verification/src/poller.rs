//! Waiting for the approval of a push: a pause, a poll, and a decision on
//! what the poll brought, for as long as the provider allows.
//!
//! The host sleeps, polls and reads the clock; what is decided here is what
//! each reply means and whether another round is due.

use vstd::prelude::*;
use crate::outcome::{Notice, NoticeView, Outcome};
use crate::text::{join, same_text};
use crate::transport::{Reply, ReplyView};

verus! {

/// What one poll says about the push.
#[derive(Clone, Debug, PartialEq, Eq)]
pub enum PollVerdict {
    /// The user approved.
    Approved,
    /// The provider reported success in a body that cannot be read.
    Broken,
    /// The user declined, or the provider gave the push up; with the
    /// provider's explanation.
    Declined(String),
    /// Nothing yet.
    Pending,
}

pub ghost enum PollVerdictView {
    Approved,
    Broken,
    Declined(Seq<char>),
    Pending,
}

impl View for PollVerdict {
    type V = PollVerdictView;

    open spec fn view(&self) -> PollVerdictView {
        match self {
            PollVerdict::Approved => PollVerdictView::Approved,
            PollVerdict::Broken => PollVerdictView::Broken,
            PollVerdict::Declined(why) => PollVerdictView::Declined(why@),
            PollVerdict::Pending => PollVerdictView::Pending,
        }
    }
}

/// How the reply to one poll is read.
///
/// A success status with a readable body is the approval. A refusal whose
/// error code is `invalid_grant` is the end of the push. Every other
/// refusal, a refusal without a readable body and a failed transport leave
/// the push pending.
pub open spec fn poll_verdict(reply: ReplyView) -> PollVerdictView {
    match reply {
        ReplyView::Answered { success: true, body: Some(_) } => PollVerdictView::Approved,
        ReplyView::Answered { success: true, body: None } => PollVerdictView::Broken,
        ReplyView::Answered { success: false, body: Some(body) } => {
            if body.error_code() == "invalid_grant"@ {
                PollVerdictView::Declined(body.explanation())
            } else {
                PollVerdictView::Pending
            }
        },
        ReplyView::Answered { success: false, body: None } => PollVerdictView::Pending,
        ReplyView::Unreachable => PollVerdictView::Pending,
    }
}

/// Reads the reply to one poll.
pub fn judge_poll(reply: &Reply) -> (verdict: PollVerdict)
    ensures
        verdict@ == poll_verdict(reply@),
{
    match reply {
        Reply::Answered { success: true, body: Some(_) } => PollVerdict::Approved,
        Reply::Answered { success: true, body: None } => PollVerdict::Broken,
        Reply::Answered { success: false, body: Some(body) } => {
            let code = body.error_code();
            if same_text(code.as_str(), "invalid_grant") {
                PollVerdict::Declined(body.explanation())
            } else {
                PollVerdict::Pending
            }
        },
        Reply::Answered { success: false, body: None } => PollVerdict::Pending,
        Reply::Unreachable => PollVerdict::Pending,
    }
}

/// What follows one poll.
#[derive(Clone, Debug, PartialEq, Eq)]
pub enum PollStep {
    /// Another pause and another poll.
    Again,
    /// The push is over.
    Done { outcome: Outcome, notice: Option<Notice> },
}

pub ghost enum PollStepView {
    Again,
    Done { outcome: Outcome, notice: Option<NoticeView> },
}

impl View for PollStep {
    type V = PollStepView;

    open spec fn view(&self) -> PollStepView {
        match self {
            PollStep::Again => PollStepView::Again,
            PollStep::Done { outcome, notice } => PollStepView::Done {
                outcome: *outcome,
                notice: match notice {
                    Some(n) => Some(n@),
                    None => None,
                },
            },
        }
    }
}

/// What follows a poll whose reply came `elapsed` whole seconds after
/// polling began, for a push that may be waited for during `lifetime` seconds.
///
/// The reply is read first, however late it came. Only a push that is still
/// pending is polled again, and only while the time elapsed has not passed
/// the lifetime; after that the provider counts as unavailable.
pub open spec fn poll_step(lifetime: u64, reply: ReplyView, elapsed: u64) -> PollStepView {
    match poll_verdict(reply) {
        PollVerdictView::Approved => PollStepView::Done {
            outcome: Outcome::Success,
            notice: Some(NoticeView { text: "Push acknowledged"@, is_error: false }),
        },
        PollVerdictView::Broken => PollStepView::Done {
            outcome: Outcome::Unavailable,
            notice: None,
        },
        PollVerdictView::Declined(why) => PollStepView::Done {
            outcome: Outcome::AuthenticationFailed,
            notice: Some(NoticeView { text: "Polling failed: "@ + why, is_error: true }),
        },
        PollVerdictView::Pending => if elapsed <= lifetime {
            PollStepView::Again
        } else {
            PollStepView::Done { outcome: Outcome::Unavailable, notice: None }
        },
    }
}

/// Decides what follows a poll.
pub fn after_poll(lifetime: u64, reply: &Reply, elapsed: u64) -> (step: PollStep)
    ensures
        step@ == poll_step(lifetime, reply@, elapsed),
{
    match judge_poll(reply) {
        PollVerdict::Approved => PollStep::Done {
            outcome: Outcome::Success,
            notice: Some(Notice::info(String::from_str("Push acknowledged"))),
        },
        PollVerdict::Broken => PollStep::Done { outcome: Outcome::Unavailable, notice: None },
        PollVerdict::Declined(why) => PollStep::Done {
            outcome: Outcome::AuthenticationFailed,
            notice: Some(Notice::error(join("Polling failed: ", why.as_str()))),
        },
        PollVerdict::Pending => if elapsed <= lifetime {
            PollStep::Again
        } else {
            PollStep::Done { outcome: Outcome::Unavailable, notice: None }
        },
    }
}

/// A refusal with the error code `invalid_grant` ends the polling at once as
/// a failed authentication, whatever time is left.
pub proof fn law_decline_ends_polling(lifetime: u64, reply: ReplyView, elapsed: u64)
    requires
        reply matches ReplyView::Answered { success: false, body: Some(body) }
            && body.error_code() == "invalid_grant"@,
    ensures
        poll_step(lifetime, reply, elapsed) matches PollStepView::Done { outcome, .. }
            && outcome == Outcome::AuthenticationFailed,
{
}

/// Once the time elapsed has passed the lifetime, a poll that brought neither
/// an approval nor a decline ends the polling, and the provider counts as
/// unavailable.
pub proof fn law_deadline_ends_polling(lifetime: u64, reply: ReplyView, elapsed: u64)
    requires
        elapsed > lifetime,
        poll_verdict(reply) is Pending,
    ensures
        poll_step(lifetime, reply, elapsed) == (PollStepView::Done {
            outcome: Outcome::Unavailable,
            notice: None,
        }),
{
}

/// Polling ends in success only on a reply with a success status and a
/// readable body, and goes on only while the time elapsed is within the
/// lifetime.
pub proof fn law_polling_is_bounded(lifetime: u64, reply: ReplyView, elapsed: u64)
    ensures
        (poll_step(lifetime, reply, elapsed) matches PollStepView::Done { outcome, .. }
            && outcome == Outcome::Success) <==> (reply matches ReplyView::Answered {
            success: true,
            body: Some(_),
        }),
        poll_step(lifetime, reply, elapsed) is Again ==> elapsed <= lifetime,
{
}

} // verus!
