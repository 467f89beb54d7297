//! Colors of notification targets.
use vstd::prelude::*;

use crate::github::{DiscussionState, IssueClosedReason, IssueState, NotificationTarget, PullRequestState};

verus! {

#[derive(Clone, Copy, Debug, PartialEq, Eq, Structural)]
pub enum NotifColor {
    Purple,
    Green,
    Red,
    White,
    Yellow,
    Blue,
}

/// Green for what is open, purple for what is done, red for what was given
/// up or failed, yellow for an unanswered discussion, blue for a release.
pub open spec fn target_color(target: NotificationTarget) -> NotifColor {
    match target {
        NotificationTarget::Issue(issue) => match issue.state {
            IssueState::Open => NotifColor::Green,
            IssueState::Closed(IssueClosedReason::NotPlanned) => NotifColor::Red,
            IssueState::Closed(IssueClosedReason::Completed) => NotifColor::Purple,
        },
        NotificationTarget::PullRequest(pr) => match pr.state {
            PullRequestState::Open => NotifColor::Green,
            PullRequestState::Merged => NotifColor::Purple,
            PullRequestState::Closed => NotifColor::Red,
        },
        NotificationTarget::CiBuild => NotifColor::Red,
        NotificationTarget::Release(_) => NotifColor::Blue,
        NotificationTarget::Discussion(discussion) => match discussion.state {
            DiscussionState::Unanswered => NotifColor::Yellow,
            DiscussionState::Answered => NotifColor::Purple,
        },
        NotificationTarget::Unknown => NotifColor::White,
    }
}

pub fn notif_target_color(target: &NotificationTarget) -> (r: NotifColor)
    ensures
        r == target_color(*target),
{
    match target {
        NotificationTarget::Issue(issue) => match issue.state {
            IssueState::Open => NotifColor::Green,
            IssueState::Closed(IssueClosedReason::NotPlanned) => NotifColor::Red,
            IssueState::Closed(IssueClosedReason::Completed) => NotifColor::Purple,
        },
        NotificationTarget::PullRequest(pr) => match pr.state {
            PullRequestState::Open => NotifColor::Green,
            PullRequestState::Merged => NotifColor::Purple,
            PullRequestState::Closed => NotifColor::Red,
        },
        NotificationTarget::CiBuild => NotifColor::Red,
        NotificationTarget::Release(_) => NotifColor::Blue,
        NotificationTarget::Discussion(discussion) => match discussion.state {
            DiscussionState::Unanswered => NotifColor::Yellow,
            DiscussionState::Answered => NotifColor::Purple,
        },
        NotificationTarget::Unknown => NotifColor::White,
    }
}

/// Utility trait for writing value.boxed() instead of Box::new(value).
pub trait Boxed: Sized {
    fn boxed(self) -> (b: Box<Self>)
        ensures
            *b == self,
    ;
}

impl<T> Boxed for T {
    fn boxed(self) -> (b: Box<Self>) {
        Box::new(self)
    }
}

} // verus!
