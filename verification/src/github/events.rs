//! Events on the timeline of an issue or pull request.
use vstd::prelude::*;
use vstd::std_specs::convert::FromSpecImpl;

use super::User;

verus! {

pub struct Event {
    pub actor: User,
    /// Seconds since the Unix epoch.
    pub created_at: i64,
    pub kind: EventKind,
}

impl Event {
    /// An event of a kind that is not handled, with its name.
    pub fn unknown(ev: &'static str) -> (r: Event)
        ensures
            r.actor.name@ == Seq::<char>::empty(),
            r.created_at == 0,
            r.kind == EventKind::Unknown(ev),
    {
        Event { actor: User { name: String::new() }, created_at: 0, kind: EventKind::Unknown(ev) }
    }
}

pub enum EventKind {
    Assigned { assignee: User },
    Commented { body: String },
    Merged {
        /// The branch into which the PR was merged (main,master, etc)
        base_branch: String,
    },
    Closed {
        /// The issue was closed automatically because a PR/commit was linked
        /// here and was merged/committed.
        closer: Option<IssueCloser>,
    },
    Committed { message_headline: String, abbreviated_oid: String },
    Labeled { label: Label },
    Unlabeled { label: Label },
    MarkedAsDuplicate { original: Option<IssueOrPullRequest> },
    UnmarkedAsDuplicate,
    CrossReferenced {
        source: IssueOrPullRequest,
        /// Whether the referring issue/PR is in another repository
        cross_repository: Option<Repository>,
    },
    HeadRefForcePushed { before_commit_abbr_oid: String, after_commit_abbr_oid: String },
    HeadRefDeleted {
        /// Deleted branch
        branch: String,
    },
    MarkedAsDraft,
    MarkedAsReadyForReview,
    ReviewRequested { requested_reviewer: User },
    Reviewed { state: ReviewState, body: Option<String> },
    /// The issue/PR was linked to another issue/PR for automatic closing.
    Connected {
        /// The issue/PR that referenced this issue/PR.
        source: IssueOrPullRequest,
    },
    Reopened,
    Renamed { from: String, to: String },
    Locked { reason: Option<LockReason> },
    Milestoned { title: String },
    Pinned,
    Unpinned,
    /// This issue/PR was referenced by a commit
    Referenced {
        commit_msg_summary: String,
        /// Whether the commit is in another repository
        cross_repository: Option<Repository>,
    },
    Mentioned,
    Subscribed,
    Unassigned { assignee: User },
    Unlocked,
    /// Unhandled event, with name of the event
    Unknown(&'static str),
}

impl EventKind {
    /// Create an Event from an EventKind with the supplied actor and date.
    /// Useful as builder pattern.
    pub fn with(self, actor: User, created_at: i64) -> (r: Event)
        ensures
            r.actor == actor,
            r.created_at == created_at,
            r.kind == self,
    {
        Event { actor, created_at, kind: self }
    }

    /// Create an event with no author and date. The event does have these
    /// attributes, but we simply do not care about them for some events like
    /// Subscribed, Mentioned, etc
    pub fn anonymous(self) -> (r: Event)
        ensures
            r.actor.name@ == Seq::<char>::empty(),
            r.created_at == 0,
            r.kind == self,
    {
        Event { kind: self, created_at: 0, actor: User { name: String::new() } }
    }
}

pub struct Label {
    pub name: String,
}

pub enum ReviewState {
    Commented,
    ChangesRequested,
    Approved,
    Dismissed,
    Pending,
    Other(String),
}

pub enum IssueCloser {
    Commit { abbr_oid: String },
    PullRequest { number: usize },
}

impl From<i64> for IssueCloser {
    fn from(number: i64) -> (r: Self) {
        Self::PullRequest { number: number as usize }
    }
}

impl FromSpecImpl<i64> for IssueCloser {
    open spec fn obeys_from_spec() -> bool {
        true
    }

    open spec fn from_spec(number: i64) -> Self {
        Self::PullRequest { number: number as usize }
    }
}

impl From<String> for IssueCloser {
    fn from(abbr_oid: String) -> (r: Self) {
        Self::Commit { abbr_oid }
    }
}

impl FromSpecImpl<String> for IssueCloser {
    open spec fn obeys_from_spec() -> bool {
        true
    }

    open spec fn from_spec(abbr_oid: String) -> Self {
        Self::Commit { abbr_oid }
    }
}

pub enum IssueOrPullRequest {
    PullRequest { number: usize, title: String },
    Issue { number: usize, title: String },
}

impl IssueOrPullRequest {
    pub fn title(&self) -> (r: &str)
        ensures
            r@ == (match *self {
                IssueOrPullRequest::PullRequest { title, .. } => title@,
                IssueOrPullRequest::Issue { title, .. } => title@,
            }),
    {
        match self {
            IssueOrPullRequest::PullRequest { title, .. } => title.as_str(),
            IssueOrPullRequest::Issue { title, .. } => title.as_str(),
        }
    }

    pub fn number(&self) -> (r: usize)
        ensures
            r == (match *self {
                IssueOrPullRequest::PullRequest { number, .. } => number,
                IssueOrPullRequest::Issue { number, .. } => number,
            }),
    {
        match self {
            IssueOrPullRequest::PullRequest { number, .. } => *number,
            IssueOrPullRequest::Issue { number, .. } => *number,
        }
    }
}

pub enum LockReason {
    OffTopic,
    Resolved,
    Spam,
    TooHeated,
    Other(String),
}

pub struct Repository {
    pub name: String,
    pub owner: User,
}

} // verus!
