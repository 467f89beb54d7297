//! The GitHub items that notifications point at, as plain values.
use vstd::prelude::*;
use vstd::std_specs::cmp::PartialEqSpecImpl;

pub mod events;

verus! {

/// A notification of the signed-in user, and what it points at.
///
/// Two notifications are the same when their ids are.
pub struct Notification {
    /// GitHub's id of the notification thread.
    pub id: u64,
    /// Name of the repository that the notification is about.
    pub repository: String,
    /// Title of the notification's subject.
    pub title: String,
    pub unread: bool,
    /// When the notification was last updated, in seconds since the Unix epoch.
    pub updated_at: i64,
    pub target: NotificationTarget,
}

impl PartialEq for Notification {
    fn eq(&self, other: &Self) -> (r: bool) {
        self.id == other.id
    }
}

impl PartialEqSpecImpl for Notification {
    open spec fn obeys_eq_spec() -> bool {
        true
    }

    open spec fn eq_spec(&self, other: &Notification) -> bool {
        self.id == other.id
    }
}

/// How little attention a notification about `target` needs: higher means
/// it can be dealt with sooner.
pub open spec fn irrelevance(target: NotificationTarget) -> u32 {
    match target {
        NotificationTarget::Release(_) => 100,
        NotificationTarget::PullRequest(pr) => match pr.state {
            PullRequestState::Merged => 90,
            PullRequestState::Closed => 80,
            PullRequestState::Open => 40,
        },
        NotificationTarget::Discussion(d) => match d.state {
            DiscussionState::Answered => 85,
            DiscussionState::Unanswered => 60,
        },
        NotificationTarget::Issue(i) => match i.state {
            IssueState::Closed(IssueClosedReason::NotPlanned) => 70,
            IssueState::Closed(IssueClosedReason::Completed) => 65,
            IssueState::Open => 50,
        },
        NotificationTarget::CiBuild => 30,
        NotificationTarget::Unknown => 0,
    }
}

/// The later the update, the smaller the key.
pub open spec fn recency_key(updated_at: i64) -> u64 {
    (i64::MAX - updated_at) as u64
}

impl Notification {
    /// A sorting key that ranks a notification by how relevant it is. A
    /// higher key means it can be marked as read quicker/needs less attention
    /// than a notification with a lower key. The update time breaks ties, so
    /// that in descending order of the key older notifications come first in
    /// each rank.
    pub fn sorter(&self) -> (key: (u32, u64))
        ensures
            key == (irrelevance(self.target), recency_key(self.updated_at)),
    {
        let irrelavance: u32 = match &self.target {
            NotificationTarget::Release(_) => 100,
            NotificationTarget::PullRequest(pr) => match pr.state {
                PullRequestState::Merged => 90,
                PullRequestState::Closed => 80,
                PullRequestState::Open => 40,
            },
            NotificationTarget::Discussion(d) => match d.state {
                DiscussionState::Answered => 85,
                DiscussionState::Unanswered => 60,
            },
            NotificationTarget::Issue(i) => match i.state {
                IssueState::Closed(IssueClosedReason::NotPlanned) => 70,
                IssueState::Closed(IssueClosedReason::Completed) => 65,
                IssueState::Open => 50,
            },
            NotificationTarget::CiBuild => 30,
            NotificationTarget::Unknown => 0,
        };
        let recency = (i64::MAX as i128 - self.updated_at as i128) as u64;
        (irrelavance, recency)
    }
}

pub enum NotificationTarget {
    Issue(IssueMeta),
    PullRequest(PullRequestMeta),
    Release(ReleaseMeta),
    Discussion(DiscussionMeta),
    CiBuild,
    Unknown,
}

pub open spec fn target_icon(target: NotificationTarget) -> &'static str {
    match target {
        NotificationTarget::Issue(i) => issue_icon(i.state),
        NotificationTarget::PullRequest(p) => pull_request_icon(p.state),
        NotificationTarget::Release(_) => "\u{f412}",
        NotificationTarget::Discussion(_) => "\u{f442}",
        NotificationTarget::CiBuild => "\u{f467}",
        NotificationTarget::Unknown => "\u{f420}",
    }
}

pub open spec fn target_number(target: NotificationTarget) -> Option<usize> {
    match target {
        NotificationTarget::Issue(i) => Some(i.number),
        NotificationTarget::PullRequest(p) => Some(p.number),
        NotificationTarget::Release(_) => None,
        NotificationTarget::Discussion(d) => Some(d.number),
        NotificationTarget::CiBuild => None,
        NotificationTarget::Unknown => None,
    }
}

impl NotificationTarget {
    /// The glyph that stands for the kind and state of the target.
    pub fn icon(&self) -> (r: &'static str)
        ensures
            r == target_icon(*self),
    {
        match self {
            NotificationTarget::Issue(i) => i.icon(),
            NotificationTarget::PullRequest(p) => p.icon(),
            NotificationTarget::Release(r) => r.icon(),
            NotificationTarget::Discussion(d) => d.icon(),
            NotificationTarget::CiBuild => "\u{f467}",
            NotificationTarget::Unknown => "\u{f420}",
        }
    }

    /// The issue, pull request or discussion number of the target.
    pub fn number(&self) -> (r: Option<usize>)
        ensures
            r == target_number(*self),
    {
        match self {
            NotificationTarget::Issue(i) => Some(i.number),
            NotificationTarget::PullRequest(p) => Some(p.number),
            NotificationTarget::Release(_) => None,
            NotificationTarget::Discussion(d) => Some(d.number),
            NotificationTarget::CiBuild => None,
            NotificationTarget::Unknown => None,
        }
    }
}

pub struct RepoMeta {
    pub name: String,
    pub owner: String,
}

/// The fields of GitHub's issue API that an issue is built from.
pub struct IssueDeserModel {
    pub title: String,
    pub number: usize,
    pub body: Option<String>,
    pub author: User,
    pub state: String,
    pub state_reason: Option<String>,
    /// Seconds since the Unix epoch.
    pub created_at: i64,
}

pub struct IssueMeta {
    pub repo: RepoMeta,
    pub title: String,
    pub body: String,
    pub number: usize,
    pub author: User,
    pub state: IssueState,
    /// Seconds since the Unix epoch.
    pub created_at: i64,
}

/// The state that GitHub's `state` and `state_reason` fields describe:
/// open when the state is `open`, closed as completed only when closed with
/// reason `completed`, and closed as not planned otherwise.
pub open spec fn issue_state_of(state: Seq<char>, state_reason: Option<Seq<char>>) -> IssueState {
    if state == "open"@ {
        IssueState::Open
    } else if state == "closed"@ && state_reason == Some("completed"@) {
        IssueState::Closed(IssueClosedReason::Completed)
    } else {
        IssueState::Closed(IssueClosedReason::NotPlanned)
    }
}

pub open spec fn no_description() -> Seq<char> {
    "No description provided."@
}

/// The text of `body`, or a placeholder when there is none.
pub open spec fn body_or_placeholder(body: Option<Seq<char>>) -> Seq<char> {
    match body {
        Some(b) => b,
        None => no_description(),
    }
}

pub open spec fn option_string_view(s: Option<String>) -> Option<Seq<char>> {
    match s {
        Some(s) => Some(s@),
        None => None,
    }
}

fn body_or_default(body: Option<String>) -> (r: String)
    ensures
        r@ == body_or_placeholder(option_string_view(body)),
{
    match body {
        Some(b) => b,
        None => String::from_str("No description provided."),
    }
}

impl IssueMeta {
    pub fn new(issue: IssueDeserModel, repo: RepoMeta) -> (r: Self)
        ensures
            r.repo == repo,
            r.title == issue.title,
            r.body@ == body_or_placeholder(option_string_view(issue.body)),
            r.number == issue.number,
            r.author == issue.author,
            r.state == issue_state_of(issue.state@, option_string_view(issue.state_reason)),
            r.created_at == issue.created_at,
    {
        let state = if crate::parser::types::same_str(issue.state.as_str(), "open") {
            IssueState::Open
        } else if crate::parser::types::same_str(issue.state.as_str(), "closed") && match &issue.state_reason {
            Some(reason) => crate::parser::types::same_str(reason.as_str(), "completed"),
            None => false,
        } {
            IssueState::Closed(IssueClosedReason::Completed)
        } else {
            IssueState::Closed(IssueClosedReason::NotPlanned)
        };
        Self {
            repo,
            title: issue.title,
            body: body_or_default(issue.body),
            number: issue.number,
            author: issue.author,
            state,
            created_at: issue.created_at,
        }
    }

    /// The glyph that stands for an issue in this state.
    pub fn icon(&self) -> (r: &'static str)
        ensures
            r == issue_icon(self.state),
    {
        match self.state {
            IssueState::Open => "\u{f41b}",
            IssueState::Closed(_) => "\u{f41d}",
        }
    }
}

pub open spec fn issue_icon(state: IssueState) -> &'static str {
    match state {
        IssueState::Open => "\u{f41b}",
        IssueState::Closed(_) => "\u{f41d}",
    }
}

#[derive(Clone, Copy, Debug, PartialEq, Eq, Structural)]
pub enum IssueState {
    Open,
    Closed(IssueClosedReason),
}

impl IssueState {
    pub fn is_open(&self) -> (r: bool)
        ensures
            r == (*self is Open),
    {
        matches!(self, IssueState::Open)
    }

    pub fn is_closed(&self) -> (r: bool)
        ensures
            r == (*self is Closed),
    {
        matches!(self, IssueState::Closed(_))
    }

    /// The state as it is shown: `Open` or `Closed`.
    pub fn to_string(&self) -> (r: String)
        ensures
            r@ == (if *self is Open { "Open"@ } else { "Closed"@ }),
    {
        match self {
            IssueState::Open => String::from_str("Open"),
            IssueState::Closed(_) => String::from_str("Closed"),
        }
    }
}

#[derive(Clone, Copy, Debug, PartialEq, Eq, Structural)]
pub enum IssueClosedReason {
    // Done, closed, fixed, resolved, etc.
    Completed,
    // Won't fix, duplicate stale, etc.
    NotPlanned,
}

pub struct Issue {
    pub meta: IssueMeta,
    pub events: Vec<events::Event>,
}

impl Issue {
    pub fn new(meta: IssueMeta, events: Vec<events::Event>) -> (r: Self)
        ensures
            r.meta == meta,
            r.events == events,
    {
        Self { meta, events }
    }
}

/// The fields of GitHub's pull request API that a pull request is built from.
pub struct PullRequestDeserModel {
    pub title: Option<String>,
    pub body: Option<String>,
    pub number: usize,
    pub author: Option<User>,
    /// Seconds since the Unix epoch, when merged.
    pub merged_at: Option<i64>,
    /// Seconds since the Unix epoch, when closed.
    pub closed_at: Option<i64>,
    /// Seconds since the Unix epoch.
    pub created_at: Option<i64>,
}

pub struct PullRequestMeta {
    pub repo: RepoMeta,
    pub title: String,
    pub body: String,
    pub number: usize,
    pub author: User,
    pub state: PullRequestState,
    /// Seconds since the Unix epoch.
    pub created_at: i64,
}

/// Merged when there is a merge time, else closed when there is a close time, else open.
pub open spec fn pull_request_state_of(merged_at: Option<i64>, closed_at: Option<i64>) -> PullRequestState {
    if merged_at is Some {
        PullRequestState::Merged
    } else if closed_at is Some {
        PullRequestState::Closed
    } else {
        PullRequestState::Open
    }
}

impl PullRequestMeta {
    pub fn new(pr: PullRequestDeserModel, repo: RepoMeta) -> (r: Self)
        ensures
            r.repo == repo,
            r.title@ == (match pr.title {
                Some(t) => t@,
                None => Seq::<char>::empty(),
            }),
            r.body@ == body_or_placeholder(option_string_view(pr.body)),
            r.number == pr.number,
            r.author.name@ == (match pr.author {
                Some(u) => u.name@,
                None => Seq::<char>::empty(),
            }),
            r.state == pull_request_state_of(pr.merged_at, pr.closed_at),
            r.created_at == (match pr.created_at {
                Some(t) => t,
                None => 0,
            }),
    {
        let state = match pr.merged_at {
            Some(_) => PullRequestState::Merged,
            None => match pr.closed_at {
                Some(_) => PullRequestState::Closed,
                None => PullRequestState::Open,
            },
        };
        let title = match pr.title {
            Some(t) => t,
            None => String::new(),
        };
        let author = match pr.author {
            Some(u) => u,
            None => User { name: String::new() },
        };
        let created_at: i64 = match pr.created_at {
            Some(t) => t,
            None => 0,
        };
        Self {
            repo,
            title,
            body: body_or_default(pr.body),
            number: pr.number,
            author,
            state,
            created_at,
        }
    }

    /// The glyph that stands for a pull request in this state.
    pub fn icon(&self) -> (r: &'static str)
        ensures
            r == pull_request_icon(self.state),
    {
        match self.state {
            PullRequestState::Open => "\u{f407}",
            PullRequestState::Merged => "\u{f419}",
            PullRequestState::Closed => "\u{f407}",
        }
    }
}

pub open spec fn pull_request_icon(state: PullRequestState) -> &'static str {
    match state {
        PullRequestState::Open => "\u{f407}",
        PullRequestState::Merged => "\u{f419}",
        PullRequestState::Closed => "\u{f407}",
    }
}

#[derive(Clone, Copy, Debug, PartialEq, Eq, Structural)]
pub enum PullRequestState {
    Open,
    Closed,
    Merged,
}

impl PullRequestState {
    pub fn is_open(&self) -> (r: bool)
        ensures
            r == (*self is Open),
    {
        matches!(self, PullRequestState::Open)
    }

    pub fn is_closed(&self) -> (r: bool)
        ensures
            r == (*self is Closed),
    {
        matches!(self, PullRequestState::Closed)
    }

    pub fn is_merged(&self) -> (r: bool)
        ensures
            r == (*self is Merged),
    {
        matches!(self, PullRequestState::Merged)
    }

    /// The state as it is shown: `Open`, `Closed` or `Merged`.
    pub fn to_string(&self) -> (r: String)
        ensures
            r@ == (match *self {
                PullRequestState::Open => "Open"@,
                PullRequestState::Closed => "Closed"@,
                PullRequestState::Merged => "Merged"@,
            }),
    {
        match self {
            PullRequestState::Open => String::from_str("Open"),
            PullRequestState::Closed => String::from_str("Closed"),
            PullRequestState::Merged => String::from_str("Merged"),
        }
    }
}

pub struct PullRequest {
    pub meta: PullRequestMeta,
    pub events: Vec<events::Event>,
}

impl PullRequest {
    pub fn new(meta: PullRequestMeta, events: Vec<events::Event>) -> (r: Self)
        ensures
            r.meta == meta,
            r.events == events,
    {
        Self { meta, events }
    }
}

pub struct ReleaseMeta {
    pub title: String,
    pub body: String,
    pub author: String,
    pub tag_name: String,
}

impl ReleaseMeta {
    /// The glyph that stands for a release.
    pub fn icon(&self) -> (r: &'static str)
        ensures
            r == "\u{f412}",
    {
        "\u{f412}"
    }

    /// A release from GitHub's fields: titled by its name, or by its tag when
    /// it has none.
    pub fn from_parts(name: Option<String>, body: Option<String>, author: String, tag_name: String) -> (r: Self)
        ensures
            r.title@ == (match name {
                Some(n) => n@,
                None => tag_name@,
            }),
            r.body@ == body_or_placeholder(option_string_view(body)),
            r.author == author,
            r.tag_name == tag_name,
    {
        let title = match name {
            Some(n) => n,
            None => tag_name.clone(),
        };
        Self { title, body: body_or_default(body), author, tag_name }
    }
}

pub struct DiscussionMeta {
    pub repo: RepoMeta,
    pub title: String,
    pub number: usize,
    pub state: DiscussionState,
}

impl DiscussionMeta {
    /// The glyph that stands for a discussion.
    pub fn icon(&self) -> (r: &'static str)
        ensures
            r == "\u{f442}",
    {
        "\u{f442}"
    }
}

#[derive(Clone, Copy, Debug, PartialEq, Eq, Structural)]
pub enum DiscussionState {
    Answered,
    Unanswered,
}

pub struct Discussion {
    pub meta: DiscussionMeta,
    pub author: User,
    pub upvotes: usize,
    pub body: String,
    /// Seconds since the Unix epoch.
    pub created_at: i64,
    pub suggested_answers: Vec<DiscussionSuggestedAnswer>,
}

pub struct DiscussionSuggestedAnswer {
    pub author: User,
    pub is_answer: bool,
    pub upvotes: usize,
    pub body: String,
    /// Seconds since the Unix epoch.
    pub created_at: i64,
    pub replies: Vec<DiscussionReplyToSuggestedAnswer>,
}

pub struct DiscussionReplyToSuggestedAnswer {
    pub author: User,
    pub body: String,
    /// Seconds since the Unix epoch.
    pub created_at: i64,
}

pub struct User {
    /// The username with which the user logs in; the @ name.
    pub name: String,
}

impl User {
    pub fn new(name: &str) -> (r: Self)
        ensures
            r.name@ == name@,
    {
        Self { name: String::from_str(name) }
    }

    /// The user as it is shown: `@` and the name.
    pub fn to_string(&self) -> (r: String)
        ensures
            r@ == "@"@ + self.name@,
    {
        String::from_str("@").concat(self.name.as_str())
    }
}

impl From<String> for User {
    fn from(name: String) -> (r: Self) {
        User { name }
    }
}

impl vstd::std_specs::convert::FromSpecImpl<String> for User {
    open spec fn obeys_from_spec() -> bool {
        true
    }

    open spec fn from_spec(name: String) -> Self {
        User { name }
    }
}

impl Default for User {
    fn default() -> (r: Self)
        ensures
            r.name@ == Seq::<char>::empty(),
    {
        User { name: String::new() }
    }
}

impl Clone for RepoMeta {
    fn clone(&self) -> (r: Self)
        ensures
            r == *self,
    {
        RepoMeta { name: self.name.clone(), owner: self.owner.clone() }
    }
}

impl Clone for User {
    fn clone(&self) -> (r: Self)
        ensures
            r == *self,
    {
        User { name: self.name.clone() }
    }
}

impl Clone for IssueMeta {
    fn clone(&self) -> (r: Self)
        ensures
            r == *self,
    {
        IssueMeta {
            repo: self.repo.clone(),
            title: self.title.clone(),
            body: self.body.clone(),
            number: self.number,
            author: self.author.clone(),
            state: self.state,
            created_at: self.created_at,
        }
    }
}

impl Clone for PullRequestMeta {
    fn clone(&self) -> (r: Self)
        ensures
            r == *self,
    {
        PullRequestMeta {
            repo: self.repo.clone(),
            title: self.title.clone(),
            body: self.body.clone(),
            number: self.number,
            author: self.author.clone(),
            state: self.state,
            created_at: self.created_at,
        }
    }
}

impl Clone for ReleaseMeta {
    fn clone(&self) -> (r: Self)
        ensures
            r == *self,
    {
        ReleaseMeta {
            title: self.title.clone(),
            body: self.body.clone(),
            author: self.author.clone(),
            tag_name: self.tag_name.clone(),
        }
    }
}

impl Clone for DiscussionMeta {
    fn clone(&self) -> (r: Self)
        ensures
            r == *self,
    {
        DiscussionMeta { repo: self.repo.clone(), title: self.title.clone(), number: self.number, state: self.state }
    }
}

impl Clone for NotificationTarget {
    fn clone(&self) -> (r: Self)
        ensures
            r == *self,
    {
        match self {
            NotificationTarget::Issue(i) => NotificationTarget::Issue(i.clone()),
            NotificationTarget::PullRequest(p) => NotificationTarget::PullRequest(p.clone()),
            NotificationTarget::Release(r) => NotificationTarget::Release(r.clone()),
            NotificationTarget::Discussion(d) => NotificationTarget::Discussion(d.clone()),
            NotificationTarget::CiBuild => NotificationTarget::CiBuild,
            NotificationTarget::Unknown => NotificationTarget::Unknown,
        }
    }
}

impl Clone for Notification {
    fn clone(&self) -> (r: Self)
        ensures
            r == *self,
    {
        Notification {
            id: self.id,
            repository: self.repository.clone(),
            title: self.title.clone(),
            unread: self.unread,
            updated_at: self.updated_at,
            target: self.target.clone(),
        }
    }
}

} // verus!
