//! What the views of a notification and of its target show.
use vstd::prelude::*;

use crate::github::events::{Event, EventKind};
use crate::github::{
    target_icon, target_number, Discussion, DiscussionReplyToSuggestedAnswer, DiscussionState,
    DiscussionSuggestedAnswer, Issue, IssueClosedReason, IssueState, Notification, NotificationTarget, PullRequest,
    PullRequestState, ReleaseMeta, User,
};
use crate::markdown::{joined_events, layout, markdown_shapes, markdown_tags, md_blocks_view, Markdown, MdBlockView};
use crate::text::{
    badge, badge_style, decimal, decimal_string, fg_style, from_notif_color, line_view, notif_color,
    plain, plain_style, span, span_of, span_view, with_fg, Color, Span, Style,
};
use crate::timeline::{blocks_view, comment_of, comment_view, timeline_view, BlockView, Comment, CommentView, EventTimeline};
use crate::util::{notif_target_color, target_color};

verus! {

/// The first line of the view of an issue, pull request or discussion: its
/// state, its title and its number.
pub open spec fn header_line(state: Seq<char>, state_bg: Color, title: Seq<char>, number: usize) -> Seq<(Seq<char>, Style)> {
    seq![
        (state, badge(state_bg, Color::Black)),
        (" "@, plain()),
        (title, plain()),
        (" "@, plain()),
        ("#"@ + decimal(number as nat), with_fg(Color::Gray)),
    ]
}

fn header_spans(state: &str, state_bg: Color, title: &String, number: usize) -> (r: Vec<Span>)
    ensures
        line_view(r@) == header_line(state@, state_bg, title@, number),
{
    let a = span(state, badge_style(state_bg, Color::Black));
    let b = span(" ", plain_style());
    let c = span(title.as_str(), plain_style());
    let d = span(" ", plain_style());
    let e = span_of(String::from_str("#").concat(decimal_string(number).as_str()), fg_style(Color::Gray));
    let r = vec![a, b, c, d, e];
    assert(line_view(r@) =~= seq![span_view(a), span_view(b), span_view(c), span_view(d), span_view(e)]);
    r
}

/// The view of an issue or a pull request: a header, then the timeline that
/// starts with the description as a comment by its author.
pub struct TargetView {
    pub header: Vec<Span>,
    pub timeline: EventTimeline,
}

pub type IssueView = TargetView;

pub type PullRequestView = TargetView;

/// The events of a target: its description, as a comment by its author at
/// its creation, then its own events.
pub open spec fn with_description(body: String, author: User, created_at: i64, events: Seq<Event>) -> Seq<Event> {
    seq![Event { actor: author, created_at, kind: EventKind::Commented { body } }] + events
}

pub open spec fn issue_state_label(state: IssueState) -> (Seq<char>, Color) {
    match state {
        IssueState::Open => (" Open "@, Color::Green),
        IssueState::Closed(IssueClosedReason::Completed) => (" Closed "@, Color::Purple),
        IssueState::Closed(IssueClosedReason::NotPlanned) => (" Closed "@, Color::Red),
    }
}

pub open spec fn pull_request_state_label(state: PullRequestState) -> (Seq<char>, Color) {
    match state {
        PullRequestState::Open => (" Open "@, Color::Green),
        PullRequestState::Closed => (" Closed "@, Color::Red),
        PullRequestState::Merged => (" Merged "@, Color::Purple),
    }
}

fn described(body: String, author: User, created_at: i64, events: Vec<Event>) -> (r: Vec<Event>)
    ensures
        r@ == with_description(body, author, created_at, events@),
{
    let mut all = vec![EventKind::Commented { body }.with(author, created_at)];
    let mut rest = events;
    all.append(&mut rest);
    all
}

impl TargetView {
    /// The view of `issue`.
    pub fn from_issue(issue: Issue) -> (r: TargetView)
        ensures
            line_view(r.header@) == header_line(
                issue_state_label(issue.meta.state).0,
                issue_state_label(issue.meta.state).1,
                issue.meta.title@,
                issue.meta.number,
            ),
            blocks_view(r.timeline.blocks@) == timeline_view(
                with_description(issue.meta.body, issue.meta.author, issue.meta.created_at, issue.events@),
            ),
    {
        let (label, bg) = match issue.meta.state {
            IssueState::Open => (" Open ", Color::Green),
            IssueState::Closed(IssueClosedReason::Completed) => (" Closed ", Color::Purple),
            IssueState::Closed(IssueClosedReason::NotPlanned) => (" Closed ", Color::Red),
        };
        let header = header_spans(label, bg, &issue.meta.title, issue.meta.number);
        let events = described(issue.meta.body, issue.meta.author, issue.meta.created_at, issue.events);
        TargetView { header, timeline: EventTimeline::new(events) }
    }

    /// The view of `pr`.
    pub fn from_pull_request(pr: PullRequest) -> (r: TargetView)
        ensures
            line_view(r.header@) == header_line(
                pull_request_state_label(pr.meta.state).0,
                pull_request_state_label(pr.meta.state).1,
                pr.meta.title@,
                pr.meta.number,
            ),
            blocks_view(r.timeline.blocks@) == timeline_view(
                with_description(pr.meta.body, pr.meta.author, pr.meta.created_at, pr.events@),
            ),
    {
        let (label, bg) = match pr.meta.state {
            PullRequestState::Open => (" Open ", Color::Green),
            PullRequestState::Closed => (" Closed ", Color::Red),
            PullRequestState::Merged => (" Merged ", Color::Purple),
        };
        let header = header_spans(label, bg, &pr.meta.title, pr.meta.number);
        let events = described(pr.meta.body, pr.meta.author, pr.meta.created_at, pr.events);
        TargetView { header, timeline: EventTimeline::new(events) }
    }
}

/// The view of a release: its title in bold, who released it, and its notes.
pub struct ReleaseView {
    pub title: Span,
    pub byline: Vec<Span>,
    pub body: Markdown,
}

impl ReleaseView {
    pub fn from_release(release: ReleaseMeta) -> (r: ReleaseView)
        ensures
            span_view(r.title) == (release.title@, Style { bold: true, ..plain() }),
            line_view(r.byline@) == seq![("Released by @"@, plain()), (release.author@, plain())],
            md_blocks_view(r.body.blocks@) == layout(
                joined_events(markdown_shapes(release.body@), markdown_tags(release.body@)),
            ),
    {
        let a = span("Released by @", plain_style());
        let b = span(release.author.as_str(), plain_style());
        let byline = vec![a, b];
        assert(line_view(byline@) =~= seq![span_view(a), span_view(b)]);
        ReleaseView {
            title: span_of(release.title.clone(), Style { bold: true, ..plain_style() }),
            byline,
            body: Markdown::new(release.body.as_str()),
        }
    }
}

/// The view of a suggested answer of a discussion: whether it is the
/// answer, the answer as a comment, and its replies as comments.
pub struct SuggestedAnswerView {
    pub marked_as_answer: bool,
    pub comment: Comment,
    pub replies: Vec<Comment>,
}

pub open spec fn comments_view(cs: Seq<Comment>) -> Seq<CommentView> {
    cs.map_values(|c: Comment| comment_view(c))
}

pub open spec fn replies_of(replies: Seq<DiscussionReplyToSuggestedAnswer>) -> Seq<CommentView> {
    replies.map_values(|r: DiscussionReplyToSuggestedAnswer| comment_of(r.body@, r.author))
}

impl SuggestedAnswerView {
    pub fn from_answer(answer: DiscussionSuggestedAnswer) -> (r: SuggestedAnswerView)
        ensures
            r.marked_as_answer == answer.is_answer,
            comment_view(r.comment) == comment_of(answer.body@, answer.author),
            comments_view(r.replies@) == replies_of(answer.replies@),
    {
        let mut replies: Vec<Comment> = Vec::new();
        let mut i: usize = 0;
        while i < answer.replies.len()
            invariant
                i <= answer.replies@.len(),
                comments_view(replies@) == replies_of(answer.replies@.take(i as int)),
            decreases answer.replies@.len() - i,
        {
            let reply = &answer.replies[i];
            let c = Comment::new(reply.body.clone(), reply.author.clone());
            let ghost before = replies@;
            replies.push(c);
            assert(comments_view(replies@) =~= comments_view(before).push(comment_view(c)));
            assert(answer.replies@.take(i + 1) =~= answer.replies@.take(i as int).push(answer.replies@[i as int]));
            assert(replies_of(answer.replies@.take(i + 1)) =~= replies_of(answer.replies@.take(i as int)).push(
                comment_of(answer.replies@[i as int].body@, answer.replies@[i as int].author),
            ));
            i += 1;
        }
        assert(answer.replies@.take(i as int) =~= answer.replies@);
        SuggestedAnswerView {
            marked_as_answer: answer.is_answer,
            comment: Comment::new(answer.body, answer.author),
            replies,
        }
    }
}

/// The view of a discussion: a header, the opening post as a comment, and
/// the suggested answers.
pub struct DiscussionView {
    pub header: Vec<Span>,
    pub comment: Comment,
    pub answers: Vec<SuggestedAnswerView>,
}

pub open spec fn discussion_state_label(state: DiscussionState) -> (Seq<char>, Color) {
    match state {
        DiscussionState::Answered => (" Answered "@, Color::Green),
        DiscussionState::Unanswered => (" Unanswered "@, Color::White),
    }
}

impl DiscussionView {
    pub fn from_discussion(disc: Discussion) -> (r: DiscussionView)
        ensures
            line_view(r.header@) == header_line(
                discussion_state_label(disc.meta.state).0,
                discussion_state_label(disc.meta.state).1,
                disc.meta.title@,
                disc.meta.number,
            ),
            comment_view(r.comment) == comment_of(disc.body@, disc.author),
            r.answers@.len() == disc.suggested_answers@.len(),
            forall|i: int| 0 <= i < r.answers@.len() ==> {
                let a = #[trigger] disc.suggested_answers@[i];
                &&& r.answers@[i].marked_as_answer == a.is_answer
                &&& comment_view(r.answers@[i].comment) == comment_of(a.body@, a.author)
                &&& comments_view(r.answers@[i].replies@) == replies_of(a.replies@)
            },
    {
        let (label, bg) = match disc.meta.state {
            DiscussionState::Answered => (" Answered ", Color::Green),
            DiscussionState::Unanswered => (" Unanswered ", Color::White),
        };
        let header = header_spans(label, bg, &disc.meta.title, disc.meta.number);
        let mut answers: Vec<SuggestedAnswerView> = Vec::new();
        let mut rest = disc.suggested_answers;
        let ghost all = rest@;
        while rest.len() > 0
            invariant
                answers@.len() <= all.len(),
                rest@ == all.skip(answers@.len() as int),
                forall|j: int| 0 <= j < answers@.len() ==> {
                    let a = #[trigger] all[j];
                    &&& answers@[j].marked_as_answer == a.is_answer
                    &&& comment_view(answers@[j].comment) == comment_of(a.body@, a.author)
                    &&& comments_view(answers@[j].replies@) == replies_of(a.replies@)
                },
            decreases rest@.len(),
        {
            let ghost k = answers@.len() as int;
            assert(rest@[0] == all[k]);
            let a = rest.remove(0);
            answers.push(SuggestedAnswerView::from_answer(a));
            assert(rest@ =~= all.skip(k + 1));
        }
        assert(answers@.len() == all.len());
        DiscussionView { header, comment: Comment::new(disc.body, disc.author), answers }
    }
}

/// A notification as the list shows it: the repository, then the glyph and
/// title of the target in its color; gray, both, once it has been read.
pub open spec fn notification_item(n: Notification) -> Seq<(Seq<char>, Style)> {
    let color = notif_color(target_color(n.target));
    seq![
        (n.repository@ + ": "@, if n.unread { plain() } else { with_fg(Color::Gray) }),
        ((target_icon(n.target))@ + " "@ + n.title@, with_fg(if n.unread { color } else { Color::Gray })),
    ]
}

/// How the list shows `n`.
pub fn notification_item_spans(n: &Notification) -> (r: Vec<Span>)
    ensures
        line_view(r@) == notification_item(*n),
{
    let color = from_notif_color(notif_target_color(&n.target));
    let (repo_style, type_style) = if n.unread {
        (plain_style(), fg_style(color))
    } else {
        (fg_style(Color::Gray), fg_style(Color::Gray))
    };
    let repo = span_of(n.repository.clone().concat(": "), repo_style);
    let title = span_of(String::from_str(n.target.icon()).concat(" ").concat(n.title.as_str()), type_style);
    let r = vec![repo, title];
    assert(line_view(r@) =~= seq![span_view(repo), span_view(title)]);
    r
}

/// A notification on a line of the command shell: the repository and the
/// number in dark grey, then the glyph and title of the target in its color.
pub open spec fn colored_notification(n: Notification) -> Seq<(Seq<char>, Style)> {
    let color = with_fg(notif_color(target_color(n.target)));
    seq![(n.repository@, plain())] + (match target_number(n.target) {
        Some(number) => seq![("#"@ + decimal(number as nat), with_fg(Color::DarkGrey))],
        None => Seq::empty(),
    }) + seq![
        (": "@, plain()),
        ((target_icon(n.target))@, color),
        (" "@, plain()),
        (n.title@, color),
    ]
}

impl Notification {
    /// The notification on a line of the command shell.
    pub fn to_colored_string(&self) -> (r: Vec<Span>)
        ensures
            line_view(r@) == colored_notification(*self),
    {
        let color = fg_style(from_notif_color(notif_target_color(&self.target)));
        let mut line = vec![span(self.repository.as_str(), plain_style())];
        let ghost first = line@;
        match self.target.number() {
            Some(number) => {
                line.push(span_of(String::from_str("#").concat(decimal_string(number).as_str()), fg_style(Color::DarkGrey)));
            },
            None => {},
        }
        let ghost middle = line@;
        let a = span(": ", plain_style());
        let b = span(self.target.icon(), color);
        let c = span(" ", plain_style());
        let d = span(self.title.as_str(), color);
        line.push(a);
        line.push(b);
        line.push(c);
        line.push(d);
        assert(line@ =~= middle + seq![a, b, c, d]);
        assert(line_view(line@) =~= line_view(middle) + seq![span_view(a), span_view(b), span_view(c), span_view(d)]);
        assert(line_view(middle) =~= seq![(self.repository@, plain())] + (match target_number(self.target) {
            Some(number) => seq![("#"@ + decimal(number as nat), with_fg(Color::DarkGrey))],
            None => Seq::empty(),
        }));
        line
    }
}

} // verus!

verus! {

/// The color of a target on the full-screen page of a notification: light
/// green or green for what is open, magenta for a merge, red for what was
/// closed or failed, yellow for a discussion, blue for a release.
pub open spec fn page_color(target: NotificationTarget) -> Color {
    match target {
        NotificationTarget::Issue(issue) => if issue.state is Open { Color::LightGreen } else { Color::Red },
        NotificationTarget::PullRequest(pr) => match pr.state {
            PullRequestState::Open => Color::Green,
            PullRequestState::Merged => Color::Magenta,
            PullRequestState::Closed => Color::Red,
        },
        NotificationTarget::CiBuild => Color::Red,
        NotificationTarget::Release(_) => Color::Blue,
        NotificationTarget::Discussion(_) => Color::Yellow,
        NotificationTarget::Unknown => Color::White,
    }
}

fn page_color_of(target: &NotificationTarget) -> (r: Color)
    ensures
        r == page_color(*target),
{
    match target {
        NotificationTarget::Issue(issue) => if issue.state.is_open() { Color::LightGreen } else { Color::Red },
        NotificationTarget::PullRequest(pr) => match pr.state {
            PullRequestState::Open => Color::Green,
            PullRequestState::Merged => Color::Magenta,
            PullRequestState::Closed => Color::Red,
        },
        NotificationTarget::CiBuild => Color::Red,
        NotificationTarget::Release(_) => Color::Blue,
        NotificationTarget::Discussion(_) => Color::Yellow,
        NotificationTarget::Unknown => Color::White,
    }
}

/// The full-screen page of a notification: a title line and the text of
/// its target.
pub struct TargetPage {
    pub title: Vec<Span>,
    pub body: String,
}

pub open spec fn titled_target(icon: Seq<char>, title: Seq<char>, number: usize, state: Seq<char>, c: Color) -> Seq<(Seq<char>, Style)> {
    seq![
        (icon, with_fg(c)),
        (" "@, plain()),
        (title, plain()),
        (" #"@ + decimal(number as nat) + " "@, with_fg(Color::DarkGrey)),
        (state, badge(c, Color::Black)),
    ]
}

pub open spec fn page_title(n: Notification) -> Seq<(Seq<char>, Style)> {
    let c = page_color(n.target);
    match n.target {
        NotificationTarget::Issue(issue) => titled_target(
            (target_icon(n.target))@, issue.title@, issue.number,
            if issue.state is Open { "Open"@ } else { "Closed"@ }, c,
        ),
        NotificationTarget::PullRequest(pr) => titled_target(
            (target_icon(n.target))@, pr.title@, pr.number,
            match pr.state {
                PullRequestState::Open => "Open"@,
                PullRequestState::Closed => "Closed"@,
                PullRequestState::Merged => "Merged"@,
            },
            c,
        ),
        NotificationTarget::Release(release) => seq![(release.title@, plain()), (release.tag_name@, with_fg(Color::DarkGrey))],
        NotificationTarget::Discussion(_) => seq![("This is a discussion"@, plain())],
        NotificationTarget::CiBuild => seq![("This is a CI Build"@, plain())],
        NotificationTarget::Unknown => seq![("This is an unknown item"@, plain())],
    }
}

pub open spec fn page_body(n: Notification) -> Seq<char> {
    match n.target {
        NotificationTarget::Issue(issue) => issue.body@,
        NotificationTarget::PullRequest(pr) => pr.body@,
        NotificationTarget::Release(release) => release.body@,
        _ => "No description provided."@,
    }
}

fn titled_spans(icon: &str, title: &String, number: usize, state: String, c: Color) -> (r: Vec<Span>)
    ensures
        line_view(r@) == titled_target(icon@, title@, number, state@, c),
{
    let a = span(icon, fg_style(c));
    let b = span(" ", plain_style());
    let t = span(title.as_str(), plain_style());
    let num = String::from_str(" #").concat(decimal_string(number).as_str()).concat(" ");
    let d = span_of(num, fg_style(Color::DarkGrey));
    let e = span_of(state, badge_style(c, Color::Black));
    let r = vec![a, b, t, d, e];
    assert(line_view(r@) =~= seq![span_view(a), span_view(b), span_view(t), span_view(d), span_view(e)]);
    r
}

fn one_span(s: Span) -> (r: Vec<Span>)
    ensures
        line_view(r@) == seq![span_view(s)],
{
    let r = vec![s];
    assert(line_view(r@) =~= seq![span_view(s)]);
    r
}

/// The page of `n`.
pub fn target_page(n: &Notification) -> (r: TargetPage)
    ensures
        line_view(r.title@) == page_title(*n),
        r.body@ == page_body(*n),
{
    let c = page_color_of(&n.target);
    match &n.target {
        NotificationTarget::Issue(issue) => TargetPage {
            title: titled_spans(n.target.icon(), &issue.title, issue.number, issue.state.to_string(), c),
            body: issue.body.clone(),
        },
        NotificationTarget::PullRequest(pr) => TargetPage {
            title: titled_spans(n.target.icon(), &pr.title, pr.number, pr.state.to_string(), c),
            body: pr.body.clone(),
        },
        NotificationTarget::Release(release) => {
            let a = span(release.title.as_str(), plain_style());
            let b = span(release.tag_name.as_str(), fg_style(Color::DarkGrey));
            let title = vec![a, b];
            assert(line_view(title@) =~= seq![span_view(a), span_view(b)]);
            TargetPage { title, body: release.body.clone() }
        },
        NotificationTarget::Discussion(_) => TargetPage {
            title: one_span(span("This is a discussion", plain_style())),
            body: String::from_str("No description provided."),
        },
        NotificationTarget::CiBuild => TargetPage {
            title: one_span(span("This is a CI Build", plain_style())),
            body: String::from_str("No description provided."),
        },
        NotificationTarget::Unknown => TargetPage {
            title: one_span(span("This is an unknown item", plain_style())),
            body: String::from_str("No description provided."),
        },
    }
}

/// The rows of the notification table that fit in `height` lines, of which
/// six go to the border, the header and padding: the list scrolls so that
/// the cursor stays in view.
pub open spec fn table_offset(selected: usize, height: u16) -> int {
    let room: int = if height >= 6 { height - 6 } else { 0 };
    if selected >= room { selected - room } else { 0 }
}

/// A row of the notification table: its repository and its title cells,
/// and whether the cursor is on it.
pub struct TableRow {
    pub repo: Span,
    pub notification: Span,
    pub highlighted: bool,
}

pub open spec fn table_row(n: Notification, highlighted: bool) -> ((Seq<char>, Style), (Seq<char>, Style), bool) {
    let c = page_color(n.target);
    (
        (n.repository@, if n.unread { plain() } else { with_fg(Color::DarkGrey) }),
        ((target_icon(n.target))@ + " "@ + n.title@, with_fg(if n.unread { c } else { Color::DarkGrey })),
        highlighted,
    )
}

pub open spec fn row_view(r: TableRow) -> ((Seq<char>, Style), (Seq<char>, Style), bool) {
    (span_view(r.repo), span_view(r.notification), r.highlighted)
}

/// The notifications of `ns` that are still unread, in order.
pub open spec fn unread_only(ns: Seq<Notification>) -> Seq<Notification>
    decreases ns.len(),
{
    if ns.len() == 0 {
        Seq::empty()
    } else {
        let before = unread_only(ns.drop_last());
        if ns.last().unread { before.push(ns.last()) } else { before }
    }
}

fn unread_notifications(ns: &Vec<Notification>) -> (r: Vec<Notification>)
    ensures
        r@ == unread_only(ns@),
{
    let mut r: Vec<Notification> = Vec::new();
    let mut i: usize = 0;
    while i < ns.len()
        invariant
            i <= ns@.len(),
            r@ == unread_only(ns@.take(i as int)),
        decreases ns@.len() - i,
    {
        assert(ns@.take(i + 1).drop_last() =~= ns@.take(i as int));
        if ns[i].unread {
            r.push(ns[i].clone());
        }
        i += 1;
    }
    assert(ns@.take(i as int) =~= ns@);
    r
}

/// The notification table: its title, which counts all notifications, and
/// the rows of the unread ones from the first one in view on; `selected` is
/// the cursor's position among the unread ones.
pub fn notification_table(notifs: &Vec<Notification>, selected: usize, height: u16) -> (r: (String, Vec<TableRow>))
    ensures
        r.0@ == "Notifications ("@ + decimal(notifs@.len()) + ")"@,
        r.1@.len() == (if table_offset(selected, height) <= unread_only(notifs@).len() {
            unread_only(notifs@).len() - table_offset(selected, height)
        } else {
            0
        }),
        forall|k: int| 0 <= k < r.1@.len() ==> #[trigger] row_view(r.1@[k]) == table_row(
            unread_only(notifs@)[table_offset(selected, height) + k],
            table_offset(selected, height) + k == selected,
        ),
{
    let unread = unread_notifications(notifs);
    let room: usize = if height >= 6 { (height - 6) as usize } else { 0 };
    let offset = selected.saturating_sub(room);
    let mut rows: Vec<TableRow> = Vec::new();
    let mut i = offset;
    while i < unread.len()
        invariant
            offset == table_offset(selected, height),
            unread@ == unread_only(notifs@),
            offset <= i <= unread@.len() || (i == offset && offset > unread@.len()),
            rows@.len() == i - offset,
            forall|k: int| 0 <= k < rows@.len() ==> #[trigger] row_view(rows@[k]) == table_row(
                unread@[offset + k],
                offset + k == selected,
            ),
        decreases unread@.len() - i,
    {
        let n = &unread[i];
        let c = page_color_of(&n.target);
        let (repo_style, type_style) = if n.unread {
            (plain_style(), fg_style(c))
        } else {
            (fg_style(Color::DarkGrey), fg_style(Color::DarkGrey))
        };
        let text = String::from_str(n.target.icon()).concat(" ").concat(n.title.as_str());
        rows.push(TableRow {
            repo: span(n.repository.as_str(), repo_style),
            notification: span_of(text, type_style),
            highlighted: i == selected,
        });
        i += 1;
    }
    let title = String::from_str("Notifications (").concat(decimal_string(notifs.len()).as_str()).concat(")");
    (title, rows)
}

} // verus!
