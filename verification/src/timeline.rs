//! The timeline of an issue or pull request, as it is shown: one block of
//! styled text, or a comment, for each event worth showing.
use vstd::prelude::*;

use crate::github::events::{Event, EventKind, IssueCloser, IssueOrPullRequest, Repository, ReviewState};
use crate::github::User;
use crate::text::{
    badge, badge_style, decimal, decimal_string, fg_style, line_view, plain, plain_style, span,
    span_of, span_view, with_fg, Color, Span, Style,
};

verus! {

/// A comment: a header with its author, and its body, which is Markdown.
pub struct Comment {
    pub header: Span,
    pub body: String,
}

/// What one event of the timeline shows.
pub enum Block {
    /// Lines of styled text.
    Text(Vec<Vec<Span>>),
    Comment(Comment),
    /// A verdict on a pull request: the line that gives it, a blank line,
    /// and the comment with it.
    Review(Vec<Span>, Comment),
    /// An empty line.
    Blank,
}

pub struct EventTimeline {
    pub blocks: Vec<Block>,
}

pub ghost struct CommentView {
    pub header: (Seq<char>, Style),
    pub body: Seq<char>,
}

pub ghost enum BlockView {
    Text(Seq<Seq<(Seq<char>, Style)>>),
    Comment(CommentView),
    /// Pieces shown one under the other.
    Column(Seq<Piece>),
    Blank,
}

/// A piece of a column.
pub ghost enum Piece {
    Line(Seq<(Seq<char>, Style)>),
    Blank,
    Comment(CommentView),
}

/// A verdict line, a blank line, and the comment that came with the verdict.
pub open spec fn verdict_with_comment(verdict: Seq<(Seq<char>, Style)>, comment: CommentView) -> BlockView {
    BlockView::Column(seq![Piece::Line(verdict), Piece::Blank, Piece::Comment(comment)])
}

pub open spec fn comment_view(c: Comment) -> CommentView {
    CommentView { header: span_view(c.header), body: c.body@ }
}

pub open spec fn block_view(b: Block) -> BlockView {
    match b {
        Block::Text(lines) => BlockView::Text(lines@.map_values(|l: Vec<Span>| line_view(l@))),
        Block::Comment(c) => BlockView::Comment(comment_view(c)),
        Block::Review(state, c) => verdict_with_comment(line_view(state@), comment_view(c)),
        Block::Blank => BlockView::Blank,
    }
}

pub open spec fn blocks_view(blocks: Seq<Block>) -> Seq<BlockView> {
    blocks.map_values(|b: Block| block_view(b))
}

/// How a user is shown: `@` and the name.
pub open spec fn at(u: User) -> Seq<char> {
    "@"@ + u.name@
}

pub open spec fn bold() -> Style {
    Style { bold: true, ..plain() }
}

pub open spec fn underlined() -> Style {
    Style { underline: true, ..plain() }
}

pub open spec fn struck() -> Style {
    Style { strikethrough: true, ..plain() }
}

pub open spec fn warning() -> Style {
    Style { fg: Some(Color::Red), italic: true, ..plain() }
}

pub open spec fn comment_header() -> Style {
    Style { fg: Some(Color::Black), bg: Some(Color::Blue), bold: true, ..plain() }
}

/// The comment `body` by `author`.
pub open spec fn comment_of(body: Seq<char>, author: User) -> CommentView {
    CommentView { header: (" "@ + at(author), comment_header()), body }
}

/// One line of plain text.
pub open spec fn say(text: Seq<char>) -> BlockView {
    BlockView::Text(seq![seq![(text, plain())]])
}

pub open spec fn one_line(line: Seq<(Seq<char>, Style)>) -> BlockView {
    BlockView::Text(seq![line])
}

/// A referred issue or pull request on a line of its own: its title, and its number.
pub open spec fn reference_line(title: Seq<char>, number: nat) -> Seq<(Seq<char>, Style)> {
    seq![("   "@, plain()), (title, underlined()), (" #"@ + decimal(number), with_fg(Color::Gray))]
}

pub open spec fn closer_tail(closer: Option<IssueCloser>) -> Seq<(Seq<char>, Style)> {
    match closer {
        Some(IssueCloser::Commit { abbr_oid }) => seq![(" in "@ + abbr_oid@, plain())],
        Some(IssueCloser::PullRequest { number }) => seq![(" in #"@ + decimal(number as nat), plain())],
        None => Seq::empty(),
    }
}

pub open spec fn review_line(state: ReviewState, actor: User) -> Seq<(Seq<char>, Style)> {
    match state {
        ReviewState::Commented => seq![
            (" \u{f441} "@, with_fg(Color::Gray)),
            (at(actor), plain()),
            (" "@, plain()),
            (" reviewed "@, badge(Color::Gray, Color::White)),
            (" changes "@, plain()),
        ],
        ReviewState::Approved => seq![
            (" \u{f4a1} "@, with_fg(Color::Green)),
            (at(actor), plain()),
            (" "@, plain()),
            (" approved "@, badge(Color::Green, Color::Black)),
            (" these changes "@, plain()),
        ],
        ReviewState::ChangesRequested => seq![
            (" \u{f440} "@, with_fg(Color::Red)),
            (at(actor), plain()),
            (" "@, plain()),
            (" requested "@, badge(Color::Red, Color::Black)),
            (" changes "@, plain()),
        ],
        _ => Seq::empty(),
    }
}

pub open spec fn source_name(number: usize, repo: Option<Repository>) -> Seq<char> {
    match repo {
        Some(r) => at(r.owner) + "/"@ + r.name@ + "#"@ + decimal(number as nat),
        None => "#"@ + decimal(number as nat),
    }
}

pub open spec fn title_of(s: IssueOrPullRequest) -> Seq<char> {
    match s {
        IssueOrPullRequest::PullRequest { title, .. } => title@,
        IssueOrPullRequest::Issue { title, .. } => title@,
    }
}

pub open spec fn number_of(s: IssueOrPullRequest) -> usize {
    match s {
        IssueOrPullRequest::PullRequest { number, .. } => number,
        IssueOrPullRequest::Issue { number, .. } => number,
    }
}

/// What an event by `actor` shows, for the events that are shown.
pub open spec fn event_view(actor: User, kind: EventKind) -> BlockView {
    let a = at(actor);
    match kind {
        EventKind::Assigned { assignee } => say(" \u{f415} "@ + a + " assigned "@ + at(assignee)),
        EventKind::Commented { body } => BlockView::Comment(comment_of(body@, actor)),
        EventKind::Unknown(name) => BlockView::Text(seq![seq![("Unhandled event '"@ + name@ + "'"@, warning())]]),
        EventKind::Merged { base_branch } => one_line(seq![
            (" \u{f419} "@, with_fg(Color::Purple)),
            (" Merged "@, badge(Color::Purple, Color::Black)),
            (" by "@, plain()),
            (a, plain()),
            (" into "@, plain()),
            (base_branch@, plain()),
        ]),
        EventKind::Closed { closer } => one_line(seq![
            (" \u{f41d} "@, with_fg(Color::Red)),
            (" Closed "@, badge(Color::Red, Color::Black)),
            (" by "@, plain()),
            (a, plain()),
        ] + closer_tail(closer)),
        EventKind::Reopened => one_line(seq![
            (" \u{f41c} "@, with_fg(Color::Green)),
            (" Reopened "@, badge(Color::Green, Color::Black)),
            (" by "@, plain()),
            (a, plain()),
        ]),
        EventKind::Committed { message_headline, abbreviated_oid } => one_line(seq![
            (" \u{f417} "@, plain()),
            (message_headline@, plain()),
            (" "@, plain()),
            (abbreviated_oid@, with_fg(Color::Gray)),
        ]),
        EventKind::Labeled { label } => one_line(seq![
            (" \u{f412} "@, plain()),
            (a, plain()),
            (" added "@, plain()),
            (label.name@, bold()),
            (" label"@, plain()),
        ]),
        EventKind::Unlabeled { label } => one_line(seq![
            (" \u{f412} "@, plain()),
            (a, plain()),
            (" removed "@, plain()),
            (label.name@, bold()),
            (" label"@, plain()),
        ]),
        EventKind::MarkedAsDuplicate { original } => {
            let (title, number) = match original {
                Some(o) => (title_of(o), number_of(o) as nat),
                None => (Seq::<char>::empty(), 0nat),
            };
            BlockView::Text(seq![
                seq![(" \u{f412} "@, plain()), (a, plain()), (" marked this as a duplicate of"@, plain())],
                reference_line(title, number),
            ])
        },
        EventKind::UnmarkedAsDuplicate => say(" \u{f412} "@ + a + " marked this as not a duplicate"@),
        EventKind::CrossReferenced { source, cross_repository } => BlockView::Text(seq![
            seq![(" \u{f465} Cross referenced by "@, plain()), (a, plain()), (" from"@, plain())],
            seq![
                ("   "@, plain()),
                (title_of(source), underlined()),
                (" "@, plain()),
                (source_name(number_of(source), cross_repository), with_fg(Color::Gray)),
            ],
        ]),
        EventKind::HeadRefForcePushed { before_commit_abbr_oid, after_commit_abbr_oid } => one_line(seq![
            (" \u{f403} "@, plain()),
            (a, plain()),
            (" force-pushed the branch from "@, plain()),
            (before_commit_abbr_oid@, with_fg(Color::Gray)),
            (" to "@, plain()),
            (after_commit_abbr_oid@, with_fg(Color::Gray)),
        ]),
        EventKind::HeadRefDeleted { branch } => say(" \u{f467} "@ + a + " deleted the "@ + branch@ + " branch"@),
        EventKind::Renamed { from, to } => BlockView::Text(seq![
            seq![(" \u{f448} "@, plain()), (a, plain()), (" changed the title"@, plain())],
            seq![("   "@, plain()), (from@, struck())],
            seq![("   "@, plain()), (to@, plain())],
        ]),
        EventKind::Reviewed { state, body } => match body {
            Some(b) if b@.len() > 0 => verdict_with_comment(review_line(state, actor), comment_of(b@, actor)),
            _ => one_line(review_line(state, actor)),
        },
        EventKind::Connected { source } => BlockView::Text(seq![
            seq![(" \u{f44c} "@ + a + " linked a "@ + (if source is PullRequest { "pull request"@ } else { "issue"@ })
                + " that will close this"@, plain())],
            reference_line(title_of(source), number_of(source) as nat),
        ]),
        EventKind::Locked { .. } => say(" \u{f456} "@ + a + " locked and limited conversation to collaborators"@),
        EventKind::Milestoned { title } => say(" \u{f45d} "@ + a + " added this to the "@ + title@ + " milestone"@),
        EventKind::Pinned => say(" \u{f435} "@ + a + " pinned this"@),
        EventKind::Unpinned => say(" \u{f435} "@ + a + " unpinned this"@),
        EventKind::Unassigned { assignee } => say(" \u{f415} "@ + a + " unassigned "@ + at(assignee)),
        EventKind::Unlocked => say(" \u{f456} "@ + a + " unlocked this"@),
        EventKind::Referenced { commit_msg_summary, cross_repository } => {
            let repo_name = match cross_repository {
                Some(r) => " to "@ + at(r.owner) + "/"@ + r.name@ + " "@,
                None => " "@,
            };
            BlockView::Text(seq![
                seq![(" \u{f465} "@ + a + " added a commit"@ + repo_name + "that referenced this"@, plain())],
                seq![("   "@ + commit_msg_summary@, plain())],
            ])
        },
        EventKind::MarkedAsDraft => say(" \u{f49b} "@ + a + " marked this pull request as draft"@),
        EventKind::MarkedAsReadyForReview => say(" \u{f441} "@ + a + " marked this pull request as ready for review"@),
        EventKind::ReviewRequested { requested_reviewer } => say(" \u{f441} "@ + a + " requested a review from "@ + at(requested_reviewer)),
        EventKind::Mentioned | EventKind::Subscribed => say(Seq::empty()),
    }
}

/// A pull request was merged among `events`.
pub open spec fn merged_among(events: Seq<Event>) -> bool {
    exists|j: int| 0 <= j < events.len() && #[trigger] events[j].kind is Merged
}

/// Mentions and subscriptions are not shown, nor a closing that follows a
/// merge: GitHub reports one with every merge.
pub open spec fn hidden(kind: EventKind, after_merge: bool) -> bool {
    kind is Mentioned || kind is Subscribed || (kind is Closed && after_merge)
}

/// What the timeline of `events` shows, in order: each event that is shown,
/// followed by a blank line.
pub open spec fn timeline_view(events: Seq<Event>) -> Seq<BlockView>
    decreases events.len(),
{
    if events.len() == 0 {
        Seq::empty()
    } else {
        let before = events.drop_last();
        let e = events.last();
        if hidden(e.kind, merged_among(before)) {
            timeline_view(before)
        } else {
            timeline_view(before).push(event_view(e.actor, e.kind)).push(BlockView::Blank)
        }
    }
}

} // verus!

verus! {

fn bold_style() -> (r: Style)
    ensures
        r == bold(),
{
    Style { bold: true, ..plain_style() }
}

fn underlined_style() -> (r: Style)
    ensures
        r == underlined(),
{
    Style { underline: true, ..plain_style() }
}

fn struck_style() -> (r: Style)
    ensures
        r == struck(),
{
    Style { strikethrough: true, ..plain_style() }
}

fn at_string(u: &User) -> (r: String)
    ensures
        r@ == at(*u),
{
    u.to_string()
}

fn line_of(spans: Vec<Span>) -> (r: Block)
    ensures
        block_view(r) == one_line(line_view(spans@)),
{
    let lines = vec![spans];
    let r = Block::Text(lines);
    assert(lines@.map_values(|l: Vec<Span>| line_view(l@)) =~= seq![line_view(spans@)]);
    r
}

fn lines_of(first: Vec<Span>, second: Vec<Span>) -> (r: Block)
    ensures
        block_view(r) == BlockView::Text(seq![line_view(first@), line_view(second@)]),
{
    let lines = vec![first, second];
    let r = Block::Text(lines);
    assert(lines@.map_values(|l: Vec<Span>| line_view(l@)) =~= seq![line_view(first@), line_view(second@)]);
    r
}

fn say_block(text: String) -> (r: Block)
    ensures
        block_view(r) == say(text@),
{
    let line = vec![span_of(text, plain_style())];
    assert(line_view(line@) =~= seq![(text@, plain())]);
    line_of(line)
}

proof fn lemma_line2(a: Span, b: Span, line: Seq<Span>)
    requires
        line == seq![a, b],
    ensures
        line_view(line) == seq![span_view(a), span_view(b)],
{
    assert(line_view(line) =~= seq![span_view(a), span_view(b)]);
}

proof fn lemma_line3(a: Span, b: Span, c: Span, line: Seq<Span>)
    requires
        line == seq![a, b, c],
    ensures
        line_view(line) == seq![span_view(a), span_view(b), span_view(c)],
{
    assert(line_view(line) =~= seq![span_view(a), span_view(b), span_view(c)]);
}

proof fn lemma_line4(a: Span, b: Span, c: Span, d: Span, line: Seq<Span>)
    requires
        line == seq![a, b, c, d],
    ensures
        line_view(line) == seq![span_view(a), span_view(b), span_view(c), span_view(d)],
{
    assert(line_view(line) =~= seq![span_view(a), span_view(b), span_view(c), span_view(d)]);
}

proof fn lemma_line5(a: Span, b: Span, c: Span, d: Span, e: Span, line: Seq<Span>)
    requires
        line == seq![a, b, c, d, e],
    ensures
        line_view(line) == seq![span_view(a), span_view(b), span_view(c), span_view(d), span_view(e)],
{
    assert(line_view(line) =~= seq![span_view(a), span_view(b), span_view(c), span_view(d), span_view(e)]);
}

proof fn lemma_line6(a: Span, b: Span, c: Span, d: Span, e: Span, f: Span, line: Seq<Span>)
    requires
        line == seq![a, b, c, d, e, f],
    ensures
        line_view(line) == seq![span_view(a), span_view(b), span_view(c), span_view(d), span_view(e), span_view(f)],
{
    assert(line_view(line) =~= seq![span_view(a), span_view(b), span_view(c), span_view(d), span_view(e), span_view(f)]);
}

fn line2(a: Span, b: Span) -> (r: Vec<Span>)
    ensures
        line_view(r@) == seq![span_view(a), span_view(b)],
{
    let r = vec![a, b];
    proof { lemma_line2(a, b, r@); }
    r
}

fn line3(a: Span, b: Span, c: Span) -> (r: Vec<Span>)
    ensures
        line_view(r@) == seq![span_view(a), span_view(b), span_view(c)],
{
    let r = vec![a, b, c];
    proof { lemma_line3(a, b, c, r@); }
    r
}

fn line4(a: Span, b: Span, c: Span, d: Span) -> (r: Vec<Span>)
    ensures
        line_view(r@) == seq![span_view(a), span_view(b), span_view(c), span_view(d)],
{
    let r = vec![a, b, c, d];
    proof { lemma_line4(a, b, c, d, r@); }
    r
}

fn line5(a: Span, b: Span, c: Span, d: Span, e: Span) -> (r: Vec<Span>)
    ensures
        line_view(r@) == seq![span_view(a), span_view(b), span_view(c), span_view(d), span_view(e)],
{
    let r = vec![a, b, c, d, e];
    proof { lemma_line5(a, b, c, d, e, r@); }
    r
}

fn line6(a: Span, b: Span, c: Span, d: Span, e: Span, f: Span) -> (r: Vec<Span>)
    ensures
        line_view(r@) == seq![span_view(a), span_view(b), span_view(c), span_view(d), span_view(e), span_view(f)],
{
    let r = vec![a, b, c, d, e, f];
    proof { lemma_line6(a, b, c, d, e, f, r@); }
    r
}

} // verus!

verus! {

impl Comment {
    /// The comment `body` by `author`.
    pub fn new(body: String, author: User) -> (r: Comment)
        ensures
            comment_view(r) == comment_of(body@, author),
    {
        let header_style = Style { fg: Some(Color::Black), bg: Some(Color::Blue), bold: true, ..plain_style() };
        let header = String::from_str(" ").concat(at_string(&author).as_str());
        Comment { header: span_of(header, header_style), body }
    }
}

fn str_of(s: &String) -> (r: String)
    ensures
        r@ == s@,
{
    s.clone()
}

fn reference_spans(title: &str, number: usize) -> (r: Vec<Span>)
    ensures
        line_view(r@) == reference_line(title@, number as nat),
{
    let num = String::from_str(" #").concat(decimal_string(number).as_str());
    line3(span("   ", plain_style()), span(title, underlined_style()), span_of(num, fg_style(Color::Gray)))
}

fn closed_block(a: &String, closer: &Option<IssueCloser>) -> (r: Block)
    ensures
        block_view(r) == one_line(seq![
            (" \u{f41d} "@, with_fg(Color::Red)),
            (" Closed "@, badge(Color::Red, Color::Black)),
            (" by "@, plain()),
            (a@, plain()),
        ] + closer_tail(*closer)),
{
    let mut line = line4(
        span(" \u{f41d} ", fg_style(Color::Red)),
        span(" Closed ", badge_style(Color::Red, Color::Black)),
        span(" by ", plain_style()),
        span(a.as_str(), plain_style()),
    );
    let ghost before = line@;
    match closer {
        Some(IssueCloser::Commit { abbr_oid }) => {
            line.push(span_of(String::from_str(" in ").concat(abbr_oid.as_str()), plain_style()));
            assert(line_view(line@) =~= line_view(before) + closer_tail(*closer));
        },
        Some(IssueCloser::PullRequest { number }) => {
            line.push(span_of(String::from_str(" in #").concat(decimal_string(*number).as_str()), plain_style()));
            assert(line_view(line@) =~= line_view(before) + closer_tail(*closer));
        },
        None => {
            assert(line_view(line@) =~= line_view(before) + closer_tail(*closer));
        },
    }
    line_of(line)
}

fn review_spans(state: &ReviewState, a: &String, actor: &User) -> (r: Vec<Span>)
    requires
        a@ == at(*actor),
    ensures
        line_view(r@) == review_line(*state, *actor),
{
    match state {
        ReviewState::Commented => line5(
            span(" \u{f441} ", fg_style(Color::Gray)),
            span(a.as_str(), plain_style()),
            span(" ", plain_style()),
            span(" reviewed ", badge_style(Color::Gray, Color::White)),
            span(" changes ", plain_style()),
        ),
        ReviewState::Approved => line5(
            span(" \u{f4a1} ", fg_style(Color::Green)),
            span(a.as_str(), plain_style()),
            span(" ", plain_style()),
            span(" approved ", badge_style(Color::Green, Color::Black)),
            span(" these changes ", plain_style()),
        ),
        ReviewState::ChangesRequested => line5(
            span(" \u{f440} ", fg_style(Color::Red)),
            span(a.as_str(), plain_style()),
            span(" ", plain_style()),
            span(" requested ", badge_style(Color::Red, Color::Black)),
            span(" changes ", plain_style()),
        ),
        _ => {
            let r: Vec<Span> = Vec::new();
            assert(line_view(r@) =~= Seq::empty());
            r
        },
    }
}

fn reviewed_block(state: &ReviewState, body: &Option<String>, a: &String, actor: &User) -> (r: Block)
    requires
        a@ == at(*actor),
    ensures
        block_view(r) == (match *body {
            Some(b) if b@.len() > 0 => verdict_with_comment(review_line(*state, *actor), comment_of(b@, *actor)),
            _ => one_line(review_line(*state, *actor)),
        }),
{
    let line = review_spans(state, a, actor);
    match body {
        Some(b) => {
            if b.unicode_len() > 0 {
                let comment = Comment::new(b.clone(), actor.clone());
                return Block::Review(line, comment);
            }
        },
        None => {},
    }
    line_of(line)
}

fn source_string(number: usize, repo: &Option<Repository>) -> (r: String)
    ensures
        r@ == source_name(number, *repo),
{
    match repo {
        Some(r) => at_string(&r.owner).concat("/").concat(r.name.as_str()).concat("#").concat(
            decimal_string(number).as_str(),
        ),
        None => String::from_str("#").concat(decimal_string(number).as_str()),
    }
}

fn cross_referenced_block(a: &String, source: &IssueOrPullRequest, repo: &Option<Repository>) -> (r: Block)
    ensures
        block_view(r) == BlockView::Text(seq![
            seq![(" \u{f465} Cross referenced by "@, plain()), (a@, plain()), (" from"@, plain())],
            seq![
                ("   "@, plain()),
                (title_of(*source), underlined()),
                (" "@, plain()),
                (source_name(number_of(*source), *repo), with_fg(Color::Gray)),
            ],
        ]),
{
    let first = line3(
        span(" \u{f465} Cross referenced by ", plain_style()),
        span(a.as_str(), plain_style()),
        span(" from", plain_style()),
    );
    let second = line4(
        span("   ", plain_style()),
        span(source.title(), underlined_style()),
        span(" ", plain_style()),
        span_of(source_string(source.number(), repo), fg_style(Color::Gray)),
    );
    lines_of(first, second)
}

fn duplicate_block(a: &String, original: &Option<IssueOrPullRequest>) -> (r: Block)
    ensures
        block_view(r) == ({
            let (title, number) = match *original {
                Some(o) => (title_of(o), number_of(o) as nat),
                None => (Seq::<char>::empty(), 0nat),
            };
            BlockView::Text(seq![
                seq![(" \u{f412} "@, plain()), (a@, plain()), (" marked this as a duplicate of"@, plain())],
                reference_line(title, number),
            ])
        }),
{
    let first = line3(
        span(" \u{f412} ", plain_style()),
        span(a.as_str(), plain_style()),
        span(" marked this as a duplicate of", plain_style()),
    );
    let second = match original {
        Some(o) => {
            let t = o.title();
            assert(t@ == title_of(*o));
            reference_spans(t, o.number())
        },
        None => {
            proof {
                reveal_strlit("");
            }
            let empty = "";
            assert(empty@ =~= Seq::<char>::empty());
            let r = reference_spans(empty, 0);
            assert(line_view(r@) == reference_line(Seq::<char>::empty(), 0nat));
            r
        },
    };
    lines_of(first, second)
}

fn renamed_block(a: &String, from: &String, to: &String) -> (r: Block)
    ensures
        block_view(r) == BlockView::Text(seq![
            seq![(" \u{f448} "@, plain()), (a@, plain()), (" changed the title"@, plain())],
            seq![("   "@, plain()), (from@, struck())],
            seq![("   "@, plain()), (to@, plain())],
        ]),
{
    let first = line3(span(" \u{f448} ", plain_style()), span(a.as_str(), plain_style()), span(" changed the title", plain_style()));
    let second = line2(span("   ", plain_style()), span(from.as_str(), struck_style()));
    let third = line2(span("   ", plain_style()), span(to.as_str(), plain_style()));
    let lines = vec![first, second, third];
    let r = Block::Text(lines);
    assert(lines@.map_values(|l: Vec<Span>| line_view(l@)) =~= seq![line_view(first@), line_view(second@), line_view(third@)]);
    r
}

fn connected_block(a: &String, source: &IssueOrPullRequest) -> (r: Block)
    ensures
        block_view(r) == BlockView::Text(seq![
            seq![(" \u{f44c} "@ + a@ + " linked a "@ + (if *source is PullRequest { "pull request"@ } else { "issue"@ })
                + " that will close this"@, plain())],
            reference_line(title_of(*source), number_of(*source) as nat),
        ]),
{
    let kind = match source {
        IssueOrPullRequest::PullRequest { .. } => "pull request",
        IssueOrPullRequest::Issue { .. } => "issue",
    };
    let text = String::from_str(" \u{f44c} ").concat(a.as_str()).concat(" linked a ").concat(kind).concat(
        " that will close this",
    );
    let first = vec![span_of(text, plain_style())];
    assert(line_view(first@) =~= seq![(text@, plain())]);
    lines_of(first, reference_spans(source.title(), source.number()))
}

fn referenced_block(a: &String, summary: &String, repo: &Option<Repository>) -> (r: Block)
    ensures
        block_view(r) == ({
            let repo_name = match *repo {
                Some(r) => " to "@ + at(r.owner) + "/"@ + r.name@ + " "@,
                None => " "@,
            };
            BlockView::Text(seq![
                seq![(" \u{f465} "@ + a@ + " added a commit"@ + repo_name + "that referenced this"@, plain())],
                seq![("   "@ + summary@, plain())],
            ])
        }),
{
    let repo_name = match repo {
        Some(r) => String::from_str(" to ").concat(at_string(&r.owner).as_str()).concat("/").concat(
            r.name.as_str(),
        ).concat(" "),
        None => String::from_str(" "),
    };
    let text = String::from_str(" \u{f465} ").concat(a.as_str()).concat(" added a commit").concat(
        repo_name.as_str(),
    ).concat("that referenced this");
    let first = vec![span_of(text, plain_style())];
    assert(line_view(first@) =~= seq![(text@, plain())]);
    let second = vec![span_of(String::from_str("   ").concat(summary.as_str()), plain_style())];
    assert(line_view(second@) =~= seq![("   "@ + summary@, plain())]);
    lines_of(first, second)
}

} // verus!

verus! {

/// What an event by `actor` shows; mentions and subscriptions show nothing
/// and are not asked about.
fn event_block(actor: &User, kind: &EventKind) -> (r: Block)
    requires
        !(kind is Mentioned || kind is Subscribed),
    ensures
        block_view(r) == event_view(*actor, *kind),
{
    let a = at_string(actor);
    match kind {
        EventKind::Assigned { assignee } => say_block(
            String::from_str(" \u{f415} ").concat(a.as_str()).concat(" assigned ").concat(at_string(assignee).as_str()),
        ),
        EventKind::Commented { body } => Block::Comment(Comment::new(str_of(body), actor.clone())),
        EventKind::Unknown(name) => {
            let line = vec![span_of(
                String::from_str("Unhandled event '").concat(name).concat("'"),
                Style { fg: Some(Color::Red), italic: true, ..plain_style() },
            )];
            proof {
                let s = line@[0];
                assert(line_view(line@) =~= seq![span_view(s)]);
            }
            line_of(line)
        },
        EventKind::Merged { base_branch } => line_of(line6(
            span(" \u{f419} ", fg_style(Color::Purple)),
            span(" Merged ", badge_style(Color::Purple, Color::Black)),
            span(" by ", plain_style()),
            span(a.as_str(), plain_style()),
            span(" into ", plain_style()),
            span(base_branch.as_str(), plain_style()),
        )),
        EventKind::Closed { closer } => closed_block(&a, closer),
        EventKind::Reopened => line_of(line4(
            span(" \u{f41c} ", fg_style(Color::Green)),
            span(" Reopened ", badge_style(Color::Green, Color::Black)),
            span(" by ", plain_style()),
            span(a.as_str(), plain_style()),
        )),
        EventKind::Committed { message_headline, abbreviated_oid } => line_of(line4(
            span(" \u{f417} ", plain_style()),
            span(message_headline.as_str(), plain_style()),
            span(" ", plain_style()),
            span(abbreviated_oid.as_str(), fg_style(Color::Gray)),
        )),
        EventKind::Labeled { label } => line_of(line5(
            span(" \u{f412} ", plain_style()),
            span(a.as_str(), plain_style()),
            span(" added ", plain_style()),
            span(label.name.as_str(), bold_style()),
            span(" label", plain_style()),
        )),
        EventKind::Unlabeled { label } => line_of(line5(
            span(" \u{f412} ", plain_style()),
            span(a.as_str(), plain_style()),
            span(" removed ", plain_style()),
            span(label.name.as_str(), bold_style()),
            span(" label", plain_style()),
        )),
        EventKind::MarkedAsDuplicate { original } => duplicate_block(&a, original),
        EventKind::UnmarkedAsDuplicate => say_block(
            String::from_str(" \u{f412} ").concat(a.as_str()).concat(" marked this as not a duplicate"),
        ),
        EventKind::CrossReferenced { source, cross_repository } => cross_referenced_block(&a, source, cross_repository),
        EventKind::HeadRefForcePushed { before_commit_abbr_oid, after_commit_abbr_oid } => line_of(line6(
            span(" \u{f403} ", plain_style()),
            span(a.as_str(), plain_style()),
            span(" force-pushed the branch from ", plain_style()),
            span(before_commit_abbr_oid.as_str(), fg_style(Color::Gray)),
            span(" to ", plain_style()),
            span(after_commit_abbr_oid.as_str(), fg_style(Color::Gray)),
        )),
        EventKind::HeadRefDeleted { branch } => say_block(
            String::from_str(" \u{f467} ").concat(a.as_str()).concat(" deleted the ").concat(branch.as_str()).concat(" branch"),
        ),
        EventKind::Renamed { from, to } => renamed_block(&a, from, to),
        EventKind::Reviewed { state, body } => reviewed_block(state, body, &a, actor),
        EventKind::Connected { source } => connected_block(&a, source),
        EventKind::Locked { .. } => say_block(
            String::from_str(" \u{f456} ").concat(a.as_str()).concat(" locked and limited conversation to collaborators"),
        ),
        EventKind::Milestoned { title } => say_block(
            String::from_str(" \u{f45d} ").concat(a.as_str()).concat(" added this to the ").concat(title.as_str()).concat(
                " milestone",
            ),
        ),
        EventKind::Pinned => say_block(String::from_str(" \u{f435} ").concat(a.as_str()).concat(" pinned this")),
        EventKind::Unpinned => say_block(String::from_str(" \u{f435} ").concat(a.as_str()).concat(" unpinned this")),
        EventKind::Unassigned { assignee } => say_block(
            String::from_str(" \u{f415} ").concat(a.as_str()).concat(" unassigned ").concat(at_string(assignee).as_str()),
        ),
        EventKind::Unlocked => say_block(String::from_str(" \u{f456} ").concat(a.as_str()).concat(" unlocked this")),
        EventKind::Referenced { commit_msg_summary, cross_repository } => referenced_block(
            &a,
            commit_msg_summary,
            cross_repository,
        ),
        EventKind::MarkedAsDraft => say_block(
            String::from_str(" \u{f49b} ").concat(a.as_str()).concat(" marked this pull request as draft"),
        ),
        EventKind::MarkedAsReadyForReview => say_block(
            String::from_str(" \u{f441} ").concat(a.as_str()).concat(" marked this pull request as ready for review"),
        ),
        EventKind::ReviewRequested { requested_reviewer } => say_block(
            String::from_str(" \u{f441} ").concat(a.as_str()).concat(" requested a review from ").concat(
                at_string(requested_reviewer).as_str(),
            ),
        ),
        EventKind::Mentioned | EventKind::Subscribed => say_block(String::new()),
    }
}

impl EventTimeline {
    /// The timeline of `events`, oldest first: a block for each, each
    /// followed by a blank line, but for mentions, subscriptions and a
    /// closing that follows a merge.
    pub fn new(events: Vec<Event>) -> (r: EventTimeline)
        ensures
            blocks_view(r.blocks@) == timeline_view(events@),
    {
        let mut blocks: Vec<Block> = Vec::new();
        let mut saw_merged_event = false;
        let mut i: usize = 0;
        while i < events.len()
            invariant
                i <= events@.len(),
                saw_merged_event == merged_among(events@.take(i as int)),
                blocks_view(blocks@) == timeline_view(events@.take(i as int)),
            decreases events.len() - i,
        {
            let event = &events[i];
            let ghost prefix = events@.take(i as int);
            let ghost next = events@.take(i + 1);
            assert(next.drop_last() =~= prefix);
            assert(next.last() == events@[i as int]);
            let hide = match event.kind {
                EventKind::Mentioned | EventKind::Subscribed => true,
                EventKind::Closed { .. } => saw_merged_event,
                _ => false,
            };
            if !hide {
                let block = event_block(&event.actor, &event.kind);
                let ghost old_blocks = blocks@;
                blocks.push(block);
                blocks.push(Block::Blank);
                assert(blocks_view(blocks@) =~= blocks_view(old_blocks).push(block_view(block)).push(BlockView::Blank));
            }
            if matches!(event.kind, EventKind::Merged { .. }) {
                saw_merged_event = true;
                assert(next[i as int].kind is Merged);
            }
            assert(saw_merged_event == merged_among(next)) by {
                if merged_among(next) && !merged_among(prefix) {
                    let j = choose|j: int| 0 <= j < next.len() && #[trigger] next[j].kind is Merged;
                    if j < i {
                        assert(prefix[j].kind is Merged);
                    }
                }
                if merged_among(prefix) {
                    let j = choose|j: int| 0 <= j < prefix.len() && #[trigger] prefix[j].kind is Merged;
                    assert(next[j].kind is Merged);
                }
            }
            i += 1;
        }
        assert(events@.take(i as int) =~= events@);
        EventTimeline { blocks }
    }
}

} // verus!
