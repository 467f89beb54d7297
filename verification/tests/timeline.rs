use octerm::github::events::{Event, EventKind, IssueCloser, IssueOrPullRequest, Label, Repository, ReviewState};
use octerm::github::User;
use octerm::text::{Color, Span};
use octerm::timeline::{Block, Comment, EventTimeline};

fn by(kind: EventKind, who: &str) -> Event {
    kind.with(User::new(who), 0)
}

fn texts(line: &[Span]) -> Vec<String> {
    line.iter().map(|s| s.text.clone()).collect()
}

fn joined(line: &[Span]) -> String {
    texts(line).concat()
}

/// The blocks of the events, without the blank lines after each.
fn shown(t: &EventTimeline) -> Vec<&Block> {
    assert_eq!(t.blocks.len() % 2, 0);
    for (i, b) in t.blocks.iter().enumerate() {
        assert_eq!(matches!(b, Block::Blank), i % 2 == 1);
    }
    t.blocks.iter().step_by(2).collect()
}

fn single_line(block: &Block) -> String {
    match block {
        Block::Text(lines) => {
            assert_eq!(lines.len(), 1);
            joined(&lines[0])
        }
        _ => panic!("not a line of text"),
    }
}

#[test]
fn timeline_of_assignment() {
    let t = EventTimeline::new(vec![by(EventKind::Assigned { assignee: User::new("bob") }, "alice")]);
    assert_eq!(shown(&t).len(), 1);
    assert_eq!(single_line(shown(&t)[0]), " \u{f415} @alice assigned @bob");
}

#[test]
fn timeline_hides_mentions_and_subscriptions() {
    let t = EventTimeline::new(vec![
        EventKind::Mentioned.anonymous(),
        by(EventKind::Pinned, "alice"),
        EventKind::Subscribed.anonymous(),
    ]);
    assert_eq!(shown(&t).len(), 1);
    assert_eq!(single_line(shown(&t)[0]), " \u{f435} @alice pinned this");
}

#[test]
fn timeline_hides_the_close_that_follows_a_merge() {
    let closed = || by(EventKind::Closed { closer: None }, "alice");
    let without_merge = EventTimeline::new(vec![closed()]);
    assert_eq!(shown(&without_merge).len(), 1);
    let with_merge = EventTimeline::new(vec![
        by(EventKind::Merged { base_branch: String::from("main") }, "alice"),
        closed(),
    ]);
    assert_eq!(shown(&with_merge).len(), 1);
    match shown(&with_merge)[0] {
        Block::Text(lines) => {
            assert_eq!(texts(&lines[0]), vec![" \u{f419} ", " Merged ", " by ", "@alice", " into ", "main"]);
            assert!(matches!(lines[0][1].style.bg, Some(Color::Purple)));
            assert!(matches!(lines[0][1].style.fg, Some(Color::Black)));
        }
        _ => panic!("a merge is a line of text"),
    }
}

#[test]
fn timeline_close_names_its_closer() {
    let t = EventTimeline::new(vec![
        by(EventKind::Closed { closer: Some(IssueCloser::PullRequest { number: 42 }) }, "bob"),
        by(EventKind::Closed { closer: Some(IssueCloser::Commit { abbr_oid: String::from("abc123") }) }, "bob"),
    ]);
    assert_eq!(single_line(shown(&t)[0]), " \u{f41d}  Closed  by @bob in #42");
    assert_eq!(single_line(shown(&t)[1]), " \u{f41d}  Closed  by @bob in abc123");
}

#[test]
fn timeline_comment_and_review() {
    let t = EventTimeline::new(vec![
        by(EventKind::Commented { body: String::from("hello") }, "carol"),
        by(EventKind::Reviewed { state: ReviewState::Approved, body: Some(String::from("nice")) }, "dave"),
        by(EventKind::Reviewed { state: ReviewState::ChangesRequested, body: Some(String::new()) }, "erin"),
    ]);
    assert_eq!(shown(&t).len(), 3);
    assert_eq!(t.blocks.len(), 6);
    match shown(&t)[0] {
        Block::Comment(Comment { header, body }) => {
            assert_eq!(header.text, " @carol");
            assert!(header.style.bold);
            assert_eq!(body, "hello");
        }
        _ => panic!("a comment"),
    }
    match shown(&t)[1] {
        Block::Review(line, comment) => {
            assert_eq!(joined(line), " \u{f4a1} @dave  approved  these changes ");
            assert_eq!(comment.body, "nice");
        }
        _ => panic!("a review with a comment"),
    }
    assert_eq!(single_line(shown(&t)[2]), " \u{f440} @erin  requested  changes ");
}

#[test]
fn timeline_references_and_labels() {
    let source = IssueOrPullRequest::PullRequest { number: 12, title: String::from("Fix it") };
    let repo = Repository { name: String::from("meow"), owner: User::new("sudormrfbin") };
    let t = EventTimeline::new(vec![
        by(EventKind::CrossReferenced { source, cross_repository: Some(repo) }, "frank"),
        by(EventKind::Labeled { label: Label { name: String::from("bug") } }, "gina"),
        by(EventKind::MarkedAsDuplicate { original: None }, "hal"),
        by(EventKind::Unknown("Foo"), "ivy"),
    ]);
    match shown(&t)[0] {
        Block::Text(lines) => {
            assert_eq!(joined(&lines[0]), " \u{f465} Cross referenced by @frank from");
            assert_eq!(texts(&lines[1]), vec!["   ", "Fix it", " ", "@sudormrfbin/meow#12"]);
        }
        _ => panic!("two lines"),
    }
    assert_eq!(single_line(shown(&t)[1]), " \u{f412} @gina added bug label");
    match shown(&t)[2] {
        Block::Text(lines) => assert_eq!(joined(&lines[1]), "    #0"),
        _ => panic!("two lines"),
    }
    assert_eq!(single_line(shown(&t)[3]), "Unhandled event 'Foo'");
}

#[test]
fn comment_new_shows_its_author() {
    let c = Comment::new(String::from("text"), User::new("zed"));
    assert_eq!(c.header.text, " @zed");
    assert!(matches!(c.header.style.bg, Some(Color::Blue)));
    assert_eq!(c.body, "text");
}
