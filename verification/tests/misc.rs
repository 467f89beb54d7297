use octerm::actions;
use octerm::app::App;
use octerm::error::{str_contains, Error};
use octerm::events::NotifEvent;
use octerm::github::events::{Event, EventKind};
use octerm::github::{
    Discussion, DiscussionMeta, DiscussionReplyToSuggestedAnswer, DiscussionState, DiscussionSuggestedAnswer, Issue,
    IssueClosedReason, IssueMeta, IssueState, Notification, NotificationTarget, ReleaseMeta, RepoMeta, User,
};
use octerm::keybind;
use octerm::text::{decimal_string, Color, Span};
use octerm::ui::Route;
use octerm::views::{notification_item_spans, DiscussionView, ReleaseView, TargetView};

fn repo() -> RepoMeta {
    RepoMeta { name: String::from("octerm"), owner: String::from("sudormrfbin") }
}

fn issue_meta(state: IssueState) -> IssueMeta {
    IssueMeta {
        repo: repo(),
        title: String::from("Crash on start"),
        body: String::from("It crashes."),
        number: 31,
        author: User::new("alice"),
        state,
        created_at: 5,
    }
}

fn notification(id: u64, unread: bool) -> Notification {
    Notification {
        id,
        repository: String::from("octerm"),
        title: String::from("Crash on start"),
        unread,
        updated_at: 0,
        target: NotificationTarget::Issue(issue_meta(IssueState::Open)),
    }
}

fn joined(spans: &[Span]) -> String {
    spans.iter().map(|s| s.text.clone()).collect::<Vec<_>>().concat()
}

fn app(n: usize) -> App {
    App::new((0..n as u64).map(|i| notification(i, true)).collect())
}

#[test]
fn decimal_string_writes_numbers() {
    assert_eq!(decimal_string(0), "0");
    assert_eq!(decimal_string(7), "7");
    assert_eq!(decimal_string(1204), "1204");
    assert_eq!(decimal_string(usize::MAX), usize::MAX.to_string());
}

#[test]
fn error_messages() {
    assert_eq!(Error::Authentication.to_string(), "authentication with github failed");
    assert_eq!(
        Error::HtmlUrlNotFound { api_url: String::from("https://api/x") }.to_string(),
        "target html url for https://api/x not found"
    );
    assert_eq!(Error::BrowserNotAvailable.to_string(), "could not open browser");
}

#[test]
fn error_from_github_tells_rate_limits_apart() {
    let limited = Error::from_github(Some("API rate limit exceeded for user"), String::from("cause"));
    assert!(matches!(limited, Error::GitHubRateLimitExceeded(ref c) if c == "cause"));
    assert_eq!(limited.to_string(), "github api rate limit exceeded");
    let other = Error::from_github(Some("Not Found"), String::from("cause"));
    assert!(matches!(other, Error::GitHub(_)));
    assert!(matches!(Error::from_github(None, String::new()), Error::GitHub(_)));
}

#[test]
fn str_contains_finds_substrings() {
    assert!(str_contains("abcabd", "abd"));
    assert!(str_contains("abc", ""));
    assert!(!str_contains("ab", "abc"));
    assert!(!str_contains("", "a"));
}

#[test]
fn actions_scroll_down_then_up_returns() {
    let mut a = app(4);
    actions::scroll_down(&mut a).unwrap();
    assert_eq!(a.state.selected_notification_index, 1);
    actions::scroll_up(&mut a).unwrap();
    assert_eq!(a.state.selected_notification_index, 0);
    actions::goto_end(&mut a).unwrap();
    assert_eq!(a.state.selected_notification_index, 3);
    actions::scroll_down(&mut a).unwrap();
    assert_eq!(a.state.selected_notification_index, 3);
    actions::goto_begin(&mut a).unwrap();
    actions::goto_begin(&mut a).unwrap();
    assert_eq!(a.state.selected_notification_index, 0);
}

#[test]
fn actions_open_and_quit() {
    let mut a = app(2);
    actions::open(&mut a).unwrap();
    assert!(matches!(a.state.route, Route::NotifTarget(ref n) if n.id == 0));
    actions::scroll_down(&mut a).unwrap();
    assert_eq!(a.state.target_scroll, 1);
    actions::quit(&mut a).unwrap();
    assert!(matches!(a.state.route, Route::Notifications));
    assert_eq!(a.state.target_scroll, 0);
    assert!(!a.state.should_quit);
    actions::quit(&mut a).unwrap();
    assert!(a.state.should_quit);
}

#[test]
fn actions_need_a_notification() {
    let mut a = app(0);
    assert_eq!(actions::open(&mut a), Err(String::from("Failed to get the current notification")));
    assert_eq!(actions::mark_as_read(&mut a), Err(String::from("Failed to get the current notification")));
    actions::refresh(&mut a).unwrap();
    assert!(matches!(a.take_events()[..], [NotifEvent::Refresh]));
}

#[test]
fn keybind_mark_as_read_takes_the_notification_off() {
    let mut a = app(3);
    keybind::actions::goto_end(&mut a).unwrap();
    assert_eq!(
        keybind::actions::mark_as_read(&mut a, false),
        Err(String::from("Failed to mark notification as read"))
    );
    assert_eq!(a.github.notif.len(), 3);
    assert_eq!(a.state.selected_notification_index, 2);
    keybind::actions::mark_as_read(&mut a, true).unwrap();
    assert_eq!(a.github.notif.len(), 2);
    assert_eq!(a.state.selected_notification_index, 1);
    assert!(a.take_events().is_empty());
    keybind::actions::previous_item(&mut a).unwrap();
    keybind::actions::previous_item(&mut a).unwrap();
    assert_eq!(a.state.selected_notification_index, 0);
    keybind::actions::next_item(&mut a).unwrap();
    assert_eq!(a.state.selected_notification_index, 1);
}

#[test]
fn views_notification_line() {
    let n = notification(1, true);
    let spans = n.to_colored_string();
    assert_eq!(joined(&spans), "octerm#31: \u{f41b} Crash on start");
    assert!(matches!(spans[1].style.fg, Some(Color::DarkGrey)));
    assert!(matches!(spans[3].style.fg, Some(Color::Green)));
    let item = notification_item_spans(&n);
    assert_eq!(joined(&item), "octerm: \u{f41b} Crash on start");
    let read = notification_item_spans(&notification(1, false));
    assert!(matches!(read[0].style.fg, Some(Color::Gray)));
    assert!(matches!(read[1].style.fg, Some(Color::Gray)));
}

#[test]
fn views_issue_starts_with_its_description() {
    let issue = Issue::new(
        issue_meta(IssueState::Closed(IssueClosedReason::NotPlanned)),
        vec![EventKind::Reopened.with(User::new("bob"), 9)],
    );
    let view = TargetView::from_issue(issue);
    assert_eq!(joined(&view.header), " Closed  Crash on start #31");
    assert!(matches!(view.header[0].style.bg, Some(Color::Red)));
    assert_eq!(view.timeline.blocks.len(), 4);
    assert!(matches!(view.timeline.blocks[1], octerm::timeline::Block::Blank));
    assert!(matches!(&view.timeline.blocks[0], octerm::timeline::Block::Comment(c) if c.body == "It crashes."));
}

#[test]
fn views_release_and_discussion() {
    let release = ReleaseMeta {
        title: String::from("v3"),
        body: String::from("*new*"),
        author: String::from("dora"),
        tag_name: String::from("v3.0"),
    };
    let view = ReleaseView::from_release(release);
    assert!(view.title.style.bold);
    assert_eq!(joined(&view.byline), "Released by @dora");
    assert_eq!(view.body.blocks.len(), 1);

    let reply = DiscussionReplyToSuggestedAnswer { author: User::new("eve"), body: String::from("thanks"), created_at: 0 };
    let answer = DiscussionSuggestedAnswer {
        author: User::new("fay"),
        is_answer: true,
        upvotes: 2,
        body: String::from("do this"),
        created_at: 0,
        replies: vec![reply],
    };
    let disc = Discussion {
        meta: DiscussionMeta { repo: repo(), title: String::from("How?"), number: 4, state: DiscussionState::Answered },
        author: User::new("gus"),
        upvotes: 0,
        body: String::from("question"),
        created_at: 0,
        suggested_answers: vec![answer],
    };
    let view = DiscussionView::from_discussion(disc);
    assert_eq!(joined(&view.header), " Answered  How? #4");
    assert_eq!(view.comment.header.text, " @gus");
    assert_eq!(view.answers.len(), 1);
    assert!(view.answers[0].marked_as_answer);
    assert_eq!(view.answers[0].replies[0].header.text, " @eve");
}

#[test]
fn keybind_refresh_takes_the_new_list() {
    let mut a = app(3);
    keybind::actions::goto_end(&mut a).unwrap();
    assert_eq!(keybind::actions::refresh(&mut a, None), Err(String::from("Failed to refresh")));
    assert_eq!(a.state.selected_notification_index, 2);
    assert_eq!(a.github.notif.len(), 3);
    keybind::actions::refresh(&mut a, Some(vec![notification(9, true)])).unwrap();
    assert_eq!(a.state.selected_notification_index, 0);
    assert_eq!(a.github.notif.len(), 1);
    assert_eq!(a.github.notif[0].id, 9);
}

#[test]
fn events_builders() {
    let e: Event = EventKind::Pinned.with(User::new("hal"), 42);
    assert_eq!(e.actor.name, "hal");
    assert_eq!(e.created_at, 42);
    let a = EventKind::Mentioned.anonymous();
    assert_eq!(a.actor.name, "");
    assert!(matches!(Event::unknown("X").kind, EventKind::Unknown("X")));
}
