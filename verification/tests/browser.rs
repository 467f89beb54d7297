use octerm::app::{
    Cmd, ListMsg, Model, Msg, NotificationsViewMsg, OctermApp, Route, ServerRequest, ServerResponse, ViewMsg,
};
use octerm::error::Error;
use octerm::github::{
    IssueMeta, IssueState, Notification, NotificationTarget, PullRequestMeta, PullRequestState, ReleaseMeta,
    RepoMeta, User,
};
use octerm::text::{Color, Span};

fn repo() -> RepoMeta {
    RepoMeta { name: String::from("octerm"), owner: String::from("sudormrfbin") }
}

fn issue_meta(number: usize) -> IssueMeta {
    IssueMeta {
        repo: repo(),
        title: format!("issue {number}"),
        body: String::from("body"),
        number,
        author: User::new("alice"),
        state: IssueState::Open,
        created_at: 0,
    }
}

fn pr_meta(number: usize) -> PullRequestMeta {
    PullRequestMeta {
        repo: repo(),
        title: format!("pr {number}"),
        body: String::from("body"),
        number,
        author: User::new("bob"),
        state: PullRequestState::Open,
        created_at: 0,
    }
}

fn release_meta() -> ReleaseMeta {
    ReleaseMeta {
        title: String::from("v2"),
        body: String::from("notes"),
        author: String::from("carol"),
        tag_name: String::from("v2.0"),
    }
}

fn notification(id: u64, target: NotificationTarget) -> Notification {
    Notification {
        id,
        repository: String::from("octerm"),
        title: format!("notification {id}"),
        unread: true,
        updated_at: 0,
        target,
    }
}

fn browser() -> Model {
    let mut m = OctermApp::init();
    let notifs = vec![
        notification(10, NotificationTarget::Issue(issue_meta(1))),
        notification(11, NotificationTarget::PullRequest(pr_meta(2))),
        notification(12, NotificationTarget::Release(release_meta())),
    ];
    OctermApp::update(Msg::ServerResponse(ServerResponse::Notifications(notifs)), &mut m);
    m
}

fn joined(spans: &[Span]) -> String {
    spans.iter().map(|s| s.text.clone()).collect::<Vec<_>>().concat()
}

#[test]
fn browser_starts_empty() {
    let m = OctermApp::init();
    assert!(m.notifs.is_empty());
    assert_eq!(m.selected, 0);
    assert!(m.route.is_none() && m.error.is_none() && !m.async_task_doing);
    let line = m.statusline();
    assert_eq!(joined(&line.spans), " Notifications \u{2022} 0 ");
}

#[test]
fn browser_open_asks_for_the_target() {
    let mut m = browser();
    match OctermApp::update(Msg::NotifViewMsg(NotificationsViewMsg::Open), &mut m) {
        Cmd::ServerRequest(ServerRequest::OpenIssue(meta)) => assert_eq!(meta.number, 1),
        _ => panic!("opening an issue fetches it"),
    }
    assert!(m.route.is_none());
}

#[test]
fn browser_open_release_shows_it_at_once() {
    let mut m = browser();
    OctermApp::update(Msg::NotifViewMsg(NotificationsViewMsg::ListMsg(ListMsg::LastItem)), &mut m);
    assert_eq!(m.selected, 2);
    assert!(matches!(OctermApp::update(Msg::NotifViewMsg(NotificationsViewMsg::Open), &mut m), Cmd::Nothing));
    assert!(matches!(m.route, Some(Route::Release(_))));
    assert_eq!(joined(&m.statusline().spans), " \u{f412} #v2.0 ");
    OctermApp::update(Msg::ReleaseViewMsg(ViewMsg::CloseView), &mut m);
    assert!(m.route.is_none());
}

#[test]
fn browser_cursor_stops_at_the_ends() {
    let mut m = browser();
    OctermApp::update(Msg::NotifViewMsg(NotificationsViewMsg::ListMsg(ListMsg::PrevItem)), &mut m);
    assert_eq!(m.selected, 0);
    for _ in 0..5 {
        OctermApp::update(Msg::NotifViewMsg(NotificationsViewMsg::ListMsg(ListMsg::NextItem)), &mut m);
    }
    assert_eq!(m.selected, 2);
    OctermApp::update(Msg::NotifViewMsg(NotificationsViewMsg::ListMsg(ListMsg::FirstItem)), &mut m);
    assert_eq!(m.selected, 0);
}

#[test]
fn browser_mark_as_read_round_trip() {
    let mut m = browser();
    let cmd = OctermApp::update(Msg::NotifViewMsg(NotificationsViewMsg::MarkAsRead), &mut m);
    match cmd {
        Cmd::ServerRequests(requests) => {
            assert_eq!(requests.len(), 2);
            assert!(matches!(&requests[0], ServerRequest::MarkNotifAsRead(n) if n.id == 10));
            assert!(matches!(&requests[1], ServerRequest::OpenPullRequest(meta) if meta.number == 2));
        }
        _ => panic!("marking as read also opens the next notification"),
    }
    assert_eq!(m.selected, 1);
    let read = notification(10, NotificationTarget::Issue(issue_meta(1)));
    OctermApp::update(Msg::ServerResponse(ServerResponse::MarkedNotifAsRead(read)), &mut m);
    assert_eq!(m.notifs.iter().map(|n| n.id).collect::<Vec<_>>(), vec![11, 12]);
    assert_eq!(m.selected, 0);
    assert_eq!(m.notifs[m.selected].id, 11);
}

#[test]
fn browser_unknown_read_notification_changes_nothing() {
    let mut m = browser();
    OctermApp::update(Msg::NotifViewMsg(NotificationsViewMsg::ListMsg(ListMsg::NextItem)), &mut m);
    let other = notification(99, NotificationTarget::Unknown);
    OctermApp::update(Msg::ServerResponse(ServerResponse::MarkedNotifAsRead(other)), &mut m);
    assert_eq!(m.notifs.len(), 3);
    assert_eq!(m.selected, 1);
}

#[test]
fn browser_statusline_shows_the_open_issue() {
    let mut m = browser();
    let issue = octerm::github::Issue::new(issue_meta(1), Vec::new());
    OctermApp::update(Msg::ServerResponse(ServerResponse::Issue(issue)), &mut m);
    OctermApp::update(Msg::ServerResponse(ServerResponse::AsyncTaskStart), &mut m);
    let line = m.statusline();
    assert_eq!(joined(&line.spans), " \u{f41b} #1  issue 1");
    assert!(matches!(line.spans[0].style.bg, Some(Color::Green)));
    assert!(line.loading);
    OctermApp::update(Msg::ServerResponse(ServerResponse::AsyncTaskDone), &mut m);
    assert!(!m.statusline().loading);
}

#[test]
fn browser_errors_show_until_cleared() {
    let mut m = browser();
    OctermApp::update(Msg::ServerResponse(ServerResponse::Error(Error::NetworkTask)), &mut m);
    let line = m.statusline();
    assert_eq!(joined(&line.spans), "could not complete concurrent network requests");
    assert!(matches!(line.spans[0].style.fg, Some(Color::Red)));
    assert!(matches!(OctermApp::update(Msg::ClearError, &mut m), Cmd::Nothing));
    assert_eq!(joined(&m.statusline().spans), " Notifications \u{2022} 3 ");
}

#[test]
fn browser_simple_commands() {
    let mut m = browser();
    assert!(matches!(
        OctermApp::update(Msg::NotifViewMsg(NotificationsViewMsg::Refresh), &mut m),
        Cmd::ServerRequest(ServerRequest::RefreshNotifs)
    ));
    assert!(matches!(
        OctermApp::update(Msg::NotifViewMsg(NotificationsViewMsg::OpenInBrowser), &mut m),
        Cmd::ServerRequest(ServerRequest::OpenNotifInBrowser(n)) if n.id == 10
    ));
    assert!(matches!(OctermApp::update(Msg::NotifViewMsg(NotificationsViewMsg::CloseView), &mut m), Cmd::Quit));
    match OctermApp::update(Msg::NotifViewMsg(NotificationsViewMsg::OpenNext), &mut m) {
        Cmd::ServerRequest(ServerRequest::OpenPullRequest(meta)) => assert_eq!(meta.number, 2),
        _ => panic!("the next one is a pull request"),
    }
    match OctermApp::update(Msg::NotifViewMsg(NotificationsViewMsg::OpenPrevious), &mut m) {
        Cmd::ServerRequest(ServerRequest::OpenIssue(meta)) => assert_eq!(meta.number, 1),
        _ => panic!("the previous one is an issue"),
    }
}

#[test]
fn browser_scrolls_the_open_view() {
    let mut m = browser();
    let issue = octerm::github::Issue::new(issue_meta(1), Vec::new());
    OctermApp::update(Msg::ServerResponse(ServerResponse::Issue(issue)), &mut m);
    assert_eq!(m.scroll, 0);
    OctermApp::update(Msg::IssueViewMsg(ViewMsg::ScrollUp), &mut m);
    assert_eq!(m.scroll, 0);
    OctermApp::update(Msg::IssueViewMsg(ViewMsg::ScrollDown), &mut m);
    OctermApp::update(Msg::IssueViewMsg(ViewMsg::ScrollDown), &mut m);
    assert_eq!(m.scroll, 2);
    OctermApp::update(Msg::PullRequestViewMsg(ViewMsg::ScrollDown), &mut m);
    assert_eq!(m.scroll, 2);
    OctermApp::update(Msg::IssueViewMsg(ViewMsg::ScrollUp), &mut m);
    assert_eq!(m.scroll, 1);
    OctermApp::update(Msg::IssueViewMsg(ViewMsg::OpenInBrowser), &mut m);
    assert_eq!(m.scroll, 1);
    assert!(m.route.is_some());
    OctermApp::update(Msg::IssueViewMsg(ViewMsg::CloseView), &mut m);
    assert!(m.route.is_none());
    assert_eq!(m.scroll, 0);
}
