use octerm::error::Error;
use octerm::network::response_to_result;
use octerm::app::{Key, ListMsg, Msg, NotificationsViewMsg, OctermApp, Route, ServerResponse, ViewMsg};
use octerm::github::{
    IssueMeta, IssueState, Notification, NotificationTarget, PullRequestMeta, PullRequestState, ReleaseMeta, RepoMeta,
    User,
};
use octerm::markdown::{Markdown, MdBlock, MdEvent, MdTag};
use octerm::parser::types::{Adapter, Command, Consumer, Producer};
use octerm::parser::uint;
use octerm::text::{decimal_string, Color};
use octerm::views::{notification_table, target_page};

fn repo() -> RepoMeta {
    RepoMeta { name: String::from("octerm"), owner: String::from("sudormrfbin") }
}

fn issue_target() -> NotificationTarget {
    NotificationTarget::Issue(IssueMeta {
        repo: repo(),
        title: String::from("Broken"),
        body: String::from("It broke."),
        number: 5,
        author: User::new("ann"),
        state: IssueState::Open,
        created_at: 0,
    })
}

fn notification(id: u64, unread: bool, target: NotificationTarget) -> Notification {
    Notification { id, repository: String::from("octerm"), title: format!("n{id}"), unread, updated_at: 0, target }
}

#[test]
fn uint_reads_back_decimal_string() {
    let parse = uint();
    for n in [0usize, 9, 10, 4096, usize::MAX] {
        let text = decimal_string(n);
        assert_eq!(parse(&text), Ok(("", n)));
    }
}

#[test]
fn every_listed_name_converts() {
    for name in Command::all() {
        assert!(Command::try_from(name).is_ok());
    }
    for name in Producer::all() {
        assert!(Producer::try_from(name).is_ok());
    }
    for name in Adapter::all() {
        assert!(Adapter::try_from(name).is_ok());
    }
    for name in Consumer::all() {
        assert!(Consumer::try_from(name).is_ok());
    }
    assert!(Consumer::try_from("count").is_err());
}

#[test]
fn nested_quotes_are_balanced() {
    let md = Markdown::new("> a\n> > b\n> c\n\nd");
    let mut depth: i32 = 0;
    for b in &md.blocks {
        match b {
            MdBlock::BeginQuote => depth += 1,
            MdBlock::EndQuote => depth -= 1,
            _ => {}
        }
        assert!(depth >= 0);
    }
    assert_eq!(depth, 0);
    assert_eq!(md.blocks.iter().filter(|b| matches!(b, MdBlock::BeginQuote)).count(), 2);
}

#[test]
fn target_page_of_each_kind() {
    let page = target_page(&notification(1, true, issue_target()));
    let title: String = page.title.iter().map(|s| s.text.clone()).collect();
    assert_eq!(title, "\u{f41b} Broken #5 Open");
    assert!(matches!(page.title[4].style.bg, Some(Color::LightGreen)));
    assert_eq!(page.body, "It broke.");
    let release = NotificationTarget::Release(ReleaseMeta {
        title: String::from("v1"),
        body: String::from("notes"),
        author: String::from("bo"),
        tag_name: String::from("v1.0"),
    });
    let page = target_page(&notification(2, true, release));
    assert_eq!(page.title.iter().map(|s| s.text.clone()).collect::<Vec<_>>(), vec!["v1", "v1.0"]);
    let page = target_page(&notification(3, true, NotificationTarget::CiBuild));
    assert_eq!(page.title[0].text, "This is a CI Build");
    assert_eq!(page.body, "No description provided.");
}

#[test]
fn notification_table_scrolls_to_the_cursor() {
    let notifs: Vec<Notification> = (0..10).map(|i| notification(i, i % 2 == 0, issue_target())).collect();
    let (title, rows) = notification_table(&notifs, 3, 8);
    assert_eq!(title, "Notifications (10)");
    assert_eq!(rows.len(), 4);
    assert_eq!(rows[0].notification.text, "\u{f41b} n2");
    assert_eq!(rows[3].notification.text, "\u{f41b} n8");
    assert!(rows[2].highlighted);
    assert!(rows.iter().filter(|r| r.highlighted).count() == 1);
    assert!(rows[0].repo.style.fg.is_none());
    let (_, all) = notification_table(&notifs, 2, 40);
    assert_eq!(all.len(), 5);
    assert!(all[2].highlighted);
}

#[test]
fn keys_of_the_browser() {
    let mut m = OctermApp::init();
    assert!(matches!(OctermApp::event_to_msg(Key::Escape, &m), Some(Msg::ClearError)));
    assert!(matches!(
        OctermApp::event_to_msg(Key::Char('j'), &m),
        Some(Msg::NotifViewMsg(NotificationsViewMsg::ListMsg(ListMsg::NextItem)))
    ));
    assert!(matches!(OctermApp::event_to_msg(Key::Char('q'), &m), Some(Msg::NotifViewMsg(NotificationsViewMsg::CloseView))));
    assert!(OctermApp::event_to_msg(Key::Char('x'), &m).is_none());
    let pr = PullRequestMeta {
        repo: repo(),
        title: String::from("pr"),
        body: String::new(),
        number: 3,
        author: User::new("al"),
        state: PullRequestState::Open,
        created_at: 0,
    };
    let pull = octerm::github::PullRequest::new(pr, Vec::new());
    OctermApp::update(Msg::ServerResponse(ServerResponse::PullRequest(pull)), &mut m);
    assert!(matches!(m.route, Some(Route::PullRequest(_))));
    assert!(matches!(OctermApp::event_to_msg(Key::Char('q'), &m), Some(Msg::PullRequestViewMsg(ViewMsg::CloseView))));
    assert!(matches!(OctermApp::event_to_msg(Key::Down, &m), Some(Msg::PullRequestViewMsg(ViewMsg::ScrollDown))));
    assert!(matches!(OctermApp::event_to_msg(Key::Char('R'), &m), Some(Msg::NotifViewMsg(NotificationsViewMsg::Refresh))));
}

#[test]
fn sorter_ranks_then_prefers_older() {
    let mut older = notification(1, true, issue_target());
    older.updated_at = 100;
    let mut newer = notification(2, true, issue_target());
    newer.updated_at = 200;
    assert!(older.sorter() > newer.sorter());
    let release = notification(
        3,
        true,
        NotificationTarget::Release(ReleaseMeta {
            title: String::from("v1"),
            body: String::new(),
            author: String::new(),
            tag_name: String::from("v1"),
        }),
    );
    assert!(release.sorter() > older.sorter());
    assert_eq!(release.sorter().0, 100);
    assert_eq!(older.sorter().0, 50);
}

#[test]
fn graphql_errors_win_over_data() {
    assert!(matches!(response_to_result(Some(5), None), Ok(Some(5))));
    assert!(matches!(response_to_result::<u8>(None, None), Ok(None)));
    match response_to_result(Some(5), Some(vec![String::from("bad field")])) {
        Err(Error::Graphql(messages)) => assert_eq!(messages, vec![String::from("bad field")]),
        _ => panic!("errors make the response an error"),
    }
}

#[test]
fn user_from_name() {
    let u = User::from(String::from("octocat"));
    assert_eq!(u.name, "octocat");
    assert_eq!(u.to_string(), "@octocat");
}

#[test]
fn parser_input_fits_check_finds_overflowing_numbers() {
    use_fits_check();
}

fn use_fits_check() {
    let fits = octerm::parser::parser_input_fits_check;
    assert!(fits("reload"));
    assert!(fits("done 1 2 3"));
    assert!(fits("done"));
    assert!(!fits("done 1 99999999999999999999999999"));
    assert!(!fits("open 99999999999999999999999999 4"));
    assert!(fits("list 99999999999999999999999999"));
    assert!(fits("list pr | done"));
    assert!(fits(&format!("open {}", usize::MAX)));
    assert!(fits("nothing 99999999999999999999999999"));
}

#[test]
fn whitespace_is_the_unicode_set() {
    let ws = octerm::parsec::whitespace1();
    assert_eq!(ws("\u{3000}\u{a0}\tx"), Ok(("x", vec!['\u{3000}', '\u{a0}', '\t'])));
    assert!(ws("\u{200b}x").is_err());
}

#[test]
fn layout_stops_at_the_end_of_a_quote() {
    use_layout_from();
}

fn use_layout_from() {
    use_layout_from_events(octerm::markdown::layout_from);
}

fn use_layout_from_events(f: fn(&Vec<MdEvent>, usize, bool) -> (Vec<MdBlock>, usize)) {
    let events = vec![
        MdEvent::Start(MdTag::Paragraph),
        MdEvent::Text(String::from("in")),
        MdEvent::End(MdTag::Paragraph),
        MdEvent::End(MdTag::BlockQuote),
        MdEvent::Text(String::from("after")),
        MdEvent::SoftBreak,
    ];
    let (blocks, next) = f(&events, 0, true);
    assert_eq!(next, 4);
    assert_eq!(blocks.len(), 1);
    let (all, end) = f(&events, 0, false);
    assert_eq!(end, 6);
    assert_eq!(all.len(), 1);
    match &all[0] {
        MdBlock::Text(lines) => assert_eq!(lines.len(), 3),
        _ => panic!("text"),
    }
}
