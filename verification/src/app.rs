//! The state of the notification browser, which the key bindings act on.
use vstd::prelude::*;

use crate::error::{error_message, Error};
use crate::events::NotifEvent;
use crate::github::{
    issue_icon, pull_request_icon, target_icon, Discussion, DiscussionMeta, Issue, IssueMeta, Notification, NotificationTarget, PullRequest,
    PullRequestMeta, ReleaseMeta,
};
use crate::text::{badge, badge_style, decimal, decimal_string, fg_style, from_notif_color, line_view, notif_color, plain, plain_style, span, span_of, with_fg, Color, Span};
use crate::ui;
use crate::util::{notif_target_color, target_color};

verus! {

pub struct AppState {
    pub route: ui::Route,
    pub selected_notification_index: usize,
    pub target_scroll: u16,
    pub should_quit: bool,
}

/// The notifications that have been fetched from GitHub.
pub struct GitHub {
    pub notif: Vec<Notification>,
}

/// The user interface: what it shows, what it holds, and the requests it has
/// made that the network side has not yet taken.
pub struct App {
    pub state: AppState,
    pub github: GitHub,
    pub events: Vec<NotifEvent>,
}

/// The cursor points at a notification, or at the start of an empty list.
pub open spec fn index_in_bounds(state: AppState, len: nat) -> bool {
    state.selected_notification_index <= (if len == 0 { 0 } else { len - 1 })
}

impl App {
    /// A user interface on the notifications list, with the cursor on the
    /// first one.
    pub fn new(notifications: Vec<Notification>) -> (r: App)
        ensures
            r.state.route is Notifications,
            r.state.selected_notification_index == 0,
            r.state.target_scroll == 0,
            !r.state.should_quit,
            r.github.notif@ == notifications@,
            r.events@.len() == 0,
    {
        App {
            state: AppState { route: ui::Route::Notifications, selected_notification_index: 0, target_scroll: 0, should_quit: false },
            github: GitHub { notif: notifications },
            events: Vec::new(),
        }
    }

    /// Hands `event` to the network side.
    pub fn dispatch_event(&mut self, event: NotifEvent) -> (r: Result<(), String>)
        ensures
            r is Ok,
            final(self).state == old(self).state,
            final(self).github == old(self).github,
            final(self).events@ == old(self).events@.push(event),
    {
        self.events.push(event);
        Ok(())
    }

    /// Takes the requests made so far, oldest first.
    pub fn take_events(&mut self) -> (r: Vec<NotifEvent>)
        ensures
            r@ == old(self).events@,
            final(self).state == old(self).state,
            final(self).github == old(self).github,
            final(self).events@.len() == 0,
    {
        let mut taken = Vec::new();
        std::mem::swap(&mut taken, &mut self.events);
        taken
    }
}

} // verus!

verus! {

/// A target that is shown beside the list of notifications.
pub enum Route {
    Issue(Issue),
    PullRequest(PullRequest),
    Release(ReleaseMeta),
    Discussion(Discussion),
}

/// What the user interface asks of the network side.
pub enum ServerRequest {
    RefreshNotifs,
    OpenNotifInBrowser(Notification),
    MarkNotifAsRead(Notification),
    OpenIssue(IssueMeta),
    OpenPullRequest(PullRequestMeta),
    OpenDiscussion(DiscussionMeta),
}

/// What the network side answers.
pub enum ServerResponse {
    Notifications(Vec<Notification>),
    MarkedNotifAsRead(Notification),
    Issue(Issue),
    PullRequest(PullRequest),
    Discussion(Discussion),
    AsyncTaskStart,
    AsyncTaskDone,
    Error(Error),
}

/// What the user interface does after a message.
pub enum Cmd {
    Nothing,
    Quit,
    ServerRequest(ServerRequest),
    ServerRequests(Vec<ServerRequest>),
}

/// A move of the cursor in the list of notifications. The cursor stops at
/// either end of the list.
pub enum ListMsg {
    NextItem,
    PrevItem,
    FirstItem,
    LastItem,
}

pub enum NotificationsViewMsg {
    CloseView,
    Open,
    OpenInBrowser,
    Refresh,
    MarkAsRead,
    OpenNext,
    OpenPrevious,
    ListMsg(ListMsg),
}

/// What a view of a target understands. Opening it in the browser is left
/// to the view, which does nothing with it.
pub enum ViewMsg {
    ScrollUp,
    ScrollDown,
    OpenInBrowser,
    CloseView,
}

pub enum Msg {
    ClearError,
    ServerResponse(ServerResponse),
    NotifViewMsg(NotificationsViewMsg),
    IssueViewMsg(ViewMsg),
    PullRequestViewMsg(ViewMsg),
    ReleaseViewMsg(ViewMsg),
    DiscussionViewMsg(ViewMsg),
}

/// The state of the notification browser: the list with its cursor, the
/// target that is open beside it and how far it is scrolled, whether a
/// request is under way, and the last error.
pub struct Model {
    pub notifs: Vec<Notification>,
    pub selected: usize,
    /// Lines that the open target is scrolled down by.
    pub scroll: u16,
    pub async_task_doing: bool,
    pub route: Option<Route>,
    pub error: Option<Error>,
}

/// The application: the messages it understands and what it does with them.
pub struct OctermApp {}

/// The cursor is on a notification, or at 0 in an empty list.
pub open spec fn cursor_ok(len: nat, i: usize) -> bool {
    if len == 0 { i == 0 } else { i < len }
}

impl Model {
    pub open spec fn wf(self) -> bool {
        cursor_ok(self.notifs@.len(), self.selected)
    }

    pub open spec fn current(self) -> Notification {
        self.notifs@[self.selected as int]
    }
}

pub open spec fn list_move(msg: ListMsg, len: nat, i: usize) -> usize {
    match msg {
        ListMsg::NextItem => if i + 1 < len { (i + 1) as usize } else { i },
        ListMsg::PrevItem => if i > 0 { (i - 1) as usize } else { 0 },
        ListMsg::FirstItem => 0,
        ListMsg::LastItem => if len == 0 { 0 } else { (len - 1) as usize },
    }
}

pub ghost enum CmdView {
    Nothing,
    Quit,
    One(ServerRequest),
    Many(Seq<ServerRequest>),
}

pub open spec fn cmd_view(c: Cmd) -> CmdView {
    match c {
        Cmd::Nothing => CmdView::Nothing,
        Cmd::Quit => CmdView::Quit,
        Cmd::ServerRequest(r) => CmdView::One(r),
        Cmd::ServerRequests(rs) => CmdView::Many(rs@),
    }
}

/// The request that opens the target of `n`, where one is fetched.
pub open spec fn open_request(n: Notification) -> Option<ServerRequest> {
    match n.target {
        NotificationTarget::Issue(meta) => Some(ServerRequest::OpenIssue(meta)),
        NotificationTarget::PullRequest(meta) => Some(ServerRequest::OpenPullRequest(meta)),
        NotificationTarget::Discussion(meta) => Some(ServerRequest::OpenDiscussion(meta)),
        _ => None,
    }
}

/// A release is shown at once; the other targets once they were fetched.
pub open spec fn opened(m: Model) -> Model {
    match m.current().target {
        NotificationTarget::Release(release) => Model { route: Some(Route::Release(release)), scroll: 0, ..m },
        _ => m,
    }
}

pub open spec fn open_cmd(m: Model) -> CmdView {
    match open_request(m.current()) {
        Some(r) => CmdView::One(r),
        None => CmdView::Nothing,
    }
}

pub open spec fn moved(m: Model, msg: ListMsg) -> Model {
    Model { selected: list_move(msg, m.notifs@.len(), m.selected), ..m }
}

/// The messages that act on the notification under the cursor.
pub open spec fn needs_selection(msg: NotificationsViewMsg) -> bool {
    msg is OpenInBrowser || msg is MarkAsRead || msg is Open || msg is OpenNext || msg is OpenPrevious
}

/// What a message of the list does: the state after it, and the command.
pub open spec fn notif_view_step(m: Model, msg: NotificationsViewMsg) -> (Model, CmdView) {
    match msg {
        NotificationsViewMsg::Refresh => (m, CmdView::One(ServerRequest::RefreshNotifs)),
        NotificationsViewMsg::OpenInBrowser => (m, CmdView::One(ServerRequest::OpenNotifInBrowser(m.current()))),
        NotificationsViewMsg::MarkAsRead => {
            let mark = ServerRequest::MarkNotifAsRead(m.current());
            let next = Model { route: None, scroll: 0, ..moved(m, ListMsg::NextItem) };
            (opened(next), match open_request(next.current()) {
                Some(open) => CmdView::Many(seq![mark, open]),
                None => CmdView::One(mark),
            })
        },
        NotificationsViewMsg::Open => (opened(m), open_cmd(m)),
        NotificationsViewMsg::CloseView => (m, CmdView::Quit),
        NotificationsViewMsg::OpenNext => {
            let next = moved(m, ListMsg::NextItem);
            (opened(next), open_cmd(next))
        },
        NotificationsViewMsg::OpenPrevious => {
            let prev = moved(m, ListMsg::PrevItem);
            (opened(prev), open_cmd(prev))
        },
        NotificationsViewMsg::ListMsg(lm) => (moved(m, lm), CmdView::Nothing),
    }
}

/// What a message of a target's view does; `showing` tells whether that
/// view is the open one.
pub open spec fn view_step(m: Model, msg: ViewMsg, showing: bool) -> Model {
    match msg {
        ViewMsg::CloseView => Model { route: None, scroll: 0, ..m },
        ViewMsg::ScrollDown => if showing && m.scroll < u16::MAX { Model { scroll: (m.scroll + 1) as u16, ..m } } else { m },
        ViewMsg::ScrollUp => if showing && m.scroll > 0 { Model { scroll: (m.scroll - 1) as u16, ..m } } else { m },
        ViewMsg::OpenInBrowser => m,
    }
}

/// `p` is the first position of a notification with `id`.
pub open spec fn first_with_id(ns: Seq<Notification>, id: u64, p: int) -> bool {
    &&& 0 <= p < ns.len()
    &&& ns[p].id == id
    &&& forall|q: int| 0 <= q < p ==> #[trigger] ns[q].id != id
}

/// `new` is the state after `old` took the answer `resp`.
pub open spec fn responded(old: Model, new: Model, resp: ServerResponse) -> bool {
    match resp {
        ServerResponse::Notifications(ns) => new == (Model { notifs: ns, selected: 0, ..old }),
        ServerResponse::MarkedNotifAsRead(n) => {
            &&& forall|p: int| first_with_id(old.notifs@, n.id, p) ==> {
                &&& new.notifs@ == old.notifs@.remove(p)
                &&& new.selected == (if old.selected > 0 { old.selected - 1 } else { 0 })
            }
            &&& (forall|p: int| 0 <= p < old.notifs@.len() ==> #[trigger] old.notifs@[p].id != n.id)
                ==> new.notifs == old.notifs && new.selected == old.selected
            &&& new.async_task_doing == old.async_task_doing
            &&& new.route == old.route
            &&& new.error == old.error
        },
        ServerResponse::AsyncTaskStart => new == (Model { async_task_doing: true, ..old }),
        ServerResponse::AsyncTaskDone => new == (Model { async_task_doing: false, ..old }),
        ServerResponse::Error(err) => new == (Model { error: Some(err), ..old }),
        ServerResponse::Issue(issue) => new == (Model { route: Some(Route::Issue(issue)), scroll: 0, ..old }),
        ServerResponse::PullRequest(pr) => new == (Model { route: Some(Route::PullRequest(pr)), scroll: 0, ..old }),
        ServerResponse::Discussion(d) => new == (Model { route: Some(Route::Discussion(d)), scroll: 0, ..old }),
    }
}

impl ListMsg {
    fn step(&self, len: usize, i: usize) -> (r: usize)
        ensures
            r == list_move(*self, len as nat, i),
    {
        match self {
            ListMsg::NextItem => if i < usize::MAX && i + 1 < len { i + 1 } else { i },
            ListMsg::PrevItem => i.saturating_sub(1),
            ListMsg::FirstItem => 0,
            ListMsg::LastItem => len.saturating_sub(1),
        }
    }
}

impl Model {
    /// An empty list, with nothing open.
    pub fn new() -> (r: Model)
        ensures
            r.wf(),
            r.notifs@.len() == 0,
            !r.async_task_doing,
            r.scroll == 0,
            r.route is None,
            r.error is None,
    {
        Model { notifs: Vec::new(), selected: 0, scroll: 0, async_task_doing: false, route: None, error: None }
    }

    fn selected_clone(&self) -> (r: Notification)
        requires
            self.wf(),
            self.notifs@.len() > 0,
        ensures
            r == self.current(),
    {
        self.notifs[self.selected].clone()
    }

    fn move_cursor(&mut self, msg: ListMsg)
        requires
            old(self).wf(),
        ensures
            *final(self) == moved(*old(self), msg),
            final(self).wf(),
    {
        self.selected = msg.step(self.notifs.len(), self.selected);
    }

    fn open_notif(&mut self) -> (r: Cmd)
        requires
            old(self).wf(),
            old(self).notifs@.len() > 0,
        ensures
            *final(self) == opened(*old(self)),
            cmd_view(r) == open_cmd(*old(self)),
    {
        let idx = self.selected;
        match &self.notifs[idx].target {
            NotificationTarget::Issue(meta) => Cmd::ServerRequest(ServerRequest::OpenIssue(meta.clone())),
            NotificationTarget::PullRequest(meta) => Cmd::ServerRequest(ServerRequest::OpenPullRequest(meta.clone())),
            NotificationTarget::Release(release) => {
                let release = release.clone();
                self.route = Some(Route::Release(release));
                self.scroll = 0;
                Cmd::Nothing
            },
            NotificationTarget::Discussion(meta) => Cmd::ServerRequest(ServerRequest::OpenDiscussion(meta.clone())),
            _ => Cmd::Nothing,
        }
    }

    /// Acts on a message of the list of notifications.
    pub fn update_notif_view_msg(&mut self, msg: NotificationsViewMsg) -> (r: Cmd)
        requires
            old(self).wf(),
            needs_selection(msg) ==> old(self).notifs@.len() > 0,
        ensures
            final(self).wf(),
            *final(self) == notif_view_step(*old(self), msg).0,
            cmd_view(r) == notif_view_step(*old(self), msg).1,
    {
        match msg {
            NotificationsViewMsg::Refresh => Cmd::ServerRequest(ServerRequest::RefreshNotifs),
            NotificationsViewMsg::OpenInBrowser => Cmd::ServerRequest(ServerRequest::OpenNotifInBrowser(self.selected_clone())),
            NotificationsViewMsg::MarkAsRead => {
                let mark_as_read = ServerRequest::MarkNotifAsRead(self.selected_clone());
                self.move_cursor(ListMsg::NextItem);
                self.route = None;
                self.scroll = 0;
                match self.open_notif() {
                    Cmd::ServerRequest(open) => {
                        let requests = vec![mark_as_read, open];
                        assert(requests@ =~= seq![mark_as_read, open]);
                        Cmd::ServerRequests(requests)
                    },
                    _ => Cmd::ServerRequest(mark_as_read),
                }
            },
            NotificationsViewMsg::Open => self.open_notif(),
            NotificationsViewMsg::CloseView => Cmd::Quit,
            NotificationsViewMsg::OpenNext => {
                self.move_cursor(ListMsg::NextItem);
                self.open_notif()
            },
            NotificationsViewMsg::OpenPrevious => {
                self.move_cursor(ListMsg::PrevItem);
                self.open_notif()
            },
            NotificationsViewMsg::ListMsg(lm) => {
                self.move_cursor(lm);
                Cmd::Nothing
            },
        }
    }

    /// Acts on a message of the view of a target, which is `showing` when
    /// that view is the one open: closing closes the target; scrolling moves
    /// the open view by a line, and not above its top.
    pub fn update_view_msg(&mut self, msg: ViewMsg, showing: bool) -> (r: Cmd)
        ensures
            cmd_view(r) == CmdView::Nothing,
            *final(self) == view_step(*old(self), msg, showing),
    {
        match msg {
            ViewMsg::CloseView => {
                self.route = None;
                self.scroll = 0;
            },
            ViewMsg::ScrollDown => if showing {
                self.scroll = self.scroll.saturating_add(1);
            },
            ViewMsg::ScrollUp => if showing {
                self.scroll = self.scroll.saturating_sub(1);
            },
            ViewMsg::OpenInBrowser => {},
        }
        Cmd::Nothing
    }

    /// Takes an answer of the network side.
    pub fn update_in_response(&mut self, resp: ServerResponse) -> (r: Cmd)
        requires
            old(self).wf(),
        ensures
            final(self).wf(),
            cmd_view(r) == CmdView::Nothing,
            responded(*old(self), *final(self), resp),
    {
        match resp {
            ServerResponse::Notifications(notifs) => {
                self.notifs = notifs;
                self.selected = 0;
            },
            ServerResponse::MarkedNotifAsRead(n) => {
                let mut idx = self.selected;
                let mut p: usize = 0;
                while p < self.notifs.len()
                    invariant
                        p <= self.notifs@.len(),
                        forall|q: int| 0 <= q < p ==> #[trigger] self.notifs@[q].id != n.id,
                    ensures
                        p <= self.notifs@.len(),
                        forall|q: int| 0 <= q < p ==> #[trigger] self.notifs@[q].id != n.id,
                        p < self.notifs@.len() ==> self.notifs@[p as int].id == n.id,
                    decreases self.notifs@.len() - p,
                {
                    if self.notifs[p].id == n.id {
                        break;
                    }
                    p += 1;
                }
                if p < self.notifs.len() {
                    assert(first_with_id(self.notifs@, n.id, p as int));
                    assert forall|p2: int| first_with_id(self.notifs@, n.id, p2) implies p2 == p by {
                        if p2 < p {
                        } else if p2 > p {
                            assert(self.notifs@[p as int].id == n.id);
                        }
                    }
                    idx = idx.saturating_sub(1);
                    self.notifs.remove(p);
                }
                self.selected = idx;
            },
            ServerResponse::AsyncTaskStart => self.async_task_doing = true,
            ServerResponse::AsyncTaskDone => self.async_task_doing = false,
            ServerResponse::Error(err) => self.error = Some(err),
            ServerResponse::Issue(issue) => {
                self.route = Some(Route::Issue(issue));
                self.scroll = 0;
            },
            ServerResponse::PullRequest(pr) => {
                self.route = Some(Route::PullRequest(pr));
                self.scroll = 0;
            },
            ServerResponse::Discussion(disc) => {
                self.route = Some(Route::Discussion(disc));
                self.scroll = 0;
            },
        }
        Cmd::Nothing
    }
}

} // verus!

verus! {

/// The status line: styled text, and whether it says that a request is
/// under way.
pub struct StatusLine {
    pub spans: Vec<Span>,
    pub loading: bool,
}

/// The badge that names an open target: its glyph and its number or tag.
pub open spec fn target_badge(icon: Seq<char>, label: Seq<char>, target: NotificationTarget) -> (Seq<char>, crate::text::Style) {
    (" "@ + icon + " #"@ + label + " "@, badge(notif_color(target_color(target)), Color::Black))
}

/// What the status line shows: the error, if there is one; else the number
/// of notifications, when no target is open; else the badge and title of the
/// open target, taken from the notification under the cursor.
pub open spec fn statusline_spans(m: Model) -> Seq<(Seq<char>, crate::text::Style)> {
    match m.error {
        Some(err) => seq![(error_message(err), with_fg(Color::Red))],
        None => match m.route {
            None => seq![(" Notifications \u{2022} "@ + decimal(m.notifs@.len()) + " "@, badge(Color::Blue, Color::Black))],
            Some(Route::Issue(_)) => match m.current().target {
                NotificationTarget::Issue(issue) => seq![
                    target_badge(issue_icon(issue.state)@, decimal(issue.number as nat), m.current().target),
                    (" "@, plain()),
                    (issue.title@, plain()),
                ],
                _ => Seq::empty(),
            },
            Some(Route::PullRequest(_)) => match m.current().target {
                NotificationTarget::PullRequest(pr) => seq![
                    target_badge(pull_request_icon(pr.state)@, decimal(pr.number as nat), m.current().target),
                    (" "@, plain()),
                    (pr.title@, plain()),
                ],
                _ => Seq::empty(),
            },
            Some(Route::Discussion(_)) => match m.current().target {
                NotificationTarget::Discussion(d) => seq![
                    target_badge("\u{f442}"@, decimal(d.number as nat), m.current().target),
                    (" "@, plain()),
                    (d.title@, plain()),
                ],
                _ => Seq::empty(),
            },
            Some(Route::Release(_)) => match m.current().target {
                NotificationTarget::Release(rel) => seq![
                    target_badge("\u{f412}"@, rel.tag_name@, m.current().target),
                ],
                _ => Seq::empty(),
            },
        },
    }
}

fn badge_span(icon: &str, label: &str, target: &NotificationTarget) -> (r: Span)
    ensures
        crate::text::span_view(r) == target_badge(icon@, label@, *target),
{
    let text = String::from_str(" ").concat(icon).concat(" #").concat(label).concat(" ");
    span_of(text, badge_style(from_notif_color(notif_target_color(target)), Color::Black))
}

fn titled_line(badge: Span, title: &String) -> (r: Vec<Span>)
    ensures
        line_view(r@) == seq![crate::text::span_view(badge), (" "@, plain()), (title@, plain())],
{
    let b = badge;
    let line = vec![b, span(" ", plain_style()), span(title.as_str(), plain_style())];
    assert(line_view(line@) =~= seq![crate::text::span_view(b), (" "@, plain()), (title@, plain())]);
    line
}

impl Model {
    /// The status line of the browser.
    pub fn statusline(&self) -> (r: StatusLine)
        requires
            self.wf(),
            self.error is None && self.route is Some ==> self.notifs@.len() > 0,
        ensures
            line_view(r.spans@) == statusline_spans(*self),
            r.loading == (self.error is None && self.async_task_doing),
    {
        if let Some(err) = &self.error {
            let line = vec![span_of(err.to_string(), fg_style(Color::Red))];
            assert(line_view(line@) =~= statusline_spans(*self));
            return StatusLine { spans: line, loading: false };
        }
        let spans = match &self.route {
            None => {
                let text = String::from_str(" Notifications \u{2022} ").concat(decimal_string(self.notifs.len()).as_str()).concat(" ");
                let line = vec![span_of(text, badge_style(Color::Blue, Color::Black))];
                assert(line_view(line@) =~= statusline_spans(*self));
                line
            },
            Some(route) => {
                let target = &self.notifs[self.selected].target;
                let line = match (route, target) {
                    (Route::Issue(_), NotificationTarget::Issue(issue)) => titled_line(
                        badge_span(issue.icon(), decimal_string(issue.number).as_str(), target),
                        &issue.title,
                    ),
                    (Route::PullRequest(_), NotificationTarget::PullRequest(pr)) => titled_line(
                        badge_span(pr.icon(), decimal_string(pr.number).as_str(), target),
                        &pr.title,
                    ),
                    (Route::Discussion(_), NotificationTarget::Discussion(d)) => titled_line(
                        badge_span(d.icon(), decimal_string(d.number).as_str(), target),
                        &d.title,
                    ),
                    (Route::Release(_), NotificationTarget::Release(rel)) => {
                        let b = badge_span(rel.icon(), rel.tag_name.as_str(), target);
                        let line = vec![b];
                        assert(line_view(line@) =~= seq![crate::text::span_view(b)]);
                        line
                    },
                    _ => {
                        let line: Vec<Span> = Vec::new();
                        assert(line_view(line@) =~= Seq::empty());
                        line
                    },
                };
                line
            },
        };
        StatusLine { spans, loading: self.async_task_doing }
    }
}

impl OctermApp {
    /// The browser as it starts: no notifications yet, nothing open.
    pub fn init() -> (r: Model)
        ensures
            r.wf(),
            r.notifs@.len() == 0,
            r.selected == 0,
            !r.async_task_doing,
            r.scroll == 0,
            r.route is None,
            r.error is None,
    {
        Model::new()
    }

    /// Acts on `msg`.
    pub fn update(msg: Msg, model: &mut Model) -> (r: Cmd)
        requires
            old(model).wf(),
            msg matches Msg::NotifViewMsg(m) ==> (needs_selection(m) ==> old(model).notifs@.len() > 0),
        ensures
            final(model).wf(),
            match msg {
                Msg::ClearError => *final(model) == (Model { error: None, ..*old(model) }) && cmd_view(r) == CmdView::Nothing,
                Msg::NotifViewMsg(m) => *final(model) == notif_view_step(*old(model), m).0
                    && cmd_view(r) == notif_view_step(*old(model), m).1,
                Msg::ServerResponse(resp) => responded(*old(model), *final(model), resp) && cmd_view(r) == CmdView::Nothing,
                Msg::IssueViewMsg(m) => cmd_view(r) == CmdView::Nothing
                    && *final(model) == view_step(*old(model), m, old(model).route matches Some(Route::Issue(_))),
                Msg::PullRequestViewMsg(m) => cmd_view(r) == CmdView::Nothing
                    && *final(model) == view_step(*old(model), m, old(model).route matches Some(Route::PullRequest(_))),
                Msg::ReleaseViewMsg(m) => cmd_view(r) == CmdView::Nothing
                    && *final(model) == view_step(*old(model), m, old(model).route matches Some(Route::Release(_))),
                Msg::DiscussionViewMsg(m) => cmd_view(r) == CmdView::Nothing
                    && *final(model) == view_step(*old(model), m, old(model).route matches Some(Route::Discussion(_))),
            },
    {
        match msg {
            Msg::ClearError => {
                model.error = None;
                Cmd::Nothing
            },
            Msg::NotifViewMsg(m) => model.update_notif_view_msg(m),
            Msg::IssueViewMsg(m) => {
                let showing = matches!(model.route, Some(Route::Issue(_)));
                model.update_view_msg(m, showing)
            },
            Msg::PullRequestViewMsg(m) => {
                let showing = matches!(model.route, Some(Route::PullRequest(_)));
                model.update_view_msg(m, showing)
            },
            Msg::ReleaseViewMsg(m) => {
                let showing = matches!(model.route, Some(Route::Release(_)));
                model.update_view_msg(m, showing)
            },
            Msg::DiscussionViewMsg(m) => {
                let showing = matches!(model.route, Some(Route::Discussion(_)));
                model.update_view_msg(m, showing)
            },
            Msg::ServerResponse(resp) => model.update_in_response(resp),
        }
    }
}

} // verus!

verus! {

/// A key the user pressed.
#[derive(Clone, Copy, Debug)]
pub enum Key {
    Char(char),
    Enter,
    Escape,
    Up,
    Down,
    Home,
    End,
    Other,
}

/// What the list of notifications makes of a key.
pub open spec fn list_key(key: Key) -> Option<NotificationsViewMsg> {
    match key {
        Key::Char('q') => Some(NotificationsViewMsg::CloseView),
        Key::Char('o') => Some(NotificationsViewMsg::OpenInBrowser),
        Key::Char('R') => Some(NotificationsViewMsg::Refresh),
        Key::Char('d') => Some(NotificationsViewMsg::MarkAsRead),
        Key::Enter => Some(NotificationsViewMsg::Open),
        Key::Char('j') | Key::Down => Some(NotificationsViewMsg::ListMsg(ListMsg::NextItem)),
        Key::Char('k') | Key::Up => Some(NotificationsViewMsg::ListMsg(ListMsg::PrevItem)),
        Key::Char('g') | Key::Home => Some(NotificationsViewMsg::ListMsg(ListMsg::FirstItem)),
        Key::Char('G') | Key::End => Some(NotificationsViewMsg::ListMsg(ListMsg::LastItem)),
        _ => None,
    }
}

/// What the view of a target makes of a key; a discussion cannot be opened
/// in the browser from its view.
pub open spec fn view_key(key: Key, opens_in_browser: bool) -> Option<ViewMsg> {
    match key {
        Key::Char('q') => Some(ViewMsg::CloseView),
        Key::Char('o') => if opens_in_browser { Some(ViewMsg::OpenInBrowser) } else { None },
        Key::Char('j') | Key::Down => Some(ViewMsg::ScrollDown),
        Key::Char('k') | Key::Up => Some(ViewMsg::ScrollUp),
        _ => None,
    }
}

/// What a key means in the browser: escape clears the error; the open view
/// takes the keys it knows, and the list the rest.
pub open spec fn key_msg(key: Key, route: Option<Route>) -> Option<Msg> {
    if key is Escape {
        Some(Msg::ClearError)
    } else {
        let from_view = match route {
            Some(Route::Issue(_)) => match view_key(key, true) { Some(m) => Some(Msg::IssueViewMsg(m)), None => None },
            Some(Route::PullRequest(_)) => match view_key(key, true) { Some(m) => Some(Msg::PullRequestViewMsg(m)), None => None },
            Some(Route::Release(_)) => match view_key(key, true) { Some(m) => Some(Msg::ReleaseViewMsg(m)), None => None },
            Some(Route::Discussion(_)) => match view_key(key, false) { Some(m) => Some(Msg::DiscussionViewMsg(m)), None => None },
            None => None,
        };
        match from_view {
            Some(m) => Some(m),
            None => match list_key(key) {
                Some(m) => Some(Msg::NotifViewMsg(m)),
                None => None,
            },
        }
    }
}

fn list_key_msg(key: Key) -> (r: Option<NotificationsViewMsg>)
    ensures
        r == list_key(key),
{
    match key {
        Key::Char('q') => Some(NotificationsViewMsg::CloseView),
        Key::Char('o') => Some(NotificationsViewMsg::OpenInBrowser),
        Key::Char('R') => Some(NotificationsViewMsg::Refresh),
        Key::Char('d') => Some(NotificationsViewMsg::MarkAsRead),
        Key::Enter => Some(NotificationsViewMsg::Open),
        Key::Char('j') | Key::Down => Some(NotificationsViewMsg::ListMsg(ListMsg::NextItem)),
        Key::Char('k') | Key::Up => Some(NotificationsViewMsg::ListMsg(ListMsg::PrevItem)),
        Key::Char('g') | Key::Home => Some(NotificationsViewMsg::ListMsg(ListMsg::FirstItem)),
        Key::Char('G') | Key::End => Some(NotificationsViewMsg::ListMsg(ListMsg::LastItem)),
        _ => None,
    }
}

fn view_key_msg(key: Key, opens_in_browser: bool) -> (r: Option<ViewMsg>)
    ensures
        r == view_key(key, opens_in_browser),
{
    match key {
        Key::Char('q') => Some(ViewMsg::CloseView),
        Key::Char('o') => if opens_in_browser { Some(ViewMsg::OpenInBrowser) } else { None },
        Key::Char('j') | Key::Down => Some(ViewMsg::ScrollDown),
        Key::Char('k') | Key::Up => Some(ViewMsg::ScrollUp),
        _ => None,
    }
}

impl OctermApp {
    /// The message that `key` sends in the state `model`, if any.
    pub fn event_to_msg(key: Key, model: &Model) -> (r: Option<Msg>)
        ensures
            r == key_msg(key, model.route),
    {
        if let Key::Escape = key {
            return Some(Msg::ClearError);
        }
        let from_view = match &model.route {
            Some(Route::Issue(_)) => match view_key_msg(key, true) {
                Some(m) => Some(Msg::IssueViewMsg(m)),
                None => None,
            },
            Some(Route::PullRequest(_)) => match view_key_msg(key, true) {
                Some(m) => Some(Msg::PullRequestViewMsg(m)),
                None => None,
            },
            Some(Route::Release(_)) => match view_key_msg(key, true) {
                Some(m) => Some(Msg::ReleaseViewMsg(m)),
                None => None,
            },
            Some(Route::Discussion(_)) => match view_key_msg(key, false) {
                Some(m) => Some(Msg::DiscussionViewMsg(m)),
                None => None,
            },
            None => None,
        };
        match from_view {
            Some(m) => Some(m),
            None => match list_key_msg(key) {
                Some(m) => Some(Msg::NotifViewMsg(m)),
                None => None,
            },
        }
    }
}

} // verus!
