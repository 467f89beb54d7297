//! What the keys of the notification browser do.
use vstd::prelude::*;

use crate::app::{App, AppState};
use crate::events::NotifEvent;
use crate::github::Notification;
use crate::ui::Route;

verus! {

pub open spec fn last_index(len: nat) -> usize {
    if len == 0 { 0 } else { (len - 1) as usize }
}

/// Leaves a target for the list; on the list, asks to quit.
pub open spec fn quit_state(s: AppState) -> AppState {
    match s.route {
        Route::Notifications => AppState { should_quit: true, ..s },
        _ => AppState { route: Route::Notifications, target_scroll: 0, ..s },
    }
}

pub open spec fn goto_begin_state(s: AppState) -> AppState {
    match s.route {
        Route::Notifications => AppState { selected_notification_index: 0, ..s },
        _ => AppState { target_scroll: 0, ..s },
    }
}

pub open spec fn goto_end_state(s: AppState, len: nat) -> AppState {
    AppState { selected_notification_index: last_index(len), ..s }
}

pub open spec fn scroll_down_state(s: AppState, len: nat) -> AppState {
    match s.route {
        Route::Notifications => AppState {
            selected_notification_index: if s.selected_notification_index + 1 < last_index(len) {
                (s.selected_notification_index + 1) as usize
            } else {
                last_index(len)
            },
            ..s
        },
        _ => AppState { target_scroll: s.target_scroll.saturating_add(1), ..s },
    }
}

pub open spec fn scroll_up_state(s: AppState) -> AppState {
    match s.route {
        Route::Notifications => AppState {
            selected_notification_index: s.selected_notification_index.saturating_sub(1),
            ..s
        },
        _ => AppState { target_scroll: s.target_scroll.saturating_sub(1), ..s },
    }
}

/// The notification under the cursor, when there is one.
pub open spec fn selected_notification(app: App) -> Option<Notification> {
    if app.state.selected_notification_index < app.github.notif@.len() {
        Some(app.github.notif@[app.state.selected_notification_index as int])
    } else {
        None
    }
}

pub open spec fn no_selection_message() -> Seq<char> {
    "Failed to get the current notification"@
}

fn current_notification(app: &App) -> (r: Result<Notification, String>)
    ensures
        match selected_notification(*app) {
            Some(n) => r == Ok::<Notification, String>(n),
            None => r is Err && r->Err_0@ == no_selection_message(),
        },
{
    let idx = app.state.selected_notification_index;
    if idx < app.github.notif.len() {
        Ok(app.github.notif[idx].clone())
    } else {
        Err(String::from_str("Failed to get the current notification"))
    }
}

pub fn quit(app: &mut App) -> (r: Result<(), String>)
    ensures
        r is Ok,
        final(app).state == quit_state(old(app).state),
        final(app).github == old(app).github,
        final(app).events == old(app).events,
{
    match app.state.route {
        Route::Notifications => app.state.should_quit = true,
        _ => {
            app.state.route = Route::Notifications;
            app.state.target_scroll = 0;
        },
    }
    Ok(())
}

// This only marks as read, not done: the web interface shows the
// notification grayed out instead of removing it. GitHub's API offers no
// way to mark a notification as done.
/// Asks the network side to mark the notification under the cursor as read.
pub fn mark_as_read(app: &mut App) -> (r: Result<(), String>)
    ensures
        final(app).state == old(app).state,
        final(app).github == old(app).github,
        match selected_notification(*old(app)) {
            Some(n) => r is Ok && final(app).events@ == old(app).events@.push(NotifEvent::MarkAsRead(n)),
            None => r is Err && r->Err_0@ == no_selection_message() && final(app).events == old(app).events,
        },
{
    let notif = current_notification(app)?;
    app.dispatch_event(NotifEvent::MarkAsRead(notif))
}

/// Shows the target of the notification under the cursor.
pub fn open(app: &mut App) -> (r: Result<(), String>)
    ensures
        final(app).github == old(app).github,
        final(app).events == old(app).events,
        match selected_notification(*old(app)) {
            Some(n) => r is Ok && final(app).state == (AppState { route: Route::NotifTarget(n), ..old(app).state }),
            None => r is Err && r->Err_0@ == no_selection_message() && final(app).state == old(app).state,
        },
{
    let notif = current_notification(app)?;
    app.state.route = Route::NotifTarget(notif);
    Ok(())
}

/// Asks the network side to open the notification under the cursor in a browser.
pub fn open_in_browser(app: &mut App) -> (r: Result<(), String>)
    ensures
        final(app).state == old(app).state,
        final(app).github == old(app).github,
        match selected_notification(*old(app)) {
            Some(n) => r is Ok && final(app).events@ == old(app).events@.push(NotifEvent::Open(n)),
            None => r is Err && r->Err_0@ == no_selection_message() && final(app).events == old(app).events,
        },
{
    let notif = current_notification(app)?;
    app.dispatch_event(NotifEvent::Open(notif))
}

/// Asks the network side to fetch the notifications again.
pub fn refresh(app: &mut App) -> (r: Result<(), String>)
    ensures
        r is Ok,
        final(app).state == old(app).state,
        final(app).github == old(app).github,
        final(app).events@ == old(app).events@.push(NotifEvent::Refresh),
{
    app.dispatch_event(NotifEvent::Refresh)
}

pub fn goto_begin(app: &mut App) -> (r: Result<(), String>)
    ensures
        r is Ok,
        final(app).state == goto_begin_state(old(app).state),
        final(app).github == old(app).github,
        final(app).events == old(app).events,
{
    match app.state.route {
        Route::Notifications => app.state.selected_notification_index = 0,
        Route::NotifTarget(_) => app.state.target_scroll = 0,
    }
    Ok(())
}

pub fn goto_end(app: &mut App) -> (r: Result<(), String>)
    ensures
        r is Ok,
        final(app).state == goto_end_state(old(app).state, old(app).github.notif@.len()),
        final(app).github == old(app).github,
        final(app).events == old(app).events,
{
    app.state.selected_notification_index = app.github.notif.len().saturating_sub(1);
    Ok(())
}

pub fn scroll_down(app: &mut App) -> (r: Result<(), String>)
    requires
        old(app).state.selected_notification_index < usize::MAX,
    ensures
        r is Ok,
        final(app).state == scroll_down_state(old(app).state, old(app).github.notif@.len()),
        final(app).github == old(app).github,
        final(app).events == old(app).events,
{
    match app.state.route {
        Route::Notifications => {
            let next = app.state.selected_notification_index + 1;
            let last = app.github.notif.len().saturating_sub(1);
            app.state.selected_notification_index = if next < last { next } else { last };
        },
        Route::NotifTarget(_) => app.state.target_scroll = app.state.target_scroll.saturating_add(1),
    }
    Ok(())
}

pub fn scroll_up(app: &mut App) -> (r: Result<(), String>)
    ensures
        r is Ok,
        final(app).state == scroll_up_state(old(app).state),
        final(app).github == old(app).github,
        final(app).events == old(app).events,
{
    match app.state.route {
        Route::Notifications => {
            app.state.selected_notification_index = app.state.selected_notification_index.saturating_sub(1)
        },
        Route::NotifTarget(_) => app.state.target_scroll = app.state.target_scroll.saturating_sub(1),
    }
    Ok(())
}

} // verus!
