//! What the keys of the notification list do.
use vstd::prelude::*;

use crate::actions::{goto_end_state, last_index, no_selection_message, selected_notification};
use crate::app::{App, AppState};
use crate::events::NotifEvent;
use crate::github::Notification;

verus! {

pub fn quit(app: &mut App) -> (r: Result<(), String>)
    ensures
        r is Ok,
        final(app).state == (AppState { should_quit: true, ..old(app).state }),
        final(app).github == old(app).github,
        final(app).events == old(app).events,
{
    app.state.should_quit = true;
    Ok(())
}

pub open spec fn mark_failed_message() -> Seq<char> {
    "Failed to mark notification as read"@
}

pub open spec fn refresh_failed_message() -> Seq<char> {
    "Failed to refresh"@
}

// This only marks as read, not done: the web interface shows the
// notification grayed out instead of removing it. GitHub's API offers no
// way to mark a notification as done.
/// Takes the outcome of marking the notification under the cursor as read
/// (`marked`): once marked, it leaves the list and the cursor stays on the
/// list; otherwise nothing changes and the failure is reported.
pub fn mark_as_read(app: &mut App, marked: bool) -> (r: Result<(), String>)
    ensures
        final(app).events == old(app).events,
        match selected_notification(*old(app)) {
            Some(n) => if marked {
                let i = old(app).state.selected_notification_index as int;
                let rest = old(app).github.notif@.remove(i);
                &&& r is Ok
                &&& final(app).github.notif@ == rest
                &&& final(app).state == (AppState {
                    selected_notification_index: if i <= last_index(rest.len()) { i as usize } else { last_index(rest.len()) },
                    ..old(app).state
                })
            } else {
                &&& r is Err
                &&& r->Err_0@ == mark_failed_message()
                &&& final(app).state == old(app).state
                &&& final(app).github == old(app).github
            },
            None => {
                &&& r is Err
                &&& r->Err_0@ == no_selection_message()
                &&& final(app).state == old(app).state
                &&& final(app).github == old(app).github
            },
        },
{
    let idx = app.state.selected_notification_index;
    if idx >= app.github.notif.len() {
        return Err(String::from_str("Failed to get the current notification"));
    }
    if !marked {
        return Err(String::from_str("Failed to mark notification as read"));
    }
    app.github.notif.remove(idx);
    // If last item is deleted, cursor has to moved to previous line
    let last = app.github.notif.len().saturating_sub(1);
    app.state.selected_notification_index = if idx <= last { idx } else { last };
    Ok(())
}

/// Asks the network side to open the notification under the cursor in a browser.
pub fn open_in_browser(app: &mut App) -> (r: Result<(), String>)
    ensures
        final(app).state == old(app).state,
        final(app).github == old(app).github,
        match selected_notification(*old(app)) {
            Some(n) => r is Ok && final(app).events@ == old(app).events@.push(NotifEvent::Open(n)),
            None => r is Err && r->Err_0@ == no_selection_message() && final(app).events == old(app).events,
        },
{
    crate::actions::open_in_browser(app)
}

/// Takes the outcome of fetching the notifications again (`fetched`): the
/// new list, with the cursor on its first item; on failure nothing changes
/// and the failure is reported.
pub fn refresh(app: &mut App, fetched: Option<Vec<Notification>>) -> (r: Result<(), String>)
    ensures
        final(app).events == old(app).events,
        match fetched {
            Some(ns) => {
                &&& r is Ok
                &&& final(app).github.notif == ns
                &&& final(app).state == (AppState { selected_notification_index: 0, ..old(app).state })
            },
            None => {
                &&& r is Err
                &&& r->Err_0@ == refresh_failed_message()
                &&& final(app).state == old(app).state
                &&& final(app).github == old(app).github
            },
        },
{
    match fetched {
        Some(ns) => {
            app.github.notif = ns;
            app.state.selected_notification_index = 0;
            Ok(())
        },
        None => Err(String::from_str("Failed to refresh")),
    }
}

pub fn goto_begin(app: &mut App) -> (r: Result<(), String>)
    ensures
        r is Ok,
        final(app).state == (AppState { selected_notification_index: 0, ..old(app).state }),
        final(app).github == old(app).github,
        final(app).events == old(app).events,
{
    app.state.selected_notification_index = 0;
    Ok(())
}

pub fn goto_end(app: &mut App) -> (r: Result<(), String>)
    ensures
        r is Ok,
        final(app).state == goto_end_state(old(app).state, old(app).github.notif@.len()),
        final(app).github == old(app).github,
        final(app).events == old(app).events,
{
    app.state.selected_notification_index = app.github.notif.len().saturating_sub(1);
    Ok(())
}

pub open spec fn next_item_state(s: AppState, len: nat) -> AppState {
    AppState {
        selected_notification_index: if s.selected_notification_index + 1 < last_index(len) {
            (s.selected_notification_index + 1) as usize
        } else {
            last_index(len)
        },
        ..s
    }
}

pub fn next_item(app: &mut App) -> (r: Result<(), String>)
    requires
        old(app).state.selected_notification_index < usize::MAX,
    ensures
        r is Ok,
        final(app).state == next_item_state(old(app).state, old(app).github.notif@.len()),
        final(app).github == old(app).github,
        final(app).events == old(app).events,
{
    let next = app.state.selected_notification_index + 1;
    let last = app.github.notif.len().saturating_sub(1);
    app.state.selected_notification_index = if next < last { next } else { last };
    Ok(())
}

pub fn previous_item(app: &mut App) -> (r: Result<(), String>)
    ensures
        r is Ok,
        final(app).state == (AppState {
            selected_notification_index: old(app).state.selected_notification_index.saturating_sub(1),
            ..old(app).state
        }),
        final(app).github == old(app).github,
        final(app).events == old(app).events,
{
    app.state.selected_notification_index = app.state.selected_notification_index.saturating_sub(1);
    Ok(())
}

} // verus!
