//! What the terminal user interface shows.
use vstd::prelude::*;

use crate::github::Notification;

verus! {

/// The screen that is shown: the list of notifications, or the target of one.
pub enum Route {
    Notifications,
    NotifTarget(Notification),
}

} // verus!
