//! Requests that the user interface hands to the network side.
use vstd::prelude::*;

use crate::github::Notification;

verus! {

pub enum NotifEvent {
    Refresh,
    Open(Notification),
    MarkAsRead(Notification),
}

} // verus!
