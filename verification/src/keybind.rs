//! Key bindings of the notification list.
pub mod actions;
