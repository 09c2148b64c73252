//! standing-desk-reminder: the decision logic of a small desktop nudge that
//! alternates between sitting and standing.
//!
//! The library holds the configuration model, the shared control flags, the
//! reminder scheduler (a state machine driven by the program's loop), and the
//! content of every notification, tray menu and service unit the program shows
//! or writes.

mod text;

pub mod span;
pub mod config;
pub mod humane;
pub mod reminder;
pub mod notify;
pub mod tray;
pub mod icon;
pub mod lock;
pub mod service;
