//! Tray and menu behaviour of a desktop application shell.
//!
//! The crate decides what each tray or menu interaction means and states, over
//! a small model of the desktop, what carrying the decision out does to the
//! primary window and to the tray icon. It never talks to a windowing system
//! itself: the caller delivers events, performs the returned actions and
//! reports how each startup step went.

pub mod command;
pub mod desktop;
pub mod dispatch;
pub mod event;
pub mod laws;
pub mod menu;
pub mod startup;
pub mod text;
pub mod tray;
