//! The dispatcher: from an interaction to the action it asks for.
//!
//! The dispatcher keeps nothing between events: each decision is a function
//! of the one event handed in.

use crate::event::{action_of, menu_action, pointer_action};
use crate::event::{Action, MouseButton, PointerEvent, TrayEvent};
use crate::menu::{QUIT_ID, SHOW_ID};
use crate::text::same_text;
use vstd::prelude::*;

verus! {

/// Decides what the selection of the menu item `id` asks for.
pub fn dispatch_menu(id: &str) -> (action: Action)
    ensures
        action == menu_action(id@),
{
    if same_text(id, QUIT_ID) {
        Action::Exit(0)
    } else if same_text(id, SHOW_ID) {
        Action::Reveal
    } else {
        Action::Ignore
    }
}

/// Decides what a pointer event on the tray icon asks for.
pub fn dispatch_pointer(event: &PointerEvent) -> (action: Action)
    ensures
        action == pointer_action(*event),
{
    match event {
        PointerEvent::Click { button: MouseButton::Left, .. } => Action::Reveal,
        _ => Action::Ignore,
    }
}

/// Decides what any interaction asks for.
pub fn dispatch(event: &TrayEvent) -> (action: Action)
    ensures
        action == action_of(event@),
{
    match event {
        TrayEvent::MenuSelected(id) => dispatch_menu(id.as_str()),
        TrayEvent::Pointer(pointer) => dispatch_pointer(pointer),
    }
}

} // verus!
