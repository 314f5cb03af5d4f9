//! The interactions that reach the tray, and the actions they stand for.

use vstd::prelude::*;

verus! {

/// The mouse button behind a pointer event.
#[derive(Clone, Copy, Debug, PartialEq, Eq, Structural)]
pub enum MouseButton {
    Left,
    Right,
    Middle,
}

/// Whether the button was being pressed or released.
#[derive(Clone, Copy, Debug, PartialEq, Eq, Structural)]
pub enum ButtonState {
    Up,
    Down,
}

/// What the pointer did on the tray icon.
#[derive(Clone, Copy, Debug, PartialEq, Eq, Structural)]
pub enum PointerEvent {
    Click { button: MouseButton, state: ButtonState },
    DoubleClick { button: MouseButton },
    Enter,
    Move,
    Leave,
}

impl PointerEvent {
    /// A click of the left button, pressed or released.
    pub open spec fn is_left_click(self) -> bool {
        self matches PointerEvent::Click { button, .. } && button == MouseButton::Left
    }
}

/// One interaction with the tray icon or with its menu.
#[derive(Clone, Debug, PartialEq, Eq)]
pub enum TrayEvent {
    /// The menu item with this identifier was selected.
    MenuSelected(String),
    /// The pointer did something on the icon.
    Pointer(PointerEvent),
}

/// A `TrayEvent` as a mathematical value.
pub ghost enum TrayEventView {
    MenuSelected(Seq<char>),
    Pointer(PointerEvent),
}

impl View for TrayEvent {
    type V = TrayEventView;

    open spec fn view(&self) -> TrayEventView {
        match self {
            TrayEvent::MenuSelected(id) => TrayEventView::MenuSelected(id@),
            TrayEvent::Pointer(event) => TrayEventView::Pointer(*event),
        }
    }
}

/// What an interaction asks for.
#[derive(Clone, Copy, Debug, PartialEq, Eq, Structural)]
pub enum Action {
    /// Show the primary window and give it the input focus.
    Reveal,
    /// End the process with this exit code.
    Exit(i32),
    /// Nothing.
    Ignore,
}

/// The action behind the menu item `id`: "quit" ends the process with code 0,
/// "show" reveals the primary window, every other identifier is ignored.
pub open spec fn menu_action(id: Seq<char>) -> Action {
    if id == "quit"@ {
        Action::Exit(0)
    } else if id == "show"@ {
        Action::Reveal
    } else {
        Action::Ignore
    }
}

/// The action behind a pointer event: a left click reveals the primary window,
/// every other event is ignored.
pub open spec fn pointer_action(event: PointerEvent) -> Action {
    if event.is_left_click() {
        Action::Reveal
    } else {
        Action::Ignore
    }
}

/// The action behind any interaction.
pub open spec fn action_of(event: TrayEventView) -> Action {
    match event {
        TrayEventView::MenuSelected(id) => menu_action(id),
        TrayEventView::Pointer(pointer) => pointer_action(pointer),
    }
}

} // verus!
