//! What holds of every desktop, event and host.

use crate::desktop::{exit_code, DesktopView, Host, Window};
use crate::event::{action_of, menu_action};
use crate::event::{Action, PointerEvent, TrayEventView};
use vstd::prelude::*;

verus! {

/// The two identifiers of the tray menu differ, and each has its own action:
/// "show" reveals the primary window, "quit" ends the process with code 0.
pub proof fn lemma_menu_actions()
    ensures
        "show"@ != "quit"@,
        menu_action("show"@) == Action::Reveal,
        menu_action("quit"@) == Action::Exit(0),
{
    reveal_strlit("show");
    reveal_strlit("quit");
    assert("show"@.len() == 4);
    assert("show"@[0] == 's');
    assert("quit"@[0] == 'q');
}

/// A pointer event other than a left click changes nothing on the desktop and
/// does not end the process.
pub proof fn lemma_other_pointer_events_change_nothing(
    desktop: DesktopView,
    pointer: PointerEvent,
    host: Host,
)
    requires
        !pointer.is_left_click(),
    ensures
        desktop.handled(TrayEventView::Pointer(pointer), host) == desktop,
        exit_code(action_of(TrayEventView::Pointer(pointer))) is None,
{
}

/// A left click, where the primary window exists and the host carries the
/// requests out, leaves the window visible and focused, the tray icon as it
/// was, and the process running.
pub proof fn lemma_left_click_reveals_window(
    desktop: DesktopView,
    pointer: PointerEvent,
    host: Host,
)
    requires
        pointer.is_left_click(),
        desktop.window is Some,
        host.show,
        host.focus,
    ensures
        desktop.handled(TrayEventView::Pointer(pointer), host).window == Some(
            Window { visible: true, focused: true },
        ),
        desktop.handled(TrayEventView::Pointer(pointer), host).tray == desktop.tray,
        exit_code(action_of(TrayEventView::Pointer(pointer))) is None,
{
}

/// A left click, where the primary window exists, never hides the window nor
/// takes the focus from it, whatever the host does with the requests.
pub proof fn lemma_left_click_never_hides(
    desktop: DesktopView,
    pointer: PointerEvent,
    host: Host,
)
    requires
        pointer.is_left_click(),
        desktop.window is Some,
    ensures
        desktop.handled(TrayEventView::Pointer(pointer), host).window is Some,
        desktop.window->0.visible ==> desktop.handled(
            TrayEventView::Pointer(pointer),
            host,
        ).window->0.visible,
        desktop.window->0.focused ==> desktop.handled(
            TrayEventView::Pointer(pointer),
            host,
        ).window->0.focused,
{
}

/// A left click, where there is no primary window, changes nothing on the
/// desktop and does not end the process.
pub proof fn lemma_left_click_without_window(
    desktop: DesktopView,
    pointer: PointerEvent,
    host: Host,
)
    requires
        pointer.is_left_click(),
        desktop.window is None,
    ensures
        desktop.handled(TrayEventView::Pointer(pointer), host) == desktop,
        exit_code(action_of(TrayEventView::Pointer(pointer))) is None,
{
}

/// Selecting "show" does what a left click does.
pub proof fn lemma_show_is_left_click(desktop: DesktopView, pointer: PointerEvent, host: Host)
    requires
        pointer.is_left_click(),
    ensures
        action_of(TrayEventView::MenuSelected("show"@)) == action_of(
            TrayEventView::Pointer(pointer),
        ),
        desktop.handled(TrayEventView::MenuSelected("show"@), host) == desktop.handled(
            TrayEventView::Pointer(pointer),
            host,
        ),
{
    lemma_menu_actions();
}

/// Selecting "show" twice in a row leaves the desktop as selecting it once
/// does.
pub proof fn lemma_show_is_idempotent(desktop: DesktopView, host: Host)
    ensures
        desktop.handled(TrayEventView::MenuSelected("show"@), host).handled(
            TrayEventView::MenuSelected("show"@),
            host,
        ) == desktop.handled(TrayEventView::MenuSelected("show"@), host),
{
    lemma_menu_actions();
}

/// Selecting "quit" ends the process with exit code 0 and leaves the desktop
/// as it is, whatever the state of the primary window.
pub proof fn lemma_quit_exits_with_zero(desktop: DesktopView, host: Host)
    ensures
        exit_code(action_of(TrayEventView::MenuSelected("quit"@))) == Some(0i32),
        desktop.handled(TrayEventView::MenuSelected("quit"@), host) == desktop,
{
    lemma_menu_actions();
}

/// Selecting a menu item that is neither "show" nor "quit" changes nothing on
/// the desktop and does not end the process.
pub proof fn lemma_unknown_menu_items_change_nothing(
    desktop: DesktopView,
    id: Seq<char>,
    host: Host,
)
    requires
        id != "show"@,
        id != "quit"@,
    ensures
        desktop.handled(TrayEventView::MenuSelected(id), host) == desktop,
        exit_code(action_of(TrayEventView::MenuSelected(id))) is None,
{
}

/// No event touches the tray icon, and none makes a primary window appear or
/// disappear.
pub proof fn lemma_events_keep_tray_and_window(
    desktop: DesktopView,
    event: TrayEventView,
    host: Host,
)
    ensures
        desktop.handled(event, host).tray == desktop.tray,
        desktop.handled(event, host).window is Some <==> desktop.window is Some,
{
}

/// Where the tray icon exists and the host carries the request out, the title
/// after an update is exactly the one given, absent where none was given, and
/// nothing else on the desktop changes.
pub proof fn lemma_title_is_set(desktop: DesktopView, title: Option<Seq<char>>, host: Host)
    requires
        desktop.tray is Some,
        host.title,
    ensures
        desktop.retitled(title, host).tray is Some,
        desktop.retitled(title, host).tray->0.title == title,
        desktop.retitled(title, host).tray->0 == desktop.tray->0.with_title(title),
        desktop.retitled(title, host).window == desktop.window,
{
}

/// Of two updates in a row the later one decides: the desktop is as if only
/// the second had been made.
pub proof fn lemma_last_title_wins(
    desktop: DesktopView,
    first: Option<Seq<char>>,
    second: Option<Seq<char>>,
    earlier: Host,
    later: Host,
)
    requires
        later.title,
    ensures
        desktop.retitled(first, earlier).retitled(second, later) == desktop.retitled(
            second,
            later,
        ),
{
}

/// Without a tray icon an update of the title changes nothing.
pub proof fn lemma_title_without_tray(desktop: DesktopView, title: Option<Seq<char>>, host: Host)
    requires
        desktop.tray is None,
    ensures
        desktop.retitled(title, host) == desktop,
{
}

/// An update of the title keeps all else of the tray icon as it was created.
pub proof fn lemma_title_keeps_tray_icon(
    desktop: DesktopView,
    title: Option<Seq<char>>,
    host: Host,
)
    requires
        desktop.tray is Some,
        desktop.tray->0.wf(),
    ensures
        desktop.retitled(title, host).tray is Some,
        desktop.retitled(title, host).tray->0.wf(),
{
}

} // verus!
