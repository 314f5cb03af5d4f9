//! A model of the desktop: the primary window and the tray icon, and what each
//! action does to them.
//!
//! The windowing system owns both. At any moment the primary window or the
//! tray icon may be missing, and any request may fail. Neither is an error:
//! a missing target makes the operation do nothing, and a failed request is
//! passed over while the requests after it are still made.

use crate::dispatch::dispatch;
use crate::event::{action_of, Action, TrayEvent, TrayEventView};
use crate::tray::{TrayIcon, TrayIconView};
use vstd::prelude::*;

verus! {

/// Label under which the primary window is registered and looked up.
pub const PRIMARY_WINDOW: &'static str = "main";

/// What the user sees of the primary window.
#[derive(Clone, Copy, Debug, PartialEq, Eq, Structural)]
pub struct Window {
    pub visible: bool,
    pub focused: bool,
}

/// Which requests the windowing system carries out. A request whose flag is
/// false fails and changes nothing.
#[derive(Clone, Copy, Debug, PartialEq, Eq, Structural)]
pub struct Host {
    /// Requests to show a window.
    pub show: bool,
    /// Requests to give a window the input focus.
    pub focus: bool,
    /// Requests to change the tray icon's title.
    pub title: bool,
}

impl Host {
    /// A host that carries every request out.
    pub fn obliging() -> (host: Host)
        ensures
            host == (Host { show: true, focus: true, title: true }),
    {
        Host { show: true, focus: true, title: true }
    }

    /// A host that fails every request.
    pub fn refusing() -> (host: Host)
        ensures
            host == (Host { show: false, focus: false, title: false }),
    {
        Host { show: false, focus: false, title: false }
    }
}

impl Window {
    /// This window after a request to show it and then a request to focus it.
    /// The second request is made whether or not the first was carried out.
    pub open spec fn revealed(self, host: Host) -> Window {
        Window { visible: self.visible || host.show, focused: self.focused || host.focus }
    }

    /// Shows the window, then gives it the input focus, as far as `host`
    /// carries the two requests out.
    pub fn show_and_focus(&mut self, host: Host)
        ensures
            *final(self) == old(self).revealed(host),
    {
        if host.show {
            self.visible = true;
        }
        if host.focus {
            self.focused = true;
        }
    }
}

/// The desktop as the application finds it.
#[derive(Clone, Debug, PartialEq, Eq)]
pub struct Desktop {
    /// The primary window, if it exists right now.
    pub window: Option<Window>,
    /// The tray icon, once it has been created.
    pub tray: Option<TrayIcon>,
}

/// A `Desktop` as a mathematical value.
pub ghost struct DesktopView {
    pub window: Option<Window>,
    pub tray: Option<TrayIconView>,
}

impl View for Desktop {
    type V = DesktopView;

    open spec fn view(&self) -> DesktopView {
        DesktopView {
            window: self.window,
            tray: match self.tray {
                Some(tray) => Some(tray@),
                None => None,
            },
        }
    }
}

impl DesktopView {
    /// The desktop after the primary window was revealed. Without a primary
    /// window nothing changes.
    pub open spec fn revealed(self, host: Host) -> DesktopView {
        match self.window {
            Some(window) => DesktopView { window: Some(window.revealed(host)), ..self },
            None => self,
        }
    }

    /// The desktop after `action` was carried out. Only a reveal touches it:
    /// an exit ends the process and leaves the desktop as it is.
    pub open spec fn applied(self, action: Action, host: Host) -> DesktopView {
        match action {
            Action::Reveal => self.revealed(host),
            Action::Exit(_) => self,
            Action::Ignore => self,
        }
    }

    /// The desktop after `event` was handled.
    pub open spec fn handled(self, event: TrayEventView, host: Host) -> DesktopView {
        self.applied(action_of(event), host)
    }

    /// The desktop after a request to set the tray icon's title, `None` to
    /// clear it. Without a tray icon, or where the request fails, nothing
    /// changes.
    pub open spec fn retitled(self, title: Option<Seq<char>>, host: Host) -> DesktopView {
        match self.tray {
            Some(tray) if host.title => DesktopView { tray: Some(tray.with_title(title)), ..self },
            _ => self,
        }
    }
}

/// The exit code with which `action` ends the process, if it ends it.
pub open spec fn exit_code(action: Action) -> Option<i32> {
    match action {
        Action::Exit(code) => Some(code),
        _ => None,
    }
}

impl Desktop {
    /// Reveals the primary window: shows it, then gives it the input focus.
    /// Does nothing where there is no primary window. Never fails.
    pub fn reveal_window(&mut self, host: Host)
        ensures
            final(self)@ == old(self)@.revealed(host),
    {
        match &mut self.window {
            Some(window) => {
                window.show_and_focus(host);
            },
            None => {},
        }
    }

    /// Carries `action` out. Returns the exit code where the action ends the
    /// process, and `None` where the process goes on.
    pub fn apply(&mut self, action: Action, host: Host) -> (exit: Option<i32>)
        ensures
            final(self)@ == old(self)@.applied(action, host),
            exit == exit_code(action),
    {
        match action {
            Action::Reveal => {
                self.reveal_window(host);
                None
            },
            Action::Exit(code) => Some(code),
            Action::Ignore => None,
        }
    }

    /// Handles one interaction: decides what it asks for and carries that out.
    pub fn handle(&mut self, event: &TrayEvent, host: Host) -> (exit: Option<i32>)
        ensures
            final(self)@ == old(self)@.handled(event@, host),
            exit == exit_code(action_of(event@)),
    {
        let action = dispatch(event);
        self.apply(action, host)
    }
}

} // verus!
