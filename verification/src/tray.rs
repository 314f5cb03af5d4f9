//! The tray icon: the application's one presence in the status area.

use crate::menu::{entries_view, tray_menu, tray_menu_view, MenuEntry, MenuEntryView};
use vstd::prelude::*;

verus! {

/// Identifier under which the tray icon is registered and looked up.
pub const TRAY_ID: &'static str = "main";

/// Where the image of the tray icon comes from.
#[derive(Clone, Copy, Debug, PartialEq, Eq, Structural)]
pub enum IconSource {
    /// The icon that the application gives its windows by default.
    ApplicationDefault,
}

/// A text value that may be absent, as a mathematical value.
pub open spec fn text_view(text: Option<String>) -> Option<Seq<char>> {
    match text {
        Some(value) => Some(value@),
        None => None,
    }
}

/// The tray icon.
#[derive(Clone, Debug, PartialEq, Eq)]
pub struct TrayIcon {
    id: String,
    icon: IconSource,
    title: Option<String>,
    menu: Vec<MenuEntry>,
    menu_on_left_click: bool,
}

/// A `TrayIcon` as a mathematical value.
pub ghost struct TrayIconView {
    pub id: Seq<char>,
    pub icon: IconSource,
    pub title: Option<Seq<char>>,
    pub menu: Seq<MenuEntryView>,
    pub menu_on_left_click: bool,
}

impl TrayIconView {
    /// The tray icon as it is created: registered as "main", with the
    /// application's default icon, no title, the tray menu, and a left click
    /// that does not open the menu.
    pub open spec fn fresh() -> TrayIconView {
        TrayIconView {
            id: TRAY_ID@,
            icon: IconSource::ApplicationDefault,
            title: None,
            menu: tray_menu_view(),
            menu_on_left_click: false,
        }
    }

    /// This icon with `title` in place of its title.
    pub open spec fn with_title(self, title: Option<Seq<char>>) -> TrayIconView {
        TrayIconView { title, ..self }
    }

    /// What stays of a tray icon for as long as it lives: all but the title is
    /// as it was created.
    pub open spec fn wf(self) -> bool {
        self == Self::fresh().with_title(self.title)
    }
}

impl View for TrayIcon {
    type V = TrayIconView;

    closed spec fn view(&self) -> TrayIconView {
        TrayIconView {
            id: self.id@,
            icon: self.icon,
            title: text_view(self.title),
            menu: entries_view(self.menu@),
            menu_on_left_click: self.menu_on_left_click,
        }
    }
}

impl TrayIcon {
    /// Whether all but the title is as the icon was created.
    pub open spec fn wf(&self) -> bool {
        self@.wf()
    }

    /// Creates the tray icon.
    pub fn new() -> (tray: TrayIcon)
        ensures
            tray@ == TrayIconView::fresh(),
            tray.wf(),
    {
        TrayIcon {
            id: TRAY_ID.to_owned(),
            icon: IconSource::ApplicationDefault,
            title: None,
            menu: tray_menu(),
            menu_on_left_click: false,
        }
    }

    /// Replaces the title; `None` clears it. Nothing else changes.
    pub fn set_title(&mut self, title: Option<String>)
        ensures
            final(self)@ == old(self)@.with_title(text_view(title)),
            old(self).wf() ==> final(self).wf(),
    {
        self.title = title;
    }

    /// The identifier under which the icon is registered.
    pub fn id(&self) -> (id: &str)
        ensures
            id@ == self@.id,
    {
        self.id.as_str()
    }

    /// Where the icon's image comes from.
    pub fn icon(&self) -> (icon: IconSource)
        ensures
            icon == self@.icon,
    {
        self.icon
    }

    /// The displayed title, if one is set.
    pub fn title(&self) -> (title: Option<&str>)
        ensures
            match title {
                Some(text) => self@.title == Some(text@),
                None => self@.title is None,
            },
    {
        match &self.title {
            Some(text) => Some(text.as_str()),
            None => None,
        }
    }

    /// The entries of the attached menu, in order.
    pub fn menu(&self) -> (menu: &Vec<MenuEntry>)
        ensures
            entries_view(menu@) == self@.menu,
    {
        &self.menu
    }

    /// Whether a left click on the icon opens the menu.
    pub fn show_menu_on_left_click(&self) -> (enabled: bool)
        ensures
            enabled == self@.menu_on_left_click,
    {
        self.menu_on_left_click
    }
}

} // verus!
