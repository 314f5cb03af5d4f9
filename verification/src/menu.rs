//! The menu that hangs on the tray icon.

use vstd::prelude::*;

verus! {

/// Identifier of the menu item that reveals the primary window.
pub const SHOW_ID: &'static str = "show";

/// Identifier of the menu item that ends the process.
pub const QUIT_ID: &'static str = "quit";

/// Label of the menu item that reveals the primary window.
pub const SHOW_LABEL: &'static str = "Show Monk.";

/// Label of the menu item that ends the process.
pub const QUIT_LABEL: &'static str = "Quit Monk.";

/// One selectable entry of a menu.
#[derive(Clone, Debug, PartialEq, Eq)]
pub struct MenuEntry {
    /// The key by which a selection is recognised, whatever the label says.
    pub id: String,
    /// The text shown to the user.
    pub label: String,
    /// Whether the entry can be selected.
    pub enabled: bool,
    /// The keyboard shortcut, if the entry has one.
    pub accelerator: Option<String>,
}

/// A `MenuEntry` as a mathematical value.
pub ghost struct MenuEntryView {
    pub id: Seq<char>,
    pub label: Seq<char>,
    pub enabled: bool,
    pub accelerator: Option<Seq<char>>,
}

impl View for MenuEntry {
    type V = MenuEntryView;

    open spec fn view(&self) -> MenuEntryView {
        MenuEntryView {
            id: self.id@,
            label: self.label@,
            enabled: self.enabled,
            accelerator: match self.accelerator {
                Some(keys) => Some(keys@),
                None => None,
            },
        }
    }
}

/// An entry that is enabled and has no keyboard shortcut.
pub open spec fn plain_entry(id: Seq<char>, label: Seq<char>) -> MenuEntryView {
    MenuEntryView { id, label, enabled: true, accelerator: None }
}

/// The tray menu: "show" first, then "quit".
pub open spec fn tray_menu_view() -> Seq<MenuEntryView> {
    seq![plain_entry(SHOW_ID@, SHOW_LABEL@), plain_entry(QUIT_ID@, QUIT_LABEL@)]
}

/// The entries of a menu as mathematical values, in the menu's order.
pub open spec fn entries_view(entries: Seq<MenuEntry>) -> Seq<MenuEntryView> {
    entries.map_values(|entry: MenuEntry| entry@)
}

impl MenuEntry {
    /// An enabled entry without a keyboard shortcut.
    pub fn plain(id: &str, label: &str) -> (entry: MenuEntry)
        ensures
            entry@ == plain_entry(id@, label@),
    {
        MenuEntry { id: id.to_owned(), label: label.to_owned(), enabled: true, accelerator: None }
    }
}

/// Builds the tray menu.
pub fn tray_menu() -> (menu: Vec<MenuEntry>)
    ensures
        menu@.len() == 2,
        entries_view(menu@) == tray_menu_view(),
{
    let mut menu: Vec<MenuEntry> = Vec::new();
    menu.push(MenuEntry::plain(SHOW_ID, SHOW_LABEL));
    menu.push(MenuEntry::plain(QUIT_ID, QUIT_LABEL));
    proof {
        assert(entries_view(menu@) =~= tray_menu_view());
    }
    menu
}

} // verus!
