use monk_tray::command::update_tray_title;
use monk_tray::desktop::{Desktop, Host, Window, PRIMARY_WINDOW};
use monk_tray::event::{Action, ButtonState, MouseButton, PointerEvent, TrayEvent};
use monk_tray::tray::TrayIcon;

fn hidden() -> Window {
    Window { visible: false, focused: false }
}

fn shown() -> Window {
    Window { visible: true, focused: true }
}

fn desktop(window: Option<Window>) -> Desktop {
    Desktop { window, tray: Some(TrayIcon::new()) }
}

fn left_click() -> TrayEvent {
    TrayEvent::Pointer(PointerEvent::Click { button: MouseButton::Left, state: ButtonState::Up })
}

fn menu(id: &str) -> TrayEvent {
    TrayEvent::MenuSelected(String::from(id))
}

fn other_pointer_events() -> Vec<PointerEvent> {
    vec![
        PointerEvent::Click { button: MouseButton::Right, state: ButtonState::Up },
        PointerEvent::Click { button: MouseButton::Right, state: ButtonState::Down },
        PointerEvent::Click { button: MouseButton::Middle, state: ButtonState::Up },
        PointerEvent::Click { button: MouseButton::Middle, state: ButtonState::Down },
        PointerEvent::DoubleClick { button: MouseButton::Left },
        PointerEvent::DoubleClick { button: MouseButton::Right },
        PointerEvent::DoubleClick { button: MouseButton::Middle },
        PointerEvent::Enter,
        PointerEvent::Move,
        PointerEvent::Leave,
    ]
}

#[test]
fn primary_window_label_is_main() {
    assert_eq!(PRIMARY_WINDOW, "main");
}

#[test]
fn other_pointer_events_leave_the_desktop_alone() {
    for window in [None, Some(hidden()), Some(shown())] {
        for pointer in other_pointer_events() {
            let mut d = desktop(window);
            let exit = d.handle(&TrayEvent::Pointer(pointer), Host::obliging());
            assert_eq!(exit, None);
            assert_eq!(d, desktop(window));
        }
    }
}

#[test]
fn left_click_reveals_a_hidden_window() {
    let mut d = desktop(Some(hidden()));
    let exit = d.handle(&left_click(), Host::obliging());
    assert_eq!(exit, None);
    assert_eq!(d.window, Some(Window { visible: true, focused: true }));
    assert_eq!(d.tray, Some(TrayIcon::new()));
}

#[test]
fn left_click_focuses_a_visible_window() {
    let mut d = desktop(Some(Window { visible: true, focused: false }));
    d.handle(&left_click(), Host::obliging());
    assert_eq!(d.window, Some(shown()));
}

#[test]
fn left_click_without_window_does_nothing() {
    let mut d = desktop(None);
    let exit = d.handle(&left_click(), Host::obliging());
    assert_eq!(exit, None);
    assert_eq!(d, desktop(None));
}

#[test]
fn left_click_without_window_or_tray_does_nothing() {
    let mut d = Desktop { window: None, tray: None };
    let exit = d.handle(&left_click(), Host::obliging());
    assert_eq!(exit, None);
    assert_eq!(d, Desktop { window: None, tray: None });
}

#[test]
fn show_item_does_what_a_left_click_does() {
    for window in [None, Some(hidden()), Some(shown()), Some(Window { visible: true, focused: false })] {
        let mut by_menu = desktop(window);
        let mut by_click = desktop(window);
        let exit_menu = by_menu.handle(&menu("show"), Host::obliging());
        let exit_click = by_click.handle(&left_click(), Host::obliging());
        assert_eq!(exit_menu, exit_click);
        assert_eq!(by_menu, by_click);
    }
}

#[test]
fn show_item_twice_leaves_the_window_revealed() {
    let mut d = desktop(Some(hidden()));
    assert_eq!(d.handle(&menu("show"), Host::obliging()), None);
    assert_eq!(d.window, Some(shown()));
    assert_eq!(d.handle(&menu("show"), Host::obliging()), None);
    assert_eq!(d.window, Some(shown()));
}

#[test]
fn quit_item_exits_whatever_the_window_state() {
    for window in [None, Some(hidden()), Some(shown())] {
        let mut d = desktop(window);
        let exit = d.handle(&menu("quit"), Host::obliging());
        assert_eq!(exit, Some(0));
        assert_eq!(d, desktop(window));
    }
}

#[test]
fn unknown_items_leave_the_desktop_alone() {
    for id in ["", "about", "SHOW", "quit now"] {
        let mut d = desktop(Some(hidden()));
        let exit = d.handle(&menu(id), Host::obliging());
        assert_eq!(exit, None);
        assert_eq!(d, desktop(Some(hidden())));
    }
}

#[test]
fn failed_show_is_passed_over_and_focus_still_requested() {
    let mut d = desktop(Some(hidden()));
    let exit = d.handle(&left_click(), Host { show: false, focus: true, title: true });
    assert_eq!(exit, None);
    assert_eq!(d.window, Some(Window { visible: false, focused: true }));
}

#[test]
fn failed_focus_is_passed_over() {
    let mut d = desktop(Some(hidden()));
    let exit = d.handle(&left_click(), Host { show: true, focus: false, title: true });
    assert_eq!(exit, None);
    assert_eq!(d.window, Some(Window { visible: true, focused: false }));
}

#[test]
fn refusing_host_changes_nothing() {
    let mut d = desktop(Some(hidden()));
    let exit = d.handle(&left_click(), Host::refusing());
    assert_eq!(exit, None);
    assert_eq!(d, desktop(Some(hidden())));
    update_tray_title(&mut d, Some(String::from("12:00")), Host::refusing());
    assert_eq!(d, desktop(Some(hidden())));
}

#[test]
fn revealing_never_hides() {
    for host in [Host::obliging(), Host::refusing()] {
        let mut d = desktop(Some(shown()));
        d.reveal_window(host);
        assert_eq!(d.window, Some(shown()));
    }
}

#[test]
fn apply_returns_the_exit_code() {
    let mut d = desktop(Some(hidden()));
    assert_eq!(d.apply(Action::Exit(0), Host::obliging()), Some(0));
    assert_eq!(d.apply(Action::Exit(3), Host::obliging()), Some(3));
    assert_eq!(d.apply(Action::Ignore, Host::obliging()), None);
    assert_eq!(d, desktop(Some(hidden())));
    assert_eq!(d.apply(Action::Reveal, Host::obliging()), None);
    assert_eq!(d.window, Some(shown()));
}

#[test]
fn window_show_and_focus() {
    let mut w = hidden();
    w.show_and_focus(Host::obliging());
    assert_eq!(w, shown());
}

#[test]
fn title_update_sets_exactly_the_given_text() {
    let mut d = desktop(Some(hidden()));
    update_tray_title(&mut d, Some(String::from("25:00 \u{2014} focus")), Host::obliging());
    let tray = d.tray.as_ref().unwrap();
    assert_eq!(tray.title(), Some("25:00 \u{2014} focus"));
    assert_eq!(d.window, Some(hidden()));
}

#[test]
fn title_update_with_absent_value_clears() {
    let mut d = desktop(None);
    update_tray_title(&mut d, Some(String::from("04:59")), Host::obliging());
    assert_eq!(d.tray.as_ref().unwrap().title(), Some("04:59"));
    update_tray_title(&mut d, None, Host::obliging());
    assert_eq!(d.tray.as_ref().unwrap().title(), None);
    assert_eq!(d, desktop(None));
}

#[test]
fn title_update_with_empty_text_keeps_it_present() {
    let mut d = desktop(None);
    update_tray_title(&mut d, Some(String::new()), Host::obliging());
    assert_eq!(d.tray.as_ref().unwrap().title(), Some(""));
}

#[test]
fn last_title_wins() {
    let mut d = desktop(Some(shown()));
    update_tray_title(&mut d, Some(String::from("first")), Host::obliging());
    update_tray_title(&mut d, Some(String::from("second")), Host::obliging());
    assert_eq!(d.tray.as_ref().unwrap().title(), Some("second"));
    let mut once = desktop(Some(shown()));
    update_tray_title(&mut once, Some(String::from("second")), Host::obliging());
    assert_eq!(d, once);
}

#[test]
fn title_update_before_the_tray_exists_does_nothing() {
    let mut d = Desktop { window: Some(hidden()), tray: None };
    update_tray_title(&mut d, Some(String::from("early")), Host::obliging());
    assert_eq!(d, Desktop { window: Some(hidden()), tray: None });
    update_tray_title(&mut d, None, Host::obliging());
    assert_eq!(d, Desktop { window: Some(hidden()), tray: None });
}

#[test]
fn title_update_keeps_the_rest_of_the_tray_icon() {
    let mut d = desktop(None);
    update_tray_title(&mut d, Some(String::from("x")), Host::obliging());
    let tray = d.tray.as_ref().unwrap();
    let fresh = TrayIcon::new();
    assert_eq!(tray.id(), fresh.id());
    assert_eq!(tray.icon(), fresh.icon());
    assert_eq!(tray.menu(), fresh.menu());
    assert_eq!(tray.show_menu_on_left_click(), fresh.show_menu_on_left_click());
}

#[test]
fn events_never_touch_the_title() {
    let mut d = desktop(Some(hidden()));
    update_tray_title(&mut d, Some(String::from("kept")), Host::obliging());
    d.handle(&left_click(), Host::obliging());
    d.handle(&menu("show"), Host::obliging());
    d.handle(&menu("quit"), Host::obliging());
    assert_eq!(d.tray.as_ref().unwrap().title(), Some("kept"));
}
