use widgets::{Dropdown, DropdownEvents, DropdownOutcome, Switch, TabBar, TabBarItem};

fn options() -> Vec<String> {
    vec!["A".to_string(), "B".to_string(), "C".to_string()]
}

fn quiet() -> DropdownEvents {
    DropdownEvents {
        trigger_clicked: false,
        option_clicked: None,
        escape_pressed: false,
        clicked_elsewhere: false,
    }
}

#[test]
fn switch_click_toggles_once() {
    let mut on = false;
    let mut s = Switch::new(on);
    assert!(s.interact(true));
    on = s.is_on();
    assert!(on);
    assert!(s.interact(true));
    assert!(!s.is_on());
}

#[test]
fn switch_without_clicks_keeps_state() {
    let mut s = Switch::new(true);
    for _ in 0..5 {
        assert!(!s.interact(false));
        assert!(s.is_on());
    }
}

#[test]
fn switch_track_colors() {
    assert_eq!(Switch::new(true).track_color(), widgets::Color::from_rgb(91, 194, 54));
    assert_eq!(Switch::new(false).track_color(), widgets::Color::from_rgb(229, 229, 229));
}

#[test]
fn dropdown_defaults_to_first_option() {
    let mut selected = String::new();
    let _d = Dropdown::new(options(), &mut selected);
    assert_eq!(selected, "A");
}

#[test]
fn dropdown_keeps_existing_selection() {
    let mut selected = "B".to_string();
    let _d = Dropdown::new(options(), &mut selected);
    assert_eq!(selected, "B");
}

#[test]
fn dropdown_without_options_keeps_empty_selection() {
    let mut selected = String::new();
    let _d = Dropdown::new(Vec::new(), &mut selected);
    assert_eq!(selected, "");
}

#[test]
fn dropdown_choosing_option_closes() {
    let mut selected = String::new();
    let d = Dropdown::new(options(), &mut selected);
    let opened = d.frame(false, DropdownEvents { trigger_clicked: true, ..quiet() }, &mut selected);
    assert_eq!(opened, DropdownOutcome { open: true, changed: false });
    let chosen = d.frame(true, DropdownEvents { option_clicked: Some(2), ..quiet() }, &mut selected);
    assert_eq!(chosen, DropdownOutcome { open: false, changed: true });
    assert_eq!(selected, "C");
    let next = d.frame(chosen.open, quiet(), &mut selected);
    assert_eq!(next, DropdownOutcome { open: false, changed: false });
    assert_eq!(selected, "C");
}

#[test]
fn dropdown_trigger_toggles_popup() {
    let mut selected = "A".to_string();
    let d = Dropdown::new(options(), &mut selected);
    let closed = d.frame(true, DropdownEvents { trigger_clicked: true, ..quiet() }, &mut selected);
    assert!(!closed.open);
    let stays = d.frame(true, quiet(), &mut selected);
    assert!(stays.open);
}

#[test]
fn dropdown_escape_and_outside_click_close() {
    let mut selected = "A".to_string();
    let d = Dropdown::new(options(), &mut selected);
    let esc = d.frame(true, DropdownEvents { escape_pressed: true, ..quiet() }, &mut selected);
    assert_eq!(esc, DropdownOutcome { open: false, changed: false });
    let away = d.frame(true, DropdownEvents { clicked_elsewhere: true, ..quiet() }, &mut selected);
    assert_eq!(away, DropdownOutcome { open: false, changed: false });
    let reopened = d.frame(
        false,
        DropdownEvents { trigger_clicked: true, clicked_elsewhere: true, ..quiet() },
        &mut selected,
    );
    assert!(reopened.open);
    assert_eq!(selected, "A");
}

#[test]
fn dropdown_ignores_option_clicks_while_closed() {
    let mut selected = "A".to_string();
    let d = Dropdown::new(options(), &mut selected);
    let out = d.frame(false, DropdownEvents { option_clicked: Some(1), ..quiet() }, &mut selected);
    assert_eq!(out, DropdownOutcome { open: false, changed: false });
    assert_eq!(selected, "A");
    let out = d.frame(true, DropdownEvents { option_clicked: Some(7), ..quiet() }, &mut selected);
    assert_eq!(out, DropdownOutcome { open: true, changed: false });
    assert_eq!(selected, "A");
}

#[test]
fn dropdown_highlights_selected_option() {
    let mut selected = "B".to_string();
    let d = Dropdown::new(options(), &mut selected);
    assert!(!d.is_selected(0, &selected));
    assert!(d.is_selected(1, &selected));
}

#[derive(Clone, Copy, PartialEq, Debug)]
enum Page {
    Home,
    Logs,
    Settings,
}

fn bar() -> TabBar<Page> {
    TabBar::new(vec![
        TabBarItem::new(Page::Home, "Home".to_string(), "h".to_string()),
        TabBarItem::new(Page::Logs, "Logs".to_string(), "l".to_string()),
        TabBarItem::new(Page::Settings, "Settings".to_string(), "s".to_string()),
    ])
}

#[test]
fn tab_bar_item_keeps_its_parts() {
    let item = TabBarItem::new(3usize, "Three".to_string(), "3".to_string());
    assert_eq!(item.value, 3);
    assert_eq!(item.label, "Three");
    assert_eq!(item.icon, "3");
}

#[test]
fn tab_bar_click_selects_value() {
    let b = bar();
    assert_eq!(b.height, 48);
    let mut selected = Page::Home;
    assert!(b.click(Some(2), &mut selected));
    assert_eq!(selected, Page::Settings);
    assert!(!b.click(None, &mut selected));
    assert!(!b.click(Some(3), &mut selected));
    assert_eq!(selected, Page::Settings);
}

#[test]
fn tab_bar_marks_active_tab() {
    let b = bar().height(60);
    assert_eq!(b.height, 60);
    let selected = Page::Logs;
    assert!(!b.is_active(0, &selected));
    assert!(b.is_active(1, &selected));
    assert_eq!(b.label_color(1, &selected), widgets::Color::from_rgb(0, 122, 255));
    assert_eq!(b.label_color(2, &selected), widgets::Color::from_rgb(142, 142, 147));
}
