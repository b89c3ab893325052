use anitable::anitable::AnimeData;
use anitable::viewer::{scroll_offset, time_label, App};

fn item(id: i32, time: &str) -> AnimeData {
    AnimeData {
        alive: true,
        end_date: None,
        genre: "g".to_string(),
        id,
        link: String::new(),
        subject: format!("s{}", id),
        start_date: None,
        time: time.to_string(),
    }
}

#[test]
fn new_app_opens_on_today() {
    let app = App::new(0);
    assert_eq!(app.tabs.titles.len(), 7);
    assert_eq!(app.tabs.index, 1);
    assert_eq!(App::new(6).tabs.index, 0);
    assert!(app.items.is_empty());
    assert!(!app.should_quit);
}

#[test]
fn tabs_wrap_both_ways() {
    let mut app = App::new(5);
    assert_eq!(app.tabs.index, 6);
    app.on_next();
    assert_eq!(app.tabs.index, 0);
    app.on_prev();
    assert_eq!(app.tabs.index, 6);
}

#[test]
fn cursor_wraps_both_ways() {
    let mut app = App::new(0);
    app.set_items(vec![item(1, "0100"), item(2, "0200"), item(3, "0300")]);
    assert_eq!(app.selected, 0);
    app.on_up();
    assert_eq!(app.selected, 2);
    app.on_down();
    assert_eq!(app.selected, 0);
    app.on_down();
    assert_eq!(app.selected, 1);
    app.set_items(vec![item(4, "0400")]);
    assert_eq!(app.selected, 0);
}

#[test]
fn cursor_on_empty_list_stays() {
    let mut app = App::new(0);
    app.on_up();
    assert_eq!(app.selected, 0);
    app.on_down();
    assert_eq!(app.selected, 0);
}

#[test]
fn cursor_above_empty_list_moves_up() {
    let mut app = App::new(0);
    app.selected = 5;
    app.on_up();
    assert_eq!(app.selected, 4);
}

#[test]
fn tab_titles_run_sunday_to_saturday() {
    let app = App::new(3);
    assert_eq!(app.tabs.titles, vec!["일", "월", "화", "수", "목", "금", "토"]);
    assert_eq!(app.tabs.index, 4);
}

#[test]
fn keys_quit_and_refresh() {
    let mut app = App::new(0);
    assert!(!app.on_key('x'));
    assert!(!app.should_quit);
    assert!(app.on_key('r'));
    assert!(!app.should_quit);
    assert!(!app.on_key('q'));
    assert!(app.should_quit);
}

#[test]
fn scroll_keeps_cursor_visible() {
    assert_eq!(scroll_offset(20, 3), 0);
    assert_eq!(scroll_offset(20, 15), 0);
    assert_eq!(scroll_offset(20, 18), 3);
    assert_eq!(scroll_offset(4, 18), 0);
}

#[test]
fn time_shown_with_colon() {
    assert_eq!(time_label("0030"), "00:30");
    assert_eq!(time_label("2359"), "23:59");
    assert_eq!(time_label("7"), "7");
}

#[test]
fn rows_mark_the_cursor() {
    let mut app = App::new(0);
    app.set_items(vec![item(1, "0100"), item(2, "0230"), item(3, "0300")]);
    app.on_down();
    let rows = app.rows(30);
    assert_eq!(rows.len(), 3);
    assert_eq!(rows[1].time, "02:30");
    assert_eq!(rows[1].subject, "s2");
    assert!(rows[1].selected);
    assert!(!rows[0].selected);
    let rows = app.rows(6);
    assert_eq!(rows.len(), 3);
    assert_eq!(rows[0].subject, "s1");
    assert!(rows[1].selected);
}
