use gitlog_tui::Action;
use gitlog_tui::App;
use gitlog_tui::Command;
use gitlog_tui::Item;
use gitlog_tui::LogEntryInfo;
use gitlog_tui::SubmoduleInfo;

fn entry(id: &str, t: i64) -> LogEntryInfo {
    LogEntryInfo {
        commit_id: id.to_string(),
        author: b"alice".to_vec(),
        time: format!("t{t}"),
        message: b"subject line\nbody".to_vec(),
        author_time: t,
    }
}

fn item(id: &str, t: i64) -> Item {
    Item { entry: entry(id, t), origin: None }
}

fn app_of(n: usize) -> App {
    let items: Vec<Item> = (0..n).map(|i| item(&format!("c{i}"), i as i64)).collect();
    App::new(String::from("/repo"), Vec::new(), items)
}

#[test]
fn next_and_previous_clamp_at_the_ends() {
    let mut app = app_of(3);
    assert_eq!(app.current_selection(), Some(0));
    app.previous();
    assert_eq!(app.current_selection(), Some(0));
    for _ in 0..10 {
        app.next();
        let c = app.current_selection().unwrap();
        assert!(c <= 2);
    }
    assert_eq!(app.current_selection(), Some(2));
    for _ in 0..10 {
        app.previous();
        let c = app.current_selection().unwrap();
        assert!(c <= 2);
    }
    assert_eq!(app.current_selection(), Some(0));
}

#[test]
fn end_then_next_is_idempotent() {
    let mut app = app_of(4);
    app.go_to_end();
    assert_eq!(app.current_selection(), Some(3));
    app.next();
    assert_eq!(app.current_selection(), Some(3));
}

#[test]
fn start_then_previous_is_idempotent() {
    let mut app = app_of(4);
    app.go_to_end();
    app.go_to_start();
    assert_eq!(app.current_selection(), Some(0));
    app.previous();
    assert_eq!(app.current_selection(), Some(0));
}

#[test]
fn page_with_zero_rows_equals_one_row() {
    let mut a = app_of(6);
    let mut b = app_of(6);
    a.set_list_height(0);
    b.set_list_height(1);
    a.page_down();
    b.page_down();
    assert_eq!(a.current_selection(), b.current_selection());
    assert_eq!(a.current_selection(), Some(1));
    a.go_to_end();
    b.go_to_end();
    a.page_up();
    b.page_up();
    assert_eq!(a.current_selection(), b.current_selection());
    assert_eq!(a.current_selection(), Some(4));
}

#[test]
fn page_down_steps_half_viewport_and_clamps() {
    let mut app = app_of(5);
    app.set_list_height(4);
    app.page_down();
    assert_eq!(app.current_selection(), Some(2));
    app.page_down();
    assert_eq!(app.current_selection(), Some(4));
    app.page_down();
    assert_eq!(app.current_selection(), Some(4));
}

#[test]
fn page_up_floors_at_zero() {
    let mut app = app_of(5);
    app.set_list_height(4);
    app.go_to_end();
    app.page_up();
    assert_eq!(app.current_selection(), Some(2));
    app.page_up();
    assert_eq!(app.current_selection(), Some(0));
    app.page_up();
    assert_eq!(app.current_selection(), Some(0));
}

#[test]
fn empty_list_degrades_gracefully() {
    let mut app = app_of(0);
    assert_eq!(app.current_selection(), None);
    assert_eq!(app.status_counts(), (0, 0));
    assert_eq!(app.scroll_percent(), 0);
    app.next();
    app.previous();
    app.set_list_height(7);
    app.page_down();
    app.page_up();
    app.go_to_start();
    app.go_to_end();
    assert_eq!(app.current_selection(), None);
    assert!(app.selected_item().is_none());
    assert_eq!(app.handle_command(Command::Inspect), Action::Continue);
}

#[test]
fn single_entry_list_is_stuck_at_zero() {
    let mut app = app_of(1);
    app.set_list_height(40);
    app.next();
    app.page_down();
    app.go_to_end();
    assert_eq!(app.current_selection(), Some(0));
    app.previous();
    app.page_up();
    assert_eq!(app.current_selection(), Some(0));
    assert_eq!(app.status_counts(), (1, 1));
}

#[test]
fn status_counts_are_one_based() {
    let mut app = app_of(5);
    assert_eq!(app.status_counts(), (1, 5));
    app.next();
    app.next();
    assert_eq!(app.status_counts(), (3, 5));
    app.go_to_end();
    assert_eq!(app.status_counts(), (5, 5));
}

#[test]
fn scroll_percent_rounds_down() {
    let mut app = app_of(5);
    assert_eq!(app.scroll_percent(), 0);
    app.next();
    app.next();
    assert_eq!(app.scroll_percent(), 40);
    app.go_to_end();
    assert_eq!(app.scroll_percent(), 80);
}

#[test]
fn huge_viewport_pages_straight_to_the_ends() {
    let mut app = app_of(100);
    app.set_list_height(u16::MAX);
    app.page_down();
    assert_eq!(app.current_selection(), Some(99));
    app.page_up();
    assert_eq!(app.current_selection(), Some(0));
}

#[test]
fn inspect_resolves_submodule_git_dir() {
    let submodules = vec![SubmoduleInfo {
        name: String::from("lib/dep"),
        git_dir: String::from("/repo/.git/modules/lib/dep"),
    }];
    let items = vec![
        Item { entry: entry("aaa", 3), origin: Some(0) },
        Item { entry: entry("bbb", 2), origin: None },
    ];
    let app = App::new(String::from("/repo"), submodules, items);
    let req = app.inspect_request(0);
    assert_eq!(req.commit_id, "aaa");
    assert_eq!(req.dir, "/repo/.git/modules/lib/dep");
    let req = app.inspect_request(1);
    assert_eq!(req.commit_id, "bbb");
    assert_eq!(req.dir, "/repo");
}

#[test]
fn selected_item_follows_the_cursor() {
    let mut app = app_of(3);
    app.next();
    let it = app.selected_item().unwrap();
    assert_eq!(it.entry.commit_id, "c1");
    assert_eq!(it.entry.author_time, 1);
}
