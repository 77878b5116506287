use gitlog_tui::Action;
use gitlog_tui::App;
use gitlog_tui::Command;
use gitlog_tui::Item;
use gitlog_tui::KeyInput;
use gitlog_tui::LogEntryInfo;
use gitlog_tui::dispatch;
use gitlog_tui::first_line;
use gitlog_tui::origin_changed;
use gitlog_tui::viewport_rows;

fn item(id: &str, t: i64) -> Item {
    Item {
        entry: LogEntryInfo {
            commit_id: id.to_string(),
            author: b"carol".to_vec(),
            time: format!("t{t}"),
            message: b"first\nsecond".to_vec(),
            author_time: t,
        },
        origin: None,
    }
}

fn app_of(n: usize) -> App {
    let items: Vec<Item> = (0..n).map(|i| item(&format!("c{i}"), i as i64)).collect();
    App::new(String::from("/repo"), Vec::new(), items)
}

#[test]
fn key_bindings_dispatch_to_their_commands() {
    assert_eq!(dispatch(KeyInput::Char('q'), true), Command::Quit);
    assert_eq!(dispatch(KeyInput::Char('j'), true), Command::Next);
    assert_eq!(dispatch(KeyInput::Down, true), Command::Next);
    assert_eq!(dispatch(KeyInput::Char('k'), true), Command::Previous);
    assert_eq!(dispatch(KeyInput::Up, true), Command::Previous);
    assert_eq!(dispatch(KeyInput::Enter, true), Command::Inspect);
    assert_eq!(dispatch(KeyInput::PageDown, true), Command::PageDown);
    assert_eq!(dispatch(KeyInput::PageUp, true), Command::PageUp);
    assert_eq!(dispatch(KeyInput::Home, true), Command::GoToStart);
    assert_eq!(dispatch(KeyInput::End, true), Command::GoToEnd);
}

#[test]
fn unrecognized_keys_are_noops() {
    assert_eq!(dispatch(KeyInput::Char('x'), true), Command::Noop);
    assert_eq!(dispatch(KeyInput::Char('Q'), true), Command::Noop);
    assert_eq!(dispatch(KeyInput::Other, true), Command::Noop);
}

#[test]
fn non_press_events_are_filtered() {
    assert_eq!(dispatch(KeyInput::Char('q'), false), Command::Noop);
    assert_eq!(dispatch(KeyInput::Enter, false), Command::Noop);
    assert_eq!(dispatch(KeyInput::Down, false), Command::Noop);
}

#[test]
fn quit_command_stops_the_loop() {
    let mut app = app_of(3);
    assert_eq!(app.handle_command(Command::Quit), Action::Quit);
    assert_eq!(app.current_selection(), Some(0));
}

#[test]
fn inspect_selects_the_cursor_entry() {
    let mut app = app_of(3);
    app.next();
    assert_eq!(app.handle_command(Command::Inspect), Action::Select(1));
    assert_eq!(app.current_selection(), Some(1));
}

#[test]
fn move_commands_drive_the_cursor() {
    let mut app = app_of(5);
    app.set_list_height(4);
    assert_eq!(app.handle_command(Command::Next), Action::Continue);
    assert_eq!(app.current_selection(), Some(1));
    assert_eq!(app.handle_command(Command::PageDown), Action::Continue);
    assert_eq!(app.current_selection(), Some(3));
    assert_eq!(app.handle_command(Command::Previous), Action::Continue);
    assert_eq!(app.current_selection(), Some(2));
    assert_eq!(app.handle_command(Command::GoToEnd), Action::Continue);
    assert_eq!(app.current_selection(), Some(4));
    assert_eq!(app.handle_command(Command::PageUp), Action::Continue);
    assert_eq!(app.current_selection(), Some(2));
    assert_eq!(app.handle_command(Command::GoToStart), Action::Continue);
    assert_eq!(app.current_selection(), Some(0));
    assert_eq!(app.handle_command(Command::Noop), Action::Continue);
    assert_eq!(app.current_selection(), Some(0));
}

#[test]
fn first_line_stops_at_the_newline() {
    assert_eq!(first_line(&b"first\nsecond\nthird".to_vec()), b"first".to_vec());
    assert_eq!(first_line(&b"no newline".to_vec()), b"no newline".to_vec());
    assert_eq!(first_line(&b"".to_vec()), b"".to_vec());
    assert_eq!(first_line(&b"\nleading".to_vec()), b"".to_vec());
}

#[test]
fn origin_label_changes_only_between_different_origins() {
    assert!(!origin_changed(None, None));
    assert!(!origin_changed(Some(2), Some(2)));
    assert!(origin_changed(None, Some(0)));
    assert!(origin_changed(Some(0), None));
    assert!(origin_changed(Some(0), Some(1)));
}

#[test]
fn viewport_rows_saturate_below_the_border() {
    assert_eq!(viewport_rows(0), 0);
    assert_eq!(viewport_rows(1), 0);
    assert_eq!(viewport_rows(2), 0);
    assert_eq!(viewport_rows(3), 1);
    assert_eq!(viewport_rows(40), 38);
}
