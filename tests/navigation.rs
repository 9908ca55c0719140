use ducky::navigation::{App, Flow, Input, Key, Screen};

fn app_with(labels: &[&str]) -> App {
    App::with_entries(labels.iter().map(|l| l.to_string()).collect()).unwrap()
}

fn press(app: &mut App, key: Key) -> Flow {
    app.handle_input(Input::Key(key))
}

#[test]
fn new_starts_on_main_with_first_entry() {
    let app = App::new();
    assert_eq!(app.screen(), Screen::Main);
    assert_eq!(app.selected(), 0);
    assert_eq!(app.menu_items().len(), 4);
    assert_eq!(app.menu_items()[3], "🦐  Working out Pad");
}

#[test]
fn no_entries_is_rejected() {
    assert!(App::with_entries(Vec::new()).is_none());
}

#[test]
fn down_down_activate_then_escape_keeps_selection() {
    let mut app = app_with(&["Todo", "Calendar", "Obsidian", "WorkingOutPad"]);
    assert_eq!(press(&mut app, Key::Down), Flow::Continue);
    assert_eq!(press(&mut app, Key::Down), Flow::Continue);
    assert_eq!(press(&mut app, Key::Enter), Flow::Continue);
    assert_eq!(app.screen(), Screen::Obsidian);
    assert_eq!(app.selected(), 2);
    assert_eq!(press(&mut app, Key::Esc), Flow::Continue);
    assert_eq!(app.screen(), Screen::Main);
    assert_eq!(app.selected(), 2);
}

#[test]
fn next_and_previous_wrap() {
    let mut app = App::new();
    app.previous();
    assert_eq!(app.selected(), 3);
    app.next();
    assert_eq!(app.selected(), 0);
}

#[test]
fn next_entry_count_times_returns_to_start() {
    for count in 1..6usize {
        let labels: Vec<String> = (0..count).map(|i| format!("entry {}", i)).collect();
        for start in 0..count {
            let mut app = App::with_entries(labels.clone()).unwrap();
            for _ in 0..start {
                app.next();
            }
            assert_eq!(app.selected(), start);
            for _ in 0..count {
                app.next();
            }
            assert_eq!(app.selected(), start);
            for _ in 0..count {
                app.previous();
            }
            assert_eq!(app.selected(), start);
        }
    }
}

#[test]
fn activate_then_home_or_quit_returns_with_selection() {
    let expected = [Screen::TodoList, Screen::Calendar, Screen::Obsidian, Screen::WorkingOutPad, Screen::Configuration];
    for back in [Key::Esc, Key::Char('q'), Key::Char('h')] {
        for (i, screen) in expected.iter().enumerate() {
            let mut app = app_with(&["a", "b", "c", "d", "e"]);
            for _ in 0..i {
                press(&mut app, Key::Char('j'));
            }
            press(&mut app, Key::Enter);
            assert_eq!(app.screen(), *screen);
            assert_eq!(app.selected(), i);
            assert_eq!(press(&mut app, back), Flow::Continue);
            assert_eq!(app.screen(), Screen::Main);
            assert_eq!(app.selected(), i);
        }
    }
}

#[test]
fn more_entries_than_screens_is_rejected() {
    let six: Vec<String> = (0..6).map(|i| format!("entry {}", i)).collect();
    assert!(App::with_entries(six).is_none());
    let five: Vec<String> = (0..5).map(|i| format!("entry {}", i)).collect();
    assert!(App::with_entries(five).is_some());
}

#[test]
fn distinct_entries_open_distinct_screens() {
    let mut seen = Vec::new();
    for i in 0..5 {
        let mut app = app_with(&["a", "b", "c", "d", "e"]);
        for _ in 0..i {
            app.next();
        }
        app.open_selected();
        assert_ne!(app.screen(), Screen::Main);
        assert!(!seen.contains(&app.screen()));
        seen.push(app.screen());
    }
}

#[test]
fn quit_keys_end_the_loop_on_main() {
    let mut app = App::new();
    assert_eq!(press(&mut app, Key::Char('q')), Flow::Quit);
    assert_eq!(press(&mut app, Key::Esc), Flow::Quit);
    assert_eq!(app.screen(), Screen::Main);
}

#[test]
fn up_keys_move_up() {
    let mut app = App::new();
    press(&mut app, Key::Char('k'));
    assert_eq!(app.selected(), 3);
    press(&mut app, Key::Up);
    assert_eq!(app.selected(), 2);
}

#[test]
fn other_inputs_are_ignored() {
    let mut app = App::new();
    press(&mut app, Key::Down);
    press(&mut app, Key::Enter);
    for input in [
        Input::Mouse,
        Input::Resize(10, 20),
        Input::FocusGained,
        Input::FocusLost,
        Input::Paste,
        Input::Key(Key::Other),
        Input::Key(Key::Down),
        Input::Key(Key::Enter),
        Input::Key(Key::Char('x')),
    ] {
        assert_eq!(app.handle_input(input), Flow::Continue);
        assert_eq!(app.screen(), Screen::Calendar);
        assert_eq!(app.selected(), 1);
    }
}

#[test]
fn home_on_main_changes_nothing() {
    let mut app = App::new();
    press(&mut app, Key::Down);
    assert_eq!(press(&mut app, Key::Char('h')), Flow::Continue);
    assert_eq!(app.screen(), Screen::Main);
    assert_eq!(app.selected(), 1);
}
