use readme_wizard::form::{App, InputMode, Key, Outcome, EXTENDED_FIELDS, MINIMAL_FIELDS};
use readme_wizard::screen::{Mark, SidePanel};

fn type_str(app: &mut App, s: &str) {
    for c in s.chars() {
        assert_eq!(app.handle_key(Key::Char(c)), Outcome::Continue);
    }
}

fn fill_all(app: &mut App, values: &[&str]) {
    assert_eq!(app.handle_key(Key::Enter), Outcome::Continue);
    for v in values {
        type_str(app, v);
        assert_eq!(app.handle_key(Key::Enter), Outcome::Continue);
    }
}

#[test]
fn starts_in_navigation_on_first_field() {
    let app = App::default();
    assert_eq!(app.fields.len(), EXTENDED_FIELDS);
    assert_eq!(app.current_field, 0);
    assert_eq!(app.input_mode, InputMode::Navigation);
    assert_eq!(app.selected_license, 0);
    assert_eq!(app.license_options[0], "MIT License");
    assert_eq!(app.fields[0].name, "Repository Name");
    assert!(app.fields.iter().all(|f| f.value.is_empty()));
    assert_eq!(App::minimal().fields.len(), MINIMAL_FIELDS);
}

#[test]
fn index_stays_in_range_for_any_keys() {
    let keys = [
        Key::Up, Key::Up, Key::Down, Key::Enter, Key::Char('x'), Key::Enter, Key::Enter,
        Key::Enter, Key::Enter, Key::Enter, Key::Down, Key::Down, Key::Down, Key::Backspace,
        Key::Esc, Key::Tab, Key::Other, Key::Up,
    ];
    for mut app in [App::minimal(), App::default()] {
        let n = app.fields.len();
        for _ in 0..3 {
            for k in keys {
                app.handle_key(k);
                assert!(app.current_field < n);
            }
        }
    }
}

#[test]
fn moves_at_the_boundaries_are_noops() {
    let mut app = App::minimal();
    app.handle_key(Key::Up);
    assert_eq!(app.current_field, 0);
    for _ in 0..10 {
        app.handle_key(Key::Down);
    }
    assert_eq!(app.current_field, MINIMAL_FIELDS - 1);
    app.handle_key(Key::Down);
    assert_eq!(app.current_field, MINIMAL_FIELDS - 1);
    app.handle_key(Key::Up);
    assert_eq!(app.current_field, MINIMAL_FIELDS - 2);
}

#[test]
fn cancel_keeps_committed_value() {
    let mut app = App::minimal();
    app.handle_key(Key::Enter);
    type_str(&mut app, "old");
    app.handle_key(Key::Enter);
    app.handle_key(Key::Esc);
    app.handle_key(Key::Up);
    assert_eq!(app.current_field, 0);
    app.handle_key(Key::Enter);
    assert_eq!(app.input, "old");
    type_str(&mut app, "new stuff");
    app.handle_key(Key::Backspace);
    app.handle_key(Key::Esc);
    assert_eq!(app.fields[0].value, "old");
    assert_eq!(app.input_mode, InputMode::Navigation);
    assert_eq!(app.input, "");
    assert_eq!(app.current_field, 0);
}

#[test]
fn type_and_confirm_commits_and_advances() {
    let mut app = App::minimal();
    app.handle_key(Key::Enter);
    assert_eq!(app.input_mode, InputMode::Editing);
    type_str(&mut app, "quit q");
    app.handle_key(Key::Enter);
    assert_eq!(app.fields[0].value, "quit q");
    assert_eq!(app.current_field, 1);
    assert_eq!(app.input_mode, InputMode::Editing);
}

#[test]
fn confirm_on_last_field_returns_to_navigation() {
    let mut app = App::minimal();
    for _ in 0..4 {
        app.handle_key(Key::Down);
    }
    app.handle_key(Key::Enter);
    type_str(&mut app, "alice");
    app.handle_key(Key::Enter);
    assert_eq!(app.fields[4].value, "alice");
    assert_eq!(app.current_field, 4);
    assert_eq!(app.input_mode, InputMode::Navigation);
    assert_eq!(app.input, "");
}

#[test]
fn editing_prefills_and_backspace_on_empty_is_noop() {
    let mut app = App::minimal();
    app.handle_key(Key::Enter);
    app.handle_key(Key::Backspace);
    assert_eq!(app.input, "");
    type_str(&mut app, "ab");
    app.handle_key(Key::Backspace);
    assert_eq!(app.input, "a");
    app.handle_key(Key::Enter);
    app.handle_key(Key::Esc);
    app.handle_key(Key::Up);
    app.handle_key(Key::Enter);
    assert_eq!(app.input, "a");
}

#[test]
fn quit_only_in_navigation() {
    let mut app = App::minimal();
    app.handle_key(Key::Enter);
    assert_eq!(app.handle_key(Key::Char('q')), Outcome::Continue);
    assert_eq!(app.input, "q");
    app.handle_key(Key::Esc);
    assert_eq!(app.handle_key(Key::Char('q')), Outcome::Quit);
}

#[test]
fn completion_needs_every_field() {
    let mut app = App::minimal();
    assert_eq!(app.handle_key(Key::Tab), Outcome::Continue);
    fill_all(&mut app, &["me/proj", "desc", "npm i", "npm run"]);
    assert_eq!(app.handle_key(Key::Esc), Outcome::Continue);
    assert_eq!(app.handle_key(Key::Tab), Outcome::Continue);
    assert_eq!(app.current_field, 4);
    app.handle_key(Key::Enter);
    type_str(&mut app, "alice");
    app.handle_key(Key::Enter);
    assert!(app.all_fields_filled());
    assert!(app.select_license(3));
    assert_eq!(app.handle_key(Key::Tab), Outcome::Complete);
}

#[test]
fn select_license_out_of_range_changes_nothing() {
    let mut app = App::default();
    assert!(!app.select_license(5));
    assert_eq!(app.selected_license, 0);
    assert!(app.select_license(4));
    assert_eq!(app.selected_license, 4);
}

#[test]
fn progress_marks_each_field() {
    let mut app = App::minimal();
    app.handle_key(Key::Enter);
    type_str(&mut app, "x");
    app.handle_key(Key::Enter);
    app.handle_key(Key::Esc);
    assert_eq!(
        app.progress(),
        vec![Mark::Filled, Mark::Current, Mark::Empty, Mark::Empty, Mark::Empty]
    );
}

#[test]
fn side_panel_shows_description_until_complete() {
    let mut app = App::minimal();
    match app.side_panel() {
        SidePanel::Description(t) => assert_eq!(t, app.fields[0].description),
        SidePanel::Preview(_) => panic!("preview before the form is filled"),
    }
    fill_all(&mut app, &["me/proj", "desc", "npm i", "npm run", "alice"]);
    match app.side_panel() {
        SidePanel::Preview(t) => assert_eq!(t, app.generate_preview()),
        SidePanel::Description(_) => panic!("description on a filled form"),
    }
}
