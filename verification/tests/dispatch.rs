use todo_tui::app::{App, Focus, InputMode, Screen};
use todo_tui::handler::handle_key_events;
use todo_tui::key::Key;
use todo_tui::model::todo::{Todo, TodoStatus};
use todo_tui::views::home::Home;

fn press(app: &mut App, keys: &[Key]) {
    let mut home = Home::new();
    for key in keys {
        home.handle_key(*key, app);
    }
}

fn type_text(app: &mut App, text: &str) {
    let mut home = Home::new();
    for c in text.chars() {
        home.handle_key(Key::Char(c), app);
    }
}

fn app_with(names: &[&str]) -> App {
    let mut app = App::new();
    for name in names {
        app.todos.append(Todo::new(name.to_string(), TodoStatus::PROGESS));
    }
    app
}

fn statuses(app: &App) -> Vec<TodoStatus> {
    app.todos.todos().iter().map(|todo| todo.status).collect()
}

#[test]
fn new_app_starts_browsing_an_empty_list() {
    let app = App::new();
    assert_eq!(app.screen, Screen::Home);
    assert!(app.running);
    assert!(app.todos.is_empty());
    assert_eq!(app.todos.selected(), None);
    assert!(!app.show_popup);
    assert_eq!(app.home_add_todo_focus, Focus::Name);
    assert_eq!(app.home_add_todo_todo_name_input.value(), "");
    assert_eq!(app.home_add_todo_todo_summary_input.value(), "");
    assert_eq!(app.input_mode(), InputMode::Normal);
    let app = App::default();
    assert!(app.running);
    assert!(app.todos.is_empty());
    assert!(!app.show_popup);
}

#[test]
fn quit_stops_the_application() {
    let mut app = app_with(&["A"]);
    app.tick();
    assert!(app.running);
    app.quit();
    assert!(!app.running);
    assert_eq!(app.todos.len(), 1);
    assert!(!app.show_popup);
}

#[test]
fn q_and_esc_quit_while_browsing() {
    let mut app = App::new();
    press(&mut app, &[Key::Char('q')]);
    assert!(!app.running);
    let mut app = App::new();
    press(&mut app, &[Key::Esc]);
    assert!(!app.running);
}

#[test]
fn capital_q_does_not_quit_while_browsing() {
    let mut app = App::new();
    press(&mut app, &[Key::Char('Q')]);
    assert!(app.running);
    assert!(!app.show_popup);
}

#[test]
fn j_and_down_move_the_selection_on() {
    let mut app = app_with(&["A", "B", "C"]);
    press(&mut app, &[Key::Char('j')]);
    assert_eq!(app.todos.selected(), Some(0));
    press(&mut app, &[Key::Down]);
    assert_eq!(app.todos.selected(), Some(1));
    press(&mut app, &[Key::Char('J')]);
    assert_eq!(app.todos.selected(), Some(2));
    press(&mut app, &[Key::Char('j'), Key::Down]);
    assert_eq!(app.todos.selected(), Some(2));
}

#[test]
fn k_and_up_move_the_selection_back() {
    let mut app = app_with(&["A", "B", "C"]);
    press(&mut app, &[Key::Char('k')]);
    assert_eq!(app.todos.selected(), Some(2));
    press(&mut app, &[Key::Up]);
    assert_eq!(app.todos.selected(), Some(1));
    press(&mut app, &[Key::Char('K')]);
    assert_eq!(app.todos.selected(), Some(0));
    press(&mut app, &[Key::Char('k'), Key::Up]);
    assert_eq!(app.todos.selected(), Some(0));
}

#[test]
fn g_selects_the_first_and_capital_g_the_last() {
    let mut app = app_with(&["A", "B", "C"]);
    press(&mut app, &[Key::Char('G')]);
    assert_eq!(app.todos.selected(), Some(2));
    press(&mut app, &[Key::Char('g')]);
    assert_eq!(app.todos.selected(), Some(0));
}

#[test]
fn navigation_on_an_empty_list_selects_nothing() {
    let mut app = App::new();
    for key in [Key::Char('j'), Key::Down, Key::Char('k'), Key::Up, Key::Char('g'), Key::Char('G')] {
        press(&mut app, &[key]);
        assert_eq!(app.todos.selected(), None);
        assert!(Home::new().get_current_item(&app).is_none());
        assert!(app.running);
    }
}

#[test]
fn x_marks_only_the_selected_todo_done() {
    let mut app = app_with(&["A", "B"]);
    press(&mut app, &[Key::Char('g'), Key::Char('x')]);
    assert_eq!(app.todos.names(), vec!["A", "B"]);
    assert_eq!(statuses(&app), vec![TodoStatus::DONE, TodoStatus::PROGESS]);
    assert_eq!(app.todos.selected(), Some(0));
}

#[test]
fn x_without_selection_changes_nothing() {
    let mut app = app_with(&["A", "B"]);
    press(&mut app, &[Key::Char('x')]);
    assert_eq!(app.todos.names(), vec!["A", "B"]);
    assert_eq!(statuses(&app), vec![TodoStatus::PROGESS, TodoStatus::PROGESS]);
    assert_eq!(app.todos.selected(), None);
    let mut app = App::new();
    press(&mut app, &[Key::Char('x')]);
    assert!(app.todos.is_empty());
}

#[test]
fn x_on_a_done_todo_leaves_it_done() {
    let mut app = app_with(&["A"]);
    press(&mut app, &[Key::Char('g'), Key::Char('x'), Key::Char('x')]);
    assert_eq!(statuses(&app), vec![TodoStatus::DONE]);
}

#[test]
fn other_keys_are_ignored_while_browsing() {
    let mut app = app_with(&["A", "B"]);
    press(&mut app, &[Key::Char('g')]);
    for key in [Key::Enter, Key::Left, Key::Right, Key::Backspace, Key::Other, Key::Char('z'), Key::Char('E'), Key::Char('X')] {
        press(&mut app, &[key]);
        assert!(app.running);
        assert!(!app.show_popup);
        assert_eq!(app.todos.selected(), Some(0));
        assert_eq!(statuses(&app), vec![TodoStatus::PROGESS, TodoStatus::PROGESS]);
        assert_eq!(app.home_add_todo_todo_name_input.value(), "");
    }
}

#[test]
fn e_opens_the_form_with_the_name_focused() {
    let mut app = App::new();
    app.home_add_todo_focus = Focus::Nothing;
    press(&mut app, &[Key::Char('e')]);
    assert!(app.show_popup);
    assert_eq!(app.home_add_todo_focus, Focus::Name);
    assert_eq!(app.home_add_todo_todo_name_input.value(), "");
    assert_eq!(app.home_add_todo_todo_name_input.cursor(), 0);
    assert_eq!(app.input_mode(), InputMode::Insert);
    assert!(app.running);
}

#[test]
fn typing_in_the_form_fills_the_name() {
    let mut app = App::new();
    press(&mut app, &[Key::Char('e')]);
    type_text(&mut app, "Buy milk");
    assert_eq!(app.home_add_todo_todo_name_input.value(), "Buy milk");
    assert_eq!(app.home_add_todo_todo_name_input.cursor(), 8);
    assert_eq!(app.home_add_todo_todo_summary_input.value(), "");
    assert!(app.todos.is_empty());
}

#[test]
fn commit_appends_the_typed_todo_and_resets_the_name() {
    let mut app = App::new();
    press(&mut app, &[Key::Char('e')]);
    type_text(&mut app, "Buy milk");
    press(&mut app, &[Key::Enter]);
    assert_eq!(app.todos.len(), 1);
    assert_eq!(app.todos.todos()[0].name, "Buy milk");
    assert_eq!(app.todos.todos()[0].status, TodoStatus::PROGESS);
    assert_eq!(app.home_add_todo_todo_name_input.value(), "");
    assert_eq!(app.home_add_todo_todo_name_input.cursor(), 0);
    assert_eq!(app.home_add_todo_todo_summary_input.value(), "");
}

#[test]
fn form_stays_open_after_commit() {
    let mut app = App::new();
    press(&mut app, &[Key::Char('e')]);
    type_text(&mut app, "first");
    press(&mut app, &[Key::Enter]);
    assert!(app.show_popup);
    assert_eq!(app.home_add_todo_focus, Focus::Name);
    type_text(&mut app, "second");
    press(&mut app, &[Key::Enter]);
    assert_eq!(app.todos.names(), vec!["first", "second"]);
    assert!(app.show_popup);
}

#[test]
fn commit_keeps_the_selection() {
    let mut app = app_with(&["A", "B"]);
    press(&mut app, &[Key::Char('G'), Key::Char('e')]);
    type_text(&mut app, "C");
    press(&mut app, &[Key::Enter]);
    assert_eq!(app.todos.names(), vec!["A", "B", "C"]);
    assert_eq!(app.todos.selected(), Some(1));
}

#[test]
fn empty_name_can_be_committed() {
    let mut app = App::new();
    press(&mut app, &[Key::Char('e'), Key::Enter]);
    assert_eq!(app.todos.len(), 1);
    assert_eq!(app.todos.todos()[0].name, "");
    assert_eq!(app.todos.todos()[0].status, TodoStatus::PROGESS);
}

#[test]
fn enter_without_focus_commits_nothing() {
    let mut app = App::new();
    press(&mut app, &[Key::Char('e')]);
    type_text(&mut app, "kept");
    press(&mut app, &[Key::Up, Key::Enter]);
    assert!(app.todos.is_empty());
    assert_eq!(app.home_add_todo_todo_name_input.value(), "kept");
    assert!(app.show_popup);
}

#[test]
fn up_and_down_toggle_the_focus() {
    let mut app = App::new();
    press(&mut app, &[Key::Char('e')]);
    assert_eq!(app.home_add_todo_focus, Focus::Name);
    press(&mut app, &[Key::Up]);
    assert_eq!(app.home_add_todo_focus, Focus::Nothing);
    press(&mut app, &[Key::Up]);
    assert_eq!(app.home_add_todo_focus, Focus::Name);
    press(&mut app, &[Key::Down]);
    assert_eq!(app.home_add_todo_focus, Focus::Nothing);
    press(&mut app, &[Key::Down]);
    assert_eq!(app.home_add_todo_focus, Focus::Name);
}

#[test]
fn typing_without_focus_goes_nowhere() {
    let mut app = App::new();
    press(&mut app, &[Key::Char('e')]);
    type_text(&mut app, "ab");
    press(&mut app, &[Key::Down]);
    type_text(&mut app, "cd");
    press(&mut app, &[Key::Backspace, Key::Left]);
    assert_eq!(app.home_add_todo_todo_name_input.value(), "ab");
    assert_eq!(app.home_add_todo_todo_name_input.cursor(), 2);
    assert_eq!(app.home_add_todo_todo_summary_input.value(), "");
}

#[test]
fn esc_discards_the_typed_input() {
    let mut app = app_with(&["A", "B"]);
    press(&mut app, &[Key::Char('g'), Key::Char('e')]);
    type_text(&mut app, "half a todo");
    press(&mut app, &[Key::Esc]);
    assert!(!app.show_popup);
    assert!(app.running);
    assert_eq!(app.input_mode(), InputMode::Normal);
    assert_eq!(app.home_add_todo_todo_name_input.value(), "");
    assert_eq!(app.home_add_todo_todo_name_input.cursor(), 0);
    assert_eq!(app.todos.names(), vec!["A", "B"]);
    assert_eq!(statuses(&app), vec![TodoStatus::PROGESS, TodoStatus::PROGESS]);
    assert_eq!(app.todos.selected(), Some(0));
    press(&mut app, &[Key::Char('e')]);
    assert_eq!(app.home_add_todo_todo_name_input.value(), "");
}

#[test]
fn q_and_capital_q_close_the_form() {
    for key in [Key::Char('q'), Key::Char('Q')] {
        let mut app = App::new();
        press(&mut app, &[Key::Char('e')]);
        type_text(&mut app, "abc");
        press(&mut app, &[key]);
        assert!(!app.show_popup);
        assert!(app.running);
        assert_eq!(app.home_add_todo_todo_name_input.value(), "");
        assert!(app.todos.is_empty());
    }
}

#[test]
fn form_keeps_navigation_keys_from_the_list() {
    let mut app = app_with(&["A", "B", "C"]);
    press(&mut app, &[Key::Char('g'), Key::Char('e')]);
    type_text(&mut app, "jkgGxe");
    press(&mut app, &[Key::Up, Key::Down, Key::Down, Key::Up]);
    assert_eq!(app.todos.selected(), Some(0));
    assert_eq!(statuses(&app), vec![TodoStatus::PROGESS, TodoStatus::PROGESS, TodoStatus::PROGESS]);
    assert_eq!(app.home_add_todo_todo_name_input.value(), "jkgGxe");
    assert!(app.show_popup);
    assert!(app.running);
}

#[test]
fn form_edits_the_name_with_backspace_and_arrows() {
    let mut app = App::new();
    press(&mut app, &[Key::Char('e')]);
    type_text(&mut app, "Bux");
    press(&mut app, &[Key::Backspace]);
    type_text(&mut app, "y");
    press(&mut app, &[Key::Left, Key::Left, Key::Left, Key::Left, Key::Right]);
    type_text(&mut app, "-");
    assert_eq!(app.home_add_todo_todo_name_input.value(), "B-uy");
    assert_eq!(app.home_add_todo_todo_name_input.cursor(), 2);
    press(&mut app, &[Key::Other]);
    assert_eq!(app.home_add_todo_todo_name_input.value(), "B-uy");
}

#[test]
fn handle_key_events_hands_the_key_to_the_home_screen() {
    let mut app = app_with(&["A", "B"]);
    assert!(handle_key_events(Key::Char('j'), &mut app).is_ok());
    assert_eq!(app.todos.selected(), Some(0));
    assert!(handle_key_events(Key::Char('x'), &mut app).is_ok());
    assert_eq!(statuses(&app), vec![TodoStatus::DONE, TodoStatus::PROGESS]);
    assert!(handle_key_events(Key::Char('e'), &mut app).is_ok());
    assert!(app.show_popup);
    assert!(handle_key_events(Key::Char('z'), &mut app).is_ok());
    assert!(handle_key_events(Key::Enter, &mut app).is_ok());
    assert_eq!(app.todos.names(), vec!["A", "B", "z"]);
    assert!(handle_key_events(Key::Esc, &mut app).is_ok());
    assert!(handle_key_events(Key::Esc, &mut app).is_ok());
    assert!(!app.running);
}

#[test]
fn home_methods_act_on_the_list_of_the_app() {
    let home = Home::new();
    let mut app = app_with(&["A", "B", "C"]);
    home.select_next(&mut app);
    home.select_next(&mut app);
    assert_eq!(app.todos.selected(), Some(1));
    home.select_prev(&mut app);
    assert_eq!(app.todos.selected(), Some(0));
    home.select_last(&mut app);
    assert_eq!(app.todos.selected(), Some(2));
    home.set_status(&mut app, TodoStatus::DONE);
    assert_eq!(statuses(&app), vec![TodoStatus::PROGESS, TodoStatus::PROGESS, TodoStatus::DONE]);
    let current = home.get_current_item(&app).unwrap();
    assert_eq!(current.name, "C");
    assert_eq!(current.status, TodoStatus::DONE);
    home.select_first(&mut app);
    assert_eq!(app.todos.selected(), Some(0));
    assert_eq!(home.get_current_item(&app).unwrap().name, "A");
}

#[test]
fn create_todo_is_in_progress_under_the_name() {
    let home = Home::new();
    let todo = home.create_todo("Buy milk");
    assert_eq!(todo.name, "Buy milk");
    assert_eq!(todo.status, TodoStatus::PROGESS);
    let todo = home.create_todo("");
    assert_eq!(todo.name, "");
    assert_eq!(todo.status, TodoStatus::PROGESS);
}
