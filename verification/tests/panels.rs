use todo_tui::app::App;
use todo_tui::model::todo::{Todo, TodoStatus};
use todo_tui::views::home::Home;

#[test]
fn list_items_are_the_names_in_order() {
    let home = Home::new();
    let mut app = App::new();
    assert!(home.list_items(&app).is_empty());
    app.todos.append(Todo::new("Buy milk".to_string(), TodoStatus::PROGESS));
    app.todos.append(Todo::new("Call Ann".to_string(), TodoStatus::DONE));
    assert_eq!(home.list_items(&app), vec!["Buy milk", "Call Ann"]);
}

#[test]
fn progress_label_names_each_status() {
    let home = Home::new();
    assert_eq!(home.progress_label(TodoStatus::DONE), "Done");
    assert_eq!(home.progress_label(TodoStatus::PROGESS), "Progress");
}

#[test]
fn detail_rows_show_name_and_status_of_the_selected_todo() {
    let home = Home::new();
    let mut app = App::new();
    app.todos.append(Todo::new("Buy milk".to_string(), TodoStatus::PROGESS));
    app.todos.append(Todo::new("Call Ann".to_string(), TodoStatus::DONE));
    home.select_first(&mut app);
    assert_eq!(
        home.selected_todo_rows(&app),
        vec![
            ("Name:".to_string(), "Buy milk".to_string()),
            ("Progress:".to_string(), "Progress".to_string()),
        ]
    );
    home.select_last(&mut app);
    assert_eq!(
        home.selected_todo_rows(&app),
        vec![
            ("Name:".to_string(), "Call Ann".to_string()),
            ("Progress:".to_string(), "Done".to_string()),
        ]
    );
}

#[test]
fn detail_rows_are_empty_without_selection() {
    let home = Home::new();
    let mut app = App::new();
    assert!(home.selected_todo_rows(&app).is_empty());
    app.todos.append(Todo::new("Buy milk".to_string(), TodoStatus::PROGESS));
    assert!(home.selected_todo_rows(&app).is_empty());
}

#[test]
fn label_width_is_that_of_the_widest_label() {
    assert_eq!(Home::new().label_width(), 9);
}

#[test]
fn scroll_offset_keeps_the_low_sixteen_bits() {
    let home = Home::new();
    assert_eq!(home.scroll_offset(0), 0);
    assert_eq!(home.scroll_offset(5), 5);
    assert_eq!(home.scroll_offset(65535), 65535);
    assert_eq!(home.scroll_offset(65536), 0);
    assert_eq!(home.scroll_offset(70000), 4464);
}

#[test]
fn name_scroll_follows_the_cursor_of_the_name() {
    let mut home = Home::new();
    let mut app = App::new();
    assert_eq!(home.name_scroll(&app, 5), 0);
    home.handle_key(todo_tui::key::Key::Char('e'), &mut app);
    for c in "Buy milk".chars() {
        home.handle_key(todo_tui::key::Key::Char(c), &mut app);
    }
    assert_eq!(home.name_scroll(&app, 5), 3);
    assert_eq!(home.name_scroll(&app, 8), 0);
    home.handle_key(todo_tui::key::Key::Left, &mut app);
    assert_eq!(home.name_scroll(&app, 5), 2);
}
