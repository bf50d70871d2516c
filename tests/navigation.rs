use reminders_sc::{
    screen_layout, Action, App, Extent, InputMode, Key, TableChunk, TodoObj,
};

fn todos(n: usize) -> Vec<TodoObj> {
    (0..n)
        .map(|i| {
            TodoObj::from_payload(
                format!("task {}", i),
                if i % 2 == 0 { "Yes" } else { "No" },
                "",
                "Inbox".to_string(),
                vec![],
                String::new(),
            )
            .unwrap()
        })
        .collect()
}

#[test]
fn new_app_initial_state() {
    let app = App::new(todos(3));
    assert_eq!(app.list_selection(), Some(0));
    assert_eq!(app.detail_selection(), Some(0));
    assert_eq!(app.focus(), TableChunk::TodoList);
    assert_eq!(app.mode(), InputMode::Normal);
    assert_eq!(app.input(), "");
}

#[test]
fn advance_cycles_main_list() {
    let mut app = App::new(todos(3));
    app.next();
    app.next();
    assert_eq!(app.list_selection(), Some(2));
    app.next();
    assert_eq!(app.list_selection(), Some(0));
}

#[test]
fn advance_cycles_detail_view() {
    let mut app = App::new(todos(2));
    app.select(TableChunk::SelectedTodo);
    let seen: Vec<Option<usize>> = (0..5)
        .map(|_| {
            app.next();
            app.detail_selection()
        })
        .collect();
    assert_eq!(seen, vec![Some(2), Some(4), Some(6), Some(8), Some(0)]);
    assert_eq!(app.list_selection(), Some(0));
}

#[test]
fn retreat_wraps_to_end() {
    let mut app = App::new(todos(4));
    app.previous();
    assert_eq!(app.list_selection(), Some(3));
    app.select(TableChunk::SelectedTodo);
    app.previous();
    assert_eq!(app.detail_selection(), Some(8));
}

#[test]
fn retreat_inverts_advance() {
    let mut app = App::new(todos(5));
    for start in 0..5 {
        assert_eq!(app.list_selection(), Some(start));
        app.next();
        app.previous();
        assert_eq!(app.list_selection(), Some(start));
        app.previous();
        app.next();
        assert_eq!(app.list_selection(), Some(start));
        app.next();
    }
}

#[test]
fn select_resets_detail_cursor() {
    let mut app = App::new(todos(2));
    app.select(TableChunk::SelectedTodo);
    app.next();
    app.next();
    assert_eq!(app.detail_selection(), Some(4));
    app.select(TableChunk::TodoList);
    assert_eq!(app.detail_selection(), Some(0));
    assert_eq!(app.focus(), TableChunk::TodoList);
    app.select(TableChunk::SelectedTodo);
    app.next();
    app.select(TableChunk::SelectedTodo);
    assert_eq!(app.detail_selection(), Some(0));
}

#[test]
fn enter_on_main_list_does_not_edit() {
    let mut app = App::new(todos(2));
    assert_eq!(app.handle_key(Key::Enter), Action::Continue);
    assert_eq!(app.mode(), InputMode::Normal);
    assert_eq!(app.focus(), TableChunk::SelectedTodo);
    assert_eq!(app.handle_key(Key::Enter), Action::Continue);
    assert_eq!(app.mode(), InputMode::Editing);
}

#[test]
fn quit_only_from_main_list() {
    let mut app = App::new(todos(2));
    app.handle_key(Key::Char('l'));
    assert_eq!(app.handle_key(Key::Char('q')), Action::Continue);
    assert_eq!(app.focus(), TableChunk::TodoList);
    assert_eq!(app.handle_key(Key::Char('q')), Action::Quit);
}

#[test]
fn end_to_end_three_records() {
    let mut app = App::new(todos(3));
    app.handle_key(Key::Down);
    app.handle_key(Key::Down);
    app.handle_key(Key::Up);
    assert_eq!(app.list_selection(), Some(1));
    app.handle_key(Key::Enter);
    assert_eq!(app.focus(), TableChunk::SelectedTodo);
    app.handle_key(Key::Char('h'));
    assert_eq!(app.focus(), TableChunk::TodoList);
    assert_eq!(app.list_selection(), Some(1));
}

#[test]
fn edit_buffer_typing_and_backspace() {
    let mut app = App::new(todos(1));
    app.handle_key(Key::Enter);
    app.handle_key(Key::Enter);
    app.handle_key(Key::Char('a'));
    app.handle_key(Key::Char('b'));
    app.handle_key(Key::Backspace);
    app.handle_key(Key::Char('c'));
    assert_eq!(app.input(), "ac");
}

#[test]
fn backspace_on_empty_buffer_is_noop() {
    let mut app = App::new(todos(1));
    app.handle_key(Key::Enter);
    app.handle_key(Key::Enter);
    app.handle_key(Key::Backspace);
    assert_eq!(app.input(), "");
    assert_eq!(app.mode(), InputMode::Editing);
}

#[test]
fn edit_keys_do_not_navigate() {
    let mut app = App::new(todos(3));
    app.handle_key(Key::Enter);
    app.handle_key(Key::Enter);
    app.handle_key(Key::Char('j'));
    app.handle_key(Key::Down);
    app.handle_key(Key::Char('q'));
    assert_eq!(app.input(), "jq");
    assert_eq!(app.detail_selection(), Some(0));
    app.handle_key(Key::Esc);
    assert_eq!(app.mode(), InputMode::Normal);
    assert_eq!(app.input(), "jq");
}

#[test]
fn reentering_edit_clears_buffer() {
    let mut app = App::new(todos(1));
    app.handle_key(Key::Enter);
    app.handle_key(Key::Enter);
    app.handle_key(Key::Char('x'));
    app.handle_key(Key::Esc);
    app.handle_key(Key::Enter);
    assert_eq!(app.input(), "");
}

#[test]
fn empty_collection_navigation_is_safe() {
    let mut app = App::new(Vec::new());
    assert_eq!(app.list_selection(), None);
    app.next();
    app.previous();
    assert_eq!(app.list_selection(), None);
    for key in [Key::Down, Key::Up, Key::Char('j'), Key::Char('k'), Key::Other] {
        assert_eq!(app.handle_key(key), Action::Continue);
    }
    assert_eq!(app.list_selection(), None);
    assert!(app.todo_rows().is_empty());
    assert!(app.selected_rows().is_empty());
    app.handle_key(Key::Enter);
    app.handle_key(Key::Down);
    assert_eq!(app.detail_selection(), Some(2));
    app.handle_key(Key::Char('h'));
    assert_eq!(app.handle_key(Key::Char('q')), Action::Quit);
}

#[test]
fn unknown_keys_are_noops() {
    let mut app = App::new(todos(2));
    app.handle_key(Key::Other);
    app.handle_key(Key::Char('z'));
    app.handle_key(Key::Esc);
    assert_eq!(app.list_selection(), Some(0));
    assert_eq!(app.focus(), TableChunk::TodoList);
    assert_eq!(app.mode(), InputMode::Normal);
}

#[test]
fn view_rows_follow_state() {
    let mut app = App::new(todos(3));
    let rows = app.todo_rows();
    assert_eq!(rows.len(), 3);
    assert!(rows[0].dimmed);
    assert!(!rows[1].dimmed);
    assert_eq!(rows[1].cells[2], "task 1");
    app.next();
    let detail = app.selected_rows();
    assert_eq!(detail[1].text, "task 1");
    assert_eq!(detail[5].text, "Uncompleted");
    assert!(!app.detail_highlighted());
    app.select(TableChunk::SelectedTodo);
    assert!(app.detail_highlighted());
}

#[test]
fn input_cursor_position() {
    let mut app = App::new(todos(1));
    assert_eq!(app.input_cursor(2, 30), None);
    app.handle_key(Key::Enter);
    app.handle_key(Key::Enter);
    app.handle_key(Key::Char('a'));
    app.handle_key(Key::Char('b'));
    app.handle_key(Key::Char('c'));
    assert_eq!(app.input_cursor(2, 30), Some((6, 31)));
    assert_eq!(app.input_cursor(65534, 65535), Some((65535, 65535)));
}

#[test]
fn layout_of_three_panes() {
    assert_eq!(screen_layout(), vec![Extent::Min(0), Extent::Length(20), Extent::Length(3)]);
}
