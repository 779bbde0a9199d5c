use frame::text_field::{InputState, TextField};

#[test]
fn text_field_create() {
    let tf = TextField::new("Enter text");
    assert_eq!(tf.placeholder(), "Enter text");
    assert!(tf.is_empty());
}

#[test]
fn text_field_insert_and_backspace() {
    let mut tf = TextField::new("Type here");
    tf.insert_char('H');
    tf.insert_char('i');
    assert_eq!(tf.text(), "Hi");
    tf.backspace();
    assert_eq!(tf.text(), "H");
}

#[test]
fn text_field_cursor_movement() {
    let mut tf = TextField::new("").value("Hello");
    assert_eq!(tf.cursor_position(), 5);
    tf.move_cursor_left();
    tf.move_cursor_left();
    assert_eq!(tf.cursor_position(), 3);
    tf.move_cursor_home();
    assert_eq!(tf.cursor_position(), 0);
    tf.move_cursor_end();
    assert_eq!(tf.cursor_position(), 5);
}

#[test]
fn text_field_max_length() {
    let mut tf = TextField::new("").max_length(3);
    tf.insert_char('A');
    tf.insert_char('B');
    tf.insert_char('C');
    tf.insert_char('D');
    assert_eq!(tf.text(), "ABC");
}

#[test]
fn text_field_on_change() {
    // The listener is told of each change that `insert_char` reports.
    let mut changes = Vec::<String>::new();
    let mut tf = TextField::new("");
    if tf.insert_char('a') {
        changes.push(tf.text().to_string());
    }
    if tf.insert_char('b') {
        changes.push(tf.text().to_string());
    }
    assert_eq!(changes.len(), 2);
    assert_eq!(changes, vec!["a".to_string(), "ab".to_string()]);
}

#[test]
fn text_field_focus_blur() {
    let mut tf = TextField::new("");
    assert_eq!(tf.state(), InputState::Idle);
    tf.focus();
    assert_eq!(tf.state(), InputState::Focused);
    tf.blur();
    assert_eq!(tf.state(), InputState::Idle);
}

#[test]
fn text_field_insert_in_middle() {
    let mut tf = TextField::new("").value("ac");
    tf.move_cursor_left();
    assert!(tf.insert_char('b'));
    assert_eq!(tf.text(), "abc");
    assert_eq!(tf.cursor_position(), 2);
}

#[test]
fn text_field_delete_at_cursor() {
    let mut tf = TextField::new("").value("abc");
    tf.move_cursor_home();
    assert!(tf.delete());
    assert_eq!(tf.text(), "bc");
    assert_eq!(tf.cursor_position(), 0);
    tf.move_cursor_end();
    assert!(!tf.delete());
    assert_eq!(tf.text(), "bc");
}

#[test]
fn text_field_backspace_at_start_does_nothing() {
    let mut tf = TextField::new("").value("x");
    tf.move_cursor_home();
    assert!(!tf.backspace());
    assert_eq!(tf.text(), "x");
    assert_eq!(tf.cursor_position(), 0);
}

#[test]
fn text_field_backspace_undoes_insert() {
    let mut tf = TextField::new("").value("hello");
    tf.move_cursor_left();
    tf.move_cursor_left();
    assert!(tf.insert_char('X'));
    assert_eq!(tf.text(), "helXlo");
    assert!(tf.backspace());
    assert_eq!(tf.text(), "hello");
    assert_eq!(tf.cursor_position(), 3);
}

#[test]
fn text_field_multibyte_char_at_end() {
    let mut tf = TextField::new("");
    assert!(tf.insert_char('é'));
    assert_eq!(tf.text(), "é");
    assert_eq!(tf.cursor_position(), 1);
    assert!(tf.backspace());
    assert_eq!(tf.text(), "");
}

#[test]
fn text_field_cursor_right_stops_at_end() {
    let mut tf = TextField::new("").value("ab");
    tf.move_cursor_right();
    assert_eq!(tf.cursor_position(), 2);
    tf.move_cursor_home();
    tf.move_cursor_right();
    assert_eq!(tf.cursor_position(), 1);
}

#[test]
fn text_field_disable() {
    let mut tf = TextField::new("");
    tf.set_disabled(false);
    assert_eq!(tf.state(), InputState::Idle);
    tf.set_disabled(true);
    assert!(tf.is_disabled());
    assert_eq!(tf.state(), InputState::Disabled);
}

#[test]
fn text_field_set_text_moves_cursor_to_end() {
    let mut tf = TextField::new("p");
    tf.set_text("wörd");
    assert_eq!(tf.text(), "wörd");
    assert_eq!(tf.cursor_position(), 5);
    assert!(!tf.is_empty());
}
