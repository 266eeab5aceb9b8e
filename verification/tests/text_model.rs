use rem::text::{EditCommand, EditableText};

#[test]
fn empty_on_creation() {
    let t = EditableText::new();
    assert_eq!(t.text(), "");
}

#[test]
fn append_concatenates() {
    let mut t = EditableText::new();
    t.push_str("Hi");
    assert_eq!(t.text(), "Hi");
    t.push_str(" there");
    assert_eq!(t.text(), "Hi there");
}

#[test]
fn delete_drops_last_character() {
    let mut t = EditableText::new();
    t.push_str("Hi");
    t.pop_char();
    assert_eq!(t.text(), "H");
}

#[test]
fn delete_on_empty_is_a_no_op() {
    let mut t = EditableText::new();
    t.pop_char();
    assert_eq!(t.text(), "");
    t.pop_char();
    assert_eq!(t.text(), "");
}

#[test]
fn delete_removes_a_whole_scalar_value() {
    let mut t = EditableText::new();
    t.push_str("ab\u{e9}");
    t.pop_char();
    assert_eq!(t.text(), "ab");
    t.push_str("\u{1F981}");
    t.pop_char();
    assert_eq!(t.text(), "ab");
}

#[test]
fn clear_resets_to_empty() {
    let mut t = EditableText::new();
    t.push_str("anything at all");
    t.clear();
    assert_eq!(t.text(), "");
}

#[test]
fn command_sequence_matches_reference_model() {
    let mut t = EditableText::new();
    let cmds = vec![
        EditCommand::Append(String::from("ab")),
        EditCommand::Append(String::from("cd")),
        EditCommand::DeleteLast,
        EditCommand::Append(String::from("z")),
    ];
    t.apply_all(&cmds);
    assert_eq!(t.text(), "abcz");
}

#[test]
fn command_sequence_with_clear_and_underflow() {
    let mut t = EditableText::new();
    let cmds = vec![
        EditCommand::DeleteLast,
        EditCommand::Append(String::from("xy")),
        EditCommand::Clear,
        EditCommand::DeleteLast,
        EditCommand::Append(String::from("ok")),
    ];
    t.apply_all(&cmds);
    assert_eq!(t.text(), "ok");
}
