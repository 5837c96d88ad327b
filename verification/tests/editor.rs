//! Tests of the editor's command execution: undo coalescing across word
//! boundaries and line breaks, selections and the clipboard slots, and the
//! inside-pair operations.

use reedline::Editor;
use reedline::EditCommand;
use reedline::UndoBehavior;

fn editor_with(buffer: &str) -> Editor {
    let mut editor = Editor::default();
    editor.set_buffer(buffer.to_string(), UndoBehavior::CreateUndoPoint);
    editor
}

fn str_to_edit_commands(s: &str) -> Vec<EditCommand> {
    s.chars().map(EditCommand::InsertChar).collect()
}

#[test]
fn test_undo_insert_works_on_work_boundaries() {
    let mut editor = editor_with("This is  a");
    for cmd in str_to_edit_commands(" test") {
        editor.run_edit_command(&cmd);
    }
    assert_eq!(editor.get_buffer(), "This is  a test");
    editor.run_edit_command(&EditCommand::Undo);
    assert_eq!(editor.get_buffer(), "This is  a");
    editor.run_edit_command(&EditCommand::Redo);
    assert_eq!(editor.get_buffer(), "This is  a test");
}

#[test]
fn test_undo_backspace_works_on_word_boundaries() {
    let mut editor = editor_with("This is  a test");
    for _ in 0..6 {
        editor.run_edit_command(&EditCommand::Backspace);
    }
    assert_eq!(editor.get_buffer(), "This is  ");
    editor.run_edit_command(&EditCommand::Undo);
    assert_eq!(editor.get_buffer(), "This is  a");
    editor.run_edit_command(&EditCommand::Undo);
    assert_eq!(editor.get_buffer(), "This is  a test");
}

#[test]
fn test_undo_delete_works_on_word_boundaries() {
    let mut editor = editor_with("This  is a test");
    editor.move_to_position(0, false);
    for _ in 0..7 {
        editor.run_edit_command(&EditCommand::Delete);
    }
    assert_eq!(editor.get_buffer(), "s a test");
    editor.run_edit_command(&EditCommand::Undo);
    assert_eq!(editor.get_buffer(), "is a test");
    editor.run_edit_command(&EditCommand::Undo);
    assert_eq!(editor.get_buffer(), "This  is a test");
}

#[test]
fn test_undo_insert_with_newline() {
    let mut editor = editor_with("This is a");
    for cmd in str_to_edit_commands(" \n test") {
        editor.run_edit_command(&cmd);
    }
    assert_eq!(editor.get_buffer(), "This is a \n test");
    editor.run_edit_command(&EditCommand::Undo);
    assert_eq!(editor.get_buffer(), "This is a \n");
    editor.run_edit_command(&EditCommand::Undo);
    assert_eq!(editor.get_buffer(), "This is a");
}

#[test]
fn test_undo_backspace_with_newline() {
    let mut editor = editor_with("This is a \n test");
    for _ in 0..8 {
        editor.run_edit_command(&EditCommand::Backspace);
    }
    assert_eq!(editor.get_buffer(), "This is ");
    editor.run_edit_command(&EditCommand::Undo);
    assert_eq!(editor.get_buffer(), "This is a");
    editor.run_edit_command(&EditCommand::Undo);
    assert_eq!(editor.get_buffer(), "This is a \n");
    editor.run_edit_command(&EditCommand::Undo);
    assert_eq!(editor.get_buffer(), "This is a \n test");
}

#[test]
fn test_undo_backspace_with_crlf() {
    let mut editor = editor_with("This is a \r\n test");
    for _ in 0..8 {
        editor.run_edit_command(&EditCommand::Backspace);
    }
    assert_eq!(editor.get_buffer(), "This is ");
    editor.run_edit_command(&EditCommand::Undo);
    assert_eq!(editor.get_buffer(), "This is a");
    editor.run_edit_command(&EditCommand::Undo);
    assert_eq!(editor.get_buffer(), "This is a \r\n");
    editor.run_edit_command(&EditCommand::Undo);
    assert_eq!(editor.get_buffer(), "This is a \r\n test");
}

#[test]
fn test_undo_delete_with_newline() {
    let mut editor = editor_with("This \n is a test");
    editor.move_to_position(0, false);
    for _ in 0..8 {
        editor.run_edit_command(&EditCommand::Delete);
    }
    assert_eq!(editor.get_buffer(), "s a test");
    editor.run_edit_command(&EditCommand::Undo);
    assert_eq!(editor.get_buffer(), "is a test");
    editor.run_edit_command(&EditCommand::Undo);
    assert_eq!(editor.get_buffer(), "\n is a test");
    editor.run_edit_command(&EditCommand::Undo);
    assert_eq!(editor.get_buffer(), "This \n is a test");
}

#[test]
fn test_undo_delete_with_crlf() {
    // CRLF delete is a special case, since the first character of the
    // grapheme is \r rather than \n
    let mut editor = editor_with("This \r\n is a test");
    editor.move_to_position(0, false);
    for _ in 0..8 {
        editor.run_edit_command(&EditCommand::Delete);
    }
    assert_eq!(editor.get_buffer(), "s a test");
    editor.run_edit_command(&EditCommand::Undo);
    assert_eq!(editor.get_buffer(), "is a test");
    editor.run_edit_command(&EditCommand::Undo);
    assert_eq!(editor.get_buffer(), "\r\n is a test");
    editor.run_edit_command(&EditCommand::Undo);
    assert_eq!(editor.get_buffer(), "This \r\n is a test");
}

#[test]
fn test_cut_selection_system() {
    let mut editor = editor_with("This is a test!");
    editor.run_edit_command(&EditCommand::SelectAll);
    editor.run_edit_command(&EditCommand::CutSelectionSystem);
    assert!(editor.get_buffer().is_empty());
}

#[test]
fn test_copypaste_selection_system() {
    let s = "This is a test!";
    let mut editor = editor_with(s);
    editor.run_edit_command(&EditCommand::SelectAll);
    editor.run_edit_command(&EditCommand::CopySelectionSystem);
    editor.run_edit_command(&EditCommand::PasteSystem);
    assert_eq!(editor.line_buffer().len(), s.len() * 2);
}

#[test]
fn test_cut_inside_brackets() {
    let mut editor = editor_with("foo(bar)baz");
    editor.move_to_position(5, false); // Move inside brackets
    editor.cut_inside('(', ')');
    assert_eq!(editor.get_buffer(), "foo()baz");
    assert_eq!(editor.insertion_point(), 4);
    assert_eq!(editor.cut_buffer().get().0, "bar");

    // Test with cursor outside brackets
    let mut editor = editor_with("foo(bar)baz");
    editor.move_to_position(0, false);
    editor.cut_inside('(', ')');
    assert_eq!(editor.get_buffer(), "foo(bar)baz");
    assert_eq!(editor.insertion_point(), 0);
    assert_eq!(editor.cut_buffer().get().0, "");

    // Test with no matching brackets
    let mut editor = editor_with("foo bar baz");
    editor.move_to_position(4, false);
    editor.cut_inside('(', ')');
    assert_eq!(editor.get_buffer(), "foo bar baz");
    assert_eq!(editor.insertion_point(), 4);
    assert_eq!(editor.cut_buffer().get().0, "");
}

#[test]
fn test_cut_inside_quotes() {
    let mut editor = editor_with("foo\"bar\"baz");
    editor.move_to_position(5, false); // Move inside quotes
    editor.cut_inside('"', '"');
    assert_eq!(editor.get_buffer(), "foo\"\"baz");
    assert_eq!(editor.insertion_point(), 4);
    assert_eq!(editor.cut_buffer().get().0, "bar");

    // Test with cursor outside quotes
    let mut editor = editor_with("foo\"bar\"baz");
    editor.move_to_position(0, false);
    editor.cut_inside('"', '"');
    assert_eq!(editor.get_buffer(), "foo\"bar\"baz");
    assert_eq!(editor.insertion_point(), 0);
    assert_eq!(editor.cut_buffer().get().0, "");

    // Test with no matching quotes
    let mut editor = editor_with("foo bar baz");
    editor.move_to_position(4, false);
    editor.cut_inside('"', '"');
    assert_eq!(editor.get_buffer(), "foo bar baz");
    assert_eq!(editor.insertion_point(), 4);
}

#[test]
fn test_cut_inside_nested() {
    let mut editor = editor_with("foo(bar(baz)qux)quux");
    editor.move_to_position(8, false); // Move inside inner brackets
    editor.cut_inside('(', ')');
    assert_eq!(editor.get_buffer(), "foo(bar()qux)quux");
    assert_eq!(editor.insertion_point(), 8);
    assert_eq!(editor.cut_buffer().get().0, "baz");

    editor.move_to_position(4, false); // Move inside outer brackets
    editor.cut_inside('(', ')');
    assert_eq!(editor.get_buffer(), "foo()quux");
    assert_eq!(editor.insertion_point(), 4);
    assert_eq!(editor.cut_buffer().get().0, "bar()qux");
}

#[test]
fn test_yank_inside_brackets() {
    let mut editor = editor_with("foo(bar)baz");
    editor.move_to_position(5, false); // Move inside brackets
    editor.yank_inside('(', ')');
    assert_eq!(editor.get_buffer(), "foo(bar)baz"); // Buffer shouldn't change
    assert_eq!(editor.insertion_point(), 5); // Cursor should return to original position

    // Test yanked content by pasting
    editor.paste_cut_buffer();
    assert_eq!(editor.get_buffer(), "foo(bbarar)baz");

    // Test with cursor outside brackets
    let mut editor = editor_with("foo(bar)baz");
    editor.move_to_position(0, false);
    editor.yank_inside('(', ')');
    assert_eq!(editor.get_buffer(), "foo(bar)baz");
    assert_eq!(editor.insertion_point(), 0);
}

#[test]
fn test_yank_inside_quotes() {
    let mut editor = editor_with("foo\"bar\"baz");
    editor.move_to_position(5, false); // Move inside quotes
    editor.yank_inside('"', '"');
    assert_eq!(editor.get_buffer(), "foo\"bar\"baz"); // Buffer shouldn't change
    assert_eq!(editor.insertion_point(), 5); // Cursor should return to original position
    assert_eq!(editor.cut_buffer().get().0, "bar");

    // Test with no matching quotes
    let mut editor = editor_with("foo bar baz");
    editor.move_to_position(4, false);
    editor.yank_inside('"', '"');
    assert_eq!(editor.get_buffer(), "foo bar baz");
    assert_eq!(editor.insertion_point(), 4);
    assert_eq!(editor.cut_buffer().get().0, "");
}

#[test]
fn test_yank_inside_nested() {
    let mut editor = editor_with("foo(bar(baz)qux)quux");
    editor.move_to_position(8, false); // Move inside inner brackets
    editor.yank_inside('(', ')');
    assert_eq!(editor.get_buffer(), "foo(bar(baz)qux)quux"); // Buffer shouldn't change
    assert_eq!(editor.insertion_point(), 8);
    assert_eq!(editor.cut_buffer().get().0, "baz");

    // Test yanked content by pasting
    editor.paste_cut_buffer();
    assert_eq!(editor.get_buffer(), "foo(bar(bazbaz)qux)quux");

    editor.move_to_position(4, false); // Move inside outer brackets
    editor.yank_inside('(', ')');
    assert_eq!(editor.get_buffer(), "foo(bar(bazbaz)qux)quux");
    assert_eq!(editor.insertion_point(), 4);
    assert_eq!(editor.cut_buffer().get().0, "bar(bazbaz)qux");
}
