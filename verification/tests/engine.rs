//! Tests of motions, transformations, range operations, clipboard modes,
//! and boundary clamping.

use reedline::insert_clipboard_content_before;
use reedline::Clipboard;
use reedline::ClipboardMode;
use reedline::EditCommand;
use reedline::Editor;
use reedline::LineBuffer;
use reedline::MotionAction;
use reedline::MotionKind;
use reedline::UndoBehavior;

fn prepared(buffer: &str) -> Editor {
    let mut editor = Editor::default();
    editor.set_buffer(buffer.to_string(), UndoBehavior::CreateUndoPoint);
    editor
}

#[test]
fn test_motion_cut_word_left() {
    let mut editor = prepared("abc def ghi");
    editor.run_edit_command(&EditCommand::Motion {
        motion: MotionKind::MoveWordLeft,
        action: MotionAction::Cut,
    });
    assert_eq!(editor.get_buffer(), "abc def ");
    assert_eq!(editor.insertion_point(), 8);
    assert_eq!(editor.cut_buffer().get().0, "ghi");
}

#[test]
fn test_motion_cut_word_left_stops_at_punctuation() {
    let mut editor = prepared("abc def-ghi");
    editor.run_edit_command(&EditCommand::Motion {
        motion: MotionKind::MoveWordLeft,
        action: MotionAction::Cut,
    });
    assert_eq!(editor.get_buffer(), "abc def-");
}

#[test]
fn test_motion_cut_big_word_left() {
    let mut editor = prepared("abc def-ghi");
    editor.run_edit_command(&EditCommand::Motion {
        motion: MotionKind::MoveBigWordLeft,
        action: MotionAction::Cut,
    });
    assert_eq!(editor.get_buffer(), "abc ");
}

#[test]
fn test_word_right_motions() {
    let mut editor = prepared("abc def");
    editor.move_to_position(0, false);
    editor.run_edit_command(&EditCommand::Motion {
        motion: MotionKind::MoveWordRight,
        action: MotionAction::MoveCursor { select: false },
    });
    assert_eq!(editor.insertion_point(), 4);
    editor.run_edit_command(&EditCommand::Motion {
        motion: MotionKind::MoveWordRightEnd,
        action: MotionAction::MoveCursor { select: false },
    });
    assert_eq!(editor.insertion_point(), 7);
}

#[test]
fn test_replace_char() {
    let mut editor = prepared("abc");
    editor.move_to_position(1, false);
    editor.run_edit_command(&EditCommand::ReplaceChar('X'));
    assert_eq!(editor.get_buffer(), "aXc");
}

#[test]
fn test_replace_chars() {
    let mut editor = prepared("abcd");
    editor.move_to_position(1, false);
    editor.run_edit_command(&EditCommand::ReplaceChars(2, "Z".to_string()));
    assert_eq!(editor.get_buffer(), "aZd");
}

#[test]
fn test_switchcase_char() {
    let mut editor = prepared("aBc");
    editor.move_to_position(1, false);
    editor.run_edit_command(&EditCommand::SwitchcaseChar);
    assert_eq!(editor.get_buffer(), "abc");
    assert_eq!(editor.insertion_point(), 2);
}

#[test]
fn test_capitalize_char() {
    let mut editor = prepared("abc");
    editor.move_to_position(0, false);
    editor.run_edit_command(&EditCommand::CapitalizeChar);
    assert_eq!(editor.get_buffer(), "Abc");
    assert_eq!(editor.insertion_point(), 1);
}

#[test]
fn test_uppercase_word() {
    let mut editor = prepared("hello world");
    editor.move_to_position(1, false);
    editor.run_edit_command(&EditCommand::UppercaseWord);
    assert_eq!(editor.get_buffer(), "HELLO world");
    assert_eq!(editor.insertion_point(), 1);
}

#[test]
fn test_lowercase_word() {
    let mut editor = prepared("HELLO World");
    editor.move_to_position(6, false);
    editor.run_edit_command(&EditCommand::LowercaseWord);
    assert_eq!(editor.get_buffer(), "HELLO world");
}

#[test]
fn test_swap_graphemes() {
    let mut editor = prepared("abc");
    editor.move_to_position(1, false);
    editor.run_edit_command(&EditCommand::SwapGraphemes);
    assert_eq!(editor.get_buffer(), "bac");
    assert_eq!(editor.insertion_point(), 2);
}

#[test]
fn test_swap_words() {
    let mut editor = prepared("hello world");
    editor.move_to_position(0, false);
    editor.run_edit_command(&EditCommand::SwapWords);
    assert_eq!(editor.get_buffer(), "world hello");
}

#[test]
fn test_clear() {
    let mut editor = prepared("hello");
    editor.run_edit_command(&EditCommand::Clear);
    assert_eq!(editor.get_buffer(), "");
    assert_eq!(editor.insertion_point(), 0);
}

#[test]
fn test_clear_to_line_end() {
    let mut editor = prepared("ab\ncd");
    editor.move_to_position(1, false);
    editor.run_edit_command(&EditCommand::ClearToLineEnd);
    assert_eq!(editor.get_buffer(), "a\ncd");
    assert_eq!(editor.insertion_point(), 1);
}

#[test]
fn test_insert_newline_and_string() {
    let mut editor = prepared("ab");
    editor.run_edit_command(&EditCommand::InsertNewline);
    assert_eq!(editor.get_buffer(), "ab\n");
    editor.move_to_position(1, false);
    editor.run_edit_command(&EditCommand::InsertString("XY".to_string()));
    assert_eq!(editor.get_buffer(), "aXYb\n");
    assert_eq!(editor.insertion_point(), 3);
}

#[test]
fn test_backspace_deletes_selection() {
    let mut editor = prepared("hello");
    editor.run_edit_command(&EditCommand::SelectAll);
    editor.run_edit_command(&EditCommand::Backspace);
    assert_eq!(editor.get_buffer(), "");
}

#[test]
fn test_insert_replaces_selection() {
    let mut editor = prepared("hello");
    editor.run_edit_command(&EditCommand::SelectAll);
    editor.run_edit_command(&EditCommand::InsertChar('x'));
    assert_eq!(editor.get_buffer(), "x");
}

#[test]
fn test_cut_until_char_inclusive() {
    let mut editor = prepared("hello world");
    editor.move_to_position(0, false);
    editor.run_edit_command(&EditCommand::Motion {
        motion: MotionKind::MoveUntilChar { c: 'l', inclusive: true, forward: true },
        action: MotionAction::Cut,
    });
    assert_eq!(editor.get_buffer(), "lo world");
}

#[test]
fn test_cut_until_char_exclusive() {
    let mut editor = prepared("hello world");
    editor.move_to_position(0, false);
    editor.run_edit_command(&EditCommand::Motion {
        motion: MotionKind::MoveUntilChar { c: 'l', inclusive: false, forward: true },
        action: MotionAction::Cut,
    });
    assert_eq!(editor.get_buffer(), "llo world");
}

#[test]
fn test_move_left_until_char() {
    let mut editor = prepared("hello world");
    editor.move_to_position(4, false);
    editor.move_left_until_char('e', false, false, false);
    assert_eq!(editor.insertion_point(), 1);
}

#[test]
fn test_crlf_grapheme_motion() {
    let mut editor = prepared("a\r\nb");
    assert_eq!(editor.insertion_point(), 4);
    editor.move_left(false);
    assert_eq!(editor.insertion_point(), 3);
    editor.move_left(false);
    assert_eq!(editor.insertion_point(), 1);
    editor.move_left(false);
    assert_eq!(editor.insertion_point(), 0);
}

#[test]
fn test_move_to_position_clamps_to_grapheme_boundary() {
    let mut editor = prepared("a\r\nb");
    editor.move_to_position(2, false);
    assert_eq!(editor.insertion_point(), 1);
    editor.move_to_position(99, false);
    assert_eq!(editor.insertion_point(), 4);
}

#[test]
fn test_selection_range_is_ascending() {
    let mut editor = prepared("hello");
    editor.move_to_position(3, false);
    editor.move_left(true);
    assert_eq!(editor.get_selection(), Some((2, 4)));

    let mut editor = prepared("hello");
    editor.move_to_position(1, false);
    editor.move_right(true);
    assert_eq!(editor.get_selection(), Some((1, 3)));
}

#[test]
fn test_selection_cleared_by_plain_motion() {
    let mut editor = prepared("hello");
    editor.move_to_position(1, false);
    editor.move_right(true);
    assert!(editor.get_selection().is_some());
    editor.run_edit_command(&EditCommand::Motion {
        motion: MotionKind::MoveLeft,
        action: MotionAction::MoveCursor { select: false },
    });
    assert!(editor.get_selection().is_none());
}

#[test]
fn test_paste_lines_mode_inserts_above_current_line() {
    let mut buffer = LineBuffer::new();
    buffer.set_buffer("one\ntwo".to_string());
    let mut clipboard = Clipboard::new();
    clipboard.set("xxx", ClipboardMode::Lines);
    insert_clipboard_content_before(&mut buffer, &clipboard);
    assert_eq!(buffer.get_buffer(), "xxx\none\ntwo");
    assert_eq!(buffer.insertion_point(), 4);
}

#[test]
fn test_paste_lines_mode_keeps_existing_newline() {
    let mut buffer = LineBuffer::new();
    buffer.set_buffer("one\ntwo".to_string());
    let mut clipboard = Clipboard::new();
    clipboard.set("xxx\n", ClipboardMode::Lines);
    insert_clipboard_content_before(&mut buffer, &clipboard);
    assert_eq!(buffer.get_buffer(), "xxx\none\ntwo");
}

#[test]
fn test_cut_then_paste_restores_buffer() {
    let mut editor = prepared("hello world");
    editor.move_to_position(3, false);
    editor.run_edit_command(&EditCommand::Motion {
        motion: MotionKind::MoveToEnd,
        action: MotionAction::Cut,
    });
    assert_eq!(editor.get_buffer(), "hel");
    assert_eq!(editor.cut_buffer().get().0, "lo world");
    editor.run_edit_command(&EditCommand::PasteCutBuffer);
    assert_eq!(editor.get_buffer(), "hello world");
}

#[test]
fn test_undo_redo_clamp_at_history_ends() {
    let mut editor = prepared("abc");
    editor.run_edit_command(&EditCommand::Undo);
    assert_eq!(editor.get_buffer(), "");
    editor.run_edit_command(&EditCommand::Undo);
    assert_eq!(editor.get_buffer(), "");
    editor.run_edit_command(&EditCommand::Redo);
    assert_eq!(editor.get_buffer(), "abc");
    editor.run_edit_command(&EditCommand::Redo);
    assert_eq!(editor.get_buffer(), "abc");
}

#[test]
fn test_cut_range_reversed_and_clamped() {
    let mut editor = prepared("abcdef");
    editor.cut_range(4, 1);
    assert_eq!(editor.get_buffer(), "aef");
    assert_eq!(editor.insertion_point(), 1);
    assert_eq!(editor.cut_buffer().get().0, "bcd");

    let mut editor = prepared("abcdef");
    editor.copy_range(99, 2);
    assert_eq!(editor.get_buffer(), "abcdef");
    assert_eq!(editor.cut_buffer().get().0, "cdef");

    let mut editor = prepared("abcd");
    editor.delete_range(1, 3);
    assert_eq!(editor.get_buffer(), "ad");
    assert_eq!(editor.cut_buffer().get().0, "");
}

#[test]
fn test_cut_inside_empty_interior_still_moves_cursor() {
    let mut editor = prepared("ab()cd");
    editor.move_to_position(2, false);
    editor.cut_inside('(', ')');
    assert_eq!(editor.get_buffer(), "ab()cd");
    assert_eq!(editor.insertion_point(), 3);
    assert_eq!(editor.cut_buffer().get().0, "");
}

#[test]
fn test_line_up_down_keep_column() {
    let mut editor = prepared("abc\ndef");
    editor.move_to_position(5, false);
    editor.move_line_up();
    assert_eq!(editor.insertion_point(), 1);
    editor.move_line_down();
    assert_eq!(editor.insertion_point(), 5);
}

#[test]
fn test_cursor_line_queries() {
    let mut editor = prepared("ab\ncd");
    editor.move_to_position(1, false);
    assert!(editor.is_cursor_at_first_line());
    assert!(!editor.is_cursor_at_last_line());
    editor.move_to_position(4, false);
    assert!(!editor.is_cursor_at_first_line());
    assert!(editor.is_cursor_at_last_line());
    editor.move_to_position(5, false);
    assert!(editor.is_cursor_at_buffer_end());
}

#[test]
fn test_copy_to_line_end() {
    let mut editor = prepared("abc\ndef");
    editor.move_to_position(0, false);
    editor.copy_to_line_end();
    assert_eq!(editor.get_buffer(), "abc\ndef");
    assert_eq!(editor.cut_buffer().get().0, "abc");
}

#[test]
fn test_cut_from_start() {
    let mut editor = prepared("abcdef");
    editor.move_to_position(3, false);
    editor.cut_from_start();
    assert_eq!(editor.get_buffer(), "def");
    assert_eq!(editor.insertion_point(), 0);
    assert_eq!(editor.cut_buffer().get().0, "abc");
}

#[test]
fn test_edit_buffer_commits_undo_point_first() {
    let mut editor = prepared("abc");
    editor.edit_buffer(UndoBehavior::CreateUndoPoint).insert_str("X");
    assert_eq!(editor.get_buffer(), "abcX");
    editor.run_edit_command(&EditCommand::Undo);
    assert_eq!(editor.get_buffer(), "abc");
}

#[test]
fn test_insert_char_at_position() {
    let mut editor = prepared("ab");
    editor.move_to_position(1, false);
    editor.run_edit_command(&EditCommand::InsertChar('X'));
    assert_eq!(editor.get_buffer(), "aXb");
    assert_eq!(editor.insertion_point(), 2);
}
