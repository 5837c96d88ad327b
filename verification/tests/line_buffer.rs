//! Tests of the buffer itself: character-position arithmetic, grapheme
//! steps over CRLF, word and line boundaries, character search, delimiter
//! matching, and range mutation.

use reedline::LineBuffer;

fn buffer_with(text: &str) -> LineBuffer {
    let mut buffer = LineBuffer::new();
    buffer.set_buffer(text.to_string());
    buffer
}

#[test]
fn test_new_buffer_is_empty() {
    let buffer = LineBuffer::new();
    assert!(buffer.is_empty());
    assert_eq!(buffer.len(), 0);
    assert_eq!(buffer.insertion_point(), 0);
    assert_eq!(buffer.get_buffer(), "");
}

#[test]
fn test_set_buffer_moves_cursor_to_end() {
    let buffer = buffer_with("hello");
    assert_eq!(buffer.insertion_point(), 5);
    assert_eq!(buffer.get_buffer(), "hello");
}

#[test]
fn test_positions_count_characters_not_bytes() {
    let buffer = buffer_with("a\u{1f504}c");
    assert_eq!(buffer.len(), 3);
    assert_eq!(buffer.insertion_point(), 3);
}

#[test]
fn test_grapheme_steps_over_crlf() {
    let mut buffer = buffer_with("a\r\nb");
    assert_eq!(buffer.grapheme_left_index(), 3);
    buffer.set_insertion_point(3);
    assert_eq!(buffer.grapheme_left_index(), 1);
    buffer.set_insertion_point(1);
    assert_eq!(buffer.grapheme_right_index(), 3);
    assert_eq!(buffer.grapheme_right(), "\r\n");
    buffer.set_insertion_point(3);
    assert_eq!(buffer.grapheme_left(), "\r\n");
}

#[test]
fn test_set_insertion_point_clamps() {
    let mut buffer = buffer_with("a\r\nb");
    buffer.set_insertion_point(2);
    assert_eq!(buffer.insertion_point(), 1);
    buffer.set_insertion_point(42);
    assert_eq!(buffer.insertion_point(), 4);
}

#[test]
fn test_word_boundaries() {
    let mut buffer = buffer_with("foo bar-baz qux");
    assert_eq!(buffer.word_left_index(), 12);
    buffer.set_insertion_point(11);
    assert_eq!(buffer.big_word_left_index(), 4);
    buffer.set_insertion_point(0);
    assert_eq!(buffer.word_right_start_index(), 4);
    assert_eq!(buffer.word_right_end_index(), 3);
    assert_eq!(buffer.big_word_right_start_index(), 4);
    buffer.set_insertion_point(4);
    assert_eq!(buffer.big_word_right_end_index(), 11);
}

#[test]
fn test_line_boundaries_with_crlf() {
    let mut buffer = buffer_with("ab\r\ncd");
    buffer.set_insertion_point(5);
    assert_eq!(buffer.find_current_line_start(), 4);
    assert_eq!(buffer.find_current_line_end(), 6);
    buffer.set_insertion_point(0);
    assert_eq!(buffer.find_current_line_end(), 2);
    assert_eq!(buffer.find_line_start_before(4), 0);
    assert_eq!(buffer.find_line_end_after(4), 6);
}

#[test]
fn test_cursor_line_predicates() {
    let mut buffer = buffer_with("ab\ncd");
    buffer.set_insertion_point(0);
    assert!(buffer.is_cursor_at_first_line());
    assert!(!buffer.is_cursor_at_last_line());
    buffer.set_insertion_point(4);
    assert!(!buffer.is_cursor_at_first_line());
    assert!(buffer.is_cursor_at_last_line());
}

#[test]
fn test_line_up_down_indexes() {
    let mut buffer = buffer_with("ab\r\ncd");
    buffer.set_insertion_point(5);
    assert_eq!(buffer.line_up_index(), 1);

    let mut buffer = buffer_with("ab\ncd");
    buffer.set_insertion_point(1);
    assert_eq!(buffer.line_down_index(), 4);
}

#[test]
fn test_find_char_in_both_directions() {
    let mut buffer = buffer_with("foo bar");
    buffer.set_insertion_point(0);
    assert_eq!(buffer.find_char_right('a', false), Some(5));
    assert_eq!(buffer.find_char_right('z', false), None);
    buffer.set_insertion_point(5);
    assert_eq!(buffer.find_char_left('o', false), Some(2));
    assert_eq!(buffer.find_char_left('z', false), None);
}

#[test]
fn test_find_char_restricted_to_line() {
    let mut buffer = buffer_with("ab\ncd");
    buffer.set_insertion_point(0);
    assert_eq!(buffer.find_char_right('d', true), None);
    assert_eq!(buffer.find_char_right('d', false), Some(4));
}

#[test]
fn test_find_matching_pair() {
    let buffer = buffer_with("x(y)z");
    assert_eq!(buffer.find_matching_pair('(', ')', 2), Some((1, 3)));
    assert_eq!(buffer.find_matching_pair('{', '}', 2), None);

    let nested = buffer_with("((a))");
    assert_eq!(nested.find_matching_pair('(', ')', 2), Some((1, 3)));
}

#[test]
fn test_clear_range_safe_reorders() {
    let mut buffer = buffer_with("abcdef");
    buffer.clear_range_safe(4, 2);
    assert_eq!(buffer.get_buffer(), "abef");
}

#[test]
fn test_delete_graphemes_with_crlf() {
    let mut buffer = buffer_with("a\r\n");
    buffer.delete_left_grapheme();
    assert_eq!(buffer.get_buffer(), "a");
    assert_eq!(buffer.insertion_point(), 1);

    let mut buffer = buffer_with("\r\nb");
    buffer.set_insertion_point(0);
    buffer.delete_right_grapheme();
    assert_eq!(buffer.get_buffer(), "b");
}

#[test]
fn test_insert_str_mid_buffer() {
    let mut buffer = buffer_with("ad");
    buffer.set_insertion_point(1);
    buffer.insert_str("bc");
    assert_eq!(buffer.get_buffer(), "abcd");
    assert_eq!(buffer.insertion_point(), 3);
}

#[test]
fn test_insert_char_and_newline() {
    let mut buffer = buffer_with("ab");
    buffer.set_insertion_point(1);
    buffer.insert_char('x');
    assert_eq!(buffer.get_buffer(), "axb");
    buffer.insert_newline();
    assert_eq!(buffer.get_buffer(), "ax\nb");
}

#[test]
fn test_swap_graphemes_at_edges() {
    let mut buffer = buffer_with("ab");
    buffer.set_insertion_point(0);
    buffer.swap_graphemes();
    assert_eq!(buffer.get_buffer(), "ba");
    assert_eq!(buffer.insertion_point(), 2);

    let mut buffer = buffer_with("ab");
    buffer.swap_graphemes();
    assert_eq!(buffer.get_buffer(), "ba");
}

#[test]
fn test_swap_words_without_second_word_is_noop() {
    let mut buffer = buffer_with("hello   ");
    buffer.set_insertion_point(1);
    buffer.swap_words();
    assert_eq!(buffer.get_buffer(), "hello   ");
}

#[test]
fn test_case_transforms() {
    let mut buffer = buffer_with("hello world");
    buffer.set_insertion_point(7);
    buffer.uppercase_word();
    assert_eq!(buffer.get_buffer(), "hello WORLD");
    buffer.lowercase_word();
    assert_eq!(buffer.get_buffer(), "hello world");
    buffer.set_insertion_point(0);
    buffer.capitalize_char();
    assert_eq!(buffer.get_buffer(), "Hello world");
    assert_eq!(buffer.insertion_point(), 1);
    buffer.set_insertion_point(0);
    buffer.switchcase_char();
    assert_eq!(buffer.get_buffer(), "hello world");
}

#[test]
fn test_substring() {
    let buffer = buffer_with("hello world");
    assert_eq!(buffer.substring(6, 11), "world");
}
