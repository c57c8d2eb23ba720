use rata_pi::markers::strip_markers;
use rata_pi::cards::strip_line_numbers;
use rata_pi::editor::text_field_key;
use rata_pi::helpers::{approx_tokens, concat2, concat3, fmt_elapsed, on_off, short_model_label, truncate_preview};
use rata_pi::keys::{KeyCode, KeyModifiers};
use rata_pi::text::{
    byte_len, char_starting_at, find, first_line_of, is_word, next_char_boundary,
    prev_char_boundary, splice, split_cursor, str_eq, str_slice, word_left_index, word_right_index,
};

fn none() -> KeyModifiers {
    KeyModifiers::none()
}

fn ctrl() -> KeyModifiers {
    KeyModifiers { shift: false, control: true, alt: false, other: false }
}

fn alt() -> KeyModifiers {
    KeyModifiers { shift: false, control: false, alt: true, other: false }
}

fn shift() -> KeyModifiers {
    KeyModifiers { shift: true, control: false, alt: false, other: false }
}

#[test]
fn char_boundaries_step_over_multibyte_chars() {
    let s = "aé€b";
    assert_eq!(byte_len(s), 7);
    assert_eq!(next_char_boundary(s, 0), 1);
    assert_eq!(next_char_boundary(s, 1), 3);
    assert_eq!(next_char_boundary(s, 3), 6);
    assert_eq!(next_char_boundary(s, 7), 7);
    assert_eq!(prev_char_boundary(s, 6), 3);
    assert_eq!(prev_char_boundary(s, 3), 1);
    assert_eq!(prev_char_boundary(s, 0), 0);
    assert_eq!(char_starting_at(s, 3), '€');
}

#[test]
fn word_motion_skips_punctuation_then_word() {
    let s = "foo, bar_baz  qux";
    assert_eq!(word_left_index(s, s.len()), 14);
    assert_eq!(word_left_index(s, 14), 5);
    assert_eq!(word_left_index(s, 5), 0);
    assert_eq!(word_right_index(s, 0), 5);
    assert_eq!(word_right_index(s, 3), 5);
    assert_eq!(word_right_index(s, 5), 14);
    assert_eq!(word_right_index(s, 17), 17);
    assert!(is_word('_'));
    assert!(is_word('é'));
    assert!(!is_word('-'));
}

#[test]
fn slicing_splicing_and_search() {
    let s = "héllo wörld";
    assert_eq!(str_slice(s, 1, 3), "é");
    assert_eq!(splice(s, 0, 6, "bye"), "bye wörld");
    assert_eq!(splice(s, 0, 5, "bye"), "byeo wörld");
    assert_eq!(find(s, "wö"), Some(7));
    assert_eq!(find(s, "zz"), None);
    assert_eq!(find(s, ""), Some(0));
    assert!(str_eq("ab", "ab"));
    assert!(!str_eq("ab", "abc"));
}

#[test]
fn split_cursor_marks_the_character_under_the_cursor() {
    let (a, b, c) = split_cursor("abc", 1);
    assert_eq!((a.as_str(), b.as_str(), c.as_str()), ("a", "b", "c"));
    let (a, b, c) = split_cursor("abc", 3);
    assert_eq!((a.as_str(), b.as_str(), c.as_str()), ("abc", " ", ""));
    let (a, b, c) = split_cursor("abc", 99);
    assert_eq!((a.as_str(), b.as_str(), c.as_str()), ("abc", " ", ""));
}

#[test]
fn first_line_follows_str_lines() {
    assert_eq!(first_line_of(""), "");
    assert_eq!(first_line_of("one\ntwo"), "one");
    assert_eq!(first_line_of("one\r\ntwo"), "one");
    assert_eq!(first_line_of("one\r"), "one\r");
    assert_eq!(first_line_of("\nx"), "");
    for s in ["a\r\nb", "abc", "x\ny\n", "\r\n", "é\n"] {
        assert_eq!(first_line_of(s), s.lines().next().unwrap_or(""));
    }
}

#[test]
fn text_field_editing_keys() {
    let mut v = String::from("hello");
    let mut c = 5usize;
    text_field_key(&mut v, &mut c, false, KeyCode::Char('!'), none());
    assert_eq!((v.as_str(), c), ("hello!", 6));
    text_field_key(&mut v, &mut c, false, KeyCode::Backspace, none());
    assert_eq!((v.as_str(), c), ("hello", 5));
    text_field_key(&mut v, &mut c, false, KeyCode::Home, none());
    assert_eq!(c, 0);
    text_field_key(&mut v, &mut c, false, KeyCode::Delete, none());
    assert_eq!((v.as_str(), c), ("ello", 0));
    text_field_key(&mut v, &mut c, false, KeyCode::End, none());
    assert_eq!(c, 4);
    text_field_key(&mut v, &mut c, false, KeyCode::Enter, shift());
    assert_eq!(v, "ello");
    text_field_key(&mut v, &mut c, true, KeyCode::Enter, shift());
    assert_eq!((v.as_str(), c), ("ello\n", 5));
    text_field_key(&mut v, &mut c, true, KeyCode::Char('w'), ctrl());
    assert_eq!((v.as_str(), c), ("", 0));
    let mut v = String::from("ab cd");
    let mut c = 5usize;
    text_field_key(&mut v, &mut c, false, KeyCode::Left, alt());
    assert_eq!(c, 3);
    text_field_key(&mut v, &mut c, false, KeyCode::Char('u'), ctrl());
    assert_eq!((v.as_str(), c), ("cd", 0));
    text_field_key(&mut v, &mut c, false, KeyCode::Char('k'), ctrl());
    assert_eq!((v.as_str(), c), ("", 0));
}

#[test]
fn helper_formatting() {
    assert_eq!(on_off(true), "on");
    assert_eq!(on_off(false), "off");
    assert_eq!(concat2("a", "b"), "ab");
    assert_eq!(concat3("a", "b", "c"), "abc");
    assert_eq!(approx_tokens(""), 0);
    assert_eq!(approx_tokens("abcde"), 2);
    assert_eq!(approx_tokens("éééé"), 1);
    assert_eq!(truncate_preview("hello", 5), "hello");
    assert_eq!(truncate_preview("hello world", 5), "hell…");
    assert_eq!(truncate_preview("hello", 0), "…");
}

#[test]
fn elapsed_time_formats() {
    assert_eq!(fmt_elapsed(0), "00:00");
    assert_eq!(fmt_elapsed(75), "01:15");
    assert_eq!(fmt_elapsed(3600), "01:00:00");
    assert_eq!(fmt_elapsed(3_600 * 123 + 61), "123:01:01");
}

#[test]
fn model_labels_shorten_past_24_bytes() {
    assert_eq!(short_model_label("acme/large"), "acme/large");
    assert_eq!(short_model_label("acme-provider/large-model-4-6"), "large-model-4-6");
    assert_eq!(short_model_label("a-very-long-model-name-without-slash"), "a-very-long-model-name-without-slash");
    assert_eq!(short_model_label("x/y/a-very-long-model-name-here"), "a-very-long-model-name-here");
}

#[test]
fn strip_line_numbers_takes_off_the_gutter() {
    assert_eq!(strip_line_numbers("  1→fn main() {\n  2→}\n"), "fn main() {\n}\n");
    assert_eq!(strip_line_numbers("12\tlet x = 1;"), "let x = 1;\n");
    assert_eq!(strip_line_numbers("3 | a\r\n4 | b"), " a\n b\n");
    // A line that is all gutter is kept whole.
    assert_eq!(strip_line_numbers("123"), "123\n");
    assert_eq!(strip_line_numbers(""), "");
    assert_eq!(strip_line_numbers("\n"), "\n");
    // A carriage return without a newline stays.
    assert_eq!(strip_line_numbers("a\r"), "a\r\n");
    assert_eq!(strip_line_numbers("  7:\t:x\n\n"), "x\n\n");
}

#[test]
fn strip_markers_removes_only_the_kinds_asked() {
    let t = "a [[PLAN_SET: x | y]] b [[STEP_DONE]] c [[ASK_TITLE: T]] d";
    assert_eq!(strip_markers(t, true, false), ("a  b  c [[ASK_TITLE: T]] d".to_string(), true));
    assert_eq!(strip_markers(t, false, true), ("a [[PLAN_SET: x | y]] b [[STEP_DONE]] c  d".to_string(), true));
    assert_eq!(strip_markers("[[STEP_FAILED: why", true, true), ("[[STEP_FAILED: why".to_string(), false));
    assert_eq!(strip_markers("é[[PLAN_ADD: ü]]ö", true, false), ("éö".to_string(), true));
}
