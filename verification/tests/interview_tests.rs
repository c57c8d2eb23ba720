use rata_pi::interview::{interview_focus_rows, interview_key, question_count, FieldValue, InterviewState};
use rata_pi::keys::{KeyCode, KeyModifiers};

const NONE: KeyModifiers = KeyModifiers { shift: false, control: false, alt: false, other: false };
const CONTROL: KeyModifiers = KeyModifiers { shift: false, control: true, alt: false, other: false };

fn text(label: &str, value: &str, required: bool) -> FieldValue {
    FieldValue::Text {
        id: label.to_lowercase(),
        label: label.into(),
        description: None,
        value: value.into(),
        cursor: value.len(),
        required,
        multiline: false,
    }
}

fn toggle(label: &str) -> FieldValue {
    FieldValue::Toggle { id: label.to_lowercase(), label: label.into(), description: None, value: false }
}

fn form(fields: Vec<FieldValue>) -> InterviewState {
    InterviewState::new("Form".into(), None, "Submit".into(), fields)
}

fn on_submit(s: &InterviewState) -> bool {
    s.focus == s.fields.len()
}

#[test]
fn interview_submit_button_via_tab_then_enter() {
    let mut state = form(vec![text("Name", "x", false)]);
    assert!(!on_submit(&state));
    // Tab: Name → Submit slot.
    let _ = interview_key(&mut state, KeyCode::Tab, NONE);
    assert!(on_submit(&state));
    // Enter on the submit slot → submit.
    let submit = interview_key(&mut state, KeyCode::Enter, NONE);
    assert!(submit, "Enter on the Submit slot should submit");
}

#[test]
fn interview_submit_ctrl_s_anywhere() {
    let mut state = form(vec![text("Name", "x", false)]);
    assert!(!on_submit(&state));
    let submit = interview_key(&mut state, KeyCode::Char('s'), CONTROL);
    assert!(submit, "Ctrl+S should submit from any focus");
}

#[test]
fn interview_pgdown_scrolls_and_marks_user_scroll() {
    let mut state = form(vec![text("A", "", false)]);
    assert_eq!(state.scroll, 0);
    assert!(!state.user_scrolled);
    let _ = interview_key(&mut state, KeyCode::PageDown, NONE);
    assert_eq!(state.scroll, 10);
    assert!(state.user_scrolled);
}

#[test]
fn interview_tab_resets_user_scrolled_for_autofocus() {
    let mut state = form(vec![text("A", "", false), text("B", "", false)]);
    state.scroll = 20;
    state.user_scrolled = true;
    let _ = interview_key(&mut state, KeyCode::Tab, NONE);
    assert!(!state.user_scrolled);
}

#[test]
fn interview_ctrl_home_and_end_scroll_to_bounds() {
    let mut state = form(vec![text("A", "", false)]);
    let _ = interview_key(&mut state, KeyCode::End, CONTROL);
    assert_eq!(state.scroll, u16::MAX);
    assert!(state.user_scrolled);
    let _ = interview_key(&mut state, KeyCode::Home, CONTROL);
    assert_eq!(state.scroll, 0);
}

#[test]
fn interview_submit_blocked_when_required_empty() {
    let mut state = form(vec![text("Name", "", true)]);
    state.focus = state.fields.len();
    let submit = interview_key(&mut state, KeyCode::Enter, NONE);
    assert!(!submit, "required-but-empty should refuse submit");
    assert_eq!(state.validation_error.as_deref(), Some("required: Name"));
    assert_eq!(state.focus, 0);
}

#[test]
fn focus_skips_headings_and_wraps_from_the_submit_slot() {
    let mut state = form(vec![
        FieldValue::Section { title: "S".into(), description: None },
        text("A", "", false),
        FieldValue::Info { text: "note".into() },
        toggle("T"),
    ]);
    assert_eq!(state.focus, 1);
    let _ = interview_key(&mut state, KeyCode::Down, NONE);
    assert_eq!(state.focus, 3);
    let _ = interview_key(&mut state, KeyCode::Tab, NONE);
    assert_eq!(state.focus, 4);
    let _ = interview_key(&mut state, KeyCode::Tab, NONE);
    assert_eq!(state.focus, 1);
    // Back from the first question: the Submit slot.
    let _ = interview_key(&mut state, KeyCode::BackTab, NONE);
    assert_eq!(state.focus, 4);
    let _ = interview_key(&mut state, KeyCode::Up, NONE);
    assert_eq!(state.focus, 3);
    // Alt+↓ is not a focus key: the toggle ignores it.
    let _ = interview_key(&mut state, KeyCode::Down, KeyModifiers { alt: true, ..NONE });
    assert_eq!(state.focus, 3);
}

#[test]
fn page_up_saturates_at_the_top() {
    let mut state = form(vec![text("A", "", false)]);
    state.scroll = 4;
    let _ = interview_key(&mut state, KeyCode::PageUp, NONE);
    assert_eq!(state.scroll, 0);
    assert!(state.user_scrolled);
}

#[test]
fn fields_take_their_keys() {
    let mut state = form(vec![
        toggle("T"),
        FieldValue::Select {
            id: "s".into(),
            label: "S".into(),
            description: None,
            options: vec!["a".into(), "b".into(), "c".into()],
            selected: 0,
        },
        FieldValue::Multiselect {
            id: "m".into(),
            label: "M".into(),
            description: None,
            options: vec!["x".into(), "y".into()],
            checked: vec![false, false],
            cursor: 0,
        },
        text("N", "", false),
        FieldValue::Number {
            id: "q".into(),
            label: "Q".into(),
            description: None,
            value: String::new(),
            cursor: 0,
            required: false,
            bounded: false,
        },
    ]);
    // Toggle: Space flips, ← clears, → sets.
    let _ = interview_key(&mut state, KeyCode::Char(' '), NONE);
    assert!(matches!(state.fields[0], FieldValue::Toggle { value: true, .. }));
    let _ = interview_key(&mut state, KeyCode::Left, NONE);
    assert!(matches!(state.fields[0], FieldValue::Toggle { value: false, .. }));
    let _ = interview_key(&mut state, KeyCode::Tab, NONE);
    // Select: → steps, a digit picks, a digit past the options does nothing,
    // Enter steps the focus forward.
    let _ = interview_key(&mut state, KeyCode::Right, NONE);
    assert!(matches!(state.fields[1], FieldValue::Select { selected: 1, .. }));
    let _ = interview_key(&mut state, KeyCode::Char('3'), NONE);
    assert!(matches!(state.fields[1], FieldValue::Select { selected: 2, .. }));
    let _ = interview_key(&mut state, KeyCode::Right, NONE);
    assert!(matches!(state.fields[1], FieldValue::Select { selected: 2, .. }));
    let _ = interview_key(&mut state, KeyCode::Char('9'), NONE);
    assert!(matches!(state.fields[1], FieldValue::Select { selected: 2, .. }));
    let _ = interview_key(&mut state, KeyCode::Enter, NONE);
    assert_eq!(state.focus, 2);
    // Multiselect: → moves the cursor, x ticks the box under it.
    let _ = interview_key(&mut state, KeyCode::Right, NONE);
    let _ = interview_key(&mut state, KeyCode::Char('x'), NONE);
    match &state.fields[2] {
        FieldValue::Multiselect { checked, cursor, .. } => {
            assert_eq!(*cursor, 1);
            assert_eq!(checked, &vec![false, true]);
        }
        _ => panic!("expected the multiselect"),
    }
    let _ = interview_key(&mut state, KeyCode::Tab, NONE);
    // Text: typing inserts, Enter on a one-line field steps forward.
    let _ = interview_key(&mut state, KeyCode::Char('h'), NONE);
    let _ = interview_key(&mut state, KeyCode::Char('é'), NONE);
    match &state.fields[3] {
        FieldValue::Text { value, cursor, .. } => {
            assert_eq!(value, "hé");
            assert_eq!(*cursor, 3);
        }
        _ => panic!("expected the text"),
    }
    let _ = interview_key(&mut state, KeyCode::Enter, NONE);
    assert_eq!(state.focus, 4);
    // Number: letters are refused, digits and signs go in.
    let _ = interview_key(&mut state, KeyCode::Char('a'), NONE);
    let _ = interview_key(&mut state, KeyCode::Char('-'), NONE);
    let _ = interview_key(&mut state, KeyCode::Char('4'), NONE);
    match &state.fields[4] {
        FieldValue::Number { value, .. } => assert_eq!(value, "-4"),
        _ => panic!("expected the number"),
    }
    // Nothing was submitted along the way.
    assert!(state.validation_error.is_none());
}

#[test]
fn enter_on_the_submit_slot_with_everything_filled_submits_and_clears_the_refusal() {
    let mut state = form(vec![text("Name", "", true)]);
    assert!(!interview_key(&mut state, KeyCode::Enter, CONTROL));
    assert_eq!(state.validation_error.as_deref(), Some("required: Name"));
    let _ = interview_key(&mut state, KeyCode::Char('z'), NONE);
    let _ = interview_key(&mut state, KeyCode::Tab, NONE);
    assert!(on_submit(&state));
    // Keys other than Enter and Space do nothing on the Submit slot.
    assert!(!interview_key(&mut state, KeyCode::Char('q'), NONE));
    assert!(interview_key(&mut state, KeyCode::Char(' '), NONE));
    assert!(state.validation_error.is_none());
}

#[test]
fn a_form_without_questions_opens_on_its_submit_slot() {
    let state = form(vec![FieldValue::Info { text: "only words".into() }]);
    assert_eq!(state.focus, 1);
    assert_eq!(question_count(&state.fields), 0);
    let two = form(vec![text("A", "", false), FieldValue::Section { title: "S".into(), description: None }, text("B", "", false)]);
    assert_eq!(question_count(&two.fields), 2);
}

#[test]
fn focus_rows_follow_the_body_lines() {
    let mut state = InterviewState::new(
        "Form".into(),
        Some("Tell us about it.".into()),
        "Submit".into(),
        vec![
            FieldValue::Section { title: "Basics".into(), description: Some("first things".into()) },
            FieldValue::Text {
                id: "notes".into(),
                label: "Notes".into(),
                description: None,
                value: "one\ntwo\nthree".into(),
                cursor: 0,
                required: false,
                multiline: true,
            },
            FieldValue::Section { title: "More".into(), description: None },
            FieldValue::Number {
                id: "n".into(),
                label: "N".into(),
                description: Some("how many".into()),
                value: "3".into(),
                cursor: 1,
                required: true,
                bounded: true,
            },
            toggle("T"),
        ],
    );
    // Description: 2 lines. Section (first): heading, description, blank.
    // Notes: label, 3 value lines, blank. Section: blank, heading, blank.
    // Number: label, description, range, value, blank. Toggle: label, box,
    // blank. Submit: after a blank line.
    assert_eq!(interview_focus_rows(&state), vec![2, 5, 10, 13, 18, 22]);
    // A refusal message pushes every field down by two lines.
    state.validation_error = Some("required: N".into());
    assert_eq!(interview_focus_rows(&state), vec![4, 7, 12, 15, 20, 24]);
}
