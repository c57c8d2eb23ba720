use rata_pi::app::App;
use rata_pi::json::{Json, JsonKind};
use rata_pi::messages::Incoming;
use rata_pi::mouse::{bump_scroll, rect_contains, ChipTag, ClickOutcome, MouseMap, Rect};
use rata_pi::settings::SettingsState;
use rata_pi::status::FlashKind;
use rata_pi::transcript::Entry;

fn rect(x: u16, y: u16, width: u16, height: u16) -> Rect {
    Rect { x, y, width, height }
}

fn app() -> App {
    let mut a = App::new();
    a.notify_enabled = false;
    a
}

fn null() -> Json {
    Json { kind: JsonKind::Null, text: "null".into() }
}

#[test]
fn click_outside_modal_closes_it() {
    let mut a = app();
    let mut map = MouseMap::default();
    map.modal_area = Some(rect(10, 5, 70, 15));
    let r = a.on_mouse_click(&map, 2, 2, true);
    assert_eq!(r, ClickOutcome::CloseModal, "click outside should close modal");
}

#[test]
fn click_inside_modal_does_not_close() {
    let mut a = app();
    let mut map = MouseMap::default();
    map.modal_area = Some(rect(10, 5, 70, 15));
    let r = a.on_mouse_click(&map, 40, 10, true);
    assert_eq!(r, ClickOutcome::Nothing);
}

#[test]
fn click_settings_row_selects_and_resets_scroll_flag() {
    let mut a = app();
    let mut s = SettingsState { selected: 0, scroll: 0, user_scrolled: true };
    let mut map = MouseMap::default();
    map.modal_area = Some(rect(5, 5, 80, 20));
    map.push_chip(rect(5, 10, 80, 1), ChipTag::SettingsRow(7));
    match a.on_mouse_click(&map, 30, 10, true) {
        ClickOutcome::Chip(ChipTag::SettingsRow(i)) => s.click_row(i),
        other => panic!("unexpected {:?}", other),
    }
    assert_eq!(s.selected, 7);
    assert!(!s.user_scrolled);
}

#[test]
fn chip_click_reports_the_first_chip_drawn() {
    let mut a = app();
    let mut map = MouseMap::default();
    map.modal_area = Some(rect(5, 5, 80, 20));
    map.push_chip(rect(20, 10, 10, 1), ChipTag::PlanReviewAccept);
    map.push_chip(rect(20, 10, 30, 1), ChipTag::PlanReviewDeny);
    assert_eq!(a.on_mouse_click(&map, 25, 10, true), ClickOutcome::Chip(ChipTag::PlanReviewAccept));
    assert_eq!(a.on_mouse_click(&map, 40, 10, true), ClickOutcome::Chip(ChipTag::PlanReviewDeny));
    assert_eq!(map.chip_at(40, 11), None);
}

#[test]
fn rect_contains_is_half_open() {
    let r = rect(10, 5, 70, 15);
    assert!(rect_contains(r, 10, 5));
    assert!(rect_contains(r, 79, 19));
    assert!(!rect_contains(r, 80, 19));
    assert!(!rect_contains(r, 79, 20));
    assert!(!rect_contains(r, 9, 5));
    assert!(!rect_contains(rect(0, 0, 0, 0), 0, 0));
    // The far edge does not wrap around u16.
    assert!(rect_contains(rect(65_530, 65_530, 10, 10), 65_535, 65_535));
}

#[test]
fn entry_at_needs_the_body_and_a_visible_card() {
    let mut map = MouseMap::default();
    map.body_rect = rect(0, 2, 80, 20);
    map.visible = vec![(2, 5, 0), (5, 9, 1), (9, 12, 4)];
    assert_eq!(map.entry_at(3, 2), Some(0));
    assert_eq!(map.entry_at(3, 8), Some(1));
    assert_eq!(map.entry_at(3, 11), Some(4));
    assert_eq!(map.entry_at(3, 15), None);
    assert_eq!(map.entry_at(3, 1), None);
    map.clear();
    assert_eq!(map.entry_at(3, 2), None);
    assert_eq!(map.body_rect, rect(0, 2, 80, 20));
}

#[test]
fn click_on_card_focuses_then_toggles_tool() {
    let mut a = app();
    a.transcript.push(Entry::User("hi".into()));
    a.on_event(Incoming::ToolExecutionStart {
        tool_call_id: "t1".into(),
        tool_name: "bash".into(),
        args: null(),
    });
    let mut map = MouseMap::default();
    map.body_rect = rect(0, 0, 80, 30);
    map.visible = vec![(0, 3, 0), (3, 6, 1)];
    assert_eq!(a.on_mouse_click(&map, 5, 4, false), ClickOutcome::Nothing);
    assert_eq!(a.focus_idx, Some(1));
    let expanded = |a: &App| match &a.transcript.entries()[1] {
        Entry::ToolCall(tc) => tc.expanded,
        _ => panic!("not a tool"),
    };
    assert!(!expanded(&a));
    a.on_mouse_click(&map, 5, 4, false);
    assert!(expanded(&a));
    assert_eq!(a.focus_idx, Some(1));
    // A second click on a focused non-tool card only keeps the focus.
    a.on_mouse_click(&map, 5, 1, false);
    assert_eq!(a.focus_idx, Some(0));
    a.on_mouse_click(&map, 5, 1, false);
    assert_eq!(a.focus_idx, Some(0));
    // Outside every card: nothing changes.
    a.on_mouse_click(&map, 5, 20, false);
    assert_eq!(a.focus_idx, Some(0));
}

#[test]
fn live_tail_chip_repins_and_leaves_focus() {
    let mut a = app();
    a.transcript.push(Entry::User("hi".into()));
    a.focus_idx = Some(0);
    a.scroll = Some(12);
    let mut map = MouseMap::default();
    map.body_rect = rect(0, 0, 80, 30);
    map.visible = vec![(0, 3, 0)];
    map.live_tail_chip = Some(rect(0, 0, 10, 1));
    a.on_mouse_click(&map, 2, 0, false);
    assert_eq!(a.scroll, None);
    assert_eq!(a.focus_idx, None);
    let f = a.flash.as_ref().unwrap();
    assert_eq!(f.text, "re-pinned live tail");
    assert_eq!(f.kind, FlashKind::Info);
}

#[test]
fn wheel_scrolls_four_rows_saturating() {
    let mut a = app();
    a.wheel(true);
    assert_eq!(a.scroll, Some(u16::MAX - 4));
    a.scroll = Some(2);
    a.wheel(true);
    assert_eq!(a.scroll, Some(0));
    a.scroll = None;
    a.wheel(false);
    assert_eq!(a.scroll, Some(4));
    a.scroll = Some(u16::MAX - 1);
    a.wheel(false);
    assert_eq!(a.scroll, Some(u16::MAX));
}

#[test]
fn bump_scroll_saturates_both_ways() {
    assert_eq!(bump_scroll(0, 4), 4);
    assert_eq!(bump_scroll(4, -100), 0);
    assert_eq!(bump_scroll(u16::MAX - 1, 3), u16::MAX);
    assert_eq!(bump_scroll(10, -3), 7);
    // The row count is taken as a u16.
    assert_eq!(bump_scroll(5, 65_536 + 2), 7);
    assert_eq!(bump_scroll(5, i32::MIN), 5);
}
