use rata_pi::app::{App, FocusAction};
use rata_pi::json::{Json, JsonKind};
use rata_pi::keys::KeyCode;
use rata_pi::messages::Incoming;
use rata_pi::status::{ComposerMode, FlashKind, FocusMarkerStyle, Heartbeat, LiveState, LiveStatus};
use rata_pi::transcript::Entry;

#[test]
fn focus_marker_cycle_and_gates() {
    let mut s = FocusMarkerStyle::Both;
    assert!(s.show_double_border());
    assert!(s.show_marker());
    s = s.cycle();
    assert_eq!(s, FocusMarkerStyle::BorderOnly);
    assert!(s.show_double_border());
    assert!(!s.show_marker());
    s = s.cycle();
    assert_eq!(s, FocusMarkerStyle::MarkerOnly);
    assert!(!s.show_double_border());
    assert!(s.show_marker());
    s = s.cycle();
    assert_eq!(s, FocusMarkerStyle::Both);
}

#[test]
fn focus_marker_labels() {
    assert_eq!(FocusMarkerStyle::Both.label(), "border + marker");
    assert_eq!(FocusMarkerStyle::BorderOnly.label(), "border only");
    assert_eq!(FocusMarkerStyle::MarkerOnly.label(), "marker only");
}

#[test]
fn flash_helpers_tag_kind_correctly() {
    let mut a = App::new();
    a.flash_success("ok".into());
    assert!(matches!(a.flash, Some(ref f) if f.kind == FlashKind::Success));
    a.flash_warn("oops".into());
    assert!(matches!(a.flash, Some(ref f) if f.kind == FlashKind::Warn));
    a.flash_error("boom".into());
    assert!(matches!(a.flash, Some(ref f) if f.kind == FlashKind::Error));
    a.flash("just fyi".into());
    assert!(matches!(a.flash, Some(ref f) if f.kind == FlashKind::Info && f.text == "just fyi"));
    a.flash_info("info".into());
    assert!(matches!(a.flash, Some(ref f) if f.kind == FlashKind::Info));
}

#[test]
fn live_state_labels_and_spinner() {
    assert_eq!(LiveState::Idle.label(), "idle");
    assert_eq!(LiveState::Retrying { attempt: 1, max_attempts: 2, delay_ms: 3 }.label(), "retrying");
    assert!(!LiveState::Idle.wants_spinner());
    assert!(!LiveState::Error.wants_spinner());
    assert!(LiveState::Streaming.wants_spinner());
}

#[test]
fn composer_mode_cycles_while_streaming() {
    assert_eq!(ComposerMode::Prompt.cycle_stream(), ComposerMode::Steer);
    assert_eq!(ComposerMode::Steer.cycle_stream(), ComposerMode::FollowUp);
    assert_eq!(ComposerMode::FollowUp.cycle_stream(), ComposerMode::Steer);
}

#[test]
fn set_live_restarts_timer_only_on_change() {
    let mut s = LiveStatus::new();
    s.ticks = 5;
    s.set_live(LiveState::Llm);
    assert_eq!(s.live_since_tick, 5);
    s.ticks = 9;
    s.set_live(LiveState::Llm);
    assert_eq!(s.live_since_tick, 5);
    assert_eq!(s.ticks_since_live(), 4);
    assert_eq!(s.elapsed_since_live_ms(), 400);
}

#[test]
fn throughput_window_rolls_per_second() {
    let mut s = LiveStatus::new();
    s.push_tokens(7);
    s.ticks = 10;
    s.tick_status();
    assert_eq!(s.throughput.iter().copied().collect::<Vec<_>>(), vec![7]);
    assert_eq!(s.tokens_this_sec, 0);
    // Three seconds later: the new count, then empty buckets.
    s.push_tokens(4);
    s.ticks = 40;
    s.tick_status();
    assert_eq!(s.throughput.iter().copied().collect::<Vec<_>>(), vec![7, 4, 0, 0]);
    assert_eq!(s.recent_avg_throughput(), 2);
    // Within the same second nothing rolls.
    s.push_tokens(1);
    s.ticks = 45;
    s.tick_status();
    assert_eq!(s.throughput.len(), 4);
    assert_eq!(s.tokens_this_sec, 1);
}

#[test]
fn throughput_window_keeps_one_minute() {
    let mut s = LiveStatus::new();
    s.ticks = 1000;
    s.tick_status();
    assert_eq!(s.throughput.len(), 60);
    assert_eq!(s.recent_avg_throughput(), 0);
}

#[test]
fn heartbeat_tracks_event_freshness() {
    let mut s = LiveStatus::new();
    assert_eq!(s.heartbeat(), Heartbeat::Resting);
    s.set_live(LiveState::Llm);
    s.ticks = 2;
    assert_eq!(s.heartbeat(), Heartbeat::Fresh);
    s.ticks = 50;
    assert_eq!(s.heartbeat(), Heartbeat::Waiting);
    s.ticks = 100;
    assert_eq!(s.heartbeat(), Heartbeat::Silent);
    s.event_received();
    assert_eq!(s.heartbeat(), Heartbeat::Fresh);
}

#[test]
fn tick_expires_old_flash_and_clamps_focus() {
    let mut a = App::new();
    a.transcript.push(Entry::User("a".into()));
    a.focus_idx = Some(9);
    a.flash("hello".into());
    for _ in 0..15 {
        a.on_tick();
    }
    assert!(a.flash.is_some());
    assert_eq!(a.focus_idx, Some(0));
    a.on_tick();
    assert!(a.flash.is_none());
    assert_eq!(a.status.ticks, 16);
}

fn null() -> Json {
    Json { kind: JsonKind::Null, text: "null".into() }
}

#[test]
fn focus_keys_navigate_and_expand() {
    let mut a = App::new();
    for i in 0..8 {
        a.transcript.push(Entry::User(format!("m{i}")));
    }
    a.on_event(Incoming::ToolExecutionStart { tool_call_id: "t".into(), tool_name: "bash".into(), args: null() });
    a.focus_idx = Some(0);
    a.focus_key(KeyCode::Char('j'));
    assert_eq!(a.focus_idx, Some(1));
    a.focus_key(KeyCode::PageDown);
    assert_eq!(a.focus_idx, Some(6));
    a.focus_key(KeyCode::PageDown);
    assert_eq!(a.focus_idx, Some(8));
    a.focus_key(KeyCode::Down);
    assert_eq!(a.focus_idx, Some(8));
    a.focus_key(KeyCode::Enter);
    assert!(matches!(a.transcript.entries().last(), Some(Entry::ToolCall(tc)) if tc.expanded));
    assert!(matches!(a.focus_key(KeyCode::Char('y')), FocusAction::Copy(8)));
    a.focus_key(KeyCode::PageUp);
    assert_eq!(a.focus_idx, Some(3));
    a.focus_key(KeyCode::Home);
    assert_eq!(a.focus_idx, Some(0));
    a.focus_key(KeyCode::Char('k'));
    assert_eq!(a.focus_idx, Some(0));
    a.focus_key(KeyCode::Char('G'));
    assert_eq!(a.focus_idx, Some(8));
    a.scroll = Some(3);
    a.focus_key(KeyCode::Esc);
    assert_eq!(a.focus_idx, None);
    assert_eq!(a.scroll, None);
    assert!(matches!(a.flash, Some(ref f) if f.text == "focus mode off"));
}

#[test]
fn focus_mode_ends_on_empty_transcript() {
    let mut a = App::new();
    a.focus_idx = Some(2);
    assert!(matches!(a.focus_key(KeyCode::Char('j')), FocusAction::Nothing));
    assert_eq!(a.focus_idx, None);
}
