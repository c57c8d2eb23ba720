use rata_pi::app::{App, FocusAction};
use rata_pi::json::{Json, JsonKind};
use rata_pi::keymap::{
    flatten_paste, last_assistant_text, opens_file_picker, vim_normal, KeyAction, KeyContext, VimOp,
};
use rata_pi::keys::{KeyCode, KeyModifiers};
use rata_pi::messages::Incoming;
use rata_pi::settings::AgentCommand;
use rata_pi::status::{ComposerMode, FlashKind};
use rata_pi::transcript::Entry;

const NONE: KeyModifiers = KeyModifiers { shift: false, control: false, alt: false, other: false };
const CTRL: KeyModifiers = KeyModifiers { shift: false, control: true, alt: false, other: false };
const ALT: KeyModifiers = KeyModifiers { shift: false, control: false, alt: true, other: false };
const SHIFT: KeyModifiers = KeyModifiers { shift: true, control: false, alt: false, other: false };
const CTRL_SHIFT: KeyModifiers = KeyModifiers { shift: true, control: true, alt: false, other: false };

fn ctx(composer_empty: bool, online: bool) -> KeyContext {
    KeyContext { composer_empty, composer_normal: false, online, has_stats: false }
}

fn app() -> App {
    let mut a = App::new();
    a.notify_enabled = false;
    a
}

fn null() -> Json {
    Json { kind: JsonKind::Null, text: "null".into() }
}

fn flash_text(a: &App) -> String {
    a.flash.as_ref().map(|f| f.text.clone()).unwrap_or_default()
}

#[test]
fn ctrl_c_and_ctrl_d_quit_even_in_focus_mode() {
    let mut a = app();
    a.transcript.push(Entry::User("x".into()));
    a.focus_idx = Some(0);
    assert!(matches!(a.handle_key(ctx(true, true), KeyCode::Char('c'), CTRL), KeyAction::Quit));
    assert!(matches!(a.handle_key(ctx(true, true), KeyCode::Char('d'), CTRL), KeyAction::Quit));
    assert_eq!(a.focus_idx, Some(0));
}

#[test]
fn focus_mode_takes_every_other_key() {
    let mut a = app();
    a.transcript.push(Entry::User("x".into()));
    a.transcript.push(Entry::User("y".into()));
    a.focus_idx = Some(1);
    assert!(matches!(
        a.handle_key(ctx(true, true), KeyCode::Char('k'), NONE),
        KeyAction::Focus(FocusAction::Nothing)
    ));
    assert_eq!(a.focus_idx, Some(0));
    assert!(matches!(
        a.handle_key(ctx(true, true), KeyCode::Char('y'), NONE),
        KeyAction::Focus(FocusAction::Copy(0))
    ));
}

#[test]
fn ctrl_f_enters_focus_on_the_last_entry() {
    let mut a = app();
    assert!(matches!(a.handle_key(ctx(true, true), KeyCode::Char('f'), CTRL), KeyAction::Nothing));
    assert_eq!(a.focus_idx, None);
    a.transcript.push(Entry::User("x".into()));
    a.transcript.push(Entry::User("y".into()));
    assert!(matches!(a.handle_key(ctx(true, true), KeyCode::Char('f'), CTRL), KeyAction::EnterFocus));
    assert_eq!(a.focus_idx, Some(1));
    assert_eq!(flash_text(&a), "focus mode · j/k nav · Enter expand · Esc exit");
}

#[test]
fn theme_and_thinking_toggles() {
    let mut a = app();
    assert!(matches!(a.handle_key(ctx(true, true), KeyCode::Char('T'), CTRL_SHIFT), KeyAction::CycleTheme));
    assert!(matches!(a.handle_key(ctx(true, true), KeyCode::Char('t'), ALT), KeyAction::CycleTheme));
    assert!(matches!(a.handle_key(ctx(true, true), KeyCode::F(12), NONE), KeyAction::CycleTheme));
    let before = a.prefs.show_thinking;
    assert!(matches!(a.handle_key(ctx(true, true), KeyCode::Char('t'), CTRL), KeyAction::ToggleThinking));
    assert_eq!(a.prefs.show_thinking, !before);
}

#[test]
fn ctrl_e_expands_the_last_tool_card() {
    let mut a = app();
    assert!(matches!(a.handle_key(ctx(true, true), KeyCode::Char('e'), CTRL), KeyAction::Nothing));
    a.on_event(Incoming::ToolExecutionStart { tool_call_id: "t".into(), tool_name: "bash".into(), args: null() });
    assert!(matches!(a.handle_key(ctx(true, true), KeyCode::Char('e'), CTRL), KeyAction::ExpandLastTool));
    assert!(matches!(a.transcript.entries().last(), Some(Entry::ToolCall(tc)) if tc.expanded));
}

#[test]
fn ctrl_y_copies_the_last_assistant_text() {
    let mut a = app();
    assert!(matches!(a.handle_key(ctx(true, true), KeyCode::Char('y'), CTRL), KeyAction::NothingToCopy));
    assert_eq!(flash_text(&a), "nothing to copy yet");
    assert_eq!(a.flash.as_ref().unwrap().kind, FlashKind::Warn);
    a.transcript.push(Entry::Assistant("first".into()));
    a.transcript.push(Entry::Assistant("second".into()));
    a.transcript.push(Entry::User("later".into()));
    assert_eq!(last_assistant_text(&a.transcript), Some("second".to_string()));
    match a.handle_key(ctx(true, true), KeyCode::Char('y'), CTRL) {
        KeyAction::Copy(s) => assert_eq!(s, "second"),
        _ => panic!("expected a copy"),
    }
}

#[test]
fn ctrl_space_cycles_composer_mode_only_while_streaming() {
    let mut a = app();
    assert!(matches!(a.handle_key(ctx(true, true), KeyCode::Char(' '), CTRL), KeyAction::Nothing));
    assert_eq!(a.composer_mode, ComposerMode::Prompt);
    a.is_streaming = true;
    assert!(matches!(a.handle_key(ctx(true, true), KeyCode::Char(' '), CTRL), KeyAction::CycleComposerMode));
    assert_eq!(a.composer_mode, ComposerMode::Steer);
    assert_eq!(flash_text(&a), "composer: Steer");
}

#[test]
fn function_keys_open_dialogs_and_send_commands() {
    let mut a = app();
    assert!(matches!(a.handle_key(ctx(true, true), KeyCode::F(1), NONE), KeyAction::OpenCommands));
    assert!(matches!(a.handle_key(ctx(true, true), KeyCode::F(5), NONE), KeyAction::OpenModels));
    assert!(matches!(a.handle_key(ctx(true, true), KeyCode::F(6), NONE), KeyAction::OpenThinking));
    assert!(matches!(a.handle_key(ctx(true, true), KeyCode::F(7), NONE), KeyAction::NoStats));
    assert_eq!(flash_text(&a), "no stats yet");
    let with_stats = KeyContext { has_stats: true, ..ctx(true, true) };
    assert!(matches!(a.handle_key(with_stats, KeyCode::F(7), NONE), KeyAction::OpenStats));
    assert!(matches!(a.handle_key(ctx(true, false), KeyCode::F(8), NONE), KeyAction::Nothing));
    assert!(matches!(
        a.handle_key(ctx(true, true), KeyCode::F(8), NONE),
        KeyAction::Send(AgentCommand::Compact)
    ));
    assert_eq!(flash_text(&a), "compacting…");
}

#[test]
fn f9_and_f10_flip_the_session_switches() {
    let mut a = app();
    // Unknown reads as on, so the first press turns it off.
    assert!(matches!(
        a.handle_key(ctx(true, true), KeyCode::F(9), NONE),
        KeyAction::Send(AgentCommand::SetAutoCompaction(false))
    ));
    assert_eq!(a.session.auto_compaction, Some(false));
    assert_eq!(flash_text(&a), "auto-compact off");
    assert!(matches!(a.handle_key(ctx(true, false), KeyCode::F(9), NONE), KeyAction::Toggled));
    assert_eq!(a.session.auto_compaction, Some(true));
    assert_eq!(flash_text(&a), "auto-compact on");
    assert!(matches!(
        a.handle_key(ctx(true, true), KeyCode::F(10), NONE),
        KeyAction::Send(AgentCommand::SetAutoRetry(false))
    ));
    assert_eq!(a.session.auto_retry, Some(false));
    assert_eq!(flash_text(&a), "auto-retry off");
}

#[test]
fn esc_aborts_clears_or_quits() {
    let mut a = app();
    assert!(matches!(a.handle_key(ctx(true, true), KeyCode::Esc, NONE), KeyAction::Quit));
    assert!(matches!(a.handle_key(ctx(false, true), KeyCode::Esc, NONE), KeyAction::ComposerClear));
    a.is_streaming = true;
    assert!(matches!(a.handle_key(ctx(false, false), KeyCode::Esc, NONE), KeyAction::Nothing));
    let n = a.transcript.entries().len();
    assert!(matches!(a.handle_key(ctx(false, true), KeyCode::Esc, NONE), KeyAction::Abort));
    assert_eq!(a.transcript.entries().len(), n + 1);
    assert!(matches!(a.transcript.entries().last(), Some(Entry::Warn(s)) if s == "aborted"));
    a.prefs.vim_enabled = true;
    assert!(matches!(a.handle_key(ctx(false, true), KeyCode::Esc, NONE), KeyAction::ComposerNormal));
}

#[test]
fn composer_keys_map_to_editing_actions() {
    let mut a = app();
    let c = ctx(false, true);
    assert!(matches!(a.handle_key(c, KeyCode::Enter, SHIFT), KeyAction::InsertNewline));
    assert!(matches!(a.handle_key(c, KeyCode::Char('j'), CTRL), KeyAction::InsertNewline));
    assert!(matches!(a.handle_key(c, KeyCode::Enter, NONE), KeyAction::Submit));
    assert!(matches!(a.handle_key(c, KeyCode::Left, NONE), KeyAction::CursorLeft));
    assert!(matches!(a.handle_key(c, KeyCode::Right, ALT), KeyAction::WordRight));
    assert!(matches!(a.handle_key(c, KeyCode::Char('a'), CTRL), KeyAction::CursorHome));
    assert!(matches!(a.handle_key(c, KeyCode::End, NONE), KeyAction::CursorEnd));
    assert!(matches!(a.handle_key(c, KeyCode::Char('u'), CTRL), KeyAction::KillLineBack));
    assert!(matches!(a.handle_key(c, KeyCode::Char('w'), CTRL), KeyAction::KillWordBack));
    assert!(matches!(a.handle_key(c, KeyCode::Backspace, NONE), KeyAction::Backspace));
    assert!(matches!(a.handle_key(c, KeyCode::Char('x'), SHIFT), KeyAction::InsertChar('x')));
    assert!(matches!(a.handle_key(c, KeyCode::Up, NONE), KeyAction::HistoryPrev));
    assert!(matches!(a.handle_key(c, KeyCode::Char('/'), NONE), KeyAction::InsertChar('/')));
    assert!(matches!(a.handle_key(ctx(true, true), KeyCode::Char('/'), NONE), KeyAction::OpenSlashCommands));
    assert!(matches!(a.handle_key(c, KeyCode::Char('?'), NONE), KeyAction::OpenHelp));
    a.prefs.vim_enabled = true;
    let normal = KeyContext { composer_normal: true, ..c };
    assert!(matches!(a.handle_key(normal, KeyCode::Char('w'), NONE), KeyAction::VimNormal('w')));
}

#[test]
fn end_on_empty_composer_repins_and_pages_scroll() {
    let mut a = app();
    a.scroll = Some(40);
    assert!(matches!(a.handle_key(ctx(true, true), KeyCode::End, NONE), KeyAction::Repin));
    assert_eq!(a.scroll, None);
    assert!(matches!(a.handle_key(ctx(true, true), KeyCode::PageUp, NONE), KeyAction::Scrolled));
    assert_eq!(a.scroll, Some(u16::MAX - 10));
    a.scroll = None;
    assert!(matches!(a.handle_key(ctx(true, true), KeyCode::PageDown, NONE), KeyAction::Scrolled));
    assert_eq!(a.scroll, Some(10));
}

#[test]
fn at_sign_opens_the_file_picker_at_a_word_start() {
    assert!(opens_file_picker("@", '@'));
    assert!(opens_file_picker("look at @", '@'));
    assert!(opens_file_picker("tab\t@", '@'));
    assert!(!opens_file_picker("mail@", '@'));
    assert!(!opens_file_picker("x", 'x'));
}

#[test]
fn vim_normal_keys_and_pending_pairs() {
    assert_eq!(vim_normal('h', None), (VimOp::Left, None));
    assert_eq!(vim_normal('$', Some('g')), (VimOp::LineEnd, Some('g')));
    assert_eq!(vim_normal('a', None), (VimOp::Append, None));
    assert_eq!(vim_normal('O', None), (VimOp::OpenAbove, None));
    assert_eq!(vim_normal('g', None), (VimOp::Nothing, Some('g')));
    assert_eq!(vim_normal('g', Some('g')), (VimOp::Top, None));
    assert_eq!(vim_normal('d', Some('g')), (VimOp::Nothing, Some('d')));
    assert_eq!(vim_normal('d', Some('d')), (VimOp::DeleteLine, None));
    assert_eq!(vim_normal('G', Some('d')), (VimOp::Bottom, Some('d')));
    assert_eq!(vim_normal('z', Some('d')), (VimOp::Nothing, None));
    // Three presses: the pair completes, the third starts anew.
    let (_, p) = vim_normal('g', None);
    let (op, p) = vim_normal('g', p);
    assert_eq!(op, VimOp::Top);
    assert_eq!(vim_normal('g', p), (VimOp::Nothing, Some('g')));
}

#[test]
fn pastes_arrive_on_one_line() {
    assert_eq!(flatten_paste("a\nb\r\nc"), "a b  c");
    assert_eq!(flatten_paste("é→x"), "é→x");
    assert_eq!(flatten_paste(""), "");
}
