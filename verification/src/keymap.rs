//! The key bindings of the main view (no dialog open): what each key
//! asks for, and the part of it the client state carries out itself.

use vstd::prelude::*;
use vstd::string::*;

use crate::app::{
    App, FocusAction, focus_key_effect, keeps_queues, keeps_run, keeps_tools, keeps_turn,
};
use crate::helpers::{concat2, on_off};
use crate::keys::{KeyCode, KeyModifiers};
use crate::settings::{AgentCommand, flashed, on_off_text, session_with};
use crate::status::{ComposerMode, FlashKind};
use crate::transcript::{
    Entry, Transcript, appended, bumped, last_tool_id, last_tool_id_spec, tool_toggled,
};

verus! {

/// The composer and connection facts a key's meaning depends on.
#[derive(Clone, Copy, Debug, PartialEq, Eq, Structural)]
pub struct KeyContext {
    /// The composer holds no text.
    pub composer_empty: bool,
    /// The composer is in vim's normal mode.
    pub composer_normal: bool,
    /// The agent is running.
    pub online: bool,
    /// Session statistics have arrived.
    pub has_stats: bool,
}

/// What a key asks for. The actions on the composer, the dialogs, the
/// clipboard and the agent are the host's to carry out; the rest the
/// state has already done.
pub enum KeyAction {
    Nothing,
    Quit,
    /// A key handled in focus mode.
    Focus(FocusAction),
    /// Focus mode was entered.
    EnterFocus,
    /// Step to the next theme and flash its name.
    CycleTheme,
    /// Thinking was shown or hidden.
    ToggleThinking,
    /// The last tool card was expanded or collapsed.
    ExpandLastTool,
    OpenFileFinder,
    /// Copy this text to the clipboard.
    Copy(String),
    /// There is nothing to copy (flashed).
    NothingToCopy,
    /// The composer mode stepped (flashed).
    CycleComposerMode,
    OpenCommands,
    OpenModels,
    OpenThinking,
    OpenStats,
    /// There are no statistics yet (flashed).
    NoStats,
    /// Send this command to the agent.
    Send(AgentCommand),
    /// The switch flipped while the agent is not running (flashed).
    Toggled,
    OpenHelp,
    OpenHistory,
    /// Export the transcript to a file.
    Export,
    HistoryPrev,
    HistoryNext,
    OpenSlashCommands,
    /// Put the composer in vim's normal mode.
    ComposerNormal,
    /// Abort the running agent (the abort is recorded).
    Abort,
    ComposerClear,
    InsertNewline,
    Submit,
    CursorLeft,
    CursorRight,
    WordLeft,
    WordRight,
    CursorHome,
    CursorEnd,
    /// The view was re-pinned to the live tail.
    Repin,
    KillLineBack,
    KillLineForward,
    KillWordBack,
    Backspace,
    DeleteForward,
    /// A key for vim's normal mode.
    VimNormal(char),
    InsertChar(char),
    /// The transcript scrolled.
    Scrolled,
}

/// `b` is `a` with a warning reading `msg` appended.
pub open spec fn pushed_warn(a: Transcript, b: Transcript, msg: Seq<char>) -> bool {
    &&& bumped(a, b)
    &&& appended(a@, b@)
    &&& b@.last() matches Entry::Warn(s) && s@ == msg
}

/// Exactly the modifier Control is held.
pub open spec fn ctrl_only(m: KeyModifiers) -> bool {
    m.control && !m.shift && !m.alt && !m.other
}

/// The text of the most recent assistant entry.
pub open spec fn last_assistant(es: Seq<Entry>) -> Option<String>
    decreases es.len(),
{
    if es.len() == 0 {
        None
    } else {
        match es.last() {
            Entry::Assistant(s) => Some(s),
            _ => last_assistant(es.drop_last()),
        }
    }
}

/// The text of the most recent assistant entry, if any.
pub fn last_assistant_text(t: &Transcript) -> (r: Option<String>)
    ensures
        r == last_assistant(t@),
{
    let es = t.entries();
    let mut i = es.len();
    assert(es@.take(i as int) =~= es@);
    while i > 0
        invariant
            i <= es@.len(),
            es@ == t@,
            last_assistant(es@) == last_assistant(es@.take(i as int)),
        decreases i,
    {
        proof {
            assert(es@.take(i as int).drop_last() =~= es@.take(i - 1));
        }
        match &es[i - 1] {
            Entry::Assistant(s) => {
                return Some(s.clone());
            },
            _ => {},
        }
        i -= 1;
    }
    proof {
        assert(es@.take(0) =~= Seq::<Entry>::empty());
    }
    None
}

impl ComposerMode {
    /// The mode's name.
    pub open spec fn name_spec(self) -> Seq<char> {
        match self {
            ComposerMode::Prompt => "Prompt"@,
            ComposerMode::Steer => "Steer"@,
            ComposerMode::FollowUp => "FollowUp"@,
        }
    }

    pub fn name(self) -> (r: &'static str)
        ensures
            r@ == self.name_spec(),
    {
        match self {
            ComposerMode::Prompt => "Prompt",
            ComposerMode::Steer => "Steer",
            ComposerMode::FollowUp => "FollowUp",
        }
    }
}

/// What a key asks for in the main view of state `a`.
pub open spec fn key_action(a: App, ctx: KeyContext, code: KeyCode, m: KeyModifiers) -> KeyAction {
    let n = a.transcript@.len() as int;
    if (code == KeyCode::Char('c') || code == KeyCode::Char('d')) && ctrl_only(m) {
        KeyAction::Quit
    } else if a.focus_idx is Some {
        KeyAction::Focus(
            if n > 0 && (code == KeyCode::Char('y') || code == KeyCode::Char('c')) && (a.focus_idx->0 as int)
                < n {
                FocusAction::Copy(a.focus_idx->0)
            } else {
                FocusAction::Nothing
            },
        )
    } else if code == KeyCode::Char('f') && ctrl_only(m) {
        if n > 0 {
            KeyAction::EnterFocus
        } else {
            KeyAction::Nothing
        }
    } else if (code == KeyCode::Char('t') || code == KeyCode::Char('T')) && m.control && m.shift {
        KeyAction::CycleTheme
    } else if (code == KeyCode::Char('t') || code == KeyCode::Char('T')) && m.alt {
        KeyAction::CycleTheme
    } else if code == KeyCode::F(12) {
        KeyAction::CycleTheme
    } else if code == KeyCode::Char('t') && ctrl_only(m) {
        KeyAction::ToggleThinking
    } else if code == KeyCode::Char('e') && ctrl_only(m) {
        if last_tool_id_spec(a.transcript@) is Some {
            KeyAction::ExpandLastTool
        } else {
            KeyAction::Nothing
        }
    } else if code == KeyCode::Char('p') && ctrl_only(m) {
        KeyAction::OpenFileFinder
    } else if code == KeyCode::Char('y') && ctrl_only(m) {
        match last_assistant(a.transcript@) {
            Some(s) => KeyAction::Copy(s),
            None => KeyAction::NothingToCopy,
        }
    } else if code == KeyCode::Char(' ') && ctrl_only(m) {
        if a.is_streaming {
            KeyAction::CycleComposerMode
        } else {
            KeyAction::Nothing
        }
    } else if code == KeyCode::F(1) {
        KeyAction::OpenCommands
    } else if code == KeyCode::F(5) {
        KeyAction::OpenModels
    } else if code == KeyCode::F(6) {
        KeyAction::OpenThinking
    } else if code == KeyCode::F(7) {
        if ctx.has_stats {
            KeyAction::OpenStats
        } else {
            KeyAction::NoStats
        }
    } else if code == KeyCode::F(8) {
        if ctx.online {
            KeyAction::Send(AgentCommand::Compact)
        } else {
            KeyAction::Nothing
        }
    } else if code == KeyCode::F(9) {
        let next = !match a.session.auto_compaction {
            Some(x) => x,
            None => true,
        };
        if ctx.online {
            KeyAction::Send(AgentCommand::SetAutoCompaction(next))
        } else {
            KeyAction::Toggled
        }
    } else if code == KeyCode::F(10) {
        let next = !match a.session.auto_retry {
            Some(x) => x,
            None => true,
        };
        if ctx.online {
            KeyAction::Send(AgentCommand::SetAutoRetry(next))
        } else {
            KeyAction::Toggled
        }
    } else if code == KeyCode::Char('?') {
        KeyAction::OpenHelp
    } else if code == KeyCode::Char('r') && ctrl_only(m) {
        KeyAction::OpenHistory
    } else if code == KeyCode::Char('s') && ctrl_only(m) {
        KeyAction::Export
    } else if code is Up && m.is_none() {
        KeyAction::HistoryPrev
    } else if code is Down && m.is_none() {
        KeyAction::HistoryNext
    } else if code == KeyCode::Char('/') && m.is_none() && ctx.composer_empty {
        KeyAction::OpenSlashCommands
    } else if code is Esc && a.prefs.vim_enabled && !ctx.composer_normal && !ctx.composer_empty {
        KeyAction::ComposerNormal
    } else if code is Esc {
        if a.is_streaming {
            if ctx.online {
                KeyAction::Abort
            } else {
                KeyAction::Nothing
            }
        } else if !ctx.composer_empty {
            KeyAction::ComposerClear
        } else {
            KeyAction::Quit
        }
    } else if code is Enter && m.shift {
        KeyAction::InsertNewline
    } else if code == KeyCode::Char('j') && ctrl_only(m) {
        KeyAction::InsertNewline
    } else if code is Enter {
        KeyAction::Submit
    } else if code is Left && m.is_none() {
        KeyAction::CursorLeft
    } else if code is Right && m.is_none() {
        KeyAction::CursorRight
    } else if code is Left && m.alt {
        KeyAction::WordLeft
    } else if code is Right && m.alt {
        KeyAction::WordRight
    } else if code is Home {
        KeyAction::CursorHome
    } else if code is End && ctx.composer_empty {
        KeyAction::Repin
    } else if code is End {
        KeyAction::CursorEnd
    } else if code == KeyCode::Char('a') && ctrl_only(m) {
        KeyAction::CursorHome
    } else if code == KeyCode::Char('u') && ctrl_only(m) {
        KeyAction::KillLineBack
    } else if code == KeyCode::Char('k') && ctrl_only(m) {
        KeyAction::KillLineForward
    } else if code == KeyCode::Char('w') && ctrl_only(m) {
        KeyAction::KillWordBack
    } else if code is Backspace {
        KeyAction::Backspace
    } else if code is Delete {
        KeyAction::DeleteForward
    } else if code is Char && a.prefs.vim_enabled && ctx.composer_normal && !m.control && !m.alt {
        KeyAction::VimNormal(code->Char_0)
    } else if code is Char && !m.control && !m.alt {
        KeyAction::InsertChar(code->Char_0)
    } else if code is PageUp || code is PageDown {
        KeyAction::Scrolled
    } else {
        KeyAction::Nothing
    }
}

/// Only the view state (focus, scroll, flash) may differ.
pub open spec fn keeps_all_but_view_state(a: App, b: App) -> bool {
    &&& b.transcript == a.transcript && b.status == a.status
    &&& keeps_run(a, b) && keeps_tools(a, b) && keeps_turn(a, b) && keeps_queues(a, b)
    &&& b.notify_enabled == a.notify_enabled && b.session == a.session && b.prefs == a.prefs
}

/// The part of action `act` the state carries out: `a` becomes `b`.
pub open spec fn key_effect(a: App, b: App, ctx: KeyContext, code: KeyCode, act: KeyAction) -> bool {
    let now = a.status.ticks;
    let same = b == a;
    match act {
        KeyAction::Focus(f) => focus_key_effect(a, b, code, f),
        KeyAction::EnterFocus => {
            &&& keeps_all_but_view_state(a, b) && b.scroll == a.scroll
            &&& b.focus_idx == Some((a.transcript@.len() - 1) as usize)
            &&& flashed(b.flash, "focus mode · j/k nav · Enter expand · Esc exit"@, now, FlashKind::Info)
        },
        KeyAction::ToggleThinking => {
            &&& b.prefs.show_thinking == !a.prefs.show_thinking
            &&& b.prefs.vim_enabled == a.prefs.vim_enabled
            &&& b.prefs.show_raw_markers == a.prefs.show_raw_markers
            &&& b.prefs.plan_auto_run == a.prefs.plan_auto_run
            &&& b.transcript == a.transcript && b.status == a.status && b.session == a.session
            &&& keeps_run(a, b) && keeps_tools(a, b) && keeps_turn(a, b) && keeps_queues(a, b)
            &&& b.notify_enabled == a.notify_enabled && b.focus_idx == a.focus_idx
            &&& b.scroll == a.scroll && b.flash == a.flash
        },
        KeyAction::ExpandLastTool => {
            &&& tool_toggled(a.transcript, b.transcript, last_tool_id_spec(a.transcript@)->0)
            &&& b.status == a.status && b.session == a.session && b.prefs == a.prefs
            &&& keeps_run(a, b) && keeps_tools(a, b) && keeps_turn(a, b) && keeps_queues(a, b)
            &&& b.notify_enabled == a.notify_enabled && b.focus_idx == a.focus_idx
            &&& b.scroll == a.scroll && b.flash == a.flash
        },
        KeyAction::NothingToCopy => {
            &&& keeps_all_but_view_state(a, b) && b.focus_idx == a.focus_idx && b.scroll == a.scroll
            &&& flashed(b.flash, "nothing to copy yet"@, now, FlashKind::Warn)
        },
        KeyAction::CycleComposerMode => {
            &&& b.composer_mode == a.composer_mode.cycle_stream_spec()
            &&& b.is_streaming == a.is_streaming
            &&& b.transcript == a.transcript && b.status == a.status && b.session == a.session
            &&& b.prefs == a.prefs && keeps_tools(a, b) && keeps_turn(a, b) && keeps_queues(a, b)
            &&& b.notify_enabled == a.notify_enabled && b.focus_idx == a.focus_idx
            &&& b.scroll == a.scroll
            &&& flashed(
                b.flash,
                "composer: "@ + a.composer_mode.cycle_stream_spec().name_spec(),
                now,
                FlashKind::Info,
            )
        },
        KeyAction::NoStats => {
            &&& keeps_all_but_view_state(a, b) && b.focus_idx == a.focus_idx && b.scroll == a.scroll
            &&& flashed(b.flash, "no stats yet"@, now, FlashKind::Warn)
        },
        KeyAction::Send(c) => match c {
            AgentCommand::Compact => {
                &&& keeps_all_but_view_state(a, b) && b.focus_idx == a.focus_idx
                &&& b.scroll == a.scroll
                &&& flashed(b.flash, "compacting…"@, now, FlashKind::Info)
            },
            _ => toggle_effect(a, b, code),
        },
        KeyAction::Toggled => toggle_effect(a, b, code),
        KeyAction::Abort => {
            &&& b.status == a.status && b.session == a.session && b.prefs == a.prefs
            &&& keeps_run(a, b) && keeps_tools(a, b) && keeps_turn(a, b) && keeps_queues(a, b)
            &&& b.notify_enabled == a.notify_enabled && b.focus_idx == a.focus_idx
            &&& b.scroll == a.scroll && b.flash == a.flash
            &&& pushed_warn(a.transcript, b.transcript, "aborted"@)
        },
        KeyAction::Repin => {
            &&& keeps_all_but_view_state(a, b) && b.focus_idx == a.focus_idx && b.flash == a.flash
            &&& b.scroll is None
        },
        KeyAction::Scrolled => {
            &&& keeps_all_but_view_state(a, b) && b.focus_idx == a.focus_idx && b.flash == a.flash
            &&& b.scroll == Some(
                if code is PageUp {
                    (match a.scroll {
                        Some(s) => s,
                        None => u16::MAX,
                    }).saturating_sub(10)
                } else {
                    (match a.scroll {
                        Some(s) => s,
                        None => 0u16,
                    }).saturating_add(10)
                },
            )
        },
        _ => same,
    }
}

/// F9 and F10 flip auto-compaction and auto-retry.
pub open spec fn toggle_effect(a: App, b: App, code: KeyCode) -> bool {
    switch_flipped(a, b, code == KeyCode::F(9))
}

/// Auto-compaction (when `compaction`) or else auto-retry is flipped, an
/// unknown setting reading as on, and the new value is flashed; nothing
/// else changes but the flash.
pub open spec fn switch_flipped(a: App, b: App, compaction: bool) -> bool {
    let s = a.session;
    let now = a.status.ticks;
    &&& b.transcript == a.transcript && b.status == a.status && b.prefs == a.prefs
    &&& keeps_run(a, b) && keeps_tools(a, b) && keeps_turn(a, b) && keeps_queues(a, b)
    &&& b.notify_enabled == a.notify_enabled && b.focus_idx == a.focus_idx && b.scroll == a.scroll
    &&& if compaction {
        let next = !match s.auto_compaction {
            Some(x) => x,
            None => true,
        };
        &&& b.session == session_with(s, s.steering_mode, s.follow_up_mode, Some(next), s.auto_retry)
        &&& flashed(b.flash, "auto-compact "@ + on_off_text(next), now, FlashKind::Info)
    } else {
        let next = !match s.auto_retry {
            Some(x) => x,
            None => true,
        };
        &&& b.session == session_with(s, s.steering_mode, s.follow_up_mode, s.auto_compaction, Some(next))
        &&& flashed(b.flash, "auto-retry "@ + on_off_text(next), now, FlashKind::Info)
    }
}

} // verus!

verus! {

/// The composer's motion keys outside focus mode, whatever the state and
/// the context: ← and → without modifiers move the cursor a character
/// left and right, with Alt a word left and right; ↑ and ↓ without
/// modifiers walk the history back and forth; Home goes to the start.
pub proof fn lemma_motion_keys(a: App, ctx: KeyContext, m: KeyModifiers)
    requires
        a.focus_idx is None,
    ensures
        m.is_none() ==> key_action(a, ctx, KeyCode::Left, m) == KeyAction::CursorLeft,
        m.is_none() ==> key_action(a, ctx, KeyCode::Right, m) == KeyAction::CursorRight,
        m.alt ==> key_action(a, ctx, KeyCode::Left, m) == KeyAction::WordLeft,
        m.alt ==> key_action(a, ctx, KeyCode::Right, m) == KeyAction::WordRight,
        m.is_none() ==> key_action(a, ctx, KeyCode::Up, m) == KeyAction::HistoryPrev,
        m.is_none() ==> key_action(a, ctx, KeyCode::Down, m) == KeyAction::HistoryNext,
        key_action(a, ctx, KeyCode::Home, m) == KeyAction::CursorHome,
{
}

/// The composer's editing keys outside focus mode, whatever the state
/// and the context: Enter submits, Shift+Enter and Ctrl+J break the line,
/// Backspace and Delete erase back and forward, Ctrl+A goes to the start,
/// Ctrl+U, Ctrl+K and Ctrl+W kill back to the start, forward to the end
/// and back a word; End goes to the end of the text, or re-pins the view
/// when the composer is empty; a plain character other than `?` and `/`
/// is typed, unless vim's normal mode takes it. Ctrl+C and Ctrl+D quit in
/// any state.
pub proof fn lemma_editing_keys(a: App, ctx: KeyContext, m: KeyModifiers, c: char)
    ensures
        ctrl_only(m) ==> key_action(a, ctx, KeyCode::Char('c'), m) == KeyAction::Quit,
        ctrl_only(m) ==> key_action(a, ctx, KeyCode::Char('d'), m) == KeyAction::Quit,
        a.focus_idx is None ==> {
            &&& m.is_none() ==> key_action(a, ctx, KeyCode::Enter, m) == KeyAction::Submit
            &&& m.shift ==> key_action(a, ctx, KeyCode::Enter, m) == KeyAction::InsertNewline
            &&& ctrl_only(m) ==> key_action(a, ctx, KeyCode::Char('j'), m) == KeyAction::InsertNewline
            &&& key_action(a, ctx, KeyCode::Backspace, m) == KeyAction::Backspace
            &&& key_action(a, ctx, KeyCode::Delete, m) == KeyAction::DeleteForward
            &&& ctrl_only(m) ==> key_action(a, ctx, KeyCode::Char('a'), m) == KeyAction::CursorHome
            &&& ctrl_only(m) ==> key_action(a, ctx, KeyCode::Char('u'), m) == KeyAction::KillLineBack
            &&& ctrl_only(m) ==> key_action(a, ctx, KeyCode::Char('k'), m) == KeyAction::KillLineForward
            &&& ctrl_only(m) ==> key_action(a, ctx, KeyCode::Char('w'), m) == KeyAction::KillWordBack
            &&& key_action(a, ctx, KeyCode::End, m) == if ctx.composer_empty {
                KeyAction::Repin
            } else {
                KeyAction::CursorEnd
            }
            &&& m.is_none() && c != '?' && c != '/' ==> key_action(a, ctx, KeyCode::Char(c), m) == if a.prefs.vim_enabled
                && ctx.composer_normal {
                KeyAction::VimNormal(c)
            } else {
                KeyAction::InsertChar(c)
            }
        },
{
}

impl App {
    /// A key in the main view. Returns what the key asks for; the state
    /// has already done its part of it (see `key_effect`).
    pub fn handle_key(&mut self, ctx: KeyContext, code: KeyCode, m: KeyModifiers) -> (act: KeyAction)
        ensures
            act == key_action(*old(self), ctx, code, m),
            key_effect(*old(self), *final(self), ctx, code, act),
    {
        let ctrl = m.control && !m.shift && !m.alt && !m.other;
        let bare = !m.shift && !m.control && !m.alt && !m.other;
        let now = self.status.ticks;
        if (code == KeyCode::Char('c') || code == KeyCode::Char('d')) && ctrl {
            return KeyAction::Quit;
        }
        if self.focus_idx.is_some() {
            let f = self.focus_key(code);
            return KeyAction::Focus(f);
        }
        let n = self.transcript.entries().len();
        if code == KeyCode::Char('f') && ctrl {
            if n > 0 {
                self.focus_idx = Some(n - 1);
                self.flash(String::from_str("focus mode · j/k nav · Enter expand · Esc exit"));
                return KeyAction::EnterFocus;
            }
            return KeyAction::Nothing;
        }
        let t_key = code == KeyCode::Char('t') || code == KeyCode::Char('T');
        if t_key && m.control && m.shift {
            return KeyAction::CycleTheme;
        }
        if t_key && m.alt {
            return KeyAction::CycleTheme;
        }
        if code == KeyCode::F(12) {
            return KeyAction::CycleTheme;
        }
        if code == KeyCode::Char('t') && ctrl {
            self.prefs.show_thinking = !self.prefs.show_thinking;
            return KeyAction::ToggleThinking;
        }
        if code == KeyCode::Char('e') && ctrl {
            return match last_tool_id(&self.transcript) {
                Some(id) => {
                    self.transcript.toggle_tool_expanded(id.as_str());
                    KeyAction::ExpandLastTool
                },
                None => KeyAction::Nothing,
            };
        }
        if code == KeyCode::Char('p') && ctrl {
            return KeyAction::OpenFileFinder;
        }
        if code == KeyCode::Char('y') && ctrl {
            return match last_assistant_text(&self.transcript) {
                Some(s) => KeyAction::Copy(s),
                None => {
                    self.flash_warn(String::from_str("nothing to copy yet"));
                    KeyAction::NothingToCopy
                },
            };
        }
        if code == KeyCode::Char(' ') && ctrl {
            if self.is_streaming {
                self.composer_mode = self.composer_mode.cycle_stream();
                self.flash(concat2("composer: ", self.composer_mode.name()));
                return KeyAction::CycleComposerMode;
            }
            return KeyAction::Nothing;
        }
        if code == KeyCode::F(1) {
            return KeyAction::OpenCommands;
        }
        if code == KeyCode::F(5) {
            return KeyAction::OpenModels;
        }
        if code == KeyCode::F(6) {
            return KeyAction::OpenThinking;
        }
        if code == KeyCode::F(7) {
            if ctx.has_stats {
                return KeyAction::OpenStats;
            }
            self.flash_warn(String::from_str("no stats yet"));
            return KeyAction::NoStats;
        }
        if code == KeyCode::F(8) {
            if ctx.online {
                self.flash(String::from_str("compacting…"));
                return KeyAction::Send(AgentCommand::Compact);
            }
            return KeyAction::Nothing;
        }
        if code == KeyCode::F(9) {
            let next = !match self.session.auto_compaction {
                Some(x) => x,
                None => true,
            };
            self.session.auto_compaction = Some(next);
            self.flash(concat2("auto-compact ", on_off(next)));
            return if ctx.online {
                KeyAction::Send(AgentCommand::SetAutoCompaction(next))
            } else {
                KeyAction::Toggled
            };
        }
        if code == KeyCode::F(10) {
            let next = !match self.session.auto_retry {
                Some(x) => x,
                None => true,
            };
            self.session.auto_retry = Some(next);
            self.flash(concat2("auto-retry ", on_off(next)));
            return if ctx.online {
                KeyAction::Send(AgentCommand::SetAutoRetry(next))
            } else {
                KeyAction::Toggled
            };
        }
        if code == KeyCode::Char('?') {
            return KeyAction::OpenHelp;
        }
        if code == KeyCode::Char('r') && ctrl {
            return KeyAction::OpenHistory;
        }
        if code == KeyCode::Char('s') && ctrl {
            return KeyAction::Export;
        }
        if code == KeyCode::Up && bare {
            return KeyAction::HistoryPrev;
        }
        if code == KeyCode::Down && bare {
            return KeyAction::HistoryNext;
        }
        if code == KeyCode::Char('/') && bare && ctx.composer_empty {
            return KeyAction::OpenSlashCommands;
        }
        if code == KeyCode::Esc {
            if self.prefs.vim_enabled && !ctx.composer_normal && !ctx.composer_empty {
                return KeyAction::ComposerNormal;
            }
            if self.is_streaming {
                if ctx.online {
                    self.transcript.push(Entry::Warn(String::from_str("aborted")));
                    assert(self.transcript@.drop_last() =~= old(self).transcript@);
                    return KeyAction::Abort;
                }
                return KeyAction::Nothing;
            }
            if !ctx.composer_empty {
                return KeyAction::ComposerClear;
            }
            return KeyAction::Quit;
        }
        if code == KeyCode::Enter && m.shift {
            return KeyAction::InsertNewline;
        }
        if code == KeyCode::Char('j') && ctrl {
            return KeyAction::InsertNewline;
        }
        if code == KeyCode::Enter {
            return KeyAction::Submit;
        }
        if code == KeyCode::Left && bare {
            return KeyAction::CursorLeft;
        }
        if code == KeyCode::Right && bare {
            return KeyAction::CursorRight;
        }
        if code == KeyCode::Left && m.alt {
            return KeyAction::WordLeft;
        }
        if code == KeyCode::Right && m.alt {
            return KeyAction::WordRight;
        }
        if code == KeyCode::Home {
            return KeyAction::CursorHome;
        }
        if code == KeyCode::End {
            if ctx.composer_empty {
                self.scroll = None;
                return KeyAction::Repin;
            }
            return KeyAction::CursorEnd;
        }
        if code == KeyCode::Char('a') && ctrl {
            return KeyAction::CursorHome;
        }
        if code == KeyCode::Char('u') && ctrl {
            return KeyAction::KillLineBack;
        }
        if code == KeyCode::Char('k') && ctrl {
            return KeyAction::KillLineForward;
        }
        if code == KeyCode::Char('w') && ctrl {
            return KeyAction::KillWordBack;
        }
        if code == KeyCode::Backspace {
            return KeyAction::Backspace;
        }
        if code == KeyCode::Delete {
            return KeyAction::DeleteForward;
        }
        match code {
            KeyCode::Char(ch) => {
                if !m.control && !m.alt {
                    if self.prefs.vim_enabled && ctx.composer_normal {
                        return KeyAction::VimNormal(ch);
                    }
                    return KeyAction::InsertChar(ch);
                }
                KeyAction::Nothing
            },
            KeyCode::PageUp => {
                let cur = match self.scroll {
                    Some(s) => s,
                    None => u16::MAX,
                };
                self.scroll = Some(cur.saturating_sub(10));
                KeyAction::Scrolled
            },
            KeyCode::PageDown => {
                let cur = match self.scroll {
                    Some(s) => s,
                    None => 0,
                };
                self.scroll = Some(cur.saturating_add(10));
                KeyAction::Scrolled
            },
            _ => KeyAction::Nothing,
        }
    }
}

/// Typing `@` at the start of the composer or after a space or tab opens
/// the file picker; `text` is the composer text with the `@` inserted at
/// its end.
pub open spec fn opens_file_picker_spec(bytes: Seq<u8>, ch: char) -> bool {
    let before = if bytes.len() >= 1 {
        bytes.len() - 1
    } else {
        0
    };
    let at = if before >= 1 {
        before - 1
    } else {
        0
    };
    ch == '@' && (before == 0 || (at < bytes.len() && (bytes[at] == 32u8 || bytes[at] == 9u8)))
}

/// Whether inserting `ch`, giving composer text `text`, opens the file
/// picker.
pub fn opens_file_picker(text: &str, ch: char) -> (r: bool)
    ensures
        r == opens_file_picker_spec(vstd::utf8::encode_utf8(text@), ch),
{
    if ch != '@' {
        return false;
    }
    let bytes = text.as_bytes();
    let before = bytes.len().saturating_sub(1);
    if before == 0 {
        return true;
    }
    let at = before - 1;
    at < bytes.len() && (bytes[at] == 32u8 || bytes[at] == 9u8)
}

} // verus!

verus! {

/// What a key of vim's normal mode does to the composer.
#[derive(Clone, Copy, Debug, PartialEq, Eq, Structural)]
pub enum VimOp {
    Nothing,
    Left,
    Right,
    Down,
    Up,
    WordRight,
    WordLeft,
    LineStart,
    LineEnd,
    /// Enter insert mode where the cursor is.
    Insert,
    /// Step right unless at the end of the line, then insert.
    Append,
    /// Insert at the end of the line.
    AppendAtEnd,
    /// Insert at the start of the line.
    InsertAtStart,
    /// Open a new line below the cursor's and insert there.
    OpenBelow,
    /// Open a new line above the cursor's and insert there.
    OpenAbove,
    DeleteChar,
    /// Go to the first line (`gg`).
    Top,
    /// Go to the last line.
    Bottom,
    /// Delete the cursor's line (`dd`).
    DeleteLine,
}

/// The composer operation of normal-mode key `ch` with `pending` the
/// first key of an unfinished `gg` or `dd`, and the pending key after it:
/// a second `g` or `d` completes the pair, a first one waits for it, an
/// unbound key drops it, and the bound keys leave it.
pub open spec fn vim_step(ch: char, pending: Option<char>) -> (VimOp, Option<char>) {
    if ch == 'h' {
        (VimOp::Left, pending)
    } else if ch == 'l' {
        (VimOp::Right, pending)
    } else if ch == 'j' {
        (VimOp::Down, pending)
    } else if ch == 'k' {
        (VimOp::Up, pending)
    } else if ch == 'w' {
        (VimOp::WordRight, pending)
    } else if ch == 'b' {
        (VimOp::WordLeft, pending)
    } else if ch == '0' {
        (VimOp::LineStart, pending)
    } else if ch == '$' {
        (VimOp::LineEnd, pending)
    } else if ch == 'i' {
        (VimOp::Insert, pending)
    } else if ch == 'a' {
        (VimOp::Append, pending)
    } else if ch == 'A' {
        (VimOp::AppendAtEnd, pending)
    } else if ch == 'I' {
        (VimOp::InsertAtStart, pending)
    } else if ch == 'o' {
        (VimOp::OpenBelow, pending)
    } else if ch == 'O' {
        (VimOp::OpenAbove, pending)
    } else if ch == 'x' {
        (VimOp::DeleteChar, pending)
    } else if ch == 'g' {
        if pending == Some('g') {
            (VimOp::Top, None)
        } else {
            (VimOp::Nothing, Some('g'))
        }
    } else if ch == 'G' {
        (VimOp::Bottom, pending)
    } else if ch == 'd' {
        if pending == Some('d') {
            (VimOp::DeleteLine, None)
        } else {
            (VimOp::Nothing, Some('d'))
        }
    } else {
        (VimOp::Nothing, None)
    }
}

/// A key of vim's normal mode: the composer operation it stands for,
/// and the pending first key of `gg` or `dd` after it.
pub fn vim_normal(ch: char, pending: Option<char>) -> (r: (VimOp, Option<char>))
    ensures
        r == vim_step(ch, pending),
{
    match ch {
        'h' => (VimOp::Left, pending),
        'l' => (VimOp::Right, pending),
        'j' => (VimOp::Down, pending),
        'k' => (VimOp::Up, pending),
        'w' => (VimOp::WordRight, pending),
        'b' => (VimOp::WordLeft, pending),
        '0' => (VimOp::LineStart, pending),
        '$' => (VimOp::LineEnd, pending),
        'i' => (VimOp::Insert, pending),
        'a' => (VimOp::Append, pending),
        'A' => (VimOp::AppendAtEnd, pending),
        'I' => (VimOp::InsertAtStart, pending),
        'o' => (VimOp::OpenBelow, pending),
        'O' => (VimOp::OpenAbove, pending),
        'x' => (VimOp::DeleteChar, pending),
        'g' => {
            if pending == Some('g') {
                (VimOp::Top, None)
            } else {
                (VimOp::Nothing, Some('g'))
            }
        },
        'G' => (VimOp::Bottom, pending),
        'd' => {
            if pending == Some('d') {
                (VimOp::DeleteLine, None)
            } else {
                (VimOp::Nothing, Some('d'))
            }
        },
        _ => (VimOp::Nothing, None),
    }
}

/// The motion keys of vim's normal mode, whatever key is pending: `h`
/// and `l` move left and right, `j` down and `k` up, `w` and `b` a word
/// forward and back, `0` and `$` to the start and end of the line; none
/// of them touches the pending key.
pub proof fn lemma_vim_motions(pending: Option<char>)
    ensures
        vim_step('h', pending) == (VimOp::Left, pending),
        vim_step('l', pending) == (VimOp::Right, pending),
        vim_step('j', pending) == (VimOp::Down, pending),
        vim_step('k', pending) == (VimOp::Up, pending),
        vim_step('w', pending) == (VimOp::WordRight, pending),
        vim_step('b', pending) == (VimOp::WordLeft, pending),
        vim_step('0', pending) == (VimOp::LineStart, pending),
        vim_step('$', pending) == (VimOp::LineEnd, pending),
{
}

/// The keys of vim's normal mode that enter insert mode or edit, whatever
/// key is pending: `i` inserts at the cursor, `a` after it, `A` at the
/// end of the line and `I` at its start, `o` and `O` open a line below
/// and above, `x` deletes a character and `G` goes to the last line, all
/// leaving the pending key; a key bound to nothing does nothing and drops
/// it.
pub proof fn lemma_vim_edits(ch: char, pending: Option<char>)
    ensures
        vim_step('i', pending) == (VimOp::Insert, pending),
        vim_step('a', pending) == (VimOp::Append, pending),
        vim_step('A', pending) == (VimOp::AppendAtEnd, pending),
        vim_step('I', pending) == (VimOp::InsertAtStart, pending),
        vim_step('o', pending) == (VimOp::OpenBelow, pending),
        vim_step('O', pending) == (VimOp::OpenAbove, pending),
        vim_step('x', pending) == (VimOp::DeleteChar, pending),
        vim_step('G', pending) == (VimOp::Bottom, pending),
        !(ch == 'h' || ch == 'l' || ch == 'j' || ch == 'k' || ch == 'w' || ch == 'b' || ch == '0' || ch
            == '$' || ch == 'i' || ch == 'a' || ch == 'A' || ch == 'I' || ch == 'o' || ch == 'O' || ch == 'x'
            || ch == 'g' || ch == 'G' || ch == 'd') ==> vim_step(ch, pending) == (VimOp::Nothing, None::<char>),
        pending != Some('g') ==> vim_step('g', pending) == (VimOp::Nothing, Some('g')),
        pending != Some('d') ==> vim_step('d', pending) == (VimOp::Nothing, Some('d')),
        vim_step('g', Some('g')) == (VimOp::Top, None::<char>),
        vim_step('d', Some('d')) == (VimOp::DeleteLine, None::<char>),
{
}

/// Two presses in a row of `g` (or `d`), the first not already pending,
/// make `gg` (or `dd`) and clear the pending key.
pub proof fn lemma_double_press(first: char, pending: Option<char>)
    requires
        first == 'g' || first == 'd',
        pending != Some(first),
    ensures
        vim_step(first, vim_step(first, pending).1) == (
            if first == 'g' {
                VimOp::Top
            } else {
                VimOp::DeleteLine
            },
            None::<char>,
        ),
{
}

} // verus!

verus! {

/// Pasted text as the composer takes it: line breaks become spaces.
pub open spec fn pasted(t: Seq<char>) -> Seq<char> {
    t.map_values(|c: char| if c == '\n' || c == '\r' { ' ' } else { c })
}

/// The text a paste types into the composer, one line: every newline and
/// carriage return becomes a space.
pub fn flatten_paste(text: &str) -> (r: String)
    ensures
        r@ == pasted(text@),
{
    let mut out = String::new();
    proof {
        broadcast use vstd::string::axiom_spec_iter;

    }
    for c in it: text.chars()
        invariant
            it.seq() == text@,
            out@ == pasted(text@.take(it.index())),
    {
        let d = if c == '\n' || c == '\r' {
            ' '
        } else {
            c
        };
        let one = crate::text::char_to_string(d);
        let ghost before = out@;
        out.append(one.as_str());
        proof {
            assert(pasted(text@.take(it.index() + 1)) =~= before.push(d));
        }
    }
    proof {
        assert(text@.take(text@.len() as int) =~= text@);
    }
    out
}

} // verus!
