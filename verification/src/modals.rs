//! Key handling of the modal dialogs: list pickers, scrollable viewers,
//! the git log, the thinking picker and the extension dialogs.

use vstd::prelude::*;
use vstd::string::*;

use crate::keys::{KeyCode, KeyModifiers};
use crate::text::char_to_string;

verus! {

/// `t` without its last character (unchanged when empty).
pub open spec fn popped(t: Seq<char>) -> Seq<char> {
    if t.len() > 0 {
        t.drop_last()
    } else {
        t
    }
}

/// Remove the last character of `s`, as `String::pop` does.
fn pop_char(s: &mut String)
    ensures
        final(s)@ == popped(old(s)@),
{
    let n = s.unicode_len();
    if n > 0 {
        let kept = String::from_str(s.as_str().substring_char(0, n - 1));
        *s = kept;
    }
}

/// Append character `c` to `s`.
fn push_char(s: &mut String, c: char)
    ensures
        final(s)@ == old(s)@.push(c),
{
    let one = char_to_string(c);
    s.append(one.as_str());
}

/// What the shared list keys do to the filter `query` and the selection
/// `sel` among `count` visible items, and whether the key was theirs.
pub open spec fn list_key_effect(query: Seq<char>, sel: int, code: KeyCode, count: int) -> (
    Seq<char>,
    int,
    bool,
) {
    match code {
        KeyCode::Up => (query, if sel > 0 { sel - 1 } else { sel }, true),
        KeyCode::Down => (query, if count > 0 && sel + 1 < count { sel + 1 } else { sel }, true),
        KeyCode::Char(ch) => (query.push(ch), 0, true),
        KeyCode::Backspace => (popped(query), 0, true),
        _ => (query, sel, false),
    }
}

/// The keys every filterable list shares: ↑/↓ move the selection within
/// the visible items, typing extends the filter and Backspace shortens
/// it, both resetting the selection. Returns whether the key was handled.
pub fn handle_list_keys(query: &mut String, selected: &mut usize, code: KeyCode, visible_count: usize) -> (r:
    bool)
    ensures
        ({
            let e = list_key_effect(old(query)@, *old(selected) as int, code, visible_count as int);
            final(query)@ == e.0 && *final(selected) as int == e.1 && r == e.2
        }),
{
    match code {
        KeyCode::Up => {
            if *selected > 0 {
                *selected -= 1;
            }
            true
        },
        KeyCode::Down => {
            if visible_count > 0 && *selected < visible_count - 1 {
                *selected += 1;
            }
            true
        },
        KeyCode::Char(ch) => {
            push_char(query, ch);
            *selected = 0;
            true
        },
        KeyCode::Backspace => {
            pop_char(query);
            *selected = 0;
            true
        },
        _ => false,
    }
}

/// Read-only viewers close on Esc, Enter or `q`.
pub fn viewer_dismiss_key(code: KeyCode) -> (close: bool)
    ensures
        close == (code is Esc || code is Enter || code == KeyCode::Char('q')),
{
    match code {
        KeyCode::Esc | KeyCode::Enter | KeyCode::Char('q') => true,
        _ => false,
    }
}

/// What a key does to the scroll offset of a scrollable viewer (the diff
/// and the shortcuts), and whether it closes the viewer.
pub open spec fn viewer_scroll_effect(scroll: u16, code: KeyCode) -> (u16, bool) {
    match code {
        KeyCode::Esc | KeyCode::Char('q') => (scroll, true),
        KeyCode::Char('j') | KeyCode::Down => (scroll.saturating_add(1), false),
        KeyCode::Char('k') | KeyCode::Up => (scroll.saturating_sub(1), false),
        KeyCode::PageDown => (scroll.saturating_add(10), false),
        KeyCode::PageUp => (scroll.saturating_sub(10), false),
        KeyCode::Home | KeyCode::Char('g') => (0, false),
        KeyCode::End | KeyCode::Char('G') => (u16::MAX, false),
        _ => (scroll, false),
    }
}

/// A key in a scrollable viewer: j/k and the arrows scroll a line, the
/// page keys ten, g/G and Home/End jump to either end; Esc or `q` close.
pub fn viewer_scroll_key(scroll: &mut u16, code: KeyCode) -> (close: bool)
    ensures
        (*final(scroll), close) == viewer_scroll_effect(*old(scroll), code),
{
    match code {
        KeyCode::Esc | KeyCode::Char('q') => true,
        KeyCode::Char('j') | KeyCode::Down => {
            *scroll = scroll.saturating_add(1);
            false
        },
        KeyCode::Char('k') | KeyCode::Up => {
            *scroll = scroll.saturating_sub(1);
            false
        },
        KeyCode::PageDown => {
            *scroll = scroll.saturating_add(10);
            false
        },
        KeyCode::PageUp => {
            *scroll = scroll.saturating_sub(10);
            false
        },
        KeyCode::Home | KeyCode::Char('g') => {
            *scroll = 0;
            false
        },
        KeyCode::End | KeyCode::Char('G') => {
            *scroll = u16::MAX;
            false
        },
        _ => false,
    }
}

/// `sel + step`, kept at most at the last of `n > 0` items.
pub open spec fn forward_clamped(sel: int, step: int, n: int) -> int {
    if sel + step < n - 1 {
        sel + step
    } else {
        n - 1
    }
}

/// What a key does to the selection among `n` commits of the git log,
/// and whether it closes the log.
pub open spec fn git_log_effect(sel: int, n: int, code: KeyCode) -> (int, bool) {
    match code {
        KeyCode::Esc => (sel, true),
        KeyCode::Char('j') | KeyCode::Down => (if n > 0 { forward_clamped(sel, 1, n) } else { sel }, false),
        KeyCode::Char('k') | KeyCode::Up => (if sel >= 1 { sel - 1 } else { 0 }, false),
        KeyCode::PageDown => (if n > 0 { forward_clamped(sel, 10, n) } else { sel }, false),
        KeyCode::PageUp => (if sel >= 10 { sel - 10 } else { 0 }, false),
        KeyCode::Home | KeyCode::Char('g') => (0, false),
        KeyCode::End | KeyCode::Char('G') => (if n > 0 { n - 1 } else { sel }, false),
        _ => (sel, false),
    }
}

/// A key in the git log: j/k and the arrows move one commit, the page
/// keys ten, g/G and Home/End jump to either end; Esc closes.
pub fn git_log_key(selected: &mut usize, n: usize, code: KeyCode) -> (close: bool)
    ensures
        (*final(selected) as int, close) == git_log_effect(*old(selected) as int, n as int, code),
{
    match code {
        KeyCode::Esc => true,
        KeyCode::Char('j') | KeyCode::Down => {
            if n > 0 {
                *selected = if *selected < n - 1 {
                    *selected + 1
                } else {
                    n - 1
                };
            }
            false
        },
        KeyCode::Char('k') | KeyCode::Up => {
            *selected = selected.saturating_sub(1);
            false
        },
        KeyCode::PageDown => {
            if n > 0 {
                *selected = if n - 1 >= 10 && *selected < n - 1 - 10 {
                    *selected + 10
                } else {
                    n - 1
                };
            }
            false
        },
        KeyCode::PageUp => {
            *selected = selected.saturating_sub(10);
            false
        },
        KeyCode::Home | KeyCode::Char('g') => {
            *selected = 0;
            false
        },
        KeyCode::End | KeyCode::Char('G') => {
            if n > 0 {
                *selected = n - 1;
            }
            false
        },
        _ => false,
    }
}

/// What a pick-one dialog asks of the host after a key.
#[derive(Clone, Copy, Debug, PartialEq, Eq, Structural)]
pub enum PickOutcome {
    Nothing,
    /// Close the dialog without a choice.
    Cancel,
    /// Close the dialog with option `i` chosen.
    Choose(usize),
}

/// What a key does to the selection of a pick-one dialog of `n` options,
/// and what the dialog asks of the host.
pub open spec fn pick_effect(sel: usize, n: usize, code: KeyCode) -> (usize, PickOutcome) {
    (
        match code {
            KeyCode::Up => if sel > 0 {
                (sel - 1) as usize
            } else {
                sel
            },
            KeyCode::Down => if sel + 1 < n {
                (sel + 1) as usize
            } else {
                sel
            },
            _ => sel,
        },
        match code {
            KeyCode::Enter => PickOutcome::Choose(sel),
            KeyCode::Esc => PickOutcome::Cancel,
            _ => PickOutcome::Nothing,
        },
    )
}

/// A key in a pick-one dialog of `n` options (the thinking-level picker,
/// an extension's select): ↑/↓ move within the options, Enter chooses the
/// selected one, Esc cancels.
pub fn pick_key(selected: &mut usize, n: usize, code: KeyCode) -> (r: PickOutcome)
    ensures
        (*final(selected), r) == pick_effect(*old(selected), n, code),
{
    match code {
        KeyCode::Up => {
            if *selected > 0 {
                *selected -= 1;
            }
            PickOutcome::Nothing
        },
        KeyCode::Down => {
            if n > 0 && *selected < n - 1 {
                *selected += 1;
            }
            PickOutcome::Nothing
        },
        KeyCode::Enter => PickOutcome::Choose(*selected),
        KeyCode::Esc => PickOutcome::Cancel,
        _ => PickOutcome::Nothing,
    }
}

/// What a yes/no dialog asks of the host after a key.
#[derive(Clone, Copy, Debug, PartialEq, Eq, Structural)]
pub enum ConfirmOutcome {
    Nothing,
    /// Close the dialog without an answer.
    Cancel,
    /// Close the dialog with this answer.
    Answer(bool),
}

/// What a key does to the selection (0 no, 1 yes) of a yes/no dialog,
/// and what the dialog asks of the host.
pub open spec fn confirm_effect(sel: usize, code: KeyCode) -> (usize, ConfirmOutcome) {
    (
        match code {
            KeyCode::Left | KeyCode::Right | KeyCode::Tab => (1 - sel) as usize,
            _ => sel,
        },
        match code {
            KeyCode::Char('y') | KeyCode::Char('Y') => ConfirmOutcome::Answer(true),
            KeyCode::Char('n') | KeyCode::Char('N') => ConfirmOutcome::Answer(false),
            KeyCode::Enter => ConfirmOutcome::Answer(sel == 1),
            KeyCode::Esc => ConfirmOutcome::Cancel,
            _ => ConfirmOutcome::Nothing,
        },
    )
}

/// A key in an extension's yes/no dialog, whose selection is 0 (no) or
/// 1 (yes): ←, → and Tab flip it, y and n answer directly, Enter answers
/// with the selection, Esc cancels.
pub fn confirm_key(selected: &mut usize, code: KeyCode) -> (r: ConfirmOutcome)
    requires
        *old(selected) <= 1,
    ensures
        (*final(selected), r) == confirm_effect(*old(selected), code),
{
    match code {
        KeyCode::Left | KeyCode::Right | KeyCode::Tab => {
            *selected = 1 - *selected;
            ConfirmOutcome::Nothing
        },
        KeyCode::Char('y') | KeyCode::Char('Y') => ConfirmOutcome::Answer(true),
        KeyCode::Char('n') | KeyCode::Char('N') => ConfirmOutcome::Answer(false),
        KeyCode::Enter => ConfirmOutcome::Answer(*selected == 1),
        KeyCode::Esc => ConfirmOutcome::Cancel,
        _ => ConfirmOutcome::Nothing,
    }
}

/// What a text-entry dialog asks of the host after a key.
pub enum InputOutcome {
    Nothing,
    /// Close the dialog without a value.
    Cancel,
    /// Close the dialog with this value.
    Submit(String),
}

/// The effect of a key on the value `v` of a text-entry dialog: the
/// value becomes `w` and the dialog asks `r` of the host.
pub open spec fn input_effect(v: Seq<char>, code: KeyCode, w: Seq<char>, r: InputOutcome) -> bool {
    match code {
        KeyCode::Char(ch) => w == v.push(ch) && r is Nothing,
        KeyCode::Backspace => w == popped(v) && r is Nothing,
        KeyCode::Enter => w == Seq::<char>::empty() && (r matches InputOutcome::Submit(x) && x@ == v),
        KeyCode::Esc => w == v && r is Cancel,
        _ => w == v && r is Nothing,
    }
}

/// A key in an extension's text-entry dialog: typing appends, Backspace
/// removes the last character, Enter submits the value (leaving the
/// field empty), Esc cancels.
pub fn input_key(value: &mut String, code: KeyCode) -> (r: InputOutcome)
    ensures
        input_effect(old(value)@, code, final(value)@, r),
{
    match code {
        KeyCode::Char(ch) => {
            push_char(value, ch);
            InputOutcome::Nothing
        },
        KeyCode::Backspace => {
            pop_char(value);
            InputOutcome::Nothing
        },
        KeyCode::Enter => {
            let v = value.clone();
            *value = String::new();
            InputOutcome::Submit(v)
        },
        KeyCode::Esc => InputOutcome::Cancel,
        _ => InputOutcome::Nothing,
    }
}

} // verus!

verus! {

use crate::app::{App, keeps_run, keeps_tools, keeps_turn, keeps_queues};
use crate::editor::{edit_text, text_key_effect};
use crate::text::{blen, boundary, byte_len, trim, trimmed};
use crate::transcript::{Transcript, search_hits, transcript_hits};

/// The open transcript search: the query being typed and its cursor (a
/// byte offset), the matching entries, and the current match.
pub struct SearchState {
    pub query: String,
    pub query_cursor: usize,
    pub hits: Vec<usize>,
    pub hit_idx: usize,
}

impl SearchState {
    /// The cursor sits on a character boundary of the query, and the
    /// current match is one of the matches when there are any.
    pub open spec fn wf(&self) -> bool {
        &&& boundary(self.query@, self.query_cursor as int)
        &&& self.hits@.len() > 0 ==> self.hit_idx < self.hits@.len()
    }
}

/// Open the transcript search for `arg` (trimmed), its cursor at the end
/// of the query and the last match current.
pub fn open_search(t: &Transcript, arg: &str) -> (s: SearchState)
    ensures
        s.query@ == trimmed(arg@),
        s.query_cursor == blen(s.query@),
        s.hits@ == search_hits(t@, s.query@),
        s.hit_idx == (if s.hits@.len() > 0 {
            s.hits@.len() - 1
        } else {
            0
        }),
        s.wf(),
{
    let q = trim(arg);
    let query = String::from_str(q);
    let hits = transcript_hits(t, query.as_str());
    let hit_idx = if hits.len() > 0 {
        hits.len() - 1
    } else {
        0
    };
    let query_cursor = byte_len(query.as_str());
    proof {
        vstd::utf8::encode_utf8_valid_utf8(query@);
        vstd::utf8::is_char_boundary_start_end_of_seq(vstd::utf8::encode_utf8(query@));
    }
    SearchState { query, query_cursor, hits, hit_idx }
}

/// The key moves to the next match.
pub open spec fn search_next_key(code: KeyCode, mods: KeyModifiers) -> bool {
    (code == KeyCode::Char('n') || code is Down || code is Tab) && !mods.control && !mods.alt
}

/// The key moves to the previous match.
pub open spec fn search_prev_key(code: KeyCode, mods: KeyModifiers) -> bool {
    (code == KeyCode::Char('N') || code is Up || code is BackTab) && !mods.control && !mods.alt
}

/// The key edits the query or moves its cursor.
pub open spec fn search_edit_key(code: KeyCode, mods: KeyModifiers) -> bool {
    code is Backspace || code is Delete || code is Left || code is Right || code is Home
        || code is End || (code is Char && !mods.control && !mods.alt)
}

/// The key changes the query text at cursor `c`.
pub open spec fn search_changes_query(q: Seq<char>, c: int, code: KeyCode) -> bool {
    (code is Backspace && c > 0) || (code is Delete && c < blen(q)) || code is Char
}

/// The match after match `h` of `n`, wrapping to the first.
pub open spec fn next_hit(h: int, n: int) -> int {
    (h + 1) % n
}

/// The match before match `h` of `n`, wrapping to the last.
pub open spec fn prev_hit(h: int, n: int) -> int {
    if h == 0 {
        n - 1
    } else {
        h - 1
    }
}

/// Going to the next match and back to the previous one returns to the
/// match one started from.
pub proof fn lemma_prev_undoes_next(h: int, n: int)
    requires
        0 <= h < n,
    ensures
        prev_hit(next_hit(h, n), n) == h,
        next_hit(prev_hit(h, n), n) == h,
{
    if h + 1 < n {
        vstd::arithmetic::div_mod::lemma_small_mod((h + 1) as nat, n as nat);
    } else {
        vstd::arithmetic::div_mod::lemma_fundamental_div_mod_converse(h + 1, n, 1, 0);
    }
    if h == 0 {
        vstd::arithmetic::div_mod::lemma_fundamental_div_mod_converse(n, n, 1, 0);
    } else {
        vstd::arithmetic::div_mod::lemma_small_mod(h as nat, n as nat);
    }
}

/// No search key touches anything of the state but the focus and scroll.
pub open spec fn keeps_all_but_view(a: App, b: App) -> bool {
    &&& b.transcript == a.transcript && b.status == a.status
    &&& keeps_run(a, b) && keeps_tools(a, b) && keeps_turn(a, b) && keeps_queues(a, b)
    &&& b.notify_enabled == a.notify_enabled && b.flash == a.flash
    &&& b.session == a.session && b.prefs == a.prefs
}

/// The effect of a key in the transcript search on the app (`a` to `b`)
/// and on the search (`s` to `t`), and whether the search closes.
pub open spec fn search_effect(
    a: App,
    b: App,
    s: SearchState,
    t: SearchState,
    code: KeyCode,
    mods: KeyModifiers,
    close: bool,
) -> bool {
    &&& keeps_all_but_view(a, b)
    &&& {
        let n = s.hits@.len();
        if code is Esc {
            close && t == s && b.focus_idx == a.focus_idx && b.scroll == a.scroll
        } else if code is Enter {
            &&& close && t == s
            &&& if s.hit_idx < n {
                b.focus_idx == Some(s.hits@[s.hit_idx as int]) && b.scroll is None
            } else {
                b.focus_idx == a.focus_idx && b.scroll == a.scroll
            }
        } else if n > 0 && search_next_key(code, mods) {
            &&& !close && b.focus_idx == a.focus_idx && b.scroll == a.scroll
            &&& t.query == s.query && t.query_cursor == s.query_cursor && t.hits == s.hits
            &&& t.hit_idx == next_hit(s.hit_idx as int, n as int)
        } else if n > 0 && search_prev_key(code, mods) {
            &&& !close && b.focus_idx == a.focus_idx && b.scroll == a.scroll
            &&& t.query == s.query && t.query_cursor == s.query_cursor && t.hits == s.hits
            &&& t.hit_idx == prev_hit(s.hit_idx as int, n as int)
        } else if search_edit_key(code, mods) {
            &&& !close && b.focus_idx == a.focus_idx && b.scroll == a.scroll
            &&& text_key_effect(
                s.query@,
                s.query_cursor as int,
                false,
                code,
                KeyModifiers { shift: false, control: false, alt: false, other: false },
                t.query@,
                t.query_cursor as int,
            )
            &&& if search_changes_query(s.query@, s.query_cursor as int, code) {
                &&& t.hits@ == search_hits(a.transcript@, t.query@)
                &&& t.hit_idx == (if s.hit_idx >= t.hits@.len() {
                    if t.hits@.len() > 0 {
                        t.hits@.len() - 1
                    } else {
                        0
                    }
                } else {
                    s.hit_idx as int
                })
            } else {
                t.hits == s.hits && t.hit_idx == s.hit_idx
            }
        } else {
            !close && t == s && b.focus_idx == a.focus_idx && b.scroll == a.scroll
        }
    }
}

/// Editing the search query keeps the matches current: after a key that
/// changes the query (and is not taken as a move between matches), the
/// matches are those of the new query over the same transcript, the
/// current match is one of them when there are any (the first place
/// otherwise), the focus stays, and the search stays open.
pub proof fn lemma_search_edit_keeps_hits(
    a: App,
    b: App,
    s: SearchState,
    t: SearchState,
    code: KeyCode,
    mods: KeyModifiers,
    close: bool,
)
    requires
        search_effect(a, b, s, t, code, mods, close),
        search_edit_key(code, mods),
        search_changes_query(s.query@, s.query_cursor as int, code),
        !(s.hits@.len() > 0 && (search_next_key(code, mods) || search_prev_key(code, mods))),
    ensures
        t.hits@ == search_hits(b.transcript@, t.query@),
        t.hits@.len() == 0 ==> t.hit_idx == 0,
        t.hits@.len() > 0 ==> t.hit_idx < t.hits@.len(),
        b.transcript == a.transcript,
        b.focus_idx == a.focus_idx,
        !close,
{
}

impl App {
    /// A key in the transcript search. Esc closes it; Enter closes it and
    /// focuses the current match (re-pinning the view); n, ↓ and Tab go to
    /// the next match and N, ↑ and BackTab to the previous one, wrapping,
    /// when there are matches; the editing keys edit the query, and a
    /// changed query finds its matches anew, keeping the current match in
    /// range. Returns whether the search closes.
    pub fn search_key(&mut self, state: &mut SearchState, code: KeyCode, mods: KeyModifiers) -> (close:
        bool)
        requires
            old(state).wf(),
            blen(old(state).query@) + 4 <= usize::MAX,
        ensures
            final(state).wf(),
            search_effect(*old(self), *final(self), *old(state), *final(state), code, mods, close),
    {
        match code {
            KeyCode::Esc => {
                return true;
            },
            KeyCode::Enter => {
                if state.hit_idx < state.hits.len() {
                    self.focus_idx = Some(state.hits[state.hit_idx]);
                    self.scroll = None;
                }
                return true;
            },
            _ => {},
        }
        let plain = !mods.control && !mods.alt;
        let n = state.hits.len();
        let next = match code {
            KeyCode::Char('n') | KeyCode::Down | KeyCode::Tab => true,
            _ => false,
        };
        let prev = match code {
            KeyCode::Char('N') | KeyCode::Up | KeyCode::BackTab => true,
            _ => false,
        };
        if n > 0 && plain && next {
            state.hit_idx = (state.hit_idx + 1) % n;
            return false;
        }
        if n > 0 && plain && prev {
            state.hit_idx = if state.hit_idx == 0 {
                n - 1
            } else {
                state.hit_idx - 1
            };
            return false;
        }
        let edit = match code {
            KeyCode::Backspace | KeyCode::Delete | KeyCode::Left | KeyCode::Right | KeyCode::Home
            | KeyCode::End => true,
            KeyCode::Char(_) => plain,
            _ => false,
        };
        if edit {
            let (v, c2) = edit_text(
                state.query.as_str(),
                state.query_cursor,
                false,
                code,
                KeyModifiers::none(),
            );
            match v {
                Some(v) => {
                    state.query = v;
                    state.query_cursor = c2;
                    state.hits = transcript_hits(&self.transcript, state.query.as_str());
                    if state.hit_idx >= state.hits.len() {
                        state.hit_idx = state.hits.len().saturating_sub(1);
                    }
                },
                None => {
                    state.query_cursor = c2;
                },
            }
        }
        false
    }
}

} // verus!

verus! {

use crate::tools::{debug_quote, debug_quoted};
use crate::helpers::concat3;
use crate::settings::flashed;
use crate::status::FlashKind;

/// A stored composer template.
pub struct Template {
    pub name: String,
    pub body: String,
}

/// What the template picker asks of the host after a key.
pub enum TemplateOutcome {
    Nothing,
    /// Close the picker.
    Close,
    /// Load this body into the composer and close the picker.
    Load(String),
    /// Delete the stored template of this name, and close the picker when
    /// `close` (no template is left).
    Delete { name: String, close: bool },
}

/// The effect of a key in the template picker on the app (`a` to `b`),
/// the templates (`xs` to `ys`) and the selection (`s` to `t`), and
/// what the picker asks of the host.
pub open spec fn template_effect(
    a: App,
    b: App,
    xs: Seq<Template>,
    s: int,
    ys: Seq<Template>,
    t: int,
    code: KeyCode,
    r: TemplateOutcome,
) -> bool {
    &&& crate::app::keeps_core(a, b)
    &&& b.status == a.status && b.focus_idx == a.focus_idx && b.scroll == a.scroll
    &&& {
        let n = xs.len();
        let now = a.status.ticks;
        match code {
            KeyCode::Esc => r is Close && ys == xs && t == s
                && b.flash == a.flash,
            KeyCode::Char('j') | KeyCode::Down => r is Nothing && ys == xs
                && t == (if n > 0 {
                forward_clamped(s, 1, n as int)
            } else {
                s
            }) && b.flash == a.flash,
            KeyCode::Char('k') | KeyCode::Up => r is Nothing && ys == xs
                && t == (if s >= 1 {
                s - 1
            } else {
                0
            }) && b.flash == a.flash,
            KeyCode::Home | KeyCode::Char('g') => r is Nothing && ys == xs
                && t == 0 && b.flash == a.flash,
            KeyCode::End | KeyCode::Char('G') => r is Nothing && ys == xs
                && t == (if n > 0 {
                n - 1
            } else {
                0
            }) && b.flash == a.flash,
            KeyCode::Enter => if s < n {
                &&& ys == xs && t == s
                &&& r matches TemplateOutcome::Load(body) && body@ == xs[s].body@
                &&& flashed(
                    b.flash,
                    "loaded template "@ + debug_quoted(xs[s].name@),
                    now,
                    FlashKind::Success,
                )
            } else {
                r is Nothing && ys == xs && t == s
                    && b.flash == a.flash
            },
            KeyCode::Char('d') | KeyCode::Delete => if s < n {
                let rest = xs.remove(s);
                &&& ys == rest
                &&& t == (if s >= rest.len() && rest.len() > 0 {
                    rest.len() - 1
                } else {
                    s
                })
                &&& r matches TemplateOutcome::Delete { name, close } && name@ == xs[s].name@
                    && close == (rest.len() == 0)
                &&& if rest.len() == 0 {
                    flashed(
                        b.flash,
                        "deleted "@ + debug_quoted(xs[s].name@) + " — no templates left"@,
                        now,
                        FlashKind::Info,
                    )
                } else {
                    flashed(
                        b.flash,
                        "deleted template "@ + debug_quoted(xs[s].name@),
                        now,
                        FlashKind::Success,
                    )
                }
            } else {
                r is Nothing && ys == xs && t == s
                    && b.flash == a.flash
            },
            _ => r is Nothing && ys == xs && t == s
                && b.flash == a.flash,
        }
    }
}

impl App {
    /// A key in the template picker: j/k and the arrows move, g/G and
    /// Home/End jump to either end, Enter loads the selected template
    /// (with a success flash), d or Delete removes it from the list and
    /// asks the host to delete it (closing the picker when none is left),
    /// Esc closes.
    pub fn template_key(&mut self, items: &mut Vec<Template>, selected: &mut usize, code: KeyCode) -> (r:
        TemplateOutcome)
        ensures
            template_effect(
                *old(self),
                *final(self),
                old(items)@,
                *old(selected) as int,
                final(items)@,
                *final(selected) as int,
                code,
                r,
            ),
    {
        let n = items.len();
        match code {
            KeyCode::Esc => TemplateOutcome::Close,
            KeyCode::Char('j') | KeyCode::Down => {
                if n > 0 {
                    *selected = if *selected < n - 1 {
                        *selected + 1
                    } else {
                        n - 1
                    };
                }
                TemplateOutcome::Nothing
            },
            KeyCode::Char('k') | KeyCode::Up => {
                *selected = selected.saturating_sub(1);
                TemplateOutcome::Nothing
            },
            KeyCode::Home | KeyCode::Char('g') => {
                *selected = 0;
                TemplateOutcome::Nothing
            },
            KeyCode::End | KeyCode::Char('G') => {
                *selected = n.saturating_sub(1);
                TemplateOutcome::Nothing
            },
            KeyCode::Enter => {
                if *selected < n {
                    let body = items[*selected].body.clone();
                    let quoted = debug_quote(items[*selected].name.as_str());
                    self.flash_success(crate::helpers::concat2("loaded template ", quoted.as_str()));
                    TemplateOutcome::Load(body)
                } else {
                    TemplateOutcome::Nothing
                }
            },
            KeyCode::Char('d') | KeyCode::Delete => {
                if *selected < n {
                    let t = items.remove(*selected);
                    let quoted = debug_quote(t.name.as_str());
                    let left = items.len();
                    if *selected >= left && left > 0 {
                        *selected = left - 1;
                    }
                    if left == 0 {
                        self.flash_info(concat3("deleted ", quoted.as_str(), " — no templates left"));
                    } else {
                        self.flash_success(crate::helpers::concat2("deleted template ", quoted.as_str()));
                    }
                    TemplateOutcome::Delete { name: t.name, close: left == 0 }
                } else {
                    TemplateOutcome::Nothing
                }
            },
            _ => TemplateOutcome::Nothing,
        }
    }
}

} // verus!

verus! {

/// The two faces of the plan review dialog.
#[derive(Clone, Copy, Debug, PartialEq, Eq, Structural)]
pub enum PlanReviewMode {
    /// The Accept / Edit / Deny chips.
    Review,
    /// The step list, editable.
    Edit,
}

/// A step being rewritten in place: its index, the text so far and the
/// cursor (a byte offset) in it.
pub struct EditingStep {
    pub index: usize,
    pub buffer: String,
    pub cursor: usize,
}

/// The plan review dialog: the proposed steps, the focused chip or step,
/// the scroll offset, the face shown, a step being rewritten, and whether
/// an accepted plan runs its steps on its own.
pub struct PlanReviewState {
    pub items: Vec<String>,
    pub selected: usize,
    pub scroll: u16,
    pub mode: PlanReviewMode,
    pub editing: Option<EditingStep>,
    pub auto_run_pref: bool,
}

impl PlanReviewState {
    /// A step being rewritten has its cursor on a character boundary.
    pub open spec fn wf(&self) -> bool {
        match self.editing {
            Some(e) => boundary(e.buffer@, e.cursor as int),
            None => true,
        }
    }
}

/// What the plan review asks of the host after a key.
#[derive(Clone, Copy, Debug, PartialEq, Eq, Structural)]
pub enum ReviewOutcome {
    Nothing,
    /// Close the dialog and accept the proposal.
    Accept,
    /// Close the dialog and reject the proposal.
    Deny,
    /// Store the edited steps and the auto-run choice in the proposal,
    /// close the dialog and accept it.
    AcceptEdited,
    /// Store the auto-run choice in the proposal.
    SyncAutoRun,
    /// Store the edited steps in the proposal.
    SyncItems,
}

/// `s` and `t` agree on everything but the fields named after.
pub open spec fn same_review(s: PlanReviewState, t: PlanReviewState) -> bool {
    t.items@ == s.items@ && t.selected == s.selected && t.scroll == s.scroll && t.mode == s.mode
        && t.editing == s.editing && t.auto_run_pref == s.auto_run_pref
}

/// The effect of a key in review mode (no step being rewritten).
pub open spec fn review_face_effect(s: PlanReviewState, t: PlanReviewState, code: KeyCode, r: ReviewOutcome) -> bool {
    let keep = t.items@ == s.items@ && t.editing == s.editing;
    match code {
        KeyCode::Char('a') | KeyCode::Char('A') => r is Accept && same_review(s, t),
        KeyCode::Char('d') | KeyCode::Char('D') | KeyCode::Esc => r is Deny && same_review(s, t),
        KeyCode::Char('e') | KeyCode::Char('E') => {
            &&& r is Nothing && keep && t.mode == PlanReviewMode::Edit && t.selected == 0
            &&& t.scroll == s.scroll && t.auto_run_pref == s.auto_run_pref
        },
        KeyCode::Char('t') | KeyCode::Char('T') => {
            &&& r is SyncAutoRun && keep && t.auto_run_pref == !s.auto_run_pref
            &&& t.mode == s.mode && t.selected == s.selected && t.scroll == s.scroll
        },
        KeyCode::Enter => if s.selected == 0 {
            r is Accept && same_review(s, t)
        } else if s.selected == 1 {
            &&& r is Nothing && keep && t.mode == PlanReviewMode::Edit && t.selected == 0
            &&& t.scroll == s.scroll && t.auto_run_pref == s.auto_run_pref
        } else {
            r is Deny && same_review(s, t)
        },
        _ => {
            &&& r is Nothing && keep && t.mode == s.mode && t.auto_run_pref == s.auto_run_pref
            &&& t.selected == match code {
                KeyCode::Left | KeyCode::Char('h') => if s.selected >= 1 {
                    (s.selected - 1) as usize
                } else {
                    0
                },
                KeyCode::Right | KeyCode::Char('l') => if s.selected < 2 {
                    (s.selected + 1) as usize
                } else {
                    2
                },
                _ => s.selected,
            }
            &&& t.scroll == match code {
                KeyCode::PageDown => s.scroll.saturating_add(10),
                KeyCode::PageUp => s.scroll.saturating_sub(10),
                KeyCode::Home | KeyCode::Char('g') => 0,
                KeyCode::End | KeyCode::Char('G') => u16::MAX,
                KeyCode::Down | KeyCode::Char('j') => s.scroll.saturating_add(1),
                KeyCode::Up | KeyCode::Char('k') => s.scroll.saturating_sub(1),
                _ => s.scroll,
            }
        },
    }
}

/// The effect of a key in edit mode (no step being rewritten).
pub open spec fn edit_face_effect(
    s: PlanReviewState,
    t: PlanReviewState,
    code: KeyCode,
    mods: KeyModifiers,
    r: ReviewOutcome,
) -> bool {
    let n = s.items@.len() as int;
    let sel = s.selected as int;
    if code is Esc {
        &&& r is Nothing && t.mode == PlanReviewMode::Review && t.selected == 1
        &&& t.items@ == s.items@ && t.editing == s.editing && t.scroll == s.scroll
        &&& t.auto_run_pref == s.auto_run_pref
    } else if (code == KeyCode::Char('s') || code == KeyCode::Char('S')) && mods.control {
        r is AcceptEdited && same_review(s, t)
    } else {
        &&& t.mode == s.mode && t.scroll == s.scroll
        &&& match code {
            KeyCode::Down | KeyCode::Char('j') => {
                &&& r is Nothing && t.items@ == s.items@ && t.editing == s.editing
                &&& t.auto_run_pref == s.auto_run_pref
                &&& t.selected as int == if n > 0 {
                    forward_clamped(sel, 1, n)
                } else {
                    sel
                }
            },
            KeyCode::Up | KeyCode::Char('k') => {
                &&& r is Nothing && t.items@ == s.items@ && t.editing == s.editing
                &&& t.auto_run_pref == s.auto_run_pref
                &&& t.selected as int == if sel >= 1 {
                    sel - 1
                } else {
                    0
                }
            },
            KeyCode::Enter | KeyCode::Char('i') => {
                &&& r is Nothing && t.items@ == s.items@ && t.selected == s.selected
                &&& t.auto_run_pref == s.auto_run_pref
                &&& if sel < n {
                    t.editing matches Some(e) && e.index == s.selected && e.buffer@ == s.items@[sel]@
                        && e.cursor as int == blen(s.items@[sel]@)
                } else {
                    t.editing == s.editing
                }
            },
            KeyCode::Char('a') => {
                let at = if sel + 1 < n {
                    sel + 1
                } else {
                    n
                };
                &&& r is SyncItems && t.auto_run_pref == s.auto_run_pref
                &&& t.items@.len() == n + 1
                &&& t.items@.take(at) == s.items@.take(at)
                &&& t.items@[at]@ == Seq::<char>::empty()
                &&& t.items@.skip(at + 1) == s.items@.skip(at)
                &&& t.selected as int == at
                &&& t.editing matches Some(e) && e.index as int == at && e.buffer@ == Seq::<char>::empty()
                    && e.cursor == 0
            },
            KeyCode::Delete | KeyCode::Char('x') => {
                &&& t.auto_run_pref == s.auto_run_pref && t.editing == s.editing
                &&& if sel < n {
                    &&& r is SyncItems
                    &&& t.items@ == s.items@.remove(sel)
                    &&& t.selected as int == if sel >= n - 1 && n - 1 > 0 {
                        n - 2
                    } else {
                        sel
                    }
                } else {
                    r is Nothing && t.items@ == s.items@ && t.selected == s.selected
                }
            },
            KeyCode::Char('t') | KeyCode::Char('T') => {
                &&& r is SyncAutoRun && t.items@ == s.items@ && t.editing == s.editing
                &&& t.selected == s.selected && t.auto_run_pref == !s.auto_run_pref
            },
            _ => r is Nothing && same_review(s, t),
        }
    }
}

/// The effect of a key while step `e` is being rewritten: Enter stores
/// the text in the step, Esc drops the rewrite, the editing keys edit it.
pub open spec fn step_edit_effect(
    s: PlanReviewState,
    t: PlanReviewState,
    e: EditingStep,
    code: KeyCode,
    mods: KeyModifiers,
    r: ReviewOutcome,
) -> bool {
    &&& r is Nothing
    &&& t.selected == s.selected && t.scroll == s.scroll && t.mode == s.mode
    &&& t.auto_run_pref == s.auto_run_pref
    &&& if code is Enter {
        &&& t.editing is None
        &&& if e.index < s.items@.len() {
            t.items@.len() == s.items@.len() && t.items@[e.index as int]@ == e.buffer@ && forall|j: int|
                0 <= j < s.items@.len() && j != e.index ==> #[trigger] t.items@[j] == s.items@[j]
        } else {
            t.items@ == s.items@
        }
    } else if code is Esc {
        t.editing is None && t.items@ == s.items@
    } else if search_edit_key(code, mods) {
        &&& t.items@ == s.items@
        &&& t.editing matches Some(f) && f.index == e.index && text_key_effect(
            e.buffer@,
            e.cursor as int,
            false,
            code,
            KeyModifiers { shift: false, control: false, alt: false, other: false },
            f.buffer@,
            f.cursor as int,
        )
    } else {
        same_review(s, t)
    }
}

/// The effect of a key on the plan review dialog (`s` to `t`), and what
/// it asks of the host: a step being rewritten takes the key, else the
/// face shown does.
pub open spec fn review_key_effect(
    s: PlanReviewState,
    t: PlanReviewState,
    code: KeyCode,
    mods: KeyModifiers,
    r: ReviewOutcome,
) -> bool {
    match s.editing {
        Some(e) => step_edit_effect(s, t, e, code, mods, r),
        None => match s.mode {
            PlanReviewMode::Review => review_face_effect(s, t, code, r),
            PlanReviewMode::Edit => edit_face_effect(s, t, code, mods, r),
        },
    }
}

/// A key in the plan review dialog. While a step is being rewritten the
/// key edits it. In review mode: a accepts, d or Esc rejects, e edits, t
/// flips auto-run, Enter acts on the focused chip (Accept, Edit, Deny),
/// ←/→ (h/l) move between the chips, and the other motion keys scroll. In
/// edit mode: Esc goes back to review with the Edit chip focused, Ctrl+S
/// accepts the edited steps, j/k move, Enter or i rewrites the focused
/// step, a adds an empty step after it, x or Delete removes it, t flips
/// auto-run.
pub fn plan_review_key(state: &mut PlanReviewState, code: KeyCode, mods: KeyModifiers) -> (r:
    ReviewOutcome)
    requires
        old(state).wf(),
        match old(state).editing {
            Some(e) => blen(e.buffer@) + 4 <= usize::MAX,
            None => true,
        },
    ensures
        final(state).wf(),
        review_key_effect(*old(state), *final(state), code, mods, r),
{
    if state.editing.is_some() {
        return step_edit_key(state, code, mods);
    }
    match state.mode {
        PlanReviewMode::Review => match code {
            KeyCode::Char('a') | KeyCode::Char('A') => ReviewOutcome::Accept,
            KeyCode::Char('d') | KeyCode::Char('D') | KeyCode::Esc => ReviewOutcome::Deny,
            KeyCode::Char('e') | KeyCode::Char('E') => {
                state.mode = PlanReviewMode::Edit;
                state.selected = 0;
                ReviewOutcome::Nothing
            },
            KeyCode::Char('t') | KeyCode::Char('T') => {
                state.auto_run_pref = !state.auto_run_pref;
                ReviewOutcome::SyncAutoRun
            },
            KeyCode::Enter => {
                if state.selected == 0 {
                    ReviewOutcome::Accept
                } else if state.selected == 1 {
                    state.mode = PlanReviewMode::Edit;
                    state.selected = 0;
                    ReviewOutcome::Nothing
                } else {
                    ReviewOutcome::Deny
                }
            },
            KeyCode::Left | KeyCode::Char('h') => {
                state.selected = state.selected.saturating_sub(1);
                ReviewOutcome::Nothing
            },
            KeyCode::Right | KeyCode::Char('l') => {
                state.selected = if state.selected < 2 {
                    state.selected + 1
                } else {
                    2
                };
                ReviewOutcome::Nothing
            },
            KeyCode::PageDown => {
                state.scroll = state.scroll.saturating_add(10);
                ReviewOutcome::Nothing
            },
            KeyCode::PageUp => {
                state.scroll = state.scroll.saturating_sub(10);
                ReviewOutcome::Nothing
            },
            KeyCode::Home | KeyCode::Char('g') => {
                state.scroll = 0;
                ReviewOutcome::Nothing
            },
            KeyCode::End | KeyCode::Char('G') => {
                state.scroll = u16::MAX;
                ReviewOutcome::Nothing
            },
            KeyCode::Down | KeyCode::Char('j') => {
                state.scroll = state.scroll.saturating_add(1);
                ReviewOutcome::Nothing
            },
            KeyCode::Up | KeyCode::Char('k') => {
                state.scroll = state.scroll.saturating_sub(1);
                ReviewOutcome::Nothing
            },
            _ => ReviewOutcome::Nothing,
        },
        PlanReviewMode::Edit => edit_face_key(state, code, mods),
    }
}

fn edit_face_key(state: &mut PlanReviewState, code: KeyCode, mods: KeyModifiers) -> (r: ReviewOutcome)
    requires
        old(state).editing is None,
        old(state).mode == PlanReviewMode::Edit,
    ensures
        final(state).wf(),
        edit_face_effect(*old(state), *final(state), code, mods, r),
{
    let n = state.items.len();
    match code {
        KeyCode::Esc => {
            state.mode = PlanReviewMode::Review;
            state.selected = 1;
            return ReviewOutcome::Nothing;
        },
        KeyCode::Char('s') | KeyCode::Char('S') => {
            if mods.control {
                return ReviewOutcome::AcceptEdited;
            }
        },
        _ => {},
    }
    match code {
        KeyCode::Down | KeyCode::Char('j') => {
            if n > 0 {
                state.selected = if state.selected < n - 1 {
                    state.selected + 1
                } else {
                    n - 1
                };
            }
            ReviewOutcome::Nothing
        },
        KeyCode::Up | KeyCode::Char('k') => {
            state.selected = state.selected.saturating_sub(1);
            ReviewOutcome::Nothing
        },
        KeyCode::Enter | KeyCode::Char('i') => {
            if state.selected < n {
                let buffer = state.items[state.selected].clone();
                let cursor = byte_len(buffer.as_str());
                proof {
                    vstd::utf8::encode_utf8_valid_utf8(buffer@);
                    vstd::utf8::is_char_boundary_start_end_of_seq(vstd::utf8::encode_utf8(buffer@));
                }
                state.editing = Some(EditingStep { index: state.selected, buffer, cursor });
            }
            ReviewOutcome::Nothing
        },
        KeyCode::Char('a') => {
            let at = if state.selected < n {
                state.selected + 1
            } else {
                n
            };
            let at = if at < n {
                at
            } else {
                n
            };
            let ghost before = state.items@;
            state.items.insert(at, String::new());
            proof {
                assert(state.items@.take(at as int) =~= before.take(at as int));
                assert(state.items@.skip(at + 1) =~= before.skip(at as int));
            }
            state.selected = at;
            state.editing = Some(EditingStep { index: at, buffer: String::new(), cursor: 0 });
            proof {
                vstd::utf8::encode_utf8_valid_utf8(Seq::<char>::empty());
                vstd::utf8::is_char_boundary_start_end_of_seq(vstd::utf8::encode_utf8(Seq::<char>::empty()));
            }
            ReviewOutcome::SyncItems
        },
        KeyCode::Delete | KeyCode::Char('x') => {
            if state.selected < n {
                state.items.remove(state.selected);
                let left = state.items.len();
                if state.selected >= left && left > 0 {
                    state.selected = left - 1;
                }
                ReviewOutcome::SyncItems
            } else {
                ReviewOutcome::Nothing
            }
        },
        KeyCode::Char('t') | KeyCode::Char('T') => {
            state.auto_run_pref = !state.auto_run_pref;
            ReviewOutcome::SyncAutoRun
        },
        _ => ReviewOutcome::Nothing,
    }
}

fn step_edit_key(state: &mut PlanReviewState, code: KeyCode, mods: KeyModifiers) -> (r: ReviewOutcome)
    requires
        old(state).wf(),
        old(state).editing matches Some(e) && blen(e.buffer@) + 4 <= usize::MAX,
    ensures
        final(state).wf(),
        step_edit_effect(*old(state), *final(state), old(state).editing->0, code, mods, r),
{
    let e = match state.editing.take() {
        Some(e) => e,
        None => {
            proof {
                assert(false);
            }
            return ReviewOutcome::Nothing;
        },
    };
    let ghost items0 = state.items@;
    match code {
        KeyCode::Enter => {
            if e.index < state.items.len() {
                state.items.set(e.index, e.buffer);
            }
            return ReviewOutcome::Nothing;
        },
        KeyCode::Esc => {
            return ReviewOutcome::Nothing;
        },
        _ => {},
    }
    let plain = !mods.control && !mods.alt;
    let edit = match code {
        KeyCode::Backspace | KeyCode::Delete | KeyCode::Left | KeyCode::Right | KeyCode::Home
        | KeyCode::End => true,
        KeyCode::Char(_) => plain,
        _ => false,
    };
    if edit {
        let (v, c2) = edit_text(e.buffer.as_str(), e.cursor, false, code, KeyModifiers::none());
        let buffer = match v {
            Some(v) => v,
            None => e.buffer,
        };
        state.editing = Some(EditingStep { index: e.index, buffer, cursor: c2 });
    } else {
        state.editing = Some(e);
    }
    ReviewOutcome::Nothing
}

} // verus!

verus! {

use crate::tools::{ascii_lower, to_ascii_lowercase};
use crate::transcript::contains_text;
use crate::text::find;

/// Branch `name` is listed under the filter `query`: there is no filter,
/// or the filter occurs in the name, ASCII case aside.
pub open spec fn branch_listed(name: Seq<char>, query: Seq<char>) -> bool {
    query.len() == 0 || contains_text(ascii_lower(name), ascii_lower(query))
}

/// The `k`th name listed under the filter `query`, counting from 0.
pub open spec fn nth_listed(names: Seq<String>, query: Seq<char>, k: int) -> Option<String>
    decreases names.len(),
{
    if names.len() == 0 {
        None
    } else if branch_listed(names[0]@, query) {
        if k == 0 {
            Some(names[0])
        } else {
            nth_listed(names.drop_first(), query, k - 1)
        }
    } else {
        nth_listed(names.drop_first(), query, k)
    }
}

/// The branch Enter picks in the branch list: the selected one among
/// those the filter lists.
pub fn pick_branch(names: &Vec<String>, query: &str, selected: usize) -> (r: Option<String>)
    ensures
        r == nth_listed(names@, query@, selected as int),
{
    let lq = to_ascii_lowercase(query);
    let no_filter = query.unicode_len() == 0;
    let mut k = selected;
    let mut i: usize = 0;
    proof {
        assert(names@.skip(0) =~= names@);
    }
    while i < names.len()
        invariant
            i <= names@.len(),
            lq@ == ascii_lower(query@),
            no_filter == (query@.len() == 0),
            nth_listed(names@, query@, selected as int) == nth_listed(names@.skip(i as int), query@, k as int),
        decreases names@.len() - i,
    {
        proof {
            assert(names@.skip(i as int).drop_first() =~= names@.skip(i + 1));
            assert(names@.skip(i as int)[0] == names@[i as int]);
        }
        let listed = no_filter || {
            let ln = to_ascii_lowercase(names[i].as_str());
            find(ln.as_str(), lq.as_str()).is_some()
        };
        if listed {
            if k == 0 {
                return Some(names[i].clone());
            }
            k -= 1;
        }
        i += 1;
    }
    proof {
        assert(names@.skip(i as int) =~= Seq::<String>::empty());
    }
    None
}

} // verus!

verus! {

use crate::text::{occurs_at, str_slice};
use crate::transcript::{lowercase, to_lowercase};
use vstd::utf8::{decode_utf8, encode_utf8};

/// The first character boundary of `t` at or after byte `i` (the byte
/// length counts as one), or `i` itself past the end.
pub open spec fn boundary_from(t: Seq<char>, i: int) -> int
    decreases blen(t) - i,
{
    if i >= blen(t) || boundary(t, i) {
        i
    } else {
        boundary_from(t, i + 1)
    }
}

/// `k` is the first boundary at or after `i`.
proof fn lemma_boundary_from(t: Seq<char>, i: int, k: int)
    requires
        i <= k <= blen(t),
        forall|j: int| i <= j < k ==> !boundary(t, j),
        boundary(t, k),
    ensures
        boundary_from(t, i) == k,
    decreases k - i,
{
    if i < k {
        lemma_boundary_from(t, i + 1, k);
    }
}

/// No boundary found from `i` lies past a boundary `k` at or after `i`.
proof fn lemma_boundary_from_le(t: Seq<char>, i: int, k: int)
    requires
        i <= k <= blen(t),
        boundary(t, k),
    ensures
        boundary_from(t, i) <= k,
    decreases k - i,
{
    if i < k && !boundary(t, i) {
        lemma_boundary_from_le(t, i + 1, k);
    }
}

/// Line breaks and tabs as spaces, so a preview stays on one line.
pub open spec fn one_line(t: Seq<char>) -> Seq<char> {
    t.map_values(|c: char| if c == '\n' || c == '\t' { ' ' } else { c })
}

/// The byte range a snippet shows of `text` around a match at `pos` of
/// `nl` bytes, for a budget of `max` bytes: from half the budget before
/// the match to half of it after (cut at the ends of the text), both ends
/// moved forward onto character boundaries.
pub open spec fn snippet_window(text: Seq<char>, pos: int, nl: int, max: int) -> (int, int) {
    let half = max / 2;
    let start = if pos >= half {
        pos - half
    } else {
        0
    };
    let stop = if pos + nl + half < blen(text) {
        pos + nl + half
    } else {
        blen(text)
    };
    (boundary_from(text, start), boundary_from(text, stop))
}

/// From a place within the text, the next boundary is at or after it,
/// within the text.
proof fn lemma_boundary_from_within(t: Seq<char>, i: int)
    requires
        0 <= i <= blen(t),
    ensures
        i <= boundary_from(t, i) <= blen(t),
        boundary(t, boundary_from(t, i)),
    decreases blen(t) - i,
{
    vstd::utf8::encode_utf8_valid_utf8(t);
    vstd::utf8::is_char_boundary_start_end_of_seq(encode_utf8(t));
    if i < blen(t) && !boundary(t, i) {
        lemma_boundary_from_within(t, i + 1);
    }
}

/// The snippet holds its match: for a match that lies within the text
/// and starts on a character boundary, the window shown starts at or
/// before the match and ends at or after it, on character boundaries;
/// an ellipsis leads exactly when text before the window is cut, and
/// one trails exactly when text after it is.
pub proof fn lemma_snippet_holds_match(text: Seq<char>, pos: int, nl: int, max: int)
    requires
        0 <= pos,
        0 <= nl,
        0 <= max,
        pos + nl <= blen(text),
        boundary(text, pos),
    ensures
        ({
            let w = snippet_window(text, pos, nl, max);
            &&& 0 <= w.0 <= pos && pos + nl <= w.1 <= blen(text)
            &&& boundary(text, w.0) && boundary(text, w.1)
            &&& snippet(text, pos, nl, max) == (if w.0 > 0 {
                "…"@
            } else {
                Seq::empty()
            }) + one_line(decode_utf8(encode_utf8(text).subrange(w.0, w.1))) + (if w.1 < blen(text) {
                "…"@
            } else {
                Seq::empty()
            })
        }),
{
    let half = max / 2;
    let start = if pos >= half {
        pos - half
    } else {
        0
    };
    let stop = if pos + nl + half < blen(text) {
        pos + nl + half
    } else {
        blen(text)
    };
    lemma_boundary_from_within(text, start);
    lemma_boundary_from_within(text, stop);
    lemma_boundary_from_le(text, start, pos);
}

/// The context shown around a match at byte `pos` of `text`, for a
/// needle of `nl` bytes and a budget of `max` bytes: from half the budget
/// before the match to half of it after, both ends moved forward onto
/// character boundaries, on one line, with an ellipsis on each side that
/// was cut.
pub open spec fn snippet(text: Seq<char>, pos: int, nl: int, max: int) -> Seq<char> {
    let w = snippet_window(text, pos, nl, max);
    let s = w.0;
    let e = w.1;
    (if s > 0 {
        "…"@
    } else {
        Seq::empty()
    }) + one_line(decode_utf8(encode_utf8(text).subrange(s, e))) + (if e < blen(text) {
        "…"@
    } else {
        Seq::empty()
    })
}

/// The context snippet fits `text`: the start of the window, half the
/// budget before the match, is not past the end, and the window's far
/// end is a machine number.
pub open spec fn snippet_fits(text: Seq<char>, pos: int, nl: int, max: int) -> bool {
    &&& (if pos >= max / 2 {
        pos - max / 2
    } else {
        0
    }) <= blen(text)
    &&& pos + nl + max / 2 <= usize::MAX
}

/// `text` with line breaks and tabs as spaces.
fn one_line_of(text: &str) -> (r: String)
    ensures
        r@ == one_line(text@),
{
    let mut out = String::new();
    proof {
        broadcast use vstd::string::axiom_spec_iter;

    }
    for c in it: text.chars()
        invariant
            it.seq() == text@,
            out@ == one_line(text@.take(it.index())),
    {
        let d = if c == '\n' || c == '\t' {
            ' '
        } else {
            c
        };
        let one = char_to_string(d);
        let ghost before = out@;
        out.append(one.as_str());
        proof {
            assert(one_line(text@.take(it.index() + 1)) =~= before.push(d));
        }
    }
    proof {
        assert(text@.take(text@.len() as int) =~= text@);
    }
    out
}

/// The context around a match at byte `pos` of `text` (see `snippet`).
pub fn snippet_around(text: &str, pos: usize, nl: usize, max: usize) -> (r: String)
    requires
        snippet_fits(text@, pos as int, nl as int, max as int),
    ensures
        r@ == snippet(text@, pos as int, nl as int, max as int),
{
    let n = byte_len(text);
    let half = max / 2;
    let start = pos.saturating_sub(half);
    let far = pos + nl + half;
    let stop = if far < n {
        far
    } else {
        n
    };
    let mut s = start;
    while s < n && !text.is_char_boundary(s)
        invariant
            n == blen(text@),
            start <= s <= n,
            forall|j: int| start <= j < s ==> !boundary(text@, j),
        decreases n - s,
    {
        s += 1;
    }
    let mut e = stop;
    while e < n && !text.is_char_boundary(e)
        invariant
            n == blen(text@),
            stop <= e <= n,
            forall|j: int| stop <= j < e ==> !boundary(text@, j),
        decreases n - e,
    {
        e += 1;
    }
    proof {
        vstd::utf8::encode_utf8_valid_utf8(text@);
        vstd::utf8::is_char_boundary_start_end_of_seq(encode_utf8(text@));
        lemma_boundary_from(text@, start as int, s as int);
        lemma_boundary_from(text@, stop as int, e as int);
        lemma_boundary_from_le(text@, start as int, e as int);
    }
    let slice = str_slice(text, s, e);
    proof {
        vstd::utf8::encode_utf8_decode_utf8(slice@);
    }
    let flat = one_line_of(slice);
    let mut out = if s > 0 {
        String::from_str("…")
    } else {
        String::new()
    };
    proof {
        reveal_strlit("…");
    }
    out.append(flat.as_str());
    if e < n {
        out.append("…");
    }
    out
}

/// The match that transcript search previews: the byte offset of the
/// first occurrence of `needle` in `hay`, or 0 when there is none.
pub open spec fn preview_pos(hay: Seq<u8>, needle: Seq<u8>, pos: int) -> bool {
    ||| occurs_at(hay, needle, pos) && forall|j: int| 0 <= j < pos ==> !occurs_at(hay, needle, j)
    ||| pos == 0 && forall|j: int| !occurs_at(hay, needle, j)
}

/// The context of the first match of the lowercase `needle` in `text`,
/// at most `max` bytes around it: the match is looked for in the
/// lowercased text and its offset applied to `text` itself. None when
/// that offset, half the budget before it, lies past the end of `text`
/// (lowercasing can lengthen a text), or the window's end overflows.
pub fn context_snippet(text: &str, needle_lower: &str, max: usize) -> (r: Option<String>)
    ensures
        exists|pos: int|
            preview_pos(encode_utf8(lowercase(text@)), encode_utf8(needle_lower@), pos),
        forall|pos: int|
            preview_pos(encode_utf8(lowercase(text@)), encode_utf8(needle_lower@), pos) ==> match r {
                Some(x) => snippet_fits(text@, pos, blen(needle_lower@), max as int) && x@
                    == snippet(text@, pos, blen(needle_lower@), max as int),
                None => !snippet_fits(text@, pos, blen(needle_lower@), max as int),
            },
{
    let hay = to_lowercase(text);
    let found = find(hay.as_str(), needle_lower);
    let pos = match found {
        Some(p) => p,
        None => 0,
    };
    let ghost h = encode_utf8(lowercase(text@));
    let ghost nd = encode_utf8(needle_lower@);
    proof {
        assert(preview_pos(h, nd, pos as int));
        assert forall|q: int| preview_pos(h, nd, q) implies q == pos by {
            if occurs_at(h, nd, q) && found is Some {
                if q < pos {
                } else if q > pos {
                }
            }
        }
    }
    let nl = byte_len(needle_lower);
    let n = byte_len(text);
    let start = pos.saturating_sub(max / 2);
    if start > n {
        return None;
    }
    match pos.checked_add(nl) {
        Some(a) => match a.checked_add(max / 2) {
            Some(_) => Some(snippet_around(text, pos, nl, max)),
            None => None,
        },
        None => None,
    }
}

} // verus!
