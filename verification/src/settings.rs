//! The `/settings` modal: its rows, the keys that move through them, and
//! what the interactive rows do.

use vstd::prelude::*;
use vstd::string::*;

use crate::app::{App, Flash, or_default};
use crate::helpers::on_off;
use crate::status::FlashKind;
use crate::helpers::{concat2, concat3, decimal, decimal_string, elapsed_text, fmt_elapsed};
use crate::keys::KeyCode;
use crate::tools::{ascii_lower, to_ascii_lowercase};

verus! {

/// How the agent drains a prompt queue.
#[derive(Clone, Copy, Debug, PartialEq, Eq, Structural)]
pub enum QueueMode {
    All,
    OneAtATime,
}

impl QueueMode {
    /// The variant's name, as the settings show it before styling.
    pub open spec fn name_spec(self) -> Seq<char> {
        match self {
            QueueMode::All => "All"@,
            QueueMode::OneAtATime => "OneAtATime"@,
        }
    }

    pub fn name(self) -> (r: &'static str)
        ensures
            r@ == self.name_spec(),
    {
        match self {
            QueueMode::All => "All",
            QueueMode::OneAtATime => "OneAtATime",
        }
    }

    /// The other mode.
    pub fn toggled(self) -> (r: QueueMode)
        ensures
            r == (match self {
                QueueMode::All => QueueMode::OneAtATime,
                QueueMode::OneAtATime => QueueMode::All,
            }),
    {
        match self {
            QueueMode::All => QueueMode::OneAtATime,
            QueueMode::OneAtATime => QueueMode::All,
        }
    }
}

/// What the agent reported of its session.
pub struct Session {
    /// `<provider>/<id>` of the active model.
    pub model_label: String,
    /// The thinking level by its name, when known.
    pub thinking: Option<String>,
    pub steering_mode: Option<QueueMode>,
    pub follow_up_mode: Option<QueueMode>,
    pub auto_compaction: Option<bool>,
    pub auto_retry: Option<bool>,
    pub session_name: Option<String>,
}

/// The client-side switches the settings flip.
pub struct Preferences {
    pub show_thinking: bool,
    pub vim_enabled: bool,
    pub show_raw_markers: bool,
    /// The auto-run switch of the agent's plan: an accepted plan runs its
    /// steps by itself. The plan's steps are kept by the host.
    pub plan_auto_run: bool,
}

/// A boolean setting a row flips.
#[derive(Clone, Copy, Debug, PartialEq, Eq, Structural, Hash)]
pub enum ToggleAction {
    ShowThinking,
    Notify,
    Vim,
    AutoCompact,
    AutoRetry,
    PlanAutoRun,
    /// Leave plan markers visible in the transcript at the end of a run
    /// (the markers of an interview request are taken out either way).
    ShowRawMarkers,
}

/// A multi-valued setting a row steps through.
#[derive(Clone, Copy, Debug, PartialEq, Eq, Structural, Hash)]
pub enum CycleAction {
    Theme,
    ThinkingLevel,
    SteeringMode,
    FollowUpMode,
    Model,
}

/// The direction a cycle row steps in.
#[derive(Clone, Copy, Debug, PartialEq, Eq, Structural)]
pub enum CycleDir {
    Forward,
    Backward,
}

/// What pressing Enter, Space or an arrow on an interactive row asks for.
#[derive(Clone, Copy, Debug, PartialEq, Eq, Structural)]
pub enum SettingsAction {
    Toggle(ToggleAction),
    /// Only the theme steps backward; a backward step of the settings the
    /// agent holds does nothing, as the agent cannot step them back.
    Cycle(CycleAction, CycleDir),
}

/// One row of the `/settings` modal, rebuilt from the state on every draw.
#[allow(inconsistent_fields)]
pub enum SettingsRow {
    Header(String),
    Info { label: String, value: String },
    Toggle { label: String, value: bool, action: ToggleAction },
    Cycle { label: String, display: String, action: CycleAction },
}

/// The selection and scroll state of the open `/settings` modal.
pub struct SettingsState {
    pub selected: usize,
    pub scroll: u16,
    /// The user scrolled by hand, so the view no longer follows the
    /// selection.
    pub user_scrolled: bool,
}

impl SettingsState {
    /// A click on row `i`: it takes the selection, and the view follows
    /// the selection again.
    pub fn click_row(&mut self, i: usize)
        ensures
            final(self).selected == i,
            !final(self).user_scrolled,
            final(self).scroll == old(self).scroll,
    {
        self.selected = i;
        self.user_scrolled = false;
    }
}

/// Toggle and cycle rows can be selected; headers and info rows cannot.
pub open spec fn selectable(r: SettingsRow) -> bool {
    r is Toggle || r is Cycle
}

impl SettingsRow {
    /// Whether the row can hold the selection.
    pub fn is_selectable(&self) -> (r: bool)
        ensures
            r == selectable(*self),
    {
        match self {
            SettingsRow::Toggle { .. } | SettingsRow::Cycle { .. } => true,
            _ => false,
        }
    }
}

/// The action of an interactive row.
pub open spec fn action_of(row: SettingsRow, dir: CycleDir) -> Option<SettingsAction> {
    match row {
        SettingsRow::Toggle { action, .. } => Some(SettingsAction::Toggle(action)),
        SettingsRow::Cycle { action, .. } => Some(SettingsAction::Cycle(action, dir)),
        _ => None,
    }
}

/// The action a row triggers, if it is interactive.
pub fn row_to_action(row: &SettingsRow, dir: CycleDir) -> (r: Option<SettingsAction>)
    ensures
        r == action_of(*row, dir),
{
    match row {
        SettingsRow::Toggle { action, .. } => Some(SettingsAction::Toggle(*action)),
        SettingsRow::Cycle { action, .. } => Some(SettingsAction::Cycle(*action, dir)),
        _ => None,
    }
}

/// `t` with every `_` turned into `-`.
pub open spec fn dashed(t: Seq<char>) -> Seq<char> {
    t.map_values(|c: char| if c == '_' { '-' } else { c })
}

/// `s` with every `_` replaced by `-`.
fn underscores_to_dashes(s: &str) -> (r: String)
    ensures
        r@ == dashed(s@),
{
    let mut out = String::new();
    proof {
        broadcast use vstd::string::axiom_spec_iter;

    }
    for c in it: s.chars()
        invariant
            it.seq() == s@,
            out@ == dashed(s@.take(it.index())),
    {
        let d = if c == '_' {
            '-'
        } else {
            c
        };
        let one = crate::text::char_to_string(d);
        let ghost before = out@;
        out.append(one.as_str());
        proof {
            assert(dashed(s@.take(it.index() + 1)) =~= before.push(d));
        }
    }
    proof {
        assert(s@.take(s@.len() as int) =~= s@);
    }
    out
}

/// How a queue mode reads in the settings: its name in lower case with
/// dashes, or `default` when unknown.
pub open spec fn mode_text(m: Option<Seq<char>>) -> Seq<char> {
    dashed(
        ascii_lower(
            match m {
                Some(s) => s,
                None => "default"@,
            },
        ),
    )
}

/// Display a queue mode name.
pub fn mode_display(m: Option<String>) -> (r: String)
    ensures
        r@ == mode_text(match m {
            Some(s) => Some(s@),
            None => None,
        }),
{
    let name = match m {
        Some(s) => s,
        None => String::from_str("default"),
    };
    let lower = to_ascii_lowercase(name.as_str());
    underscores_to_dashes(lower.as_str())
}

/// How many lines a row takes in the modal body: a header is a blank
/// spacer and a heading.
pub open spec fn row_height(r: SettingsRow) -> u16 {
    if r is Header {
        2
    } else {
        1
    }
}

/// The body line of row `i`: after one leading blank line, the rows
/// above it stacked (saturating at `u16::MAX`).
pub open spec fn row_line(rows: Seq<SettingsRow>, i: int) -> u16
    decreases i,
{
    if i <= 0 {
        1
    } else {
        row_line(rows, i - 1).saturating_add(row_height(rows[i - 1]))
    }
}

/// The body line of the selected row, for scrolling it into view; none
/// when the selection is past the last row.
pub fn settings_row_source_line(rows: &Vec<SettingsRow>, selected: usize) -> (r: Option<u16>)
    ensures
        r == (if selected < rows@.len() {
            Some(row_line(rows@, selected as int))
        } else {
            None
        }),
{
    let mut line_idx: u16 = 1;
    let mut i: usize = 0;
    while i < rows.len()
        invariant
            i <= rows@.len(),
            i <= selected,
            line_idx == row_line(rows@, i as int),
        decreases rows@.len() - i,
    {
        if i == selected {
            return Some(line_idx);
        }
        let h: u16 = match &rows[i] {
            SettingsRow::Header(_) => 2,
            _ => 1,
        };
        line_idx = line_idx.saturating_add(h);
        i += 1;
    }
    None
}

} // verus!

verus! {

/// One step from row `p` among `n` rows, wrapping past either end.
pub open spec fn advance(p: int, n: int, forward: bool) -> int {
    let q = if forward {
        p + 1
    } else {
        p - 1
    };
    if q < 0 {
        n - 1
    } else if q >= n {
        0
    } else {
        q
    }
}

/// The first selectable row met stepping from `p`, within `fuel` steps.
pub open spec fn walk(rows: Seq<SettingsRow>, p: int, forward: bool, fuel: nat) -> Option<int>
    decreases fuel,
{
    if fuel == 0 {
        None
    } else {
        let q = advance(p, rows.len() as int, forward);
        if selectable(rows[q]) {
            Some(q)
        } else {
            walk(rows, q, forward, (fuel - 1) as nat)
        }
    }
}

/// One selection step: the selection moves to the next selectable row in
/// that direction, wrapping, and the view follows it again; with none,
/// nothing changes.
pub open spec fn step_selection(rows: Seq<SettingsRow>, sel: int, user_scrolled: bool, forward: bool) -> (
    int,
    bool,
) {
    if rows.len() == 0 {
        (sel, user_scrolled)
    } else {
        match walk(rows, sel, forward, rows.len()) {
            Some(q) => (q, false),
            None => (sel, user_scrolled),
        }
    }
}

/// `k` selection steps in a row.
pub open spec fn step_selection_n(
    rows: Seq<SettingsRow>,
    sel: int,
    user_scrolled: bool,
    forward: bool,
    k: nat,
) -> (int, bool)
    decreases k,
{
    if k == 0 {
        (sel, user_scrolled)
    } else {
        let (s, u) = step_selection_n(rows, sel, user_scrolled, forward, (k - 1) as nat);
        step_selection(rows, s, u, forward)
    }
}

/// The first selectable row at or after `from`.
pub open spec fn first_selectable_from(rows: Seq<SettingsRow>, from: int) -> Option<int>
    decreases rows.len() - from,
{
    if from < 0 || from >= rows.len() {
        None
    } else if selectable(rows[from]) {
        Some(from)
    } else {
        first_selectable_from(rows, from + 1)
    }
}

/// The last selectable row below `to`.
pub open spec fn last_selectable_below(rows: Seq<SettingsRow>, to: int) -> Option<int>
    decreases to,
{
    if to <= 0 || to > rows.len() {
        None
    } else if selectable(rows[to - 1]) {
        Some(to - 1)
    } else {
        last_selectable_below(rows, to - 1)
    }
}

/// The selection moved onto a selectable row when it is not on one and
/// one exists.
pub open spec fn settled(rows: Seq<SettingsRow>, sel: int) -> int {
    if !(0 <= sel < rows.len() && selectable(rows[sel])) && first_selectable_from(rows, 0) is Some {
        first_selectable_from(rows, 0)->0
    } else {
        sel
    }
}

/// What a key does in the `/settings` modal, from selection `sel`: the
/// new selection, whether the view stops following it, the action to
/// dispatch, and whether the modal closes.
pub open spec fn settings_key_effect(
    rows: Seq<SettingsRow>,
    sel: int,
    user_scrolled: bool,
    code: KeyCode,
) -> (int, bool, Option<SettingsAction>, bool) {
    let s = settled(rows, sel);
    match code {
        KeyCode::Esc => (s, user_scrolled, None, true),
        KeyCode::Char('j') | KeyCode::Down | KeyCode::Tab => {
            let (a, b) = step_selection(rows, s, user_scrolled, true);
            (a, b, None, false)
        },
        KeyCode::Char('k') | KeyCode::Up | KeyCode::BackTab => {
            let (a, b) = step_selection(rows, s, user_scrolled, false);
            (a, b, None, false)
        },
        KeyCode::Home | KeyCode::Char('g') => match first_selectable_from(rows, 0) {
            Some(f) => (f, false, None, false),
            None => (s, user_scrolled, None, false),
        },
        KeyCode::End | KeyCode::Char('G') => match last_selectable_below(rows, rows.len() as int) {
            Some(l) => (l, false, None, false),
            None => (s, user_scrolled, None, false),
        },
        KeyCode::PageUp => {
            let (a, b) = step_selection_n(rows, s, user_scrolled, false, 5);
            (a, true, None, false)
        },
        KeyCode::PageDown => {
            let (a, b) = step_selection_n(rows, s, user_scrolled, true, 5);
            (a, true, None, false)
        },
        KeyCode::Enter | KeyCode::Char(' ') | KeyCode::Right => (
            s,
            user_scrolled,
            if 0 <= s < rows.len() {
                action_of(rows[s], CycleDir::Forward)
            } else {
                None
            },
            false,
        ),
        KeyCode::Left => (
            s,
            user_scrolled,
            if 0 <= s < rows.len() {
                action_of(rows[s], CycleDir::Backward)
            } else {
                None
            },
            false,
        ),
        _ => (s, user_scrolled, None, false),
    }
}

/// The row `first_selectable_from` finds is a selectable row at or after
/// `from`.
proof fn lemma_first_selectable(rows: Seq<SettingsRow>, from: int)
    ensures
        first_selectable_from(rows, from) matches Some(f) ==> from <= f < rows.len() && selectable(
            rows[f],
        ),
    decreases rows.len() - from,
{
    if 0 <= from < rows.len() && !selectable(rows[from]) {
        lemma_first_selectable(rows, from + 1);
    }
}

/// The row `last_selectable_below` finds is a selectable row below `to`.
proof fn lemma_last_selectable(rows: Seq<SettingsRow>, to: int)
    ensures
        last_selectable_below(rows, to) matches Some(l) ==> 0 <= l < to && l < rows.len()
            && selectable(rows[l]),
    decreases to,
{
    if 0 < to <= rows.len() && !selectable(rows[to - 1]) {
        lemma_last_selectable(rows, to - 1);
    }
}

/// The first selectable row.
fn first_selectable(rows: &Vec<SettingsRow>) -> (r: Option<usize>)
    ensures
        match r {
            Some(i) => first_selectable_from(rows@, 0) == Some(i as int),
            None => first_selectable_from(rows@, 0) is None,
        },
{
    let mut i: usize = 0;
    while i < rows.len()
        invariant
            i <= rows@.len(),
            first_selectable_from(rows@, 0) == first_selectable_from(rows@, i as int),
        decreases rows@.len() - i,
    {
        if rows[i].is_selectable() {
            return Some(i);
        }
        i += 1;
    }
    None
}

/// The last selectable row.
fn last_selectable(rows: &Vec<SettingsRow>) -> (r: Option<usize>)
    ensures
        match r {
            Some(i) => last_selectable_below(rows@, rows@.len() as int) == Some(i as int),
            None => last_selectable_below(rows@, rows@.len() as int) is None,
        },
{
    let mut i: usize = rows.len();
    while i > 0
        invariant
            i <= rows@.len(),
            last_selectable_below(rows@, rows@.len() as int) == last_selectable_below(rows@, i as int),
        decreases i,
    {
        if rows[i - 1].is_selectable() {
            return Some(i - 1);
        }
        i -= 1;
    }
    None
}

/// One selection step over the rows.
fn step_by(rows: &Vec<SettingsRow>, state: &mut SettingsState, forward: bool)
    requires
        old(state).selected < rows@.len() || first_selectable_from(rows@, 0) is None,
    ensures
        (final(state).selected as int, final(state).user_scrolled) == step_selection(
            rows@,
            old(state).selected as int,
            old(state).user_scrolled,
            forward,
        ),
        final(state).selected < rows@.len() || first_selectable_from(rows@, 0) is None,
        final(state).scroll == old(state).scroll,
{
    let n = rows.len();
    if n == 0 {
        return;
    }
    let mut i: usize = state.selected;
    let mut k: usize = 0;
    while k < n
        invariant
            n == rows@.len(),
            n > 0,
            k <= n,
            state.selected == old(state).selected,
            state.user_scrolled == old(state).user_scrolled,
            state.scroll == old(state).scroll,
            walk(rows@, old(state).selected as int, forward, n as nat) == walk(
                rows@,
                i as int,
                forward,
                (n - k) as nat,
            ),
            k > 0 ==> i < n,
        decreases n - k,
    {
        let next: usize = if forward {
            if i >= n - 1 {
                0
            } else {
                i + 1
            }
        } else {
            if i == 0 {
                n - 1
            } else if i - 1 >= n {
                0
            } else {
                i - 1
            }
        };
        assert(next as int == advance(i as int, n as int, forward));
        if rows[next].is_selectable() {
            state.selected = next;
            state.user_scrolled = false;
            return;
        }
        i = next;
        k += 1;
    }
}

/// A key in the `/settings` modal. Returns the action to dispatch, if
/// any, and whether the modal closes. The selection first settles on a
/// selectable row; the arrows, j/k and Tab step between selectable rows
/// (wrapping), g/G and Home/End jump to the first or last, the page keys
/// step five times and stop the view following the selection, Enter,
/// Space and → act forward on the selected row and ← backward, Esc
/// closes.
pub fn settings_key(rows: &Vec<SettingsRow>, state: &mut SettingsState, code: KeyCode) -> (r: (
    Option<SettingsAction>,
    bool,
))
    ensures
        ({
            let e = settings_key_effect(
                rows@,
                old(state).selected as int,
                old(state).user_scrolled,
                code,
            );
            &&& final(state).selected as int == e.0
            &&& final(state).user_scrolled == e.1
            &&& r.0 == e.2
            &&& r.1 == e.3
            &&& final(state).scroll == old(state).scroll
        }),
{
    proof {
        lemma_first_selectable(rows@, 0);
        lemma_last_selectable(rows@, rows@.len() as int);
    }
    let on_selectable = state.selected < rows.len() && rows[state.selected].is_selectable();
    if !on_selectable {
        if let Some(first) = first_selectable(rows) {
            state.selected = first;
        }
    }
    match code {
        KeyCode::Esc => (None, true),
        KeyCode::Char('j') | KeyCode::Down | KeyCode::Tab => {
            step_by(rows, state, true);
            (None, false)
        },
        KeyCode::Char('k') | KeyCode::Up | KeyCode::BackTab => {
            step_by(rows, state, false);
            (None, false)
        },
        KeyCode::Home | KeyCode::Char('g') => {
            if let Some(first) = first_selectable(rows) {
                state.selected = first;
                state.user_scrolled = false;
            }
            (None, false)
        },
        KeyCode::End | KeyCode::Char('G') => {
            if let Some(last) = last_selectable(rows) {
                state.selected = last;
                state.user_scrolled = false;
            }
            (None, false)
        },
        KeyCode::PageUp | KeyCode::PageDown => {
            let forward = match code {
                KeyCode::PageDown => true,
                _ => false,
            };
            let ghost s0 = state.selected as int;
            let ghost u0 = state.user_scrolled;
            let mut j: usize = 0;
            while j < 5
                invariant
                    j <= 5,
                    state.selected < rows@.len() || first_selectable_from(rows@, 0) is None,
                    (state.selected as int, state.user_scrolled) == step_selection_n(
                        rows@,
                        s0,
                        u0,
                        forward,
                        j as nat,
                    ),
                    state.scroll == old(state).scroll,
                decreases 5 - j,
            {
                step_by(rows, state, forward);
                j += 1;
            }
            state.user_scrolled = true;
            (None, false)
        },
        KeyCode::Enter | KeyCode::Char(' ') | KeyCode::Right => {
            if state.selected < rows.len() {
                (row_to_action(&rows[state.selected], CycleDir::Forward), false)
            } else {
                (None, false)
            }
        },
        KeyCode::Left => {
            if state.selected < rows.len() {
                (row_to_action(&rows[state.selected], CycleDir::Backward), false)
            } else {
                (None, false)
            }
        },
        _ => (None, false),
    }
}

} // verus!

verus! {

/// A row by its contents: kind (0 header, 1 info, 2 toggle, 3 cycle),
/// label (the title of a header), value or display text, toggle value, and
/// action.
pub open spec fn row_view(r: SettingsRow) -> (
    int,
    Seq<char>,
    Seq<char>,
    bool,
    Option<ToggleAction>,
    Option<CycleAction>,
) {
    match r {
        SettingsRow::Header(t) => (0, t@, Seq::empty(), false, None, None),
        SettingsRow::Info { label, value } => (1, label@, value@, false, None, None),
        SettingsRow::Toggle { label, value, action } => (2, label@, Seq::empty(), value, Some(action), None),
        SettingsRow::Cycle { label, display, action } => (3, label@, display@, false, None, Some(action)),
    }
}

pub open spec fn header_row(title: Seq<char>) -> (
    int,
    Seq<char>,
    Seq<char>,
    bool,
    Option<ToggleAction>,
    Option<CycleAction>,
) {
    (0, title, Seq::empty(), false, None, None)
}

pub open spec fn info_row(label: Seq<char>, value: Seq<char>) -> (
    int,
    Seq<char>,
    Seq<char>,
    bool,
    Option<ToggleAction>,
    Option<CycleAction>,
) {
    (1, label, value, false, None, None)
}

pub open spec fn toggle_row(label: Seq<char>, value: bool, action: ToggleAction) -> (
    int,
    Seq<char>,
    Seq<char>,
    bool,
    Option<ToggleAction>,
    Option<CycleAction>,
) {
    (2, label, Seq::empty(), value, Some(action), None)
}

pub open spec fn cycle_row(label: Seq<char>, display: Seq<char>, action: CycleAction) -> (
    int,
    Seq<char>,
    Seq<char>,
    bool,
    Option<ToggleAction>,
    Option<CycleAction>,
) {
    (3, label, display, false, None, Some(action))
}

/// The rows by their contents.
pub open spec fn rows_view(rows: Seq<SettingsRow>) -> Seq<
    (int, Seq<char>, Seq<char>, bool, Option<ToggleAction>, Option<CycleAction>),
> {
    rows.map_values(|r: SettingsRow| row_view(r))
}

/// Append a row.
fn push_row(rows: &mut Vec<SettingsRow>, r: SettingsRow)
    ensures
        rows_view(final(rows)@) == rows_view(old(rows)@).push(row_view(r)),
{
    let ghost v = row_view(r);
    rows.push(r);
    assert(rows_view(rows@) =~= rows_view(old(rows)@).push(v));
}

fn push_header(rows: &mut Vec<SettingsRow>, title: &str)
    ensures
        rows_view(final(rows)@) == rows_view(old(rows)@).push(header_row(title@)),
{
    push_row(rows, SettingsRow::Header(String::from_str(title)));
}

fn push_info(rows: &mut Vec<SettingsRow>, label: &str, value: String)
    ensures
        rows_view(final(rows)@) == rows_view(old(rows)@).push(info_row(label@, value@)),
{
    push_row(rows, SettingsRow::Info { label: String::from_str(label), value });
}

fn push_toggle(rows: &mut Vec<SettingsRow>, label: &str, value: bool, action: ToggleAction)
    ensures
        rows_view(final(rows)@) == rows_view(old(rows)@).push(toggle_row(label@, value, action)),
{
    push_row(rows, SettingsRow::Toggle { label: String::from_str(label), value, action });
}

fn push_cycle(rows: &mut Vec<SettingsRow>, label: &str, display: String, action: CycleAction)
    ensures
        rows_view(final(rows)@) == rows_view(old(rows)@).push(cycle_row(label@, display@, action)),
{
    push_row(rows, SettingsRow::Cycle { label: String::from_str(label), display, action });
}

} // verus!

verus! {

/// What the host knows that the client state does not: connection,
/// environment and build facts, the theme, and the session statistics
/// already formatted.
pub struct HostInfo {
    /// Why the agent could not be started, when it could not.
    pub spawn_error: Option<String>,
    pub pi_binary: Option<String>,
    pub theme_name: String,
    /// The context usage and session cost lines, once statistics arrived.
    pub stats: Option<(String, String)>,
    /// The terminal kind, by name.
    pub terminal: String,
    pub kitty_keyboard: bool,
    pub graphics: bool,
    pub clipboard_native: bool,
    /// Native desktop notifications were compiled in.
    pub notify_feature: bool,
    pub history_path: Option<String>,
    pub state_dir: String,
    pub version: String,
    pub platform: String,
}

pub open spec fn queue_mode_name(m: Option<QueueMode>) -> Option<Seq<char>> {
    match m {
        Some(q) => Some(q.name_spec()),
        None => None,
    }
}

pub open spec fn session_rows(app: App, host: HostInfo) -> Seq<
    (int, Seq<char>, Seq<char>, bool, Option<ToggleAction>, Option<CycleAction>),
> {
    seq![
        header_row("Session"@),
        info_row("name"@, or_default(app.session.session_name, "(unset · /rename to set)"@)),
        info_row(
            "connection"@,
            match host.spawn_error {
                Some(e) => "offline · "@ + e@,
                None => "connected"@,
            },
        ),
        info_row("pi binary"@, or_default(host.pi_binary, "not on PATH"@)),
    ]
}

pub open spec fn model_rows(app: App) -> Seq<
    (int, Seq<char>, Seq<char>, bool, Option<ToggleAction>, Option<CycleAction>),
> {
    seq![
        header_row("Model"@),
        cycle_row("active model"@, app.session.model_label@, CycleAction::Model),
        cycle_row(
            "thinking level"@,
            match app.session.thinking {
                Some(t) => ascii_lower(t@),
                None => "unknown"@,
            },
            CycleAction::ThinkingLevel,
        ),
        cycle_row(
            "steering mode"@,
            mode_text(queue_mode_name(app.session.steering_mode)),
            CycleAction::SteeringMode,
        ),
        cycle_row(
            "follow-up mode"@,
            mode_text(queue_mode_name(app.session.follow_up_mode)),
            CycleAction::FollowUpMode,
        ),
    ]
}

pub open spec fn behavior_rows(app: App) -> Seq<
    (int, Seq<char>, Seq<char>, bool, Option<ToggleAction>, Option<CycleAction>),
> {
    seq![
        header_row("Behavior"@),
        toggle_row("show thinking"@, app.prefs.show_thinking, ToggleAction::ShowThinking),
        toggle_row("notifications"@, app.notify_enabled, ToggleAction::Notify),
        toggle_row(
            "auto-compaction"@,
            match app.session.auto_compaction {
                Some(b) => b,
                None => true,
            },
            ToggleAction::AutoCompact,
        ),
        toggle_row(
            "auto-retry"@,
            match app.session.auto_retry {
                Some(b) => b,
                None => true,
            },
            ToggleAction::AutoRetry,
        ),
        toggle_row("plan auto-run"@, app.prefs.plan_auto_run, ToggleAction::PlanAutoRun),
    ]
}

pub open spec fn appearance_rows(app: App, host: HostInfo) -> Seq<
    (int, Seq<char>, Seq<char>, bool, Option<ToggleAction>, Option<CycleAction>),
> {
    seq![
        header_row("Appearance"@),
        cycle_row("theme"@, host.theme_name@, CycleAction::Theme),
        toggle_row("vim mode"@, app.prefs.vim_enabled, ToggleAction::Vim),
        toggle_row("show raw markers"@, app.prefs.show_raw_markers, ToggleAction::ShowRawMarkers),
    ]
}

/// Seconds the live state has lasted (ten ticks a second).
pub open spec fn live_secs(app: App) -> nat {
    (app.status.ticks.saturating_sub(app.status.live_since_tick) / 10) as nat
}

pub open spec fn live_rows(app: App, host: HostInfo) -> Seq<
    (int, Seq<char>, Seq<char>, bool, Option<ToggleAction>, Option<CycleAction>),
> {
    seq![
        header_row("Live state"@),
        info_row("live"@, app.status.live.label_spec() + " · "@ + elapsed_text(live_secs(app))),
        info_row("turn"@, decimal(app.turn_count as nat)),
        info_row(
            "tools"@,
            decimal(app.tool_running as nat) + " running · "@ + decimal(app.tool_done as nat)
                + " done"@,
        ),
        info_row(
            "queue"@,
            "steer "@ + decimal(app.queue_steering@.len()) + " · follow-up "@ + decimal(
                app.queue_follow_up@.len(),
            ),
        ),
    ] + match host.stats {
        Some((ctx, cost)) => seq![info_row("context"@, ctx@), info_row("session cost"@, cost@)],
        None => Seq::empty(),
    }
}

pub open spec fn capability_rows(host: HostInfo) -> Seq<
    (int, Seq<char>, Seq<char>, bool, Option<ToggleAction>, Option<CycleAction>),
> {
    seq![
        header_row("Capabilities"@),
        info_row("terminal"@, host.terminal@),
        info_row(
            "kitty keyboard"@,
            if host.kitty_keyboard {
                "advertised"@
            } else {
                "not advertised (Alt+T / F12 fallback)"@
            },
        ),
        info_row(
            "graphics"@,
            if host.graphics {
                "supported"@
            } else {
                "no image protocol detected"@
            },
        ),
        info_row(
            "clipboard"@,
            if host.clipboard_native {
                "arboard (native)"@
            } else {
                "OSC 52 fallback"@
            },
        ),
        info_row(
            "notify-rust feature"@,
            if host.notify_feature {
                "compiled in"@
            } else {
                "off (OSC 777 only)"@
            },
        ),
    ]
}

pub open spec fn path_rows(host: HostInfo) -> Seq<
    (int, Seq<char>, Seq<char>, bool, Option<ToggleAction>, Option<CycleAction>),
> {
    seq![
        header_row("Paths"@),
        info_row("history file"@, or_default(host.history_path, "(no history path)"@)),
        info_row("crash dumps"@, host.state_dir@),
        header_row("Build"@),
        info_row("rata-pi"@, host.version@),
        info_row("platform"@, host.platform@),
    ]
}

/// Every row of the `/settings` modal, section by section.
pub open spec fn settings_rows(app: App, host: HostInfo) -> Seq<
    (int, Seq<char>, Seq<char>, bool, Option<ToggleAction>, Option<CycleAction>),
> {
    session_rows(app, host) + model_rows(app) + behavior_rows(app) + appearance_rows(app, host)
        + live_rows(app, host) + capability_rows(host) + path_rows(host)
}

fn text_or(o: &Option<String>, d: &str) -> (r: String)
    ensures
        r@ == or_default(*o, d@),
{
    match o {
        Some(s) => s.clone(),
        None => String::from_str(d),
    }
}

fn push_session_rows(rows: &mut Vec<SettingsRow>, app: &App, host: &HostInfo)
    ensures
        rows_view(final(rows)@) == rows_view(old(rows)@) + session_rows(*app, *host),
{
    push_header(rows, "Session");
    push_info(rows, "name", text_or(&app.session.session_name, "(unset · /rename to set)"));
    let connection = match &host.spawn_error {
        Some(e) => concat2("offline · ", e.as_str()),
        None => String::from_str("connected"),
    };
    push_info(rows, "connection", connection);
    push_info(rows, "pi binary", text_or(&host.pi_binary, "not on PATH"));
    assert(rows_view(rows@) =~= rows_view(old(rows)@) + session_rows(*app, *host));
}

fn push_model_rows(rows: &mut Vec<SettingsRow>, app: &App)
    ensures
        rows_view(final(rows)@) == rows_view(old(rows)@) + model_rows(*app),
{
    push_header(rows, "Model");
    push_cycle(rows, "active model", app.session.model_label.clone(), CycleAction::Model);
    let thinking = match &app.session.thinking {
        Some(t) => to_ascii_lowercase(t.as_str()),
        None => String::from_str("unknown"),
    };
    push_cycle(rows, "thinking level", thinking, CycleAction::ThinkingLevel);
    let steering = mode_display(
        match app.session.steering_mode {
            Some(m) => Some(String::from_str(m.name())),
            None => None,
        },
    );
    push_cycle(rows, "steering mode", steering, CycleAction::SteeringMode);
    let follow = mode_display(
        match app.session.follow_up_mode {
            Some(m) => Some(String::from_str(m.name())),
            None => None,
        },
    );
    push_cycle(rows, "follow-up mode", follow, CycleAction::FollowUpMode);
    assert(rows_view(rows@) =~= rows_view(old(rows)@) + model_rows(*app));
}

fn push_behavior_rows(rows: &mut Vec<SettingsRow>, app: &App)
    ensures
        rows_view(final(rows)@) == rows_view(old(rows)@) + behavior_rows(*app),
{
    push_header(rows, "Behavior");
    push_toggle(rows, "show thinking", app.prefs.show_thinking, ToggleAction::ShowThinking);
    push_toggle(rows, "notifications", app.notify_enabled, ToggleAction::Notify);
    let compaction = match app.session.auto_compaction {
        Some(b) => b,
        None => true,
    };
    push_toggle(rows, "auto-compaction", compaction, ToggleAction::AutoCompact);
    let retry = match app.session.auto_retry {
        Some(b) => b,
        None => true,
    };
    push_toggle(rows, "auto-retry", retry, ToggleAction::AutoRetry);
    push_toggle(rows, "plan auto-run", app.prefs.plan_auto_run, ToggleAction::PlanAutoRun);
    assert(rows_view(rows@) =~= rows_view(old(rows)@) + behavior_rows(*app));
}

fn push_appearance_rows(rows: &mut Vec<SettingsRow>, app: &App, host: &HostInfo)
    ensures
        rows_view(final(rows)@) == rows_view(old(rows)@) + appearance_rows(*app, *host),
{
    push_header(rows, "Appearance");
    push_cycle(rows, "theme", host.theme_name.clone(), CycleAction::Theme);
    push_toggle(rows, "vim mode", app.prefs.vim_enabled, ToggleAction::Vim);
    push_toggle(rows, "show raw markers", app.prefs.show_raw_markers, ToggleAction::ShowRawMarkers);
    assert(rows_view(rows@) =~= rows_view(old(rows)@) + appearance_rows(*app, *host));
}

fn push_live_rows(rows: &mut Vec<SettingsRow>, app: &App, host: &HostInfo)
    ensures
        rows_view(final(rows)@) == rows_view(old(rows)@) + live_rows(*app, *host),
{
    push_header(rows, "Live state");
    let secs = app.status.ticks_since_live() / 10;
    let elapsed = fmt_elapsed(secs);
    push_info(rows, "live", concat3(app.status.live.label(), " · ", elapsed.as_str()));
    push_info(rows, "turn", decimal_string(app.turn_count as u64));
    let running = decimal_string(app.tool_running as u64);
    let done = decimal_string(app.tool_done as u64);
    let tools = concat2(concat3(running.as_str(), " running · ", done.as_str()).as_str(), " done");
    push_info(rows, "tools", tools);
    let steer = decimal_string(app.queue_steering.len() as u64);
    let follow = decimal_string(app.queue_follow_up.len() as u64);
    let queue = concat3(
        concat2("steer ", steer.as_str()).as_str(),
        " · follow-up ",
        follow.as_str(),
    );
    push_info(rows, "queue", queue);
    match &host.stats {
        Some(pair) => {
            push_info(rows, "context", pair.0.clone());
            push_info(rows, "session cost", pair.1.clone());
        },
        None => {},
    }
    assert(rows_view(rows@) =~= rows_view(old(rows)@) + live_rows(*app, *host));
}

fn push_capability_rows(rows: &mut Vec<SettingsRow>, host: &HostInfo)
    ensures
        rows_view(final(rows)@) == rows_view(old(rows)@) + capability_rows(*host),
{
    push_header(rows, "Capabilities");
    push_info(rows, "terminal", host.terminal.clone());
    let kitty = if host.kitty_keyboard {
        "advertised"
    } else {
        "not advertised (Alt+T / F12 fallback)"
    };
    push_info(rows, "kitty keyboard", String::from_str(kitty));
    let graphics = if host.graphics {
        "supported"
    } else {
        "no image protocol detected"
    };
    push_info(rows, "graphics", String::from_str(graphics));
    let clipboard = if host.clipboard_native {
        "arboard (native)"
    } else {
        "OSC 52 fallback"
    };
    push_info(rows, "clipboard", String::from_str(clipboard));
    let feature = if host.notify_feature {
        "compiled in"
    } else {
        "off (OSC 777 only)"
    };
    push_info(rows, "notify-rust feature", String::from_str(feature));
    assert(rows_view(rows@) =~= rows_view(old(rows)@) + capability_rows(*host));
}

fn push_path_rows(rows: &mut Vec<SettingsRow>, host: &HostInfo)
    ensures
        rows_view(final(rows)@) == rows_view(old(rows)@) + path_rows(*host),
{
    push_header(rows, "Paths");
    push_info(rows, "history file", text_or(&host.history_path, "(no history path)"));
    push_info(rows, "crash dumps", host.state_dir.clone());
    push_header(rows, "Build");
    push_info(rows, "rata-pi", host.version.clone());
    push_info(rows, "platform", host.platform.clone());
    assert(rows_view(rows@) =~= rows_view(old(rows)@) + path_rows(*host));
}

/// The rows of the `/settings` modal for the current state.
pub fn build_settings_rows(app: &App, host: &HostInfo) -> (rows: Vec<SettingsRow>)
    ensures
        rows_view(rows@) == settings_rows(*app, *host),
{
    let mut rows: Vec<SettingsRow> = Vec::new();
    assert(rows_view(rows@) =~= Seq::empty());
    push_session_rows(&mut rows, app, host);
    push_model_rows(&mut rows, app);
    push_behavior_rows(&mut rows, app);
    push_appearance_rows(&mut rows, app, host);
    push_live_rows(&mut rows, app, host);
    push_capability_rows(&mut rows, host);
    push_path_rows(&mut rows, host);
    assert(rows_view(rows@) =~= settings_rows(*app, *host));
    rows
}

} // verus!

verus! {

/// A command the agent is sent to reflect a setting.
#[derive(Clone, Copy, Debug, PartialEq, Eq, Structural)]
pub enum AgentCommand {
    /// Compact the context now.
    Compact,
    SetAutoCompaction(bool),
    SetAutoRetry(bool),
    CycleThinkingLevel,
    CycleModel,
    SetSteeringMode(QueueMode),
    SetFollowUpMode(QueueMode),
}

/// What the host does after a settings action.
#[derive(Clone, Copy, Debug, PartialEq, Eq, Structural)]
pub enum SettingsEffect {
    Nothing,
    /// Put the composer back in insert mode.
    ComposerInsert,
    /// Step to the next theme and flash its name.
    NextTheme,
    /// Step back to the previous theme and flash its name.
    PrevTheme,
    /// Send this command to the agent.
    Send(AgentCommand),
}

/// The flash holds `text` of `kind`, raised at `at`.
pub open spec fn flashed(f: Option<Flash>, text: Seq<char>, at: u64, kind: FlashKind) -> bool {
    f matches Some(x) && x.text@ == text && x.at == at && x.kind == kind
}

pub open spec fn on_off_text(b: bool) -> Seq<char> {
    if b {
        "on"@
    } else {
        "off"@
    }
}

/// Nothing but the settings, the session facts and the flash changes.
pub open spec fn keeps_rest(a: App, b: App) -> bool {
    &&& b.transcript == a.transcript
    &&& b.is_streaming == a.is_streaming && b.composer_mode == a.composer_mode
    &&& b.status == a.status
    &&& b.tool_running == a.tool_running && b.tool_done == a.tool_done
    &&& b.tool_calls_this_turn == a.tool_calls_this_turn
    &&& b.turn_count == a.turn_count && b.agent_start_tick == a.agent_start_tick
    &&& b.queue_steering == a.queue_steering && b.queue_follow_up == a.queue_follow_up
    &&& b.focus_idx == a.focus_idx && b.scroll == a.scroll
}

pub open spec fn prefs_of(show_thinking: bool, vim_enabled: bool, show_raw_markers: bool, plan_auto_run: bool) -> Preferences {
    Preferences { show_thinking, vim_enabled, show_raw_markers, plan_auto_run }
}

/// Session `s` with new queue modes and switches.
pub open spec fn session_with(
    s: Session,
    steering_mode: Option<QueueMode>,
    follow_up_mode: Option<QueueMode>,
    auto_compaction: Option<bool>,
    auto_retry: Option<bool>,
) -> Session {
    Session {
        model_label: s.model_label,
        thinking: s.thinking,
        steering_mode,
        follow_up_mode,
        auto_compaction,
        auto_retry,
        session_name: s.session_name,
    }
}

/// What a settings action does to state `a` (`online` when the agent is
/// running): state `b`, and what the host has left to do.
pub open spec fn settings_dispatched(
    a: App,
    online: bool,
    action: SettingsAction,
    b: App,
    eff: SettingsEffect,
) -> bool {
    let p = a.prefs;
    let s = a.session;
    let now = a.status.ticks;
    &&& keeps_rest(a, b)
    &&& match action {
        SettingsAction::Toggle(t) => match t {
            ToggleAction::ShowThinking => {
                &&& b.prefs == prefs_of(!p.show_thinking, p.vim_enabled, p.show_raw_markers, p.plan_auto_run)
                &&& b.session == s && b.notify_enabled == a.notify_enabled && b.flash == a.flash
                &&& eff == SettingsEffect::Nothing
            },
            ToggleAction::Notify => {
                &&& b.notify_enabled == !a.notify_enabled
                &&& b.prefs == p && b.session == s
                &&& flashed(b.flash, "notifications "@ + on_off_text(!a.notify_enabled), now, FlashKind::Info)
                &&& eff == SettingsEffect::Nothing
            },
            ToggleAction::Vim => {
                &&& b.prefs == prefs_of(p.show_thinking, !p.vim_enabled, p.show_raw_markers, p.plan_auto_run)
                &&& b.session == s && b.notify_enabled == a.notify_enabled
                &&& flashed(b.flash, "vim mode "@ + on_off_text(!p.vim_enabled), now, FlashKind::Info)
                &&& eff == SettingsEffect::ComposerInsert
            },
            ToggleAction::AutoCompact => {
                let next = !(match s.auto_compaction {
                    Some(x) => x,
                    None => true,
                });
                &&& b.session == session_with(s, s.steering_mode, s.follow_up_mode, Some(next), s.auto_retry)
                &&& b.prefs == p && b.notify_enabled == a.notify_enabled
                &&& if online {
                    &&& flashed(b.flash, "auto-compact "@ + on_off_text(next), now, FlashKind::Success)
                    &&& eff == SettingsEffect::Send(AgentCommand::SetAutoCompaction(next))
                } else {
                    &&& flashed(
                        b.flash,
                        "auto-compact "@ + on_off_text(next) + " — offline, applies next session"@,
                        now,
                        FlashKind::Warn,
                    )
                    &&& eff == SettingsEffect::Nothing
                }
            },
            ToggleAction::AutoRetry => {
                let next = !(match s.auto_retry {
                    Some(x) => x,
                    None => true,
                });
                &&& b.session == session_with(s, s.steering_mode, s.follow_up_mode, s.auto_compaction, Some(next))
                &&& b.prefs == p && b.notify_enabled == a.notify_enabled
                &&& if online {
                    &&& flashed(b.flash, "auto-retry "@ + on_off_text(next), now, FlashKind::Success)
                    &&& eff == SettingsEffect::Send(AgentCommand::SetAutoRetry(next))
                } else {
                    &&& flashed(
                        b.flash,
                        "auto-retry "@ + on_off_text(next) + " — offline, applies next session"@,
                        now,
                        FlashKind::Warn,
                    )
                    &&& eff == SettingsEffect::Nothing
                }
            },
            ToggleAction::PlanAutoRun => {
                &&& b.prefs == prefs_of(p.show_thinking, p.vim_enabled, p.show_raw_markers, !p.plan_auto_run)
                &&& b.session == s && b.notify_enabled == a.notify_enabled
                &&& flashed(b.flash, "plan auto-run "@ + on_off_text(!p.plan_auto_run), now, FlashKind::Info)
                &&& eff == SettingsEffect::Nothing
            },
            ToggleAction::ShowRawMarkers => {
                &&& b.prefs == prefs_of(p.show_thinking, p.vim_enabled, !p.show_raw_markers, p.plan_auto_run)
                &&& b.session == s && b.notify_enabled == a.notify_enabled
                &&& flashed(
                    b.flash,
                    "raw markers "@ + if !p.show_raw_markers {
                        "visible"@
                    } else {
                        "hidden"@
                    },
                    now,
                    FlashKind::Info,
                )
                &&& eff == SettingsEffect::Nothing
            },
        },
        SettingsAction::Cycle(c, CycleDir::Backward) => {
            &&& b.prefs == p && b.session == s && b.notify_enabled == a.notify_enabled
            &&& b.flash == a.flash
            &&& eff == if c == CycleAction::Theme {
                SettingsEffect::PrevTheme
            } else {
                SettingsEffect::Nothing
            }
        },
        SettingsAction::Cycle(c, CycleDir::Forward) => match c {
            CycleAction::Theme => {
                &&& b.prefs == p && b.session == s && b.notify_enabled == a.notify_enabled
                &&& b.flash == a.flash
                &&& eff == SettingsEffect::NextTheme
            },
            CycleAction::ThinkingLevel => {
                &&& b.prefs == p && b.session == s && b.notify_enabled == a.notify_enabled
                &&& b.flash == a.flash
                &&& eff == if online {
                    SettingsEffect::Send(AgentCommand::CycleThinkingLevel)
                } else {
                    SettingsEffect::Nothing
                }
            },
            CycleAction::Model => {
                &&& b.prefs == p && b.session == s && b.notify_enabled == a.notify_enabled
                &&& b.flash == a.flash
                &&& eff == if online {
                    SettingsEffect::Send(AgentCommand::CycleModel)
                } else {
                    SettingsEffect::Nothing
                }
            },
            CycleAction::SteeringMode => {
                let next = match s.steering_mode {
                    Some(QueueMode::All) | None => QueueMode::OneAtATime,
                    Some(QueueMode::OneAtATime) => QueueMode::All,
                };
                &&& b.session == session_with(s, Some(next), s.follow_up_mode, s.auto_compaction, s.auto_retry)
                &&& b.prefs == p && b.notify_enabled == a.notify_enabled && b.flash == a.flash
                &&& eff == if online {
                    SettingsEffect::Send(AgentCommand::SetSteeringMode(next))
                } else {
                    SettingsEffect::Nothing
                }
            },
            CycleAction::FollowUpMode => {
                let next = match s.follow_up_mode {
                    Some(QueueMode::All) | None => QueueMode::OneAtATime,
                    Some(QueueMode::OneAtATime) => QueueMode::All,
                };
                &&& b.session == session_with(s, s.steering_mode, Some(next), s.auto_compaction, s.auto_retry)
                &&& b.prefs == p && b.notify_enabled == a.notify_enabled && b.flash == a.flash
                &&& eff == if online {
                    SettingsEffect::Send(AgentCommand::SetFollowUpMode(next))
                } else {
                    SettingsEffect::Nothing
                }
            },
        },
    }
}

/// Apply a settings action to the state. `online` says whether the agent
/// is running; the command that reflects the change to it, and the theme
/// step, are left to the host.
pub fn dispatch_settings_action(app: &mut App, online: bool, action: SettingsAction) -> (eff:
    SettingsEffect)
    ensures
        settings_dispatched(*old(app), online, action, *final(app), eff),
{
    match action {
        SettingsAction::Toggle(ToggleAction::ShowThinking) => {
            app.prefs.show_thinking = !app.prefs.show_thinking;
            SettingsEffect::Nothing
        },
        SettingsAction::Toggle(ToggleAction::Notify) => {
            app.notify_enabled = !app.notify_enabled;
            app.flash(concat2("notifications ", on_off(app.notify_enabled)));
            SettingsEffect::Nothing
        },
        SettingsAction::Toggle(ToggleAction::Vim) => {
            app.prefs.vim_enabled = !app.prefs.vim_enabled;
            app.flash(concat2("vim mode ", on_off(app.prefs.vim_enabled)));
            SettingsEffect::ComposerInsert
        },
        SettingsAction::Toggle(ToggleAction::AutoCompact) => {
            let next = !match app.session.auto_compaction {
                Some(x) => x,
                None => true,
            };
            app.session.auto_compaction = Some(next);
            if online {
                app.flash_success(concat2("auto-compact ", on_off(next)));
                SettingsEffect::Send(AgentCommand::SetAutoCompaction(next))
            } else {
                app.flash_warn(
                    concat3("auto-compact ", on_off(next), " — offline, applies next session"),
                );
                SettingsEffect::Nothing
            }
        },
        SettingsAction::Toggle(ToggleAction::AutoRetry) => {
            let next = !match app.session.auto_retry {
                Some(x) => x,
                None => true,
            };
            app.session.auto_retry = Some(next);
            if online {
                app.flash_success(concat2("auto-retry ", on_off(next)));
                SettingsEffect::Send(AgentCommand::SetAutoRetry(next))
            } else {
                app.flash_warn(
                    concat3("auto-retry ", on_off(next), " — offline, applies next session"),
                );
                SettingsEffect::Nothing
            }
        },
        SettingsAction::Toggle(ToggleAction::PlanAutoRun) => {
            app.prefs.plan_auto_run = !app.prefs.plan_auto_run;
            app.flash(concat2("plan auto-run ", on_off(app.prefs.plan_auto_run)));
            SettingsEffect::Nothing
        },
        SettingsAction::Toggle(ToggleAction::ShowRawMarkers) => {
            app.prefs.show_raw_markers = !app.prefs.show_raw_markers;
            let shown = if app.prefs.show_raw_markers {
                "visible"
            } else {
                "hidden"
            };
            app.flash(concat2("raw markers ", shown));
            SettingsEffect::Nothing
        },
        SettingsAction::Cycle(CycleAction::Theme, CycleDir::Backward) => SettingsEffect::PrevTheme,
        SettingsAction::Cycle(_, CycleDir::Backward) => SettingsEffect::Nothing,
        SettingsAction::Cycle(CycleAction::Theme, _) => SettingsEffect::NextTheme,
        SettingsAction::Cycle(CycleAction::ThinkingLevel, _) => {
            if online {
                SettingsEffect::Send(AgentCommand::CycleThinkingLevel)
            } else {
                SettingsEffect::Nothing
            }
        },
        SettingsAction::Cycle(CycleAction::Model, _) => {
            if online {
                SettingsEffect::Send(AgentCommand::CycleModel)
            } else {
                SettingsEffect::Nothing
            }
        },
        SettingsAction::Cycle(CycleAction::SteeringMode, _) => {
            let cur = match app.session.steering_mode {
                Some(m) => m,
                None => QueueMode::All,
            };
            let next = cur.toggled();
            app.session.steering_mode = Some(next);
            if online {
                SettingsEffect::Send(AgentCommand::SetSteeringMode(next))
            } else {
                SettingsEffect::Nothing
            }
        },
        SettingsAction::Cycle(CycleAction::FollowUpMode, _) => {
            let cur = match app.session.follow_up_mode {
                Some(m) => m,
                None => QueueMode::All,
            };
            let next = cur.toggled();
            app.session.follow_up_mode = Some(next);
            if online {
                SettingsEffect::Send(AgentCommand::SetFollowUpMode(next))
            } else {
                SettingsEffect::Nothing
            }
        },
    }
}

} // verus!

verus! {

/// The value the settings show for toggle `t`.
pub open spec fn toggle_value(a: App, t: ToggleAction) -> bool {
    match t {
        ToggleAction::ShowThinking => a.prefs.show_thinking,
        ToggleAction::Notify => a.notify_enabled,
        ToggleAction::Vim => a.prefs.vim_enabled,
        ToggleAction::AutoCompact => match a.session.auto_compaction {
            Some(x) => x,
            None => true,
        },
        ToggleAction::AutoRetry => match a.session.auto_retry {
            Some(x) => x,
            None => true,
        },
        ToggleAction::PlanAutoRun => a.prefs.plan_auto_run,
        ToggleAction::ShowRawMarkers => a.prefs.show_raw_markers,
    }
}

/// Acting on a toggle row flips the value that row shows and no other
/// toggle's value, online or not; so acting on it twice shows the value
/// it started with.
pub proof fn lemma_toggle_flips(
    a: App,
    online: bool,
    t: ToggleAction,
    b: App,
    eff: SettingsEffect,
    u: ToggleAction,
)
    requires
        settings_dispatched(a, online, SettingsAction::Toggle(t), b, eff),
    ensures
        toggle_value(b, t) == !toggle_value(a, t),
        u != t ==> toggle_value(b, u) == toggle_value(a, u),
{
}

/// Stepping a queue-mode row forward twice shows the mode it started with,
/// reading an unknown mode as `All`.
pub proof fn lemma_queue_mode_cycles(
    a: App,
    online: bool,
    c: CycleAction,
    b: App,
    e1: SettingsEffect,
    online2: bool,
    d: App,
    e2: SettingsEffect,
)
    requires
        c == CycleAction::SteeringMode || c == CycleAction::FollowUpMode,
        settings_dispatched(a, online, SettingsAction::Cycle(c, CycleDir::Forward), b, e1),
        settings_dispatched(b, online2, SettingsAction::Cycle(c, CycleDir::Forward), d, e2),
    ensures
        c == CycleAction::SteeringMode ==> d.session.steering_mode == Some(
            match a.session.steering_mode {
                Some(m) => m,
                None => QueueMode::All,
            },
        ),
        c == CycleAction::FollowUpMode ==> d.session.follow_up_mode == Some(
            match a.session.follow_up_mode {
                Some(m) => m,
                None => QueueMode::All,
            },
        ),
{
}

} // verus!

verus! {

use vstd::arithmetic::div_mod::{
    lemma_fundamental_div_mod, lemma_fundamental_div_mod_converse, lemma_mod_bound,
    lemma_mod_multiples_vanish,
};

/// The row reached from `p` after `k` steps in direction `forward` among
/// `n` rows, wrapping.
pub open spec fn pos_after(p: int, n: int, forward: bool, k: int) -> int {
    if forward {
        (p + k) % n
    } else {
        (p - k) % n
    }
}

/// One more step lands on the next position.
proof fn lemma_advance_pos(p: int, n: int, forward: bool, k: int)
    requires
        0 < n,
    ensures
        0 <= pos_after(p, n, forward, k) < n,
        advance(pos_after(p, n, forward, k), n, forward) == pos_after(p, n, forward, k + 1),
{
    let a = if forward {
        p + k
    } else {
        p - k
    };
    let x = a % n;
    let d = a / n;
    lemma_fundamental_div_mod(a, n);
    lemma_mod_bound(a, n);
    if forward {
        if x + 1 < n {
            assert(a + 1 == d * n + (x + 1)) by (nonlinear_arith)
                requires
                    a == n * d + x,
            ;
            lemma_fundamental_div_mod_converse(a + 1, n, d, x + 1);
        } else {
            assert(a + 1 == (d + 1) * n + 0) by (nonlinear_arith)
                requires
                    a == n * d + x,
                    x + 1 == n,
            ;
            lemma_fundamental_div_mod_converse(a + 1, n, d + 1, 0);
        }
    } else {
        if x >= 1 {
            assert(a - 1 == d * n + (x - 1)) by (nonlinear_arith)
                requires
                    a == n * d + x,
            ;
            lemma_fundamental_div_mod_converse(a - 1, n, d, x - 1);
        } else {
            assert(a - 1 == (d - 1) * n + (n - 1)) by (nonlinear_arith)
                requires
                    a == n * d + x,
                    x == 0,
            ;
            lemma_fundamental_div_mod_converse(a - 1, n, d - 1, n - 1);
        }
    }
}

/// Walking from the `i`th position finds the `j`th when it is the first
/// selectable one after the `i`th, within reach.
proof fn lemma_walk_finds(rows: Seq<SettingsRow>, s: int, forward: bool, i: int, m: nat, j: int)
    requires
        rows.len() > 0,
        i < j <= i + m,
        selectable(rows[pos_after(s, rows.len() as int, forward, j)]),
        forall|l: int|
            i < l < j ==> !selectable(#[trigger] rows[pos_after(s, rows.len() as int, forward, l)]),
    ensures
        walk(rows, pos_after(s, rows.len() as int, forward, i), forward, m) == Some(
            pos_after(s, rows.len() as int, forward, j),
        ),
    decreases m,
{
    lemma_advance_pos(s, rows.len() as int, forward, i);
    if j != i + 1 {
        assert(!selectable(rows[pos_after(s, rows.len() as int, forward, i + 1)]));
        lemma_walk_finds(rows, s, forward, i + 1, (m - 1) as nat, j);
    }
}

/// Walking from the `i`th position finds something when a selectable row
/// is within reach.
proof fn lemma_walk_some(rows: Seq<SettingsRow>, s: int, forward: bool, i: int, m: nat, j: int)
    requires
        rows.len() > 0,
        i < j <= i + m,
        selectable(rows[pos_after(s, rows.len() as int, forward, j)]),
    ensures
        walk(rows, pos_after(s, rows.len() as int, forward, i), forward, m) is Some,
    decreases m,
{
    lemma_advance_pos(s, rows.len() as int, forward, i);
    if !selectable(rows[pos_after(s, rows.len() as int, forward, i + 1)]) {
        lemma_walk_some(rows, s, forward, i + 1, (m - 1) as nat, j);
    }
}

/// What walking from the `i`th position finds is the first selectable
/// position after it.
proof fn lemma_walk_result(rows: Seq<SettingsRow>, s: int, forward: bool, i: int, m: nat) -> (j: int)
    requires
        rows.len() > 0,
        walk(rows, pos_after(s, rows.len() as int, forward, i), forward, m) is Some,
    ensures
        i < j <= i + m,
        walk(rows, pos_after(s, rows.len() as int, forward, i), forward, m) == Some(
            pos_after(s, rows.len() as int, forward, j),
        ),
        selectable(rows[pos_after(s, rows.len() as int, forward, j)]),
        forall|l: int|
            i < l < j ==> !selectable(#[trigger] rows[pos_after(s, rows.len() as int, forward, l)]),
    decreases m,
{
    lemma_advance_pos(s, rows.len() as int, forward, i);
    if selectable(rows[pos_after(s, rows.len() as int, forward, i + 1)]) {
        i + 1
    } else {
        lemma_walk_result(rows, s, forward, i + 1, (m - 1) as nat)
    }
}

/// Stepping back `l` from `k` steps forward is `k - l` steps forward.
proof fn lemma_back_from_ahead(s: int, n: int, k: int, l: int)
    requires
        0 < n,
    ensures
        pos_after(pos_after(s, n, true, k), n, false, l) == pos_after(s, n, true, k - l),
{
    let a = s + k;
    lemma_fundamental_div_mod(a, n);
    let d = a / n;
    let x = a % n;
    assert(a - l == n * d + (x - l)) by (nonlinear_arith)
        requires
            a == n * d + x,
    ;
    lemma_mod_multiples_vanish(d, x - l, n);
}

/// BackTab undoes Tab in the `/settings` dialog: from a selectable row,
/// a step forward and a step back return to it.
pub proof fn lemma_backtab_undoes_tab(rows: Seq<SettingsRow>, sel: int, user_scrolled: bool)
    requires
        0 <= sel < rows.len(),
        selectable(rows[sel]),
    ensures
        ({
            let t = settings_key_effect(rows, sel, user_scrolled, KeyCode::Tab);
            settings_key_effect(rows, t.0, t.1, KeyCode::BackTab).0 == sel
        }),
{
    let n = rows.len() as int;
    lemma_fundamental_div_mod_converse(sel, n, 0, sel);
    lemma_fundamental_div_mod_converse(sel + n, n, 1, sel);
    assert(pos_after(sel, n, true, 0) == sel);
    assert(pos_after(sel, n, true, n) == sel);
    lemma_walk_some(rows, sel, true, 0, n as nat, n);
    let k = lemma_walk_result(rows, sel, true, 0, n as nat);
    let ahead = pos_after(sel, n, true, k);
    lemma_advance_pos(sel, n, true, k - 1);
    lemma_back_from_ahead(sel, n, k, 0);
    lemma_back_from_ahead(sel, n, k, k);
    assert forall|l: int| 0 < l < k implies !selectable(#[trigger] rows[pos_after(ahead, n, false, l)]) by {
        lemma_back_from_ahead(sel, n, k, l);
        assert(!selectable(rows[pos_after(sel, n, true, k - l)]));
    }
    lemma_walk_finds(rows, ahead, false, 0, n as nat, k);
}

/// The row of the settings that switches `t`.
pub open spec fn toggle_row_index(t: ToggleAction) -> int {
    match t {
        ToggleAction::ShowThinking => 10,
        ToggleAction::Notify => 11,
        ToggleAction::AutoCompact => 12,
        ToggleAction::AutoRetry => 13,
        ToggleAction::PlanAutoRun => 14,
        ToggleAction::Vim => 17,
        ToggleAction::ShowRawMarkers => 18,
    }
}

/// The row of the settings that steps `c`.
pub open spec fn cycle_row_index(c: CycleAction) -> int {
    match c {
        CycleAction::Model => 5,
        CycleAction::ThinkingLevel => 6,
        CycleAction::SteeringMode => 7,
        CycleAction::FollowUpMode => 8,
        CycleAction::Theme => 16,
    }
}

/// Whatever the state, every switch and every multi-valued setting has
/// one row in the settings, and only one.
pub proof fn lemma_every_setting_has_one_row(app: App, host: HostInfo)
    ensures
        forall|t: ToggleAction|
            0 <= #[trigger] toggle_row_index(t) < settings_rows(app, host).len() && settings_rows(
                app,
                host,
            )[toggle_row_index(t)].4 == Some(t),
        forall|c: CycleAction|
            0 <= #[trigger] cycle_row_index(c) < settings_rows(app, host).len() && settings_rows(
                app,
                host,
            )[cycle_row_index(c)].5 == Some(c),
        forall|i: int|
            0 <= i < settings_rows(app, host).len() && (#[trigger] settings_rows(app, host)[i]).4 is Some
                ==> i == toggle_row_index(settings_rows(app, host)[i].4->0),
        forall|i: int|
            0 <= i < settings_rows(app, host).len() && (#[trigger] settings_rows(app, host)[i]).5 is Some
                ==> i == cycle_row_index(settings_rows(app, host)[i].5->0),
{
    let rows = settings_rows(app, host);
    let head = session_rows(app, host) + model_rows(app) + behavior_rows(app) + appearance_rows(
        app,
        host,
    );
    let tail = live_rows(app, host) + capability_rows(host) + path_rows(host);
    assert(rows =~= head + tail);
    assert(head.len() == 19);
    assert forall|k: int| 0 <= k < tail.len() implies #[trigger] tail[k].4 is None && tail[k].5 is None by {
        let l = live_rows(app, host);
        let c = capability_rows(host);
        let p = path_rows(host);
        if k < l.len() {
            assert(tail[k] == l[k]);
        } else if k < l.len() + c.len() {
            assert(tail[k] == c[k - l.len()]);
        } else {
            assert(tail[k] == p[k - l.len() - c.len()]);
        }
    }
    assert forall|i: int| 19 <= i < rows.len() implies #[trigger] rows[i].4 is None && rows[i].5 is None by {
        assert(rows[i] == tail[i - 19]);
    }
}

} // verus!
