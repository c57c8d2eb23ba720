//! The open dialog and what a key does to it: one dispatch over every
//! kind of dialog, each kind handled by its own key function.

use vstd::prelude::*;
use vstd::string::*;

use crate::app::{App, keeps_core, keeps_queues, keeps_run, keeps_tools, keeps_turn, opt_view};
use crate::helpers::{concat3, decimal, decimal_string};
use crate::keys::{KeyCode, KeyModifiers};
use crate::modals::{
    ConfirmOutcome, PickOutcome, PlanReviewMode, PlanReviewState, ReviewOutcome, SearchState, Template,
    TemplateOutcome, confirm_effect, confirm_key, git_log_effect, git_log_key, handle_list_keys,
    input_key, list_key_effect, nth_listed, pick_branch, pick_effect, pick_key, plan_review_key,
    popped, review_key_effect, search_effect, template_effect, viewer_dismiss_key,
    viewer_scroll_effect, viewer_scroll_key,
};
use crate::settings::{
    HostInfo, Preferences, SettingsEffect, SettingsRow, SettingsState, build_settings_rows,
    dispatch_settings_action, rows_view, settings_dispatched, settings_key, settings_key_effect,
    settings_rows,
};
use crate::mouse::{
    ChipTag, ClickOutcome, MouseMap, bump_scroll, bumped_scroll, clicked, modal_click_outcome, wheeled,
};
use crate::slash::{ThinkingLevel, interview_cancel_effect, interview_note};
use crate::interview::{InterviewState, form_as, interview_key, interview_key_effect, question_count, questions};
use crate::status::FlashKind;
use crate::settings::flashed;
use crate::transcript::{Entry, appended, bumped};
use crate::layout::capped;
use crate::mouse::Rect;
use crate::settings::{row_line, settings_row_source_line};
use crate::text::blen;

verus! {

/// The read-only viewers, which only close.
#[derive(Clone, Copy, Debug, PartialEq, Eq, Structural)]
pub enum ViewerKind {
    Stats,
    Help,
    GitStatus,
    PlanView,
    Doctor,
    Mcp,
}

/// An open dialog, with the state its keys act on.
pub enum Modal {
    Viewer(ViewerKind),
    /// A diff, scrolled by `scroll` lines.
    Diff { scroll: u16 },
    /// The keyboard shortcut reference, scrolled by `scroll` lines.
    Shortcuts { scroll: u16 },
    Settings(SettingsState),
    /// The stored templates, one of them selected.
    Templates { items: Vec<Template>, selected: usize },
    Search(SearchState),
    /// The git log of `commits` commits, one of them selected.
    GitLog { commits: usize, selected: usize },
    /// The git branches, filtered by `query`, the `selected`-th listed one
    /// selected.
    GitBranch { branches: Vec<String>, query: String, selected: usize },
    /// The thinking-level picker, with the six levels as options.
    Thinking { selected: usize },
    /// An extension asks to pick one of `options`.
    ExtSelect { request_id: String, title: String, options: Vec<String>, selected: usize },
    /// An extension asks yes (1) or no (0).
    ExtConfirm { request_id: String, title: String, message: Option<String>, selected: usize },
    /// An extension asks for a text; `editor` marks its multi-line form,
    /// which takes the same keys.
    ExtInput {
        request_id: String,
        title: String,
        placeholder: Option<String>,
        value: String,
        editor: bool,
    },
    PlanReview(PlanReviewState),
    /// An interview form the agent asked the user to fill in.
    Interview(InterviewState),
}

impl Modal {
    /// The selections stay among the options and the cursors on character
    /// boundaries.
    pub open spec fn wf(&self) -> bool {
        match self {
            Modal::Search(s) => s.wf(),
            Modal::PlanReview(s) => s.wf(),
            Modal::ExtConfirm { selected, .. } => *selected <= 1,
            Modal::Thinking { selected } => *selected < 6,
            Modal::Interview(s) => s.wf(),
            _ => true,
        }
    }

    /// The text being typed has room for one more character.
    pub open spec fn has_room(&self) -> bool {
        match self {
            Modal::Search(s) => blen(s.query@) + 4 <= usize::MAX,
            Modal::PlanReview(s) => match s.editing {
                Some(e) => blen(e.buffer@) + 4 <= usize::MAX,
                None => true,
            },
            Modal::Interview(s) => s.has_room(),
            _ => true,
        }
    }
}

/// An answer to an extension's request.
pub enum ExtReply {
    Value(String),
    Confirmed(bool),
    Cancelled,
}

/// What the host does after a key in a dialog.
pub enum ModalAction {
    Nothing,
    /// Carry out what a settings change asks.
    Settings(SettingsEffect),
    /// Carry out what the template picker asks.
    Template(TemplateOutcome),
    /// Switch to this git branch.
    SwitchBranch(String),
    /// Ask the agent for this thinking level.
    SetThinking(ThinkingLevel),
    /// Answer the extension's request `request_id`.
    Ext { request_id: String, reply: ExtReply },
    /// Carry out what the plan review asks, with the steps and the
    /// auto-run choice as the dialog holds them after the key.
    Plan { outcome: ReviewOutcome, items: Vec<String>, auto_run: bool },
    /// The interview form, as the dialog returned with this action holds
    /// it, was submitted: send its answers.
    InterviewSubmitted,
}

/// The template picker closes on this outcome.
pub open spec fn closes_template(r: TemplateOutcome) -> bool {
    match r {
        TemplateOutcome::Close | TemplateOutcome::Load(_) => true,
        TemplateOutcome::Delete { close, .. } => close,
        TemplateOutcome::Nothing => false,
    }
}

/// The plan review closes on this outcome.
pub open spec fn closes_review(r: ReviewOutcome) -> bool {
    r is Accept || r is Deny || r is AcceptEdited
}

/// `act` answers request `id` with the value `v`.
pub open spec fn ext_value(act: ModalAction, id: Seq<char>, v: Seq<char>) -> bool {
    act matches ModalAction::Ext { request_id, reply: ExtReply::Value(x) } && request_id@ == id && x@
        == v
}

/// `act` answers request `id` with yes or no.
pub open spec fn ext_confirmed(act: ModalAction, id: Seq<char>, yes: bool) -> bool {
    act matches ModalAction::Ext { request_id, reply: ExtReply::Confirmed(y) } && request_id@ == id
        && y == yes
}

/// `act` cancels request `id`.
pub open spec fn ext_cancelled(act: ModalAction, id: Seq<char>) -> bool {
    act matches ModalAction::Ext { request_id, reply: ExtReply::Cancelled } && request_id@ == id
}

/// The settings dialog `s` after a key, given the settings `rows`: `t`,
/// whether it closes, the app `b` and the host's action `act`.
pub open spec fn settings_arm(
    a: App,
    b: App,
    rows: Seq<SettingsRow>,
    s: SettingsState,
    online: bool,
    code: KeyCode,
    t: SettingsState,
    close: bool,
    act: ModalAction,
) -> bool {
    let e = settings_key_effect(rows, s.selected as int, s.user_scrolled, code);
    &&& t.selected as int == e.0 && t.user_scrolled == e.1 && t.scroll == s.scroll
    &&& close == e.3
    &&& match e.2 {
        Some(action) if !e.3 => (act matches ModalAction::Settings(eff) && settings_dispatched(
            a,
            online,
            action,
            b,
            eff,
        )),
        _ => b == a && act is Nothing,
    }
}

/// The settings dialog `s` after a key, its rows built from `a` and
/// `host`: `t`, whether it closes, the app `b` and the host's action.
pub open spec fn settings_effect(
    a: App,
    b: App,
    host: HostInfo,
    s: SettingsState,
    online: bool,
    code: KeyCode,
    t: SettingsState,
    close: bool,
    act: ModalAction,
) -> bool {
    exists|rows: Seq<SettingsRow>|
        rows_view(rows) == settings_rows(a, host) && #[trigger] settings_arm(
            a,
            b,
            rows,
            s,
            online,
            code,
            t,
            close,
            act,
        )
}

/// What a key does in dialog `m`: `a` becomes `b`, the dialog becomes
/// `next` (dropped by the host when `close`), and the host carries out
/// `act`.
pub open spec fn modal_key_effect(
    a: App,
    b: App,
    m: Modal,
    host: HostInfo,
    online: bool,
    code: KeyCode,
    mods: KeyModifiers,
    next: Modal,
    close: bool,
    act: ModalAction,
) -> bool {
    match m {
        Modal::Viewer(k) => {
            &&& b == a && act is Nothing && next == Modal::Viewer(k)
            &&& close == (code is Esc || code is Enter || code == KeyCode::Char('q'))
        },
        Modal::Diff { scroll } => {
            let e = viewer_scroll_effect(scroll, code);
            b == a && act is Nothing && next == Modal::Diff { scroll: e.0 } && close == e.1
        },
        Modal::Shortcuts { scroll } => {
            let e = viewer_scroll_effect(scroll, code);
            b == a && act is Nothing && next == Modal::Shortcuts { scroll: e.0 } && close == e.1
        },
        Modal::Settings(s) => (next matches Modal::Settings(t) && settings_effect(
            a,
            b,
            host,
            s,
            online,
            code,
            t,
            close,
            act,
        )),
        Modal::Templates { items, selected } => {
            &&& next matches Modal::Templates { items: ys, selected: t }
            &&& act matches ModalAction::Template(r)
            &&& template_effect(a, b, items@, selected as int, ys@, t as int, code, r)
            &&& close == closes_template(r)
        },
        Modal::Search(s) => {
            &&& next matches Modal::Search(t)
            &&& search_effect(a, b, s, t, code, mods, close)
            &&& act is Nothing
        },
        Modal::GitLog { commits, selected } => {
            let e = git_log_effect(selected as int, commits as int, code);
            &&& b == a && act is Nothing && close == e.1
            &&& next matches Modal::GitLog { commits: c, selected: t } && c == commits && t as int
                == e.0
        },
        Modal::GitBranch { branches, query, selected } => {
            let e = list_key_effect(query@, selected as int, code, branches@.len() as int);
            &&& b == a
            &&& next matches Modal::GitBranch { branches: bs, query: q, selected: t }
            &&& bs@ == branches@
            &&& if e.2 {
                q@ == e.0 && t as int == e.1 && !close && act is Nothing
            } else {
                &&& q@ == query@ && t == selected
                &&& match code {
                    KeyCode::Esc => close && act is Nothing,
                    KeyCode::Enter => close && match nth_listed(branches@, query@, selected as int) {
                        Some(name) => (act matches ModalAction::SwitchBranch(x) && x@ == name@),
                        None => act is Nothing,
                    },
                    _ => !close && act is Nothing,
                }
            }
        },
        Modal::Thinking { selected } => {
            let e = pick_effect(selected, 6, code);
            &&& b == a && next == Modal::Thinking { selected: e.0 }
            &&& match e.1 {
                PickOutcome::Choose(i) => close && (act matches ModalAction::SetThinking(l) && Some(l)
                    == ThinkingLevel::option(i as int)),
                PickOutcome::Cancel => close && act is Nothing,
                PickOutcome::Nothing => !close && act is Nothing,
            }
        },
        Modal::ExtSelect { request_id, title, options, selected } => {
            let e = pick_effect(selected, options@.len() as usize, code);
            &&& b == a
            &&& next matches Modal::ExtSelect { request_id: id, title: ti, options: os, selected: t }
            &&& id@ == request_id@ && ti@ == title@ && os@ == options@ && t == e.0
            &&& match e.1 {
                PickOutcome::Choose(i) => close && if i < options@.len() {
                    ext_value(act, request_id@, options@[i as int]@)
                } else {
                    act is Nothing
                },
                PickOutcome::Cancel => close && ext_cancelled(act, request_id@),
                PickOutcome::Nothing => !close && act is Nothing,
            }
        },
        Modal::ExtConfirm { request_id, title, message, selected } => {
            let e = confirm_effect(selected, code);
            &&& b == a
            &&& next matches Modal::ExtConfirm { request_id: id, title: ti, message: me, selected: t }
            &&& id@ == request_id@ && ti@ == title@ && opt_view(me) == opt_view(message) && t == e.0
            &&& match e.1 {
                ConfirmOutcome::Answer(y) => close && ext_confirmed(act, request_id@, y),
                ConfirmOutcome::Cancel => close && ext_cancelled(act, request_id@),
                ConfirmOutcome::Nothing => !close && act is Nothing,
            }
        },
        Modal::ExtInput { request_id, title, placeholder, value, editor } => {
            &&& b == a
            &&& next matches Modal::ExtInput {
                request_id: id,
                title: ti,
                placeholder: pl,
                value: w,
                editor: ed,
            }
            &&& id@ == request_id@ && ti@ == title@ && opt_view(pl) == opt_view(placeholder)
            &&& ed == editor
            &&& match code {
                KeyCode::Char(ch) => w@ == value@.push(ch) && !close && act is Nothing,
                KeyCode::Backspace => w@ == popped(value@) && !close && act is Nothing,
                KeyCode::Enter => w@ == Seq::<char>::empty() && close && ext_value(
                    act,
                    request_id@,
                    value@,
                ),
                KeyCode::Esc => w@ == value@ && close && ext_cancelled(act, request_id@),
                _ => w@ == value@ && !close && act is Nothing,
            }
        },
        Modal::Interview(s) => {
            &&& next matches Modal::Interview(t)
            &&& if code is Esc {
                close && act is Nothing && interview_cancel_effect(a, b) && t == s
            } else {
                &&& b == a && interview_key_effect(s, t, code, mods, close)
                &&& if close {
                    act is InterviewSubmitted
                } else {
                    act is Nothing
                }
            }
        },
        Modal::PlanReview(s) => {
            &&& b == a
            &&& next matches Modal::PlanReview(t)
            &&& if act is Nothing {
                review_key_effect(s, t, code, mods, ReviewOutcome::Nothing) && !close
            } else {
                &&& act matches ModalAction::Plan { outcome, items, auto_run }
                &&& outcome != ReviewOutcome::Nothing
                &&& review_key_effect(s, t, code, mods, outcome)
                &&& close == closes_review(outcome)
                &&& items@ == t.items@ && auto_run == t.auto_run_pref
            }
        },
    }
}

/// A dialog an extension asks the user to answer.
pub enum ExtDialogRequest {
    Select { id: String, title: String, options: Vec<String> },
    Confirm { id: String, title: String, message: Option<String> },
    Input { id: String, title: String, placeholder: Option<String> },
    /// A multi-line text, starting from `prefill`.
    Editor { id: String, title: String, prefill: String },
}

/// The dialog that answers an extension's request: the first option or
/// "no" selected, the text empty or, for the editor, prefilled.
pub fn ext_dialog(req: ExtDialogRequest) -> (m: Modal)
    ensures
        m.wf(),
        match req {
            ExtDialogRequest::Select { id, title, options } => m matches Modal::ExtSelect {
                request_id: i,
                title: t,
                options: o,
                selected: s,
            } && i@ == id@ && t@ == title@ && o@ == options@ && s == 0,
            ExtDialogRequest::Confirm { id, title, message } => m matches Modal::ExtConfirm {
                request_id: i,
                title: t,
                message: x,
                selected: s,
            } && i@ == id@ && t@ == title@ && opt_view(x) == opt_view(message) && s == 0,
            ExtDialogRequest::Input { id, title, placeholder } => m matches Modal::ExtInput {
                request_id: i,
                title: t,
                placeholder: p,
                value: v,
                editor: e,
            } && i@ == id@ && t@ == title@ && opt_view(p) == opt_view(placeholder) && v@
                == Seq::<char>::empty() && !e,
            ExtDialogRequest::Editor { id, title, prefill } => m matches Modal::ExtInput {
                request_id: i,
                title: t,
                placeholder: p,
                value: v,
                editor: e,
            } && i@ == id@ && t@ == title@ && p is None && v@ == prefill@ && e,
        },
{
    match req {
        ExtDialogRequest::Select { id, title, options } => Modal::ExtSelect {
            request_id: id,
            title,
            options,
            selected: 0,
        },
        ExtDialogRequest::Confirm { id, title, message } => Modal::ExtConfirm {
            request_id: id,
            title,
            message,
            selected: 0,
        },
        ExtDialogRequest::Input { id, title, placeholder } => Modal::ExtInput {
            request_id: id,
            title,
            placeholder,
            value: String::new(),
            editor: false,
        },
        ExtDialogRequest::Editor { id, title, prefill } => Modal::ExtInput {
            request_id: id,
            title,
            placeholder: None,
            value: prefill,
            editor: true,
        },
    }
}

/// The template selected after a wheel turn of `delta` rows among `n`
/// templates: one down for a turn down, else one up, kept among them.
pub open spec fn wheel_selection(sel: int, delta: i32, n: int) -> int {
    let want = if delta > 0 {
        sel + 1
    } else {
        sel - 1
    };
    if want < 0 {
        0
    } else if want > n - 1 {
        n - 1
    } else {
        want
    }
}

/// What a wheel turn of `delta` rows (negative up) does to dialog `m`:
/// the dialog becomes `next`, and `consumed` tells whether the dialog took
/// the turn (the transcript scrolls otherwise).
pub open spec fn modal_wheel_effect(m: Modal, delta: i32, next: Modal, consumed: bool) -> bool {
    match m {
        Modal::Shortcuts { scroll } => consumed && next == Modal::Shortcuts {
            scroll: bumped_scroll(scroll, delta),
        },
        Modal::Diff { scroll } => consumed && next == Modal::Diff { scroll: bumped_scroll(scroll, delta) },
        Modal::Settings(s) => {
            &&& consumed
            &&& next matches Modal::Settings(t)
            &&& t.scroll == bumped_scroll(s.scroll, delta) && t.user_scrolled
            &&& t.selected == s.selected
        },
        Modal::PlanReview(s) => {
            &&& consumed
            &&& next matches Modal::PlanReview(t)
            &&& t.scroll == bumped_scroll(s.scroll, delta)
            &&& t.items@ == s.items@ && t.selected == s.selected && t.mode == s.mode
            &&& t.editing == s.editing && t.auto_run_pref == s.auto_run_pref
        },
        Modal::Templates { items, selected } => {
            &&& consumed
            &&& next matches Modal::Templates { items: ys, selected: t }
            &&& ys@ == items@
            &&& t as int == if items@.len() == 0 {
                selected as int
            } else {
                wheel_selection(selected as int, delta, items@.len() as int)
            }
        },
        Modal::Interview(s) => {
            &&& consumed
            &&& next matches Modal::Interview(t)
            &&& form_as(s, t, s.focus as int, bumped_scroll(s.scroll, delta), true)
            &&& t.validation_error == s.validation_error
        },
        _ => !consumed && next == m,
    }
}

/// A wheel turn of `delta` rows (negative up) over the dialog `m`, if
/// one is open: the scrollable dialogs scroll by it (the settings then
/// stop following the selection), the template picker moves its
/// selection by one, the interview form scrolls by it and stops following
/// its focus; the other dialogs, and no dialog, leave it to the
/// transcript. Returns the dialog after the turn and whether it took the
/// turn.
pub fn scroll_modal(m: Option<Modal>, delta: i32) -> (r: (Option<Modal>, bool))
    requires
        m matches Some(x) ==> x.wf(),
    ensures
        match m {
            None => r.0 is None && !r.1,
            Some(x) => r.0 matches Some(y) && y.wf() && modal_wheel_effect(x, delta, y, r.1),
        },
{
    let m = match m {
        None => {
            return (None, false);
        },
        Some(x) => x,
    };
    let (next, consumed) = match m {
        Modal::Shortcuts { scroll } => (Modal::Shortcuts { scroll: bump_scroll(scroll, delta) }, true),
        Modal::Diff { scroll } => (Modal::Diff { scroll: bump_scroll(scroll, delta) }, true),
        Modal::Settings(s) => {
            let mut t = s;
            t.scroll = bump_scroll(t.scroll, delta);
            t.user_scrolled = true;
            (Modal::Settings(t), true)
        },
        Modal::PlanReview(s) => {
            let mut t = s;
            t.scroll = bump_scroll(t.scroll, delta);
            (Modal::PlanReview(t), true)
        },
        Modal::Templates { items, selected } => {
            let n = items.len();
            let mut sel = selected;
            if n > 0 {
                sel = if delta > 0 {
                    if selected < n - 1 {
                        selected + 1
                    } else {
                        n - 1
                    }
                } else {
                    if selected == 0 {
                        0
                    } else if selected - 1 > n - 1 {
                        n - 1
                    } else {
                        selected - 1
                    }
                };
            }
            (Modal::Templates { items, selected: sel }, true)
        },
        Modal::Interview(s) => {
            let mut t = s;
            t.scroll = bump_scroll(t.scroll, delta);
            t.user_scrolled = true;
            (Modal::Interview(t), true)
        },
        other => (other, false),
    };
    (Some(next), consumed)
}

/// `sel` moved to row `i` of `n`, when there is such a row.
pub open spec fn picked_row(sel: usize, i: usize, n: int) -> usize {
    if i < n {
        i
    } else {
        sel
    }
}

/// `act` asks the host to carry out plan review outcome `o` with the
/// steps and auto-run choice of `t`.
pub open spec fn plan_act(act: ModalAction, o: ReviewOutcome, t: PlanReviewState) -> bool {
    act matches ModalAction::Plan { outcome, items, auto_run } && outcome == o && items@ == t.items@
        && auto_run == t.auto_run_pref
}

/// What a click on chip `tag` does to dialog `m`: the dialog becomes
/// `next` (dropped when `close`) and the host carries out `act`. A row
/// chip selects its row; the plan review's chips accept, edit or deny;
/// the yes/no chips answer. A chip that does not belong to the dialog
/// does nothing.
pub open spec fn chip_effect(m: Modal, tag: ChipTag, next: Modal, close: bool, act: ModalAction) -> bool {
    match (m, tag) {
        (Modal::Settings(s), ChipTag::SettingsRow(i)) => {
            &&& !close && act is Nothing
            &&& next matches Modal::Settings(t) && t.selected == i && !t.user_scrolled && t.scroll
                == s.scroll
        },
        (Modal::Templates { items, selected }, ChipTag::ListRow(i)) => {
            &&& !close && act is Nothing
            &&& next matches Modal::Templates { items: ys, selected: t } && ys@ == items@ && t
                == picked_row(selected, i, items@.len() as int)
        },
        (Modal::GitLog { commits, selected }, ChipTag::ListRow(i)) => {
            &&& !close && act is Nothing
            &&& next == Modal::GitLog { commits, selected: picked_row(selected, i, commits as int) }
        },
        (Modal::Thinking { selected }, ChipTag::ThinkingOption(i)) => {
            !close && act is Nothing && next == Modal::Thinking { selected: picked_row(selected, i, 6) }
        },
        (Modal::ExtSelect { request_id, title, options, selected }, ChipTag::ExtSelectOption(i)) => {
            &&& !close && act is Nothing
            &&& next matches Modal::ExtSelect { request_id: id, title: ti, options: os, selected: t }
            &&& id@ == request_id@ && ti@ == title@ && os@ == options@
            &&& t == picked_row(selected, i, options@.len() as int)
        },
        (Modal::ExtConfirm { request_id, title, message, selected }, ChipTag::ExtConfirmYes) => {
            &&& close && ext_confirmed(act, request_id@, true)
            &&& next matches Modal::ExtConfirm { request_id: id, title: ti, message: me, selected: t }
            &&& id@ == request_id@ && ti@ == title@ && opt_view(me) == opt_view(message) && t == selected
        },
        (Modal::ExtConfirm { request_id, title, message, selected }, ChipTag::ExtConfirmNo) => {
            &&& close && ext_confirmed(act, request_id@, false)
            &&& next matches Modal::ExtConfirm { request_id: id, title: ti, message: me, selected: t }
            &&& id@ == request_id@ && ti@ == title@ && opt_view(me) == opt_view(message) && t == selected
        },
        (Modal::PlanReview(s), ChipTag::PlanReviewAccept) => {
            close && next == Modal::PlanReview(s) && plan_act(act, ReviewOutcome::Accept, s)
        },
        (Modal::PlanReview(s), ChipTag::PlanReviewDeny) => {
            close && next == Modal::PlanReview(s) && plan_act(act, ReviewOutcome::Deny, s)
        },
        (Modal::PlanReview(s), ChipTag::PlanReviewEdit) => {
            &&& !close && act is Nothing
            &&& next matches Modal::PlanReview(t)
            &&& t.mode == PlanReviewMode::Edit && t.selected == 0
            &&& t.items@ == s.items@ && t.scroll == s.scroll && t.editing == s.editing
            &&& t.auto_run_pref == s.auto_run_pref
        },
        (Modal::PlanReview(s), ChipTag::PlanReviewEditStep(i)) => {
            &&& !close && act is Nothing
            &&& next matches Modal::PlanReview(t)
            &&& t.selected == picked_row(s.selected, i, s.items@.len() as int)
            &&& t.items@ == s.items@ && t.scroll == s.scroll && t.mode == s.mode
            &&& t.editing == s.editing && t.auto_run_pref == s.auto_run_pref
        },
        _ => !close && act is Nothing && next == m,
    }
}

/// A click on chip `tag` of the open dialog `m`, standing for the key
/// that does the same: a row chip selects its row, the plan review's
/// Accept and Deny chips close it with that outcome and its Edit chip
/// turns to the steps, the yes/no chips answer the extension. Returns the
/// dialog after the click, whether it closes, and what the host must do.
pub fn modal_click(m: Modal, tag: ChipTag) -> (r: (Modal, bool, ModalAction))
    requires
        m.wf(),
    ensures
        r.0.wf(),
        chip_effect(m, tag, r.0, r.1, r.2),
{
    match (m, tag) {
        (Modal::Settings(s), ChipTag::SettingsRow(i)) => {
            let mut t = s;
            t.click_row(i);
            (Modal::Settings(t), false, ModalAction::Nothing)
        },
        (Modal::Templates { items, selected }, ChipTag::ListRow(i)) => {
            let sel = if i < items.len() {
                i
            } else {
                selected
            };
            (Modal::Templates { items, selected: sel }, false, ModalAction::Nothing)
        },
        (Modal::GitLog { commits, selected }, ChipTag::ListRow(i)) => {
            let sel = if i < commits {
                i
            } else {
                selected
            };
            (Modal::GitLog { commits, selected: sel }, false, ModalAction::Nothing)
        },
        (Modal::Thinking { selected }, ChipTag::ThinkingOption(i)) => {
            let sel = if i < 6 {
                i
            } else {
                selected
            };
            (Modal::Thinking { selected: sel }, false, ModalAction::Nothing)
        },
        (Modal::ExtSelect { request_id, title, options, selected }, ChipTag::ExtSelectOption(i)) => {
            let sel = if i < options.len() {
                i
            } else {
                selected
            };
            (Modal::ExtSelect { request_id, title, options, selected: sel }, false, ModalAction::Nothing)
        },
        (Modal::ExtConfirm { request_id, title, message, selected }, ChipTag::ExtConfirmYes) => {
            let act = ModalAction::Ext { request_id: request_id.clone(), reply: ExtReply::Confirmed(true) };
            (Modal::ExtConfirm { request_id, title, message, selected }, true, act)
        },
        (Modal::ExtConfirm { request_id, title, message, selected }, ChipTag::ExtConfirmNo) => {
            let act = ModalAction::Ext { request_id: request_id.clone(), reply: ExtReply::Confirmed(false) };
            (Modal::ExtConfirm { request_id, title, message, selected }, true, act)
        },
        (Modal::PlanReview(s), ChipTag::PlanReviewAccept) => {
            let act = ModalAction::Plan {
                outcome: ReviewOutcome::Accept,
                items: s.items.clone(),
                auto_run: s.auto_run_pref,
            };
            (Modal::PlanReview(s), true, act)
        },
        (Modal::PlanReview(s), ChipTag::PlanReviewDeny) => {
            let act = ModalAction::Plan {
                outcome: ReviewOutcome::Deny,
                items: s.items.clone(),
                auto_run: s.auto_run_pref,
            };
            (Modal::PlanReview(s), true, act)
        },
        (Modal::PlanReview(s), ChipTag::PlanReviewEdit) => {
            let mut t = s;
            t.mode = PlanReviewMode::Edit;
            t.selected = 0;
            (Modal::PlanReview(t), false, ModalAction::Nothing)
        },
        (Modal::PlanReview(s), ChipTag::PlanReviewEditStep(i)) => {
            let mut t = s;
            if i < t.items.len() {
                t.selected = i;
            }
            (Modal::PlanReview(t), false, ModalAction::Nothing)
        },
        (other, _) => (other, false, ModalAction::Nothing),
    }
}

/// The key that chip `tag` of dialog `m` stands for, if it stands for
/// one: the plan review's Accept, Edit and Deny chips and the yes/no
/// chips of an extension's question.
pub open spec fn chip_key(m: Modal, tag: ChipTag) -> Option<KeyCode> {
    match (m, tag) {
        (Modal::PlanReview(_), ChipTag::PlanReviewAccept) => Some(KeyCode::Char('a')),
        (Modal::PlanReview(_), ChipTag::PlanReviewEdit) => Some(KeyCode::Char('e')),
        (Modal::PlanReview(_), ChipTag::PlanReviewDeny) => Some(KeyCode::Char('d')),
        (Modal::ExtConfirm { .. }, ChipTag::ExtConfirmYes) => Some(KeyCode::Char('y')),
        (Modal::ExtConfirm { .. }, ChipTag::ExtConfirmNo) => Some(KeyCode::Char('n')),
        _ => None,
    }
}

/// Two dialogs of the kinds that have such chips hold the same.
pub open spec fn same_dialog(x: Modal, y: Modal) -> bool {
    match (x, y) {
        (Modal::PlanReview(s), Modal::PlanReview(t)) => crate::modals::same_review(s, t),
        (
            Modal::ExtConfirm { request_id: i, title: ti, message: me, selected: s },
            Modal::ExtConfirm { request_id: j, title: tj, message: mf, selected: t },
        ) => i@ == j@ && ti@ == tj@ && opt_view(me) == opt_view(mf) && s == t,
        _ => false,
    }
}

/// Two host actions of the kinds such chips give ask the same.
pub open spec fn same_action(x: ModalAction, y: ModalAction) -> bool {
    match (x, y) {
        (ModalAction::Nothing, ModalAction::Nothing) => true,
        (
            ModalAction::Plan { outcome: o, items: xs, auto_run: r },
            ModalAction::Plan { outcome: p, items: ys, auto_run: q },
        ) => o == p && xs@ == ys@ && r == q,
        (
            ModalAction::Ext { request_id: i, reply: ExtReply::Confirmed(u) },
            ModalAction::Ext { request_id: j, reply: ExtReply::Confirmed(v) },
        ) => i@ == j@ && u == v,
        _ => false,
    }
}

/// A chip does what the key it stands for does: the plan review's chips
/// while the review face (which shows them) is up, and the yes/no chips.
pub proof fn lemma_chips_act_as_their_keys(
    a: App,
    b: App,
    m: Modal,
    host: HostInfo,
    online: bool,
    mods: KeyModifiers,
    tag: ChipTag,
    next_click: Modal,
    close_click: bool,
    act_click: ModalAction,
    next_key: Modal,
    close_key: bool,
    act_key: ModalAction,
)
    requires
        chip_key(m, tag) is Some,
        !review_editing(m),
        chip_effect(m, tag, next_click, close_click, act_click),
        modal_key_effect(a, b, m, host, online, chip_key(m, tag)->0, mods, next_key, close_key, act_key),
    ensures
        b == a,
        close_click == close_key,
        same_dialog(next_click, next_key),
        same_action(act_click, act_key),
{
}

/// The dialog takes wheel turns itself.
pub open spec fn takes_wheel(m: Modal) -> bool {
    m is Shortcuts || m is Diff || m is Settings || m is PlanReview || m is Templates || m is Interview
}

impl App {
    /// A wheel turn, up or down, with dialog `m` open or none: a dialog
    /// that scrolls takes the four rows itself, else the transcript
    /// scrolls. Returns the dialog after the turn.
    pub fn mouse_wheel(&mut self, m: Option<Modal>, up: bool) -> (r: Option<Modal>)
        requires
            m matches Some(x) ==> x.wf(),
        ensures
            r matches Some(y) ==> y.wf(),
            match m {
                Some(x) if takes_wheel(x) => *final(self) == *old(self) && (r matches Some(y)
                    && modal_wheel_effect(x, if up { -4i32 } else { 4i32 }, y, true)),
                _ => wheeled(*old(self), *final(self), up) && r == m,
            },
    {
        let delta: i32 = if up {
            -4
        } else {
            4
        };
        let (next, consumed) = scroll_modal(m, delta);
        if !consumed {
            self.wheel(up);
        }
        next
    }

    /// A left click at `(x, y)` on the last frame's regions `map`, with
    /// dialog `m` open or none. With a dialog open, a click outside it
    /// closes it and one on a chip does what the chip stands for; without
    /// one the click lands on the transcript. Returns the dialog after the
    /// click, whether it closes, and what the host must do.
    pub fn mouse_click(&mut self, map: &MouseMap, m: Option<Modal>, x: u16, y: u16) -> (r: (
        Option<Modal>,
        bool,
        ModalAction,
    ))
        requires
            m matches Some(d) ==> d.wf(),
        ensures
            r.0 matches Some(n) ==> n.wf(),
            match m {
                None => r.0 is None && !r.1 && r.2 is Nothing && clicked(
                    *old(self),
                    *final(self),
                    *map,
                    x,
                    y,
                ),
                Some(d) => *final(self) == *old(self) && match modal_click_outcome(*map, x, y) {
                    ClickOutcome::CloseModal => r.0 == Some(d) && r.1 && r.2 is Nothing,
                    ClickOutcome::Chip(tag) => (r.0 matches Some(n) && chip_effect(d, tag, n, r.1, r.2)),
                    ClickOutcome::Nothing => r.0 == Some(d) && !r.1 && r.2 is Nothing,
                },
            },
    {
        match m {
            None => {
                self.on_mouse_click(map, x, y, false);
                (None, false, ModalAction::Nothing)
            },
            Some(d) => match self.on_mouse_click(map, x, y, true) {
                ClickOutcome::CloseModal => (Some(d), true, ModalAction::Nothing),
                ClickOutcome::Chip(tag) => {
                    let (n, close, act) = modal_click(d, tag);
                    (Some(n), close, act)
                },
                ClickOutcome::Nothing => (Some(d), false, ModalAction::Nothing),
            },
        }
    }
}

/// The screen row of body line `src` of a dialog whose body fills `area`
/// and is scrolled by `sy` rows, when that row lies inside the area.
pub open spec fn body_row(area: Rect, src: int, sy: int) -> Option<int> {
    let y = capped(area.y + src);
    let on_screen = if y > sy {
        y - sy
    } else {
        0
    };
    if area.y <= on_screen < area.y + area.height {
        Some(on_screen)
    } else {
        None
    }
}

/// The kind of a one-row option chip.
#[derive(Clone, Copy, Debug, PartialEq, Eq, Structural)]
pub enum RowKind {
    List,
    Thinking,
    ExtSelect,
}

/// The chip of option `i` of this kind.
pub open spec fn row_tag(kind: RowKind, i: usize) -> ChipTag {
    match kind {
        RowKind::List => ChipTag::ListRow(i),
        RowKind::Thinking => ChipTag::ThinkingOption(i),
        RowKind::ExtSelect => ChipTag::ExtSelectOption(i),
    }
}

/// The chips of the first `n` options, one full-width row each from body
/// line `first` on, for the rows on screen.
pub open spec fn row_chips(area: Rect, sy: int, first: int, kind: RowKind, n: int) -> Seq<(Rect, ChipTag)>
    decreases n,
{
    if n <= 0 {
        Seq::empty()
    } else {
        let prev = row_chips(area, sy, first, kind, n - 1);
        match body_row(area, first + n - 1, sy) {
            Some(y) => prev.push(
                (Rect { x: area.x, y: y as u16, width: area.width, height: 1 }, row_tag(kind, (n - 1) as usize)),
            ),
            None => prev,
        }
    }
}

/// The chips of the first `n` settings rows, at their body lines, for
/// the rows on screen.
pub open spec fn settings_chips(area: Rect, sy: int, rows: Seq<SettingsRow>, n: int) -> Seq<(Rect, ChipTag)>
    decreases n,
{
    if n <= 0 {
        Seq::empty()
    } else {
        let prev = settings_chips(area, sy, rows, n - 1);
        match body_row(area, row_line(rows, n - 1) as int, sy) {
            Some(y) => prev.push(
                (Rect { x: area.x, y: y as u16, width: area.width, height: 1 }, ChipTag::SettingsRow((n - 1) as usize)),
            ),
            None => prev,
        }
    }
}

/// The plan review's Accept, Edit and Deny chips on row `y`, at columns
/// 2..12, 14..22 and 24..32 of the body, each when it fits its width.
pub open spec fn review_chips(area: Rect, y: int) -> Seq<(Rect, ChipTag)> {
    let accept = if 12 <= area.width {
        seq![(Rect { x: (area.x + 2) as u16, y: y as u16, width: 10, height: 1 }, ChipTag::PlanReviewAccept)]
    } else {
        Seq::empty()
    };
    let edit = if 22 <= area.width {
        seq![(Rect { x: (area.x + 14) as u16, y: y as u16, width: 8, height: 1 }, ChipTag::PlanReviewEdit)]
    } else {
        Seq::empty()
    };
    let deny = if 32 <= area.width {
        seq![(Rect { x: (area.x + 24) as u16, y: y as u16, width: 8, height: 1 }, ChipTag::PlanReviewDeny)]
    } else {
        Seq::empty()
    };
    accept + edit + deny
}

/// The clickable chips of dialog `m`, whose body fills `area` scrolled by
/// `sy` rows (`rows`: the settings rows, for the settings dialog): one
/// chip per option row of the lists (from body line 2), the thinking
/// levels (from line 2) and an extension's options (from line 0); the
/// plan review's action chips on body line `6 + steps`, in review mode;
/// the halves of the second-to-last row for an extension's question; a
/// chip per settings row. Rows off screen get none.
pub open spec fn modal_chips_spec(m: Modal, area: Rect, sy: int, rows: Seq<SettingsRow>) -> Seq<(Rect, ChipTag)> {
    match m {
        Modal::Templates { items, .. } => row_chips(area, sy, 2, RowKind::List, items@.len() as int),
        Modal::GitLog { commits, .. } => row_chips(area, sy, 2, RowKind::List, commits as int),
        Modal::Thinking { .. } => row_chips(area, sy, 2, RowKind::Thinking, 6),
        Modal::ExtSelect { options, .. } => row_chips(area, sy, 0, RowKind::ExtSelect, options@.len() as int),
        Modal::ExtConfirm { .. } => {
            let y = capped(area.y + if area.height >= 2 {
                area.height - 2
            } else {
                0
            });
            if area.y <= y < area.y + area.height {
                let half = area.width / 2;
                seq![
                    (Rect { x: area.x, y: y as u16, width: half as u16, height: 1 }, ChipTag::ExtConfirmNo),
                    (
                        Rect { x: (area.x + half) as u16, y: y as u16, width: (area.width - half) as u16, height: 1 },
                        ChipTag::ExtConfirmYes,
                    ),
                ]
            } else {
                Seq::empty()
            }
        },
        Modal::Settings(_) => settings_chips(area, sy, rows, rows.len() as int),
        Modal::PlanReview(s) => if s.mode == PlanReviewMode::Review {
            match body_row(area, 6 + s.items@.len() as int, sy) {
                Some(y) => review_chips(area, y),
                None => Seq::empty(),
            }
        } else {
            Seq::empty()
        },
        _ => Seq::empty(),
    }
}

/// The screen row of body line `src`, if on screen.
fn body_row_exec(area: Rect, src: u16, sy: u16) -> (r: Option<u16>)
    requires
        area.y + area.height <= u16::MAX,
    ensures
        match r {
            Some(y) => body_row(area, src as int, sy as int) == Some(y as int),
            None => body_row(area, src as int, sy as int) is None,
        },
{
    let y = area.y.saturating_add(src).saturating_sub(sy);
    if y >= area.y && y < area.y + area.height {
        Some(y)
    } else {
        None
    }
}

/// The chips of `n` option rows from body line `first`.
fn push_row_chips(out: &mut Vec<(Rect, ChipTag)>, area: Rect, sy: u16, first: u16, kind: RowKind, n: usize)
    requires
        old(out)@.len() == 0,
        area.y + area.height <= u16::MAX,
        first + n <= u16::MAX,
    ensures
        final(out)@ == row_chips(area, sy as int, first as int, kind, n as int),
{
    let mut i: usize = 0;
    while i < n
        invariant
            i <= n,
            first + n <= u16::MAX,
            area.y + area.height <= u16::MAX,
            out@ == row_chips(area, sy as int, first as int, kind, i as int),
        decreases n - i,
    {
        let tag = match kind {
            RowKind::List => ChipTag::ListRow(i),
            RowKind::Thinking => ChipTag::ThinkingOption(i),
            RowKind::ExtSelect => ChipTag::ExtSelectOption(i),
        };
        match body_row_exec(area, first + i as u16, sy) {
            Some(y) => out.push((Rect { x: area.x, y, width: area.width, height: 1 }, tag)),
            None => {},
        }
        i += 1;
    }
}

/// The clickable chips of dialog `m` (see `modal_chips_spec`).
pub fn modal_chips(m: &Modal, area: Rect, sy: u16, rows: &Vec<SettingsRow>) -> (r: Vec<(Rect, ChipTag)>)
    requires
        area.x + area.width <= u16::MAX,
        area.y + area.height <= u16::MAX,
        m matches Modal::Templates { items, .. } ==> items@.len() + 2 <= u16::MAX,
        m matches Modal::GitLog { commits, .. } ==> commits + 2 <= u16::MAX,
        m matches Modal::ExtSelect { options, .. } ==> options@.len() <= u16::MAX,
        m matches Modal::PlanReview(s) ==> s.items@.len() + 6 <= u16::MAX && area.x + 32 <= u16::MAX,
    ensures
        r@ == modal_chips_spec(*m, area, sy as int, rows@),
{
    let mut out: Vec<(Rect, ChipTag)> = Vec::new();
    match m {
        Modal::Templates { items, .. } => push_row_chips(&mut out, area, sy, 2, RowKind::List, items.len()),
        Modal::GitLog { commits, .. } => push_row_chips(&mut out, area, sy, 2, RowKind::List, *commits),
        Modal::Thinking { .. } => push_row_chips(&mut out, area, sy, 2, RowKind::Thinking, 6),
        Modal::ExtSelect { options, .. } => push_row_chips(&mut out, area, sy, 0, RowKind::ExtSelect, options.len()),
        Modal::ExtConfirm { .. } => {
            let y = area.y.saturating_add(area.height.saturating_sub(2));
            if y >= area.y && y < area.y + area.height {
                let half = area.width / 2;
                out.push((Rect { x: area.x, y, width: half, height: 1 }, ChipTag::ExtConfirmNo));
                out.push((Rect { x: area.x + half, y, width: area.width - half, height: 1 }, ChipTag::ExtConfirmYes));
                proof {
                    assert(out@ =~= modal_chips_spec(*m, area, sy as int, rows@));
                }
            }
        },
        Modal::Settings(_) => {
            let mut i: usize = 0;
            while i < rows.len()
                invariant
                    i <= rows@.len(),
                    area.y + area.height <= u16::MAX,
                    out@ == settings_chips(area, sy as int, rows@, i as int),
                decreases rows@.len() - i,
            {
                match settings_row_source_line(rows, i) {
                    Some(src) => match body_row_exec(area, src, sy) {
                        Some(y) => out.push((Rect { x: area.x, y, width: area.width, height: 1 }, ChipTag::SettingsRow(i))),
                        None => {},
                    },
                    None => {},
                }
                i += 1;
            }
        },
        Modal::PlanReview(s) => {
            if s.mode == PlanReviewMode::Review {
                match body_row_exec(area, 6 + s.items.len() as u16, sy) {
                    Some(y) => {
                        if 12 <= area.width {
                            out.push((Rect { x: area.x + 2, y, width: 10, height: 1 }, ChipTag::PlanReviewAccept));
                        }
                        if 22 <= area.width {
                            out.push((Rect { x: area.x + 14, y, width: 8, height: 1 }, ChipTag::PlanReviewEdit));
                        }
                        if 32 <= area.width {
                            out.push((Rect { x: area.x + 24, y, width: 8, height: 1 }, ChipTag::PlanReviewDeny));
                        }
                        proof {
                            assert(out@ =~= review_chips(area, y as int));
                        }
                    },
                    None => {},
                }
            }
        },
        _ => {},
    }
    out
}

/// The transcript of `a` gains an info line reading `line` and a flash
/// `flash` of kind `kind` is raised, giving `b`; the rest stays but for
/// the preferences.
pub open spec fn info_noted(a: App, b: App, line: Seq<char>, flash: Seq<char>, kind: FlashKind) -> bool {
    &&& bumped(a.transcript, b.transcript) && appended(a.transcript@, b.transcript@)
    &&& b.transcript@.last() matches Entry::Info(s) && s@ == line
    &&& flashed(b.flash, flash, a.status.ticks, kind)
    &&& keeps_run(a, b) && keeps_tools(a, b) && keeps_turn(a, b) && keeps_queues(a, b)
    &&& b.notify_enabled == a.notify_enabled && b.session == a.session && b.status == a.status
    &&& b.focus_idx == a.focus_idx && b.scroll == a.scroll
}

/// `n` steps: "1 step", "2 steps".
pub open spec fn step_count(n: nat) -> Seq<char> {
    decimal(n) + if n == 1 {
        " step"@
    } else {
        " steps"@
    }
}

/// The review dialog on the proposed steps `items`, its first chip
/// (Accept) focused, auto-run as `auto_run`.
pub open spec fn review_of(items: Vec<String>, auto_run: bool) -> Modal {
    Modal::PlanReview(
        PlanReviewState {
            items,
            selected: 0,
            scroll: 0,
            mode: PlanReviewMode::Review,
            editing: None,
            auto_run_pref: auto_run,
        },
    )
}

impl App {
    /// The agent asked the user to fill in `form`: the transcript notes
    /// its title and number of questions, a flash names it, and the form
    /// opens as the dialog returned.
    pub fn open_interview(&mut self, form: InterviewState) -> (m: Modal)
        requires
            form.wf(),
        ensures
            m == Modal::Interview(form),
            m.wf(),
            info_noted(
                *old(self),
                *final(self),
                interview_note(form.title@, questions(form.fields@)),
                "interview · "@ + form.title@,
                FlashKind::Info,
            ),
            final(self).prefs == old(self).prefs,
    {
        let n = question_count(&form.fields);
        self.interview_opened(form.title.as_str(), n);
        Modal::Interview(form)
    }

    /// The agent proposed a plan of the steps `items`: the transcript notes
    /// how many, a flash asks for a review, and the review dialog opens on
    /// them with auto-run chosen.
    pub fn propose_plan(&mut self, items: Vec<String>) -> (m: Modal)
        ensures
            m == review_of(items, true),
            m.wf(),
            info_noted(
                *old(self),
                *final(self),
                "agent proposed a plan: "@ + step_count(items@.len()),
                "review proposed plan"@,
                FlashKind::Info,
            ),
            final(self).prefs == old(self).prefs,
    {
        let n = decimal_string(items.len() as u64);
        let noun = if items.len() == 1 {
            " step"
        } else {
            " steps"
        };
        let line = concat3("agent proposed a plan: ", n.as_str(), noun);
        assert(line@ =~= "agent proposed a plan: "@ + step_count(items@.len()));
        self.transcript.push(Entry::Info(line));
        proof {
            assert(self.transcript@.drop_last() =~= old(self).transcript@);
        }
        self.flash_info(String::from_str("review proposed plan"));
        proof {
            reveal_strlit("review proposed plan");
        }
        Modal::PlanReview(
            PlanReviewState {
                items,
                selected: 0,
                scroll: 0,
                mode: PlanReviewMode::Review,
                editing: None,
                auto_run_pref: true,
            },
        )
    }

    /// The agent proposed to amend the running plan to the steps `items`:
    /// a flash asks for a review, and the review dialog opens on them with
    /// auto-run as the plan has it.
    pub fn propose_amendment(&mut self, items: Vec<String>) -> (m: Modal)
        ensures
            m == review_of(items, old(self).prefs.plan_auto_run),
            m.wf(),
            flashed(final(self).flash, "review plan amendment"@, old(self).status.ticks, FlashKind::Info),
            keeps_core(*old(self), *final(self)),
            final(self).status == old(self).status,
            final(self).focus_idx == old(self).focus_idx,
            final(self).scroll == old(self).scroll,
    {
        let auto_run = self.prefs.plan_auto_run;
        self.flash_info(String::from_str("review plan amendment"));
        proof {
            reveal_strlit("review plan amendment");
        }
        Modal::PlanReview(
            PlanReviewState {
                items,
                selected: 0,
                scroll: 0,
                mode: PlanReviewMode::Review,
                editing: None,
                auto_run_pref: auto_run,
            },
        )
    }

    /// The user rejected the proposed plan: the transcript notes it and a
    /// flash says so.
    pub fn plan_denied(&mut self)
        ensures
            info_noted(*old(self), *final(self), "plan proposal rejected"@, "plan rejected"@, FlashKind::Info),
            final(self).prefs == old(self).prefs,
    {
        self.transcript.push(Entry::Info(String::from_str("plan proposal rejected")));
        proof {
            reveal_strlit("plan proposal rejected");
            assert(self.transcript@.drop_last() =~= old(self).transcript@);
        }
        self.flash_info(String::from_str("plan rejected"));
        proof {
            reveal_strlit("plan rejected");
        }
    }

    /// The user accepted a proposal of `count` steps, a new plan or an
    /// `amendment` of the running one, with auto-run `auto_run`: the plan
    /// runs by itself as chosen, the transcript notes the acceptance and a
    /// flash says so.
    pub fn plan_accepted(&mut self, count: u64, amendment: bool, auto_run: bool)
        ensures
            info_noted(
                *old(self),
                *final(self),
                (if amendment {
                    "plan amendment accepted: "@
                } else {
                    "plan accepted: "@
                }) + decimal(count as nat) + " steps"@,
                "plan accepted"@,
                FlashKind::Success,
            ),
            final(self).prefs == (Preferences { plan_auto_run: auto_run, ..old(self).prefs }),
    {
        self.prefs.plan_auto_run = auto_run;
        let n = decimal_string(count);
        let head = if amendment {
            "plan amendment accepted: "
        } else {
            "plan accepted: "
        };
        let line = concat3(head, n.as_str(), " steps");
        self.transcript.push(Entry::Info(line));
        proof {
            assert(self.transcript@.drop_last() =~= old(self).transcript@);
        }
        self.flash_success(String::from_str("plan accepted"));
        proof {
            reveal_strlit("plan accepted");
        }
    }
}

/// The plan review is editing its steps, one of them or the list.
pub open spec fn review_editing(m: Modal) -> bool {
    m matches Modal::PlanReview(s) && (s.editing is Some || s.mode == PlanReviewMode::Edit)
}

/// Esc closes every dialog, but for the plan review while its steps are
/// being edited, where it steps back instead.
pub proof fn lemma_esc_closes(
    a: App,
    b: App,
    m: Modal,
    host: HostInfo,
    online: bool,
    mods: KeyModifiers,
    next: Modal,
    close: bool,
    act: ModalAction,
)
    requires
        modal_key_effect(a, b, m, host, online, KeyCode::Esc, mods, next, close, act),
    ensures
        close == !review_editing(m),
{
    match m {
        Modal::Settings(s) => {
            let t = next->Settings_0;
            let rows = choose|rows: Seq<SettingsRow>|
                rows_view(rows) == settings_rows(a, host) && #[trigger] settings_arm(
                    a,
                    b,
                    rows,
                    s,
                    online,
                    KeyCode::Esc,
                    t,
                    close,
                    act,
                );
            assert(settings_arm(a, b, rows, s, online, KeyCode::Esc, t, close, act));
        },
        Modal::PlanReview(s) => {
            let t = next->PlanReview_0;
            if act is Nothing {
                assert(review_key_effect(s, t, KeyCode::Esc, mods, ReviewOutcome::Nothing));
            } else {
                let o = act->outcome;
                assert(review_key_effect(s, t, KeyCode::Esc, mods, o));
            }
        },
        _ => {},
    }
}

/// The request `m` is an extension's, and its id.
pub open spec fn ext_request(m: Modal) -> Option<Seq<char>> {
    match m {
        Modal::ExtSelect { request_id, .. } => Some(request_id@),
        Modal::ExtConfirm { request_id, .. } => Some(request_id@),
        Modal::ExtInput { request_id, .. } => Some(request_id@),
        _ => None,
    }
}

/// The reply `act` answers request `id`.
pub open spec fn answers(act: ModalAction, id: Seq<char>) -> bool {
    act matches ModalAction::Ext { request_id, .. } && request_id@ == id
}

/// A key that closes an extension's dialog answers its request, and one
/// that leaves it open answers nothing; a select must have its selection
/// among its options.
pub proof fn lemma_closed_extension_dialogs_answer(
    a: App,
    b: App,
    m: Modal,
    host: HostInfo,
    online: bool,
    code: KeyCode,
    mods: KeyModifiers,
    next: Modal,
    close: bool,
    act: ModalAction,
)
    requires
        modal_key_effect(a, b, m, host, online, code, mods, next, close, act),
        ext_request(m) is Some,
        m matches Modal::ExtSelect { options, selected, .. } ==> selected < options@.len(),
    ensures
        close ==> answers(act, ext_request(m)->0),
        !close ==> act is Nothing,
{
}

impl App {
    /// A key in the open dialog `m`. Each kind of dialog takes the key in
    /// its own way (see the key function of each); the settings dialog
    /// carries out the change it selects, `online` telling whether the
    /// agent runs. Returns the dialog after the key, whether it closes,
    /// and what the host must do.
    pub fn modal_key(
        &mut self,
        m: Modal,
        host: &HostInfo,
        online: bool,
        code: KeyCode,
        mods: KeyModifiers,
    ) -> (r: (Modal, bool, ModalAction))
        requires
            m.wf(),
            m.has_room(),
        ensures
            r.0.wf(),
            modal_key_effect(*old(self), *final(self), m, *host, online, code, mods, r.0, r.1, r.2),
    {
        match m {
            Modal::Viewer(k) => {
                let close = viewer_dismiss_key(code);
                (Modal::Viewer(k), close, ModalAction::Nothing)
            },
            Modal::Diff { scroll } => {
                let mut s = scroll;
                let close = viewer_scroll_key(&mut s, code);
                (Modal::Diff { scroll: s }, close, ModalAction::Nothing)
            },
            Modal::Shortcuts { scroll } => {
                let mut s = scroll;
                let close = viewer_scroll_key(&mut s, code);
                (Modal::Shortcuts { scroll: s }, close, ModalAction::Nothing)
            },
            Modal::Settings(s) => {
                let ghost a = *self;
                let rows = build_settings_rows(self, host);
                let mut st = s;
                let (action, close) = settings_key(&rows, &mut st, code);
                let act = if close {
                    ModalAction::Nothing
                } else {
                    match action {
                        Some(x) => ModalAction::Settings(dispatch_settings_action(self, online, x)),
                        None => ModalAction::Nothing,
                    }
                };
                proof {
                    assert(settings_arm(a, *self, rows@, s, online, code, st, close, act));
                    assert(settings_effect(a, *self, *host, s, online, code, st, close, act));
                }
                (Modal::Settings(st), close, act)
            },
            Modal::Templates { items, selected } => {
                let mut xs = items;
                let mut sel = selected;
                let o = self.template_key(&mut xs, &mut sel, code);
                let close = match &o {
                    TemplateOutcome::Close | TemplateOutcome::Load(_) => true,
                    TemplateOutcome::Delete { close, .. } => *close,
                    TemplateOutcome::Nothing => false,
                };
                (Modal::Templates { items: xs, selected: sel }, close, ModalAction::Template(o))
            },
            Modal::Search(s) => {
                let mut st = s;
                let close = self.search_key(&mut st, code, mods);
                (Modal::Search(st), close, ModalAction::Nothing)
            },
            Modal::GitLog { commits, selected } => {
                let mut sel = selected;
                let close = git_log_key(&mut sel, commits, code);
                (Modal::GitLog { commits, selected: sel }, close, ModalAction::Nothing)
            },
            Modal::GitBranch { branches, query, selected } => {
                let mut q = query;
                let mut sel = selected;
                let n = branches.len();
                if handle_list_keys(&mut q, &mut sel, code, n) {
                    return (Modal::GitBranch { branches, query: q, selected: sel }, false, ModalAction::Nothing);
                }
                match code {
                    KeyCode::Esc => (
                        Modal::GitBranch { branches, query: q, selected: sel },
                        true,
                        ModalAction::Nothing,
                    ),
                    KeyCode::Enter => {
                        let act = match pick_branch(&branches, q.as_str(), sel) {
                            Some(name) => ModalAction::SwitchBranch(name),
                            None => ModalAction::Nothing,
                        };
                        (Modal::GitBranch { branches, query: q, selected: sel }, true, act)
                    },
                    _ => (
                        Modal::GitBranch { branches, query: q, selected: sel },
                        false,
                        ModalAction::Nothing,
                    ),
                }
            },
            Modal::Thinking { selected } => {
                let mut sel = selected;
                let o = pick_key(&mut sel, 6, code);
                let (close, act) = match o {
                    PickOutcome::Choose(i) => match ThinkingLevel::at(i) {
                        Some(l) => (true, ModalAction::SetThinking(l)),
                        None => (true, ModalAction::Nothing),
                    },
                    PickOutcome::Cancel => (true, ModalAction::Nothing),
                    PickOutcome::Nothing => (false, ModalAction::Nothing),
                };
                (Modal::Thinking { selected: sel }, close, act)
            },
            Modal::ExtSelect { request_id, title, options, selected } => {
                let mut sel = selected;
                let o = pick_key(&mut sel, options.len(), code);
                let (close, act) = match o {
                    PickOutcome::Choose(i) => if i < options.len() {
                        (
                            true,
                            ModalAction::Ext {
                                request_id: request_id.clone(),
                                reply: ExtReply::Value(options[i].clone()),
                            },
                        )
                    } else {
                        (true, ModalAction::Nothing)
                    },
                    PickOutcome::Cancel => (
                        true,
                        ModalAction::Ext { request_id: request_id.clone(), reply: ExtReply::Cancelled },
                    ),
                    PickOutcome::Nothing => (false, ModalAction::Nothing),
                };
                (Modal::ExtSelect { request_id, title, options, selected: sel }, close, act)
            },
            Modal::ExtConfirm { request_id, title, message, selected } => {
                let mut sel = selected;
                let o = confirm_key(&mut sel, code);
                let (close, act) = match o {
                    ConfirmOutcome::Answer(y) => (
                        true,
                        ModalAction::Ext { request_id: request_id.clone(), reply: ExtReply::Confirmed(y) },
                    ),
                    ConfirmOutcome::Cancel => (
                        true,
                        ModalAction::Ext { request_id: request_id.clone(), reply: ExtReply::Cancelled },
                    ),
                    ConfirmOutcome::Nothing => (false, ModalAction::Nothing),
                };
                (Modal::ExtConfirm { request_id, title, message, selected: sel }, close, act)
            },
            Modal::ExtInput { request_id, title, placeholder, value, editor } => {
                let mut v = value;
                let o = input_key(&mut v, code);
                let (close, act) = match o {
                    crate::modals::InputOutcome::Submit(x) => (
                        true,
                        ModalAction::Ext { request_id: request_id.clone(), reply: ExtReply::Value(x) },
                    ),
                    crate::modals::InputOutcome::Cancel => (
                        true,
                        ModalAction::Ext { request_id: request_id.clone(), reply: ExtReply::Cancelled },
                    ),
                    crate::modals::InputOutcome::Nothing => (false, ModalAction::Nothing),
                };
                (Modal::ExtInput { request_id, title, placeholder, value: v, editor }, close, act)
            },
            Modal::Interview(s) => {
                if code == KeyCode::Esc {
                    self.interview_cancelled();
                    (Modal::Interview(s), true, ModalAction::Nothing)
                } else {
                    let mut st = s;
                    let submitted = interview_key(&mut st, code, mods);
                    let act = if submitted {
                        ModalAction::InterviewSubmitted
                    } else {
                        ModalAction::Nothing
                    };
                    (Modal::Interview(st), submitted, act)
                }
            },
            Modal::PlanReview(s) => {
                let mut st = s;
                let o = plan_review_key(&mut st, code, mods);
                let close = match o {
                    ReviewOutcome::Accept | ReviewOutcome::Deny | ReviewOutcome::AcceptEdited => true,
                    _ => false,
                };
                let act = match o {
                    ReviewOutcome::Nothing => ModalAction::Nothing,
                    _ => ModalAction::Plan {
                        outcome: o,
                        items: st.items.clone(),
                        auto_run: st.auto_run_pref,
                    },
                };
                (Modal::PlanReview(st), close, act)
            },
        }
    }
}

} // verus!
