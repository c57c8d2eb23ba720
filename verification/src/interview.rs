//! The interview form an agent asks the user to fill in: its fields, the
//! focus (a field, or the Submit slot past the last field), its scroll,
//! and the keys that move through it, edit it and submit it.

use vstd::prelude::*;
use vstd::string::*;

use crate::editor::{text_field_key, text_key_effect};
use crate::helpers::concat2;
use crate::keys::{KeyCode, KeyModifiers};
use crate::text::{blen, boundary};

verus! {

/// One field of a form. A question has the `id` its answer is sent
/// under, a label, and a line of description under the label when given.
#[allow(inconsistent_fields)]
pub enum FieldValue {
    /// A heading between groups of fields.
    Section { title: String, description: Option<String> },
    /// A line of explanation.
    Info { text: String },
    /// A yes/no switch.
    Toggle { id: String, label: String, description: Option<String>, value: bool },
    /// One choice among `options`.
    Select { id: String, label: String, description: Option<String>, options: Vec<String>, selected: usize },
    /// Any choices among `options`, one box each, with a cursor.
    Multiselect {
        id: String,
        label: String,
        description: Option<String>,
        options: Vec<String>,
        checked: Vec<bool>,
        cursor: usize,
    },
    /// A text, one line or several, its cursor a byte offset.
    Text {
        id: String,
        label: String,
        description: Option<String>,
        value: String,
        cursor: usize,
        required: bool,
        multiline: bool,
    },
    /// A number being typed, its cursor a byte offset. `bounded` tells
    /// whether it has bounds; they are floating point, and keeping the
    /// number within them is the host's.
    Number {
        id: String,
        label: String,
        description: Option<String>,
        value: String,
        cursor: usize,
        required: bool,
        bounded: bool,
    },
}

/// An open form: its title, its description, the label of its Submit
/// button, its fields, the focus (`fields.len()` for the Submit slot), the
/// scroll offset and whether the user scrolled by hand, and the message
/// of a refused submission.
pub struct InterviewState {
    pub title: String,
    pub description: Option<String>,
    pub submit_label: String,
    pub fields: Vec<FieldValue>,
    pub focus: usize,
    pub scroll: u16,
    pub user_scrolled: bool,
    pub validation_error: Option<String>,
}

/// The field takes the focus (headings and explanations do not).
pub open spec fn interactive(f: FieldValue) -> bool {
    !(f is Section || f is Info)
}

/// The field's label (empty for headings and explanations).
pub open spec fn label_of(f: FieldValue) -> Seq<char> {
    match f {
        FieldValue::Toggle { label, .. } => label@,
        FieldValue::Select { label, .. } => label@,
        FieldValue::Multiselect { label, .. } => label@,
        FieldValue::Text { label, .. } => label@,
        FieldValue::Number { label, .. } => label@,
        _ => Seq::empty(),
    }
}

/// A required text or number field left empty.
pub open spec fn missing(f: FieldValue) -> bool {
    match f {
        FieldValue::Text { value, required, .. } => required && value@.len() == 0,
        FieldValue::Number { value, required, .. } => required && value@.len() == 0,
        _ => false,
    }
}

/// The first interactive field at or after `k`, else the Submit slot.
pub open spec fn first_interactive_from(fs: Seq<FieldValue>, k: int) -> int
    decreases fs.len() - k,
{
    if k < 0 || k >= fs.len() {
        fs.len() as int
    } else if interactive(fs[k]) {
        k
    } else {
        first_interactive_from(fs, k + 1)
    }
}

/// The last interactive field before `k`, if any.
pub open spec fn last_interactive_before(fs: Seq<FieldValue>, k: int) -> Option<int>
    decreases k,
{
    if k <= 0 {
        None
    } else if k - 1 < fs.len() && interactive(fs[k - 1]) {
        Some(k - 1)
    } else {
        last_interactive_before(fs, k - 1)
    }
}

/// The focus after a step forward: the next interactive field, else the
/// Submit slot; from the Submit slot, the first interactive field.
pub open spec fn next_focus(fs: Seq<FieldValue>, focus: int) -> int {
    if focus < fs.len() {
        first_interactive_from(fs, focus + 1)
    } else {
        first_interactive_from(fs, 0)
    }
}

/// The focus after a step back: the previous interactive field, else the
/// Submit slot.
pub open spec fn prev_focus(fs: Seq<FieldValue>, focus: int) -> int {
    let k = if focus < fs.len() {
        focus
    } else {
        fs.len() as int
    };
    match last_interactive_before(fs, k) {
        Some(j) => j,
        None => fs.len() as int,
    }
}

/// The first required field left empty, if any.
pub open spec fn first_missing_from(fs: Seq<FieldValue>, k: int) -> Option<int>
    decreases fs.len() - k,
{
    if k < 0 || k >= fs.len() {
        None
    } else if missing(fs[k]) {
        Some(k)
    } else {
        first_missing_from(fs, k + 1)
    }
}

proof fn lemma_first_interactive_from(fs: Seq<FieldValue>, k: int)
    requires
        0 <= k,
    ensures
        k <= first_interactive_from(fs, k) <= fs.len() || (k > fs.len() && first_interactive_from(fs, k)
            == fs.len()),
        first_interactive_from(fs, k) < fs.len() ==> interactive(fs[first_interactive_from(fs, k)]),
    decreases fs.len() - k,
{
    if k < fs.len() && !interactive(fs[k]) {
        lemma_first_interactive_from(fs, k + 1);
    }
}

proof fn lemma_last_interactive_before(fs: Seq<FieldValue>, k: int)
    ensures
        last_interactive_before(fs, k) matches Some(j) ==> 0 <= j < k && j < fs.len() && interactive(fs[j]),
    decreases k,
{
    if k > 0 && !(k - 1 < fs.len() && interactive(fs[k - 1])) {
        lemma_last_interactive_before(fs, k - 1);
    }
}

proof fn lemma_first_missing_from(fs: Seq<FieldValue>, k: int)
    requires
        0 <= k,
    ensures
        first_missing_from(fs, k) matches Some(j) ==> k <= j < fs.len() && missing(fs[j]),
    decreases fs.len() - k,
{
    if k < fs.len() && !missing(fs[k]) {
        lemma_first_missing_from(fs, k + 1);
    }
}

/// A field's cursor sits on a character boundary, and a list field's
/// choices stay among its options.
pub open spec fn field_wf(f: FieldValue) -> bool {
    match f {
        FieldValue::Text { value, cursor, .. } => boundary(value@, cursor as int),
        FieldValue::Number { value, cursor, .. } => boundary(value@, cursor as int),
        FieldValue::Multiselect { options, checked, .. } => checked@.len() == options@.len(),
        _ => true,
    }
}

/// A text or number field has room for one more character.
pub open spec fn field_room(f: FieldValue) -> bool {
    match f {
        FieldValue::Text { value, .. } => blen(value@) + 4 <= usize::MAX,
        FieldValue::Number { value, .. } => blen(value@) + 4 <= usize::MAX,
        _ => true,
    }
}

impl InterviewState {
    /// The focus is a field or the Submit slot, and every field is well
    /// formed.
    pub open spec fn wf(&self) -> bool {
        &&& self.focus <= self.fields@.len()
        &&& forall|i: int| 0 <= i < self.fields@.len() ==> #[trigger] field_wf(self.fields@[i])
    }

    /// The focused field, if a text or number, has room for one more
    /// character.
    pub open spec fn has_room(&self) -> bool {
        self.focus < self.fields@.len() ==> field_room(self.fields@[self.focus as int])
    }
}

/// `t` is `s` with the focus, scroll and scroll flag, and refusal message
/// as given.
pub open spec fn form_as(
    s: InterviewState,
    t: InterviewState,
    focus: int,
    scroll: u16,
    user_scrolled: bool,
) -> bool {
    &&& t.title@ == s.title@ && t.description == s.description && t.submit_label@ == s.submit_label@
    &&& t.fields@ == s.fields@
    &&& t.focus == focus && t.scroll == scroll && t.user_scrolled == user_scrolled
}

/// An attempt to submit `s`, giving `t` and whether it was submitted:
/// with no required field left empty it is, and any refusal message
/// goes; else it is refused, the message names the first such field,
/// and the focus moves to it.
pub open spec fn submit_effect(s: InterviewState, t: InterviewState, r: bool) -> bool {
    match first_missing_from(s.fields@, 0) {
        None => r && form_as(s, t, s.focus as int, s.scroll, s.user_scrolled) && t.validation_error is None,
        Some(i) => {
            &&& !r && form_as(s, t, i, s.scroll, s.user_scrolled)
            &&& t.validation_error matches Some(e) && e@ == "required: "@ + label_of(s.fields@[i])
        },
    }
}

/// A character a number field takes.
pub open spec fn number_char(ch: char) -> bool {
    ('0' <= ch <= '9') || ch == '.' || ch == '-' || ch == 'e' || ch == 'E' || ch == '+'
}

/// What a key does to the focused field `f`, giving `g`, and whether the
/// focus then steps forward.
pub open spec fn field_key_effect(f: FieldValue, g: FieldValue, code: KeyCode, mods: KeyModifiers, advance: bool) -> bool {
    match f {
        FieldValue::Toggle { id, label, description, value } => {
            let v = match code {
                KeyCode::Char(' ') | KeyCode::Char('x') | KeyCode::Enter => !value,
                KeyCode::Left => false,
                KeyCode::Right => true,
                _ => value,
            };
            !advance && g == FieldValue::Toggle { id, label, description, value: v }
        },
        FieldValue::Select { id, label, description, options, selected } => {
            let n = options@.len();
            let v: int = match code {
                KeyCode::Left => if selected > 0 {
                    selected - 1
                } else {
                    selected as int
                },
                KeyCode::Right => if selected + 1 < n {
                    selected + 1
                } else {
                    selected as int
                },
                KeyCode::Char(ch) => if '1' <= ch <= '9' && (ch as int - '0' as int) <= n {
                    ch as int - '1' as int
                } else {
                    selected as int
                },
                _ => selected as int,
            };
            &&& advance == (code is Enter)
            &&& g matches FieldValue::Select { id: i, label: l, description: d, options: o, selected: t }
            &&& i == id && l == label && d == description && o == options && t == v
        },
        FieldValue::Multiselect { id, label, description, options, checked, cursor } => {
            let n = options@.len();
            let c: int = match code {
                KeyCode::Left => if cursor > 0 {
                    cursor - 1
                } else {
                    cursor as int
                },
                KeyCode::Right => if cursor + 1 < n {
                    cursor + 1
                } else {
                    cursor as int
                },
                _ => cursor as int,
            };
            let flips = code == KeyCode::Char(' ') || code is Enter || code == KeyCode::Char('x');
            let ck = if flips && cursor < checked@.len() {
                checked@.update(cursor as int, !checked@[cursor as int])
            } else {
                checked@
            };
            &&& !advance
            &&& g matches FieldValue::Multiselect { id: i, label: l, description: d, options: o, checked: k, cursor: u }
            &&& i == id && l == label && d == description && o == options && k@ == ck && u == c
        },
        FieldValue::Text { id, label, description, value, cursor, required, multiline } => {
            if code is Enter && !mods.shift && !mods.control && !multiline {
                advance && g == f
            } else {
                !advance && (g matches FieldValue::Text {
                    id: i,
                    label: l,
                    description: d,
                    value: v,
                    cursor: c,
                    required: q,
                    multiline: m,
                } && i == id && l == label && d == description && q == required && m == multiline
                    && text_key_effect(
                    value@,
                    cursor as int,
                    multiline,
                    code,
                    mods,
                    v@,
                    c as int,
                ))
            }
        },
        FieldValue::Number { id, label, description, value, cursor, required, bounded } => {
            if code is Enter && mods == (KeyModifiers { shift: false, control: false, alt: false, other: false }) {
                advance && g == f
            } else if code matches KeyCode::Char(ch) && !number_char(ch) {
                !advance && g == f
            } else {
                !advance && (g matches FieldValue::Number {
                    id: i,
                    label: l,
                    description: d,
                    value: v,
                    cursor: c,
                    required: q,
                    bounded: b,
                } && i == id && l == label && d == description && q == required && b == bounded
                    && text_key_effect(
                    value@,
                    cursor as int,
                    false,
                    code,
                    mods,
                    v@,
                    c as int,
                ))
            }
        },
        _ => !advance && g == f,
    }
}

/// What a key does to the form `s`, giving `t`, and whether it submitted
/// the form: Tab and ↓ (without Alt) step the focus forward and BackTab
/// and ↑ back, the view following the focus again; Ctrl+Enter and Ctrl+S
/// submit from anywhere; the page keys scroll by ten rows and Ctrl+Home
/// and Ctrl+End to either end, the view then staying where the user put
/// it. On the Submit slot, Enter or Space submit and other keys do
/// nothing; on a field, the field takes the key, and Enter on a one-line
/// field steps the focus forward.
pub open spec fn interview_key_effect(s: InterviewState, t: InterviewState, code: KeyCode, mods: KeyModifiers, r: bool) -> bool {
    let fs = s.fields@;
    let n = fs.len();
    if code is Tab || (code is Down && !mods.alt) {
        !r && form_as(s, t, next_focus(fs, s.focus as int), s.scroll, false) && t.validation_error
            == s.validation_error
    } else if code is BackTab || (code is Up && !mods.alt) {
        !r && form_as(s, t, prev_focus(fs, s.focus as int), s.scroll, false) && t.validation_error
            == s.validation_error
    } else if (code is Enter || code == KeyCode::Char('s')) && mods.control {
        submit_effect(s, t, r)
    } else if code is PageDown || code is PageUp || (code is Home && mods.control) || (code is End
        && mods.control) {
        let sc = match code {
            KeyCode::PageDown => s.scroll.saturating_add(10),
            KeyCode::PageUp => s.scroll.saturating_sub(10),
            KeyCode::Home => 0,
            _ => u16::MAX,
        };
        !r && form_as(s, t, s.focus as int, sc, true) && t.validation_error == s.validation_error
    } else if s.focus >= n {
        if code is Enter || code == KeyCode::Char(' ') {
            submit_effect(s, t, r)
        } else {
            !r && form_as(s, t, s.focus as int, s.scroll, s.user_scrolled) && t.validation_error
                == s.validation_error
        }
    } else {
        &&& !r
        &&& t.title@ == s.title@ && t.description == s.description && t.submit_label@ == s.submit_label@
        &&& t.scroll == s.scroll
        &&& t.validation_error == s.validation_error
        &&& t.fields@.len() == n
        &&& forall|j: int| 0 <= j < n && j != s.focus ==> #[trigger] t.fields@[j] == fs[j]
        &&& exists|adv: bool|
            #![trigger field_key_effect(fs[s.focus as int], t.fields@[s.focus as int], code, mods, adv)]
            field_key_effect(fs[s.focus as int], t.fields@[s.focus as int], code, mods, adv) && if adv {
                t.focus == next_focus(fs, s.focus as int) && !t.user_scrolled
            } else {
                t.focus == s.focus && t.user_scrolled == s.user_scrolled
            }
    }
}

/// The focus is on a question or on the Submit slot.
pub open spec fn focus_on_question(s: InterviewState) -> bool {
    &&& s.focus <= s.fields@.len()
    &&& s.focus < s.fields@.len() ==> interactive(s.fields@[s.focus as int])
}

/// A step of the focus, either way, lands on a question or on the Submit
/// slot.
proof fn lemma_steps_land_on_questions(fs: Seq<FieldValue>, focus: int)
    requires
        0 <= focus <= fs.len(),
    ensures
        0 <= next_focus(fs, focus) <= fs.len(),
        next_focus(fs, focus) < fs.len() ==> interactive(fs[next_focus(fs, focus)]),
        0 <= prev_focus(fs, focus) <= fs.len(),
        prev_focus(fs, focus) < fs.len() ==> interactive(fs[prev_focus(fs, focus)]),
{
    lemma_first_interactive_from(fs, 0);
    lemma_first_interactive_from(fs, focus + 1);
    lemma_last_interactive_before(fs, focus);
    lemma_last_interactive_before(fs, fs.len() as int);
}

/// A key leaves a field of the same kind: a question stays a question.
proof fn lemma_field_key_keeps_kind(f: FieldValue, g: FieldValue, code: KeyCode, mods: KeyModifiers, adv: bool)
    requires
        field_key_effect(f, g, code, mods, adv),
    ensures
        interactive(g) == interactive(f),
{
}

/// Whatever key comes, the focus stays on a question or on the Submit
/// slot, never on a heading or an explanation; and a form is submitted
/// only with no required field left empty, its answers as they were.
pub proof fn lemma_interview_key_laws(
    s: InterviewState,
    t: InterviewState,
    code: KeyCode,
    mods: KeyModifiers,
    r: bool,
)
    requires
        s.wf(),
        focus_on_question(s),
        interview_key_effect(s, t, code, mods, r),
    ensures
        focus_on_question(t),
        r ==> first_missing_from(t.fields@, 0) is None && t.fields@ == s.fields@,
{
    let fs = s.fields@;
    lemma_steps_land_on_questions(fs, s.focus as int);
    lemma_first_missing_from(fs, 0);
    if !(code is Tab || (code is Down && !mods.alt)) && !(code is BackTab || (code is Up && !mods.alt))
        && !((code is Enter || code == KeyCode::Char('s')) && mods.control) && !(code is PageDown
        || code is PageUp || (code is Home && mods.control) || (code is End && mods.control))
        && s.focus < fs.len() {
        let adv = choose|adv: bool|
            #![trigger field_key_effect(fs[s.focus as int], t.fields@[s.focus as int], code, mods, adv)]
            field_key_effect(fs[s.focus as int], t.fields@[s.focus as int], code, mods, adv) && if adv {
                t.focus == next_focus(fs, s.focus as int) && !t.user_scrolled
            } else {
                t.focus == s.focus && t.user_scrolled == s.user_scrolled
            };
        lemma_field_key_keeps_kind(fs[s.focus as int], t.fields@[s.focus as int], code, mods, adv);
        if t.focus < t.fields@.len() && t.focus != s.focus {
            assert(t.fields@[t.focus as int] == fs[t.focus as int]);
        }
    }
}

/// Every required text or number field of `fs` holds an answer.
pub open spec fn required_answered(fs: Seq<FieldValue>) -> bool {
    forall|i: int|
        0 <= i < fs.len() ==> match #[trigger] fs[i] {
            FieldValue::Text { value, required, .. } => required ==> value@.len() > 0,
            FieldValue::Number { value, required, .. } => required ==> value@.len() > 0,
            _ => true,
        }
}

proof fn lemma_first_missing_none(fs: Seq<FieldValue>, k: int)
    requires
        0 <= k,
    ensures
        first_missing_from(fs, k) is None <==> forall|i: int| k <= i < fs.len() ==> !missing(#[trigger] fs[i]),
    decreases fs.len() - k,
{
    if k < fs.len() {
        lemma_first_missing_none(fs, k + 1);
        if !missing(fs[k]) && first_missing_from(fs, k + 1) is None {
            assert forall|i: int| k <= i < fs.len() implies !missing(#[trigger] fs[i]) by {
                if i > k {
                    assert(k + 1 <= i);
                }
            }
        }
    }
}

/// Submission is gated on the required fields: a key submits the form
/// only when every required text and number field holds an answer, and
/// then the answers are as they were; Ctrl+S submits whenever they all
/// do, and refuses otherwise, naming a field and focusing it.
pub proof fn lemma_submission_needs_answers(
    s: InterviewState,
    t: InterviewState,
    code: KeyCode,
    mods: KeyModifiers,
    r: bool,
)
    requires
        s.wf(),
        interview_key_effect(s, t, code, mods, r),
    ensures
        r ==> required_answered(s.fields@) && t.fields@ == s.fields@,
        code == KeyCode::Char('s') && mods.control ==> (r <==> required_answered(s.fields@)),
        code == KeyCode::Char('s') && mods.control && !r ==> {
            &&& t.validation_error is Some && t.focus < s.fields@.len()
            &&& (s.fields@[t.focus as int] matches FieldValue::Text { value, required, .. } && required
                && value@.len() == 0) || (s.fields@[t.focus as int] matches FieldValue::Number {
                value,
                required,
                ..
            } && required && value@.len() == 0)
        },
{
    let fs = s.fields@;
    lemma_first_missing_none(fs, 0);
    lemma_first_missing_from(fs, 0);
    if required_answered(fs) {
        assert forall|i: int| 0 <= i < fs.len() implies !missing(#[trigger] fs[i]) by {
            assert(match fs[i] {
                FieldValue::Text { value, required, .. } => required ==> value@.len() > 0,
                FieldValue::Number { value, required, .. } => required ==> value@.len() > 0,
                _ => true,
            });
        }
    }
    if first_missing_from(fs, 0) is None {
        assert forall|i: int| 0 <= i < fs.len() implies match #[trigger] fs[i] {
            FieldValue::Text { value, required, .. } => required ==> value@.len() > 0,
            FieldValue::Number { value, required, .. } => required ==> value@.len() > 0,
            _ => true,
        } by {
            assert(!missing(fs[i]));
        }
    }
}

/// The first interactive field at or after `k`, else the Submit slot.
fn first_interactive_exec(fields: &Vec<FieldValue>, k: usize) -> (r: usize)
    ensures
        r == first_interactive_from(fields@, k as int),
{
    let n = fields.len();
    let mut j = k;
    while j < n
        invariant
            n == fields@.len(),
            k <= j,
            first_interactive_from(fields@, k as int) == first_interactive_from(fields@, j as int),
        decreases n - j,
    {
        match &fields[j] {
            FieldValue::Section { .. } | FieldValue::Info { .. } => {},
            _ => {
                return j;
            },
        }
        j += 1;
    }
    n
}

/// The focus after a step forward.
fn next_focus_exec(fields: &Vec<FieldValue>, focus: usize) -> (r: usize)
    ensures
        r == next_focus(fields@, focus as int),
        r <= fields@.len(),
{
    proof {
        lemma_first_interactive_from(fields@, 0);
        if focus < fields@.len() {
            lemma_first_interactive_from(fields@, focus + 1);
        }
    }
    if focus < fields.len() {
        first_interactive_exec(fields, focus + 1)
    } else {
        first_interactive_exec(fields, 0)
    }
}

/// The focus after a step back.
fn prev_focus_exec(fields: &Vec<FieldValue>, focus: usize) -> (r: usize)
    ensures
        r == prev_focus(fields@, focus as int),
        r <= fields@.len(),
{
    let n = fields.len();
    let k = if focus < n {
        focus
    } else {
        n
    };
    proof {
        lemma_last_interactive_before(fields@, k as int);
    }
    let mut j = k;
    while j > 0
        invariant
            j <= k <= n,
            n == fields@.len(),
            k == (if focus < n {
                focus
            } else {
                n
            }),
            last_interactive_before(fields@, k as int) == last_interactive_before(fields@, j as int),
        decreases j,
    {
        match &fields[j - 1] {
            FieldValue::Section { .. } | FieldValue::Info { .. } => {},
            _ => {
                proof {
                    assert(interactive(fields@[j - 1]));
                    assert(last_interactive_before(fields@, j as int) == Some(j - 1));
                    assert(last_interactive_before(fields@, k as int) == Some(j - 1));
                    assert(k as int == (if (focus as int) < fields@.len() {
                        focus as int
                    } else {
                        fields@.len() as int
                    }));
                }
                return j - 1;
            },
        }
        j -= 1;
    }
    n
}

/// Whether a field is a required one left empty.
fn is_missing(f: &FieldValue) -> (r: bool)
    ensures
        r == missing(*f),
{
    match f {
        FieldValue::Text { value, required, .. } => *required && value.unicode_len() == 0,
        FieldValue::Number { value, required, .. } => *required && value.unicode_len() == 0,
        _ => false,
    }
}

/// The first required field left empty, if any.
fn first_missing_exec(fields: &Vec<FieldValue>) -> (r: Option<usize>)
    ensures
        match r {
            Some(i) => first_missing_from(fields@, 0) == Some(i as int),
            None => first_missing_from(fields@, 0) is None,
        },
{
    let n = fields.len();
    let mut j: usize = 0;
    while j < n
        invariant
            n == fields@.len(),
            j <= n,
            first_missing_from(fields@, 0) == first_missing_from(fields@, j as int),
        decreases n - j,
    {
        if is_missing(&fields[j]) {
            return Some(j);
        }
        j += 1;
    }
    None
}

/// The label of a field.
fn label_text(f: &FieldValue) -> (r: &str)
    ensures
        r@ == label_of(*f),
{
    proof {
        reveal_strlit("");
    }
    match f {
        FieldValue::Toggle { label, .. } => label.as_str(),
        FieldValue::Select { label, .. } => label.as_str(),
        FieldValue::Multiselect { label, .. } => label.as_str(),
        FieldValue::Text { label, .. } => label.as_str(),
        FieldValue::Number { label, .. } => label.as_str(),
        _ => "",
    }
}

/// Try to submit the form (see `submit_effect`).
fn try_submit_interview(state: &mut InterviewState) -> (r: bool)
    requires
        old(state).wf(),
    ensures
        submit_effect(*old(state), *final(state), r),
        final(state).wf(),
{
    proof {
        lemma_first_missing_from(state.fields@, 0);
    }
    match first_missing_exec(&state.fields) {
        None => {
            state.validation_error = None;
            true
        },
        Some(i) => {
            let msg = concat2("required: ", label_text(&state.fields[i]));
            state.validation_error = Some(msg);
            state.focus = i;
            false
        },
    }
}

/// A key on the focused field (see `field_key_effect`).
fn field_key(f: FieldValue, code: KeyCode, mods: KeyModifiers) -> (r: (FieldValue, bool))
    requires
        field_wf(f),
        field_room(f),
    ensures
        field_key_effect(f, r.0, code, mods, r.1),
        field_wf(r.0),
{
    match f {
        FieldValue::Toggle { id, label, description, value } => {
            let v = match code {
                KeyCode::Char(' ') | KeyCode::Char('x') | KeyCode::Enter => !value,
                KeyCode::Left => false,
                KeyCode::Right => true,
                _ => value,
            };
            (FieldValue::Toggle { id, label, description, value: v }, false)
        },
        FieldValue::Select { id, label, description, options, selected } => {
            let n = options.len();
            let mut sel = selected;
            match code {
                KeyCode::Left => {
                    if sel > 0 {
                        sel -= 1;
                    }
                },
                KeyCode::Right => {
                    if sel < n && sel + 1 < n {
                        sel += 1;
                    }
                },
                KeyCode::Char(ch) => {
                    if '1' <= ch && ch <= '9' {
                        let d = (ch as u32 - '0' as u32) as usize;
                        if d <= n {
                            sel = d - 1;
                        }
                    }
                },
                _ => {},
            }
            let adv = match code {
                KeyCode::Enter => true,
                _ => false,
            };
            (FieldValue::Select { id, label, description, options, selected: sel }, adv)
        },
        FieldValue::Multiselect { id, label, description, options, checked, cursor } => {
            let n = options.len();
            let mut cur = cursor;
            let mut ck = checked;
            match code {
                KeyCode::Left => {
                    if cur > 0 {
                        cur -= 1;
                    }
                },
                KeyCode::Right => {
                    if cur < n && cur + 1 < n {
                        cur += 1;
                    }
                },
                KeyCode::Char(' ') | KeyCode::Enter | KeyCode::Char('x') => {
                    if cur < ck.len() {
                        let b = ck[cur];
                        ck.set(cur, !b);
                    }
                },
                _ => {},
            }
            (FieldValue::Multiselect { id, label, description, options, checked: ck, cursor: cur }, false)
        },
        FieldValue::Text { id, label, description, value, cursor, required, multiline } => {
            let enter = match code {
                KeyCode::Enter => true,
                _ => false,
            };
            if enter && !mods.shift && !mods.control && !multiline {
                (FieldValue::Text { id, label, description, value, cursor, required, multiline }, true)
            } else {
                let mut v = value;
                let mut c = cursor;
                text_field_key(&mut v, &mut c, multiline, code, mods);
                (FieldValue::Text { id, label, description, value: v, cursor: c, required, multiline }, false)
            }
        },
        FieldValue::Number { id, label, description, value, cursor, required, bounded } => {
            let enter = match code {
                KeyCode::Enter => true,
                _ => false,
            };
            if enter && mods == KeyModifiers::none() {
                return (FieldValue::Number { id, label, description, value, cursor, required, bounded }, true);
            }
            let refused = match code {
                KeyCode::Char(ch) => !(('0' <= ch && ch <= '9') || ch == '.' || ch == '-' || ch == 'e' || ch
                    == 'E' || ch == '+'),
                _ => false,
            };
            if refused {
                return (FieldValue::Number { id, label, description, value, cursor, required, bounded }, false);
            }
            let mut v = value;
            let mut c = cursor;
            text_field_key(&mut v, &mut c, false, code, mods);
            (FieldValue::Number { id, label, description, value: v, cursor: c, required, bounded }, false)
        },
        other => (other, false),
    }
}

/// A key in the open form (see `interview_key_effect`). Returns whether
/// the form was submitted.
pub fn interview_key(state: &mut InterviewState, code: KeyCode, mods: KeyModifiers) -> (submitted: bool)
    requires
        old(state).wf(),
        old(state).has_room(),
    ensures
        interview_key_effect(*old(state), *final(state), code, mods, submitted),
        final(state).wf(),
{
    let tab = match code {
        KeyCode::Tab => true,
        KeyCode::Down => !mods.alt,
        _ => false,
    };
    if tab {
        state.focus = next_focus_exec(&state.fields, state.focus);
        state.user_scrolled = false;
        return false;
    }
    let back = match code {
        KeyCode::BackTab => true,
        KeyCode::Up => !mods.alt,
        _ => false,
    };
    if back {
        state.focus = prev_focus_exec(&state.fields, state.focus);
        state.user_scrolled = false;
        return false;
    }
    let submit_keys = match code {
        KeyCode::Enter | KeyCode::Char('s') => mods.control,
        _ => false,
    };
    if submit_keys {
        return try_submit_interview(state);
    }
    match code {
        KeyCode::PageDown => {
            state.scroll = state.scroll.saturating_add(10);
            state.user_scrolled = true;
            return false;
        },
        KeyCode::PageUp => {
            state.scroll = state.scroll.saturating_sub(10);
            state.user_scrolled = true;
            return false;
        },
        KeyCode::Home => {
            if mods.control {
                state.scroll = 0;
                state.user_scrolled = true;
                return false;
            }
        },
        KeyCode::End => {
            if mods.control {
                state.scroll = u16::MAX;
                state.user_scrolled = true;
                return false;
            }
        },
        _ => {},
    }
    if state.focus >= state.fields.len() {
        let go = match code {
            KeyCode::Enter | KeyCode::Char(' ') => true,
            _ => false,
        };
        return go && try_submit_interview(state);
    }
    let i = state.focus;
    let ghost s0 = *state;
    let f = state.fields.remove(i);
    let (g, adv) = field_key(f, code, mods);
    state.fields.insert(i, g);
    proof {
        assert(state.fields@ =~= s0.fields@.update(i as int, g));
        assert forall|j: int| 0 <= j < state.fields@.len() implies #[trigger] field_wf(state.fields@[j]) by {
            if j != i {
                assert(state.fields@[j] == s0.fields@[j]);
            }
        }
    }
    proof {
        assert(state.fields@[i as int] == g);
        assert(field_key_effect(s0.fields@[i as int], state.fields@[i as int], code, mods, adv));
    }
    if adv {
        state.focus = next_focus_exec(&state.fields, state.focus);
        state.user_scrolled = false;
        proof {
            assert(next_focus(state.fields@, i as int) == next_focus(s0.fields@, i as int)) by {
                lemma_next_focus_same(s0.fields@, state.fields@, i as int);
            }
        }
    }
    false
}

/// Replacing an interactive field by one of the same kind leaves every
/// step of the focus as it was.
proof fn lemma_next_focus_same(a: Seq<FieldValue>, b: Seq<FieldValue>, i: int)
    requires
        a.len() == b.len(),
        0 <= i < a.len(),
        forall|j: int| 0 <= j < a.len() ==> interactive(#[trigger] a[j]) == interactive(b[j]),
    ensures
        next_focus(a, i) == next_focus(b, i),
{
    lemma_first_from_same(a, b, i + 1);
}

proof fn lemma_first_from_same(a: Seq<FieldValue>, b: Seq<FieldValue>, k: int)
    requires
        a.len() == b.len(),
        forall|j: int| 0 <= j < a.len() ==> interactive(#[trigger] a[j]) == interactive(b[j]),
    ensures
        first_interactive_from(a, k) == first_interactive_from(b, k),
    decreases a.len() - k,
{
    if 0 <= k < a.len() && !interactive(a[k]) {
        lemma_first_from_same(a, b, k + 1);
    }
}

/// The number of questions among `fs`: its interactive fields.
pub open spec fn questions(fs: Seq<FieldValue>) -> nat
    decreases fs.len(),
{
    if fs.len() == 0 {
        0
    } else {
        questions(fs.drop_last()) + if interactive(fs.last()) {
            1nat
        } else {
            0nat
        }
    }
}

/// The number of questions among `fields`.
pub fn question_count(fields: &Vec<FieldValue>) -> (n: u64)
    ensures
        n == questions(fields@),
{
    let mut n: u64 = 0;
    let mut j: usize = 0;
    while j < fields.len()
        invariant
            j <= fields@.len(),
            n == questions(fields@.take(j as int)),
            n <= j,
        decreases fields@.len() - j,
    {
        assert(fields@.take(j + 1).drop_last() =~= fields@.take(j as int));
        match &fields[j] {
            FieldValue::Section { .. } | FieldValue::Info { .. } => {},
            _ => {
                n += 1;
            },
        }
        j += 1;
    }
    assert(fields@.take(j as int) =~= fields@);
    n
}

impl InterviewState {
    /// A form titled `title`, described by `description`, with Submit
    /// label `submit_label` and these fields, the focus on its first
    /// interactive field (the Submit slot when it has none), at the top,
    /// with no refusal.
    pub fn new(title: String, description: Option<String>, submit_label: String, fields: Vec<FieldValue>) -> (s:
        InterviewState)
        requires
            forall|i: int| 0 <= i < fields@.len() ==> #[trigger] field_wf(fields@[i]),
        ensures
            s.title@ == title@ && s.description == description && s.submit_label@ == submit_label@,
            s.fields@ == fields@,
            s.focus == first_interactive_from(fields@, 0),
            s.scroll == 0 && !s.user_scrolled && s.validation_error is None,
            s.wf(),
            focus_on_question(s),
    {
        proof {
            lemma_first_interactive_from(fields@, 0);
        }
        let focus = first_interactive_exec(&fields, 0);
        InterviewState {
            title,
            description,
            submit_label,
            fields,
            focus,
            scroll: 0,
            user_scrolled: false,
            validation_error: None,
        }
    }
}

/// The lines an optional description takes under a label: one when given.
pub open spec fn desc_lines(d: Option<String>) -> nat {
    if d is Some {
        1
    } else {
        0
    }
}

/// The number of newlines in `t`.
pub open spec fn newlines(t: Seq<char>) -> nat
    decreases t.len(),
{
    if t.len() == 0 {
        0
    } else {
        newlines(t.drop_last()) + if t.last() == '\n' {
            1nat
        } else {
            0nat
        }
    }
}

/// The lines a text's value takes: one per line of a non-empty
/// multi-line value, else one.
pub open spec fn value_lines(v: Seq<char>, multiline: bool) -> nat {
    if multiline && v.len() > 0 {
        newlines(v) + 1
    } else {
        1
    }
}

/// The lines field `f` takes in the body of the form, `first` when it
/// opens the list: a heading has a blank line above it (but first), its
/// line and its description, and a blank line; an explanation its line
/// and a blank line; a question its label, its description, its value
/// (for a number with bounds, a line naming them too) and a blank line.
pub open spec fn field_lines(f: FieldValue, first: bool) -> nat {
    match f {
        FieldValue::Section { description, .. } => (if first {
            0nat
        } else {
            1nat
        }) + 2 + desc_lines(description),
        FieldValue::Info { .. } => 2,
        FieldValue::Text { description, value, multiline, .. } => 2 + desc_lines(description) + value_lines(
            value@,
            multiline,
        ),
        FieldValue::Number { description, bounded, .. } => 3 + desc_lines(description) + if bounded {
            1nat
        } else {
            0nat
        },
        FieldValue::Toggle { description, .. } => 3 + desc_lines(description),
        FieldValue::Select { description, .. } => 3 + desc_lines(description),
        FieldValue::Multiselect { description, .. } => 3 + desc_lines(description),
    }
}

/// The lines the first `k` fields take.
pub open spec fn lines_before(fs: Seq<FieldValue>, k: int) -> nat
    decreases k,
{
    if k <= 0 {
        0
    } else {
        lines_before(fs, k - 1) + field_lines(fs[k - 1], k - 1 == 0)
    }
}

/// The lines above the fields: the form's description and the refusal
/// message, each with a blank line after it.
pub open spec fn top_lines(s: InterviewState) -> nat {
    (if s.description is Some {
        2nat
    } else {
        0nat
    }) + if s.validation_error is Some {
        2nat
    } else {
        0nat
    }
}

/// The line of the body at which focus slot `k` starts: field `k`, or,
/// for the Submit slot, its button after a blank line.
pub open spec fn focus_line(s: InterviewState, k: int) -> nat {
    top_lines(s) + lines_before(s.fields@, k) + if k == s.fields@.len() {
        1nat
    } else {
        0nat
    }
}

/// A line count as the body counts it, in 16 bits.
pub open spec fn line16(n: nat) -> u16 {
    (n % 65536) as u16
}

/// `a + b` in 16 bits, wrapping.
fn add16(a: u16, b: u16) -> (r: u16)
    ensures
        r == ((a + b) % 65536) as u16,
{
    let s: u32 = a as u32 + b as u32;
    (s % 65536) as u16
}

proof fn lemma_line16_add(x: nat, y: nat)
    ensures
        line16(x + y) == ((line16(x) + line16(y)) % 65536) as u16,
{
    vstd::arithmetic::div_mod::lemma_add_mod_noop(x as int, y as int, 65536);
}

/// The number of newlines in `t`, in 16 bits.
fn newlines16(t: &str) -> (r: u16)
    ensures
        r == line16(newlines(t@)),
{
    let n = t.unicode_len();
    let mut k: usize = 0;
    let mut c: u16 = 0;
    while k < n
        invariant
            n == t@.len(),
            k <= n,
            c == line16(newlines(t@.take(k as int))),
        decreases n - k,
    {
        assert(t@.take(k + 1).drop_last() =~= t@.take(k as int));
        let one: u16 = if t.get_char(k) == '\n' {
            1
        } else {
            0
        };
        proof {
            lemma_line16_add(newlines(t@.take(k as int)), one as nat);
        }
        c = add16(c, one);
        k += 1;
    }
    assert(t@.take(k as int) =~= t@);
    c
}

/// The lines a field takes, in 16 bits.
fn field_lines16(f: &FieldValue, first: bool) -> (r: u16)
    ensures
        r == line16(field_lines(*f, first)),
{
    let d: u16 = match f {
        FieldValue::Section { description, .. } | FieldValue::Toggle { description, .. }
        | FieldValue::Select { description, .. } | FieldValue::Multiselect { description, .. }
        | FieldValue::Text { description, .. } | FieldValue::Number { description, .. } => if description.is_some() {
            1
        } else {
            0
        },
        FieldValue::Info { .. } => 0,
    };
    match f {
        FieldValue::Section { .. } => if first {
            2 + d
        } else {
            3 + d
        },
        FieldValue::Info { .. } => 2,
        FieldValue::Text { value, multiline, .. } => {
            if *multiline && value.unicode_len() > 0 {
                let nl = newlines16(value.as_str());
                proof {
                    lemma_line16_add((2 + d + 1) as nat, newlines(value@));
                }
                add16(3 + d, nl)
            } else {
                3 + d
            }
        },
        FieldValue::Number { bounded, .. } => if *bounded {
            4 + d
        } else {
            3 + d
        },
        _ => 3 + d,
    }
}

/// The line of the form's body at which each focus slot starts, the
/// fields' and then the Submit slot's, counted in 16 bits as the body's
/// line numbers are; the view follows the focused one.
pub fn interview_focus_rows(state: &InterviewState) -> (r: Vec<u16>)
    ensures
        r@.len() == state.fields@.len() + 1,
        forall|k: int| 0 <= k <= state.fields@.len() ==> #[trigger] r@[k] == line16(focus_line(*state, k)),
{
    let n = state.fields.len();
    let top: u16 = (if state.description.is_some() {
        2
    } else {
        0
    }) + (if state.validation_error.is_some() {
        2
    } else {
        0
    });
    let mut line = top;
    let mut rows: Vec<u16> = Vec::new();
    let mut i: usize = 0;
    while i < n
        invariant
            n == state.fields@.len(),
            i <= n,
            top as nat == top_lines(*state),
            rows@.len() == i,
            line == line16(top_lines(*state) + lines_before(state.fields@, i as int)),
            forall|k: int| 0 <= k < i ==> #[trigger] rows@[k] == line16(focus_line(*state, k)),
        decreases n - i,
    {
        rows.push(line);
        let f = field_lines16(&state.fields[i], i == 0);
        proof {
            lemma_line16_add(top_lines(*state) + lines_before(state.fields@, i as int), field_lines(state.fields@[i as int], i == 0));
        }
        line = add16(line, f);
        i += 1;
    }
    proof {
        lemma_line16_add(top_lines(*state) + lines_before(state.fields@, n as int), 1);
    }
    rows.push(add16(line, 1));
    rows
}

} // verus!
