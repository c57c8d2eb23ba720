//! The protocol markers an agent writes into its text: plan markers
//! (`[[PLAN_SET: a | b]]`, `[[PLAN_ADD: c]]`, `[[STEP_DONE]]`,
//! `[[STEP_FAILED: why]]`) and interview markers (`[[ASK_TITLE: …]]`,
//! `[[ASK_TEXT: …]]` and the other `[[ASK_…]]` forms). A marker runs from
//! its opening `[[` and name to the first `]]` after them.

use vstd::prelude::*;
use vstd::string::*;

use crate::text::char_to_string;

verus! {

/// `p` stands in `t` at position `i`.
pub open spec fn holds_at(t: Seq<char>, i: int, p: Seq<char>) -> bool {
    0 <= i && i + p.len() <= t.len() && t.subrange(i, i + p.len()) == p
}

/// A plan marker opens at `i`.
pub open spec fn plan_marker_at(t: Seq<char>, i: int) -> bool {
    holds_at(t, i, "[[PLAN_SET"@) || holds_at(t, i, "[[PLAN_ADD"@) || holds_at(t, i, "[[STEP_DONE"@)
        || holds_at(t, i, "[[STEP_FAILED"@)
}

/// An interview marker opens at `i`.
pub open spec fn ask_marker_at(t: Seq<char>, i: int) -> bool {
    holds_at(t, i, "[[ASK_"@)
}

/// A marker of the kinds chosen opens at `i`.
pub open spec fn opens_at(t: Seq<char>, i: int, plan: bool, ask: bool) -> bool {
    (plan && plan_marker_at(t, i)) || (ask && ask_marker_at(t, i))
}

/// The first `]]` at or after `k`.
pub open spec fn close_after(t: Seq<char>, k: int) -> Option<int>
    decreases t.len() - k,
{
    if k < 0 || k + 1 >= t.len() {
        None
    } else if t[k] == ']' && t[k + 1] == ']' {
        Some(k)
    } else {
        close_after(t, k + 1)
    }
}

/// A `]]` found at or after `k` is one, within `t`.
pub proof fn lemma_close_after(t: Seq<char>, k: int)
    ensures
        close_after(t, k) matches Some(j) ==> k <= j && j + 1 < t.len() && t[j] == ']' && t[j + 1]
            == ']',
    decreases t.len() - k,
{
    if !(k < 0 || k + 1 >= t.len()) && !(t[k] == ']' && t[k + 1] == ']') {
        lemma_close_after(t, k + 1);
    }
}

/// `t` from position `k` on, without its markers of the kinds chosen (a
/// marker never closed stays).
pub open spec fn strip_from(t: Seq<char>, k: int, plan: bool, ask: bool) -> Seq<char>
    decreases t.len() - k,
{
    if k < 0 || k >= t.len() {
        Seq::empty()
    } else if opens_at(t, k, plan, ask) && close_after(t, k + 2) is Some {
        let j = close_after(t, k + 2)->0;
        proof {
            lemma_close_after(t, k + 2);
        }
        strip_from(t, j + 2, plan, ask)
    } else {
        seq![t[k]] + strip_from(t, k + 1, plan, ask)
    }
}

/// `t` from position `k` on holds a marker of the kinds chosen.
pub open spec fn found_from(t: Seq<char>, k: int, plan: bool, ask: bool) -> bool
    decreases t.len() - k,
{
    if k < 0 || k >= t.len() {
        false
    } else if opens_at(t, k, plan, ask) && close_after(t, k + 2) is Some {
        true
    } else {
        found_from(t, k + 1, plan, ask)
    }
}

/// `t` without its markers of the kinds chosen.
pub open spec fn stripped_markers(t: Seq<char>, plan: bool, ask: bool) -> Seq<char> {
    strip_from(t, 0, plan, ask)
}

/// `t` holds a marker of the kinds chosen.
pub open spec fn has_markers(t: Seq<char>, plan: bool, ask: bool) -> bool {
    found_from(t, 0, plan, ask)
}

/// A marker named by one of the protocol's names opens at `i`: with plan
/// markers chosen `[[PLAN_SET`, `[[PLAN_ADD`, `[[STEP_DONE` or
/// `[[STEP_FAILED`, with interview markers chosen `[[ASK_`.
pub open spec fn named_marker_at(t: Seq<char>, i: int, plan: bool, ask: bool) -> bool {
    ||| plan && holds_at(t, i, "[[PLAN_SET"@)
    ||| plan && holds_at(t, i, "[[PLAN_ADD"@)
    ||| plan && holds_at(t, i, "[[STEP_DONE"@)
    ||| plan && holds_at(t, i, "[[STEP_FAILED"@)
    ||| ask && holds_at(t, i, "[[ASK_"@)
}

proof fn lemma_found_before(t: Seq<char>, k: int, i: int, plan: bool, ask: bool)
    requires
        0 <= k <= i < t.len(),
        opens_at(t, i, plan, ask) && close_after(t, i + 2) is Some,
    ensures
        found_from(t, k, plan, ask),
    decreases i - k,
{
    if k < i && !(opens_at(t, k, plan, ask) && close_after(t, k + 2) is Some) {
        lemma_found_before(t, k + 1, i, plan, ask);
    }
}

/// Removing the markers takes out each closed marker of the names
/// chosen: where one opens, at a place the removal reaches, the text
/// resumes after its `]]`, and the text is reported to hold a marker.
/// Only those names open one: elsewhere a character stays.
pub proof fn lemma_named_markers_removed(t: Seq<char>, i: int, plan: bool, ask: bool)
    requires
        0 <= i < t.len(),
    ensures
        named_marker_at(t, i, plan, ask) && close_after(t, i + 2) is Some ==> {
            &&& has_markers(t, plan, ask)
            &&& strip_from(t, i, plan, ask) == strip_from(t, close_after(t, i + 2)->0 + 2, plan, ask)
        },
        !named_marker_at(t, i, plan, ask) ==> strip_from(t, i, plan, ask) == seq![t[i]] + strip_from(
            t,
            i + 1,
            plan,
            ask,
        ),
{
    if named_marker_at(t, i, plan, ask) && close_after(t, i + 2) is Some {
        lemma_found_before(t, 0, i, plan, ask);
    }
}

/// Whether `p` stands in `t` (of `n` characters) at `i`.
fn holds_at_exec(t: &str, n: usize, i: usize, p: &str) -> (r: bool)
    requires
        n == t@.len(),
    ensures
        r == holds_at(t@, i as int, p@),
{
    let m = p.unicode_len();
    if i > n || m > n - i {
        return false;
    }
    let mut k: usize = 0;
    while k < m
        invariant
            n == t@.len(),
            m == p@.len(),
            i + m <= n,
            k <= m,
            forall|q: int| 0 <= q < k ==> t@[i + q] == p@[q],
        decreases m - k,
    {
        if t.get_char(i + k) != p.get_char(k) {
            assert(t@.subrange(i as int, i + m)[k as int] != p@[k as int]);
            return false;
        }
        k += 1;
    }
    assert(t@.subrange(i as int, i + m) =~= p@);
    true
}

/// Whether a marker of the kinds chosen opens at `i`.
fn opens_at_exec(t: &str, n: usize, i: usize, plan: bool, ask: bool) -> (r: bool)
    requires
        n == t@.len(),
    ensures
        r == opens_at(t@, i as int, plan, ask),
{
    (plan && (holds_at_exec(t, n, i, "[[PLAN_SET") || holds_at_exec(t, n, i, "[[PLAN_ADD")
        || holds_at_exec(t, n, i, "[[STEP_DONE") || holds_at_exec(t, n, i, "[[STEP_FAILED"))) || (ask
        && holds_at_exec(t, n, i, "[[ASK_"))
}

/// The first `]]` at or after `k`.
fn close_after_exec(t: &str, n: usize, k: usize) -> (r: Option<usize>)
    requires
        n == t@.len(),
    ensures
        match r {
            Some(j) => close_after(t@, k as int) == Some(j as int),
            None => close_after(t@, k as int) is None,
        },
{
    let mut j = k;
    while j < n && j + 1 < n
        invariant
            n == t@.len(),
            k <= j,
            close_after(t@, k as int) == close_after(t@, j as int),
        decreases n - j,
    {
        if t.get_char(j) == ']' && t.get_char(j + 1) == ']' {
            return Some(j);
        }
        j += 1;
    }
    None
}

/// `text` without its markers of the kinds chosen, and whether it held
/// one.
pub fn strip_markers(text: &str, plan: bool, ask: bool) -> (r: (String, bool))
    ensures
        r.0@ == stripped_markers(text@, plan, ask),
        r.1 == has_markers(text@, plan, ask),
{
    let n = text.unicode_len();
    let mut out = String::new();
    let mut found = false;
    let mut k: usize = 0;
    while k < n
        invariant
            n == text@.len(),
            k <= n,
            out@ + strip_from(text@, k as int, plan, ask) == stripped_markers(text@, plan, ask),
            has_markers(text@, plan, ask) == (found || found_from(text@, k as int, plan, ask)),
        decreases n - k,
    {
        if opens_at_exec(text, n, k, plan, ask) && n - k >= 2 {
            match close_after_exec(text, n, k + 2) {
                Some(j) => {
                    proof {
                        lemma_close_after(text@, k + 2);
                    }
                    found = true;
                    k = j + 2;
                    continue;
                },
                None => {},
            }
        }
        let c = text.get_char(k);
        let one = char_to_string(c);
        let ghost before = out@;
        out.append(one.as_str());
        proof {
            if opens_at(text@, k as int, plan, ask) && n - k < 2 {
                assert(close_after(text@, k + 2) is None);
            }
            assert(before + strip_from(text@, k as int, plan, ask) =~= out@ + strip_from(
                text@,
                k + 1,
                plan,
                ask,
            ));
        }
        k += 1;
    }
    proof {
        assert(out@ =~= out@ + strip_from(text@, k as int, plan, ask));
    }
    (out, found)
}

} // verus!
