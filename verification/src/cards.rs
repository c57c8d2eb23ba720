//! Text preparation for the transcript's cards: the line-number gutter
//! that file-reading tools print is taken off before highlighting.

use vstd::prelude::*;
use vstd::string::*;

use crate::helpers::concat2;
use crate::text::char_to_string;

verus! {

/// `l` without one carriage return at its end.
pub open spec fn strip_cr(l: Seq<char>) -> Seq<char> {
    if l.len() > 0 && l.last() == '\r' {
        l.drop_last()
    } else {
        l
    }
}

/// The lines `str::lines` yields for the rest `t` of a text, `cur` being
/// what was read of the current line: each line ends at a `\n`, which a
/// `\r` before it joins; a last line without `\n` is kept as it is, and
/// nothing follows a final `\n`.
pub open spec fn lines_from(t: Seq<char>, cur: Seq<char>) -> Seq<Seq<char>>
    decreases t.len(),
{
    if t.len() == 0 {
        if cur.len() == 0 {
            Seq::empty()
        } else {
            seq![cur]
        }
    } else if t[0] == '\n' {
        seq![strip_cr(cur)] + lines_from(t.drop_first(), Seq::empty())
    } else {
        lines_from(t.drop_first(), cur.push(t[0]))
    }
}

/// The lines of `t`, as `str::lines` yields them.
pub open spec fn lines_of(t: Seq<char>) -> Seq<Seq<char>> {
    lines_from(t, Seq::empty())
}

/// A character of a line-number gutter: an ASCII digit or a space.
pub open spec fn gutter_digit(c: char) -> bool {
    ('0' <= c && c <= '9') || c == ' '
}

/// A separator after a line number: a tab, an arrow, a bar or a colon.
pub open spec fn gutter_mark(c: char) -> bool {
    c == '\t' || c == '→' || c == '|' || c == ':'
}

/// `t` without its leading digits and spaces.
pub open spec fn skip_digits(t: Seq<char>) -> Seq<char>
    decreases t.len(),
{
    if t.len() > 0 && gutter_digit(t[0]) {
        skip_digits(t.drop_first())
    } else {
        t
    }
}

/// `t` without its leading separators.
pub open spec fn skip_marks(t: Seq<char>) -> Seq<char>
    decreases t.len(),
{
    if t.len() > 0 && gutter_mark(t[0]) {
        skip_marks(t.drop_first())
    } else {
        t
    }
}

/// A line without its gutter, or the whole line when nothing else is
/// left.
pub open spec fn kept_line(l: Seq<char>) -> Seq<char> {
    let s = skip_marks(skip_digits(l));
    if s.len() == 0 {
        l
    } else {
        s
    }
}

/// The kept lines, each ended by a newline.
pub open spec fn stripped(ls: Seq<Seq<char>>) -> Seq<char>
    decreases ls.len(),
{
    if ls.len() == 0 {
        Seq::empty()
    } else {
        kept_line(ls[0]) + seq!['\n'] + stripped(ls.drop_first())
    }
}

/// Appending a character to a text appends it to what is left after its
/// leading digits, or starts that rest when nothing was left.
proof fn lemma_skip_digits_push(x: Seq<char>, c: char)
    ensures
        skip_digits(x.push(c)) == (if skip_digits(x).len() == 0 {
            if gutter_digit(c) {
                Seq::empty()
            } else {
                seq![c]
            }
        } else {
            skip_digits(x).push(c)
        }),
    decreases x.len(),
{
    if x.len() == 0 {
        assert(x.push(c) =~= seq![c]);
        assert(seq![c].drop_first() =~= Seq::<char>::empty());
        reveal_with_fuel(skip_digits, 2);
    } else {
        assert(x.push(c)[0] == x[0]);
        assert(x.push(c).drop_first() =~= x.drop_first().push(c));
        lemma_skip_digits_push(x.drop_first(), c);
    }
}

/// The same for leading separators.
proof fn lemma_skip_marks_push(x: Seq<char>, c: char)
    ensures
        skip_marks(x.push(c)) == (if skip_marks(x).len() == 0 {
            if gutter_mark(c) {
                Seq::empty()
            } else {
                seq![c]
            }
        } else {
            skip_marks(x).push(c)
        }),
    decreases x.len(),
{
    if x.len() == 0 {
        assert(x.push(c) =~= seq![c]);
        assert(seq![c].drop_first() =~= Seq::<char>::empty());
        reveal_with_fuel(skip_marks, 2);
    } else {
        assert(x.push(c)[0] == x[0]);
        assert(x.push(c).drop_first() =~= x.drop_first().push(c));
        lemma_skip_marks_push(x.drop_first(), c);
    }
}

/// What is left of `x` once its gutter is off, for `x` extended by `c`.
proof fn lemma_body_push(x: Seq<char>, c: char)
    ensures
        skip_marks(skip_digits(x.push(c))) == (if skip_digits(x).len() == 0 {
            if gutter_digit(c) || gutter_mark(c) {
                Seq::empty()
            } else {
                seq![c]
            }
        } else if skip_marks(skip_digits(x)).len() == 0 {
            if gutter_mark(c) {
                Seq::empty()
            } else {
                seq![c]
            }
        } else {
            skip_marks(skip_digits(x)).push(c)
        }),
{
    lemma_skip_digits_push(x, c);
    if skip_digits(x).len() == 0 {
        if !gutter_digit(c) {
            assert(seq![c].drop_first() =~= Seq::<char>::empty());
            reveal_with_fuel(skip_marks, 2);
        }
    } else {
        lemma_skip_marks_push(skip_digits(x), c);
    }
}

/// The line read so far as `cur`, `body` being what is left of it once
/// its gutter is off.
pub open spec fn line_state(cur: Seq<char>, body: Seq<char>, digits_done: bool) -> bool {
    &&& body == skip_marks(skip_digits(cur))
    &&& digits_done == (skip_digits(cur).len() > 0)
}

/// The kept form of the line `cur` ended by a newline.
proof fn lemma_kept_ended(cur: Seq<char>, body: Seq<char>, digits_done: bool)
    requires
        line_state(cur, body, digits_done),
    ensures
        cur.len() > 0 && cur.last() == '\r' ==> body.len() > 0,
        kept_line(strip_cr(cur)) == (if cur.len() > 0 && cur.last() == '\r' {
            if body.drop_last().len() == 0 {
                cur.drop_last()
            } else {
                body.drop_last()
            }
        } else {
            if body.len() == 0 {
                cur
            } else {
                body
            }
        }),
{
    if cur.len() > 0 && cur.last() == '\r' {
        let x = cur.drop_last();
        assert(x.push('\r') =~= cur);
        lemma_body_push(x, '\r');
    }
}

/// Remove the last character of `s`.
fn drop_last_char(s: &String) -> (r: String)
    ensures
        r@ == (if s@.len() > 0 {
            s@.drop_last()
        } else {
            s@
        }),
{
    let n = s.unicode_len();
    if n > 0 {
        String::from_str(s.as_str().substring_char(0, n - 1))
    } else {
        s.clone()
    }
}

/// The kept form of a finished line.
fn finish_line(cur: &String, body: &String, ended: bool) -> (r: String)
    requires
        ended && cur@.len() > 0 && cur@.last() == '\r' ==> body@.len() > 0,
    ensures
        r@ == (if ended && cur@.len() > 0 && cur@.last() == '\r' {
            if body@.drop_last().len() == 0 {
                cur@.drop_last()
            } else {
                body@.drop_last()
            }
        } else {
            if body@.len() == 0 {
                cur@
            } else {
                body@
            }
        }),
{
    let n = cur.unicode_len();
    let cr = ended && n > 0 && cur.as_str().get_char(n - 1) == '\r';
    if cr {
        let b = drop_last_char(body);
        if b.unicode_len() == 0 {
            drop_last_char(cur)
        } else {
            b
        }
    } else {
        if body.unicode_len() == 0 {
            cur.clone()
        } else {
            body.clone()
        }
    }
}

/// `stripped` of lines read one after another.
proof fn lemma_stripped_cons(l: Seq<char>, ls: Seq<Seq<char>>)
    ensures
        stripped(seq![l] + ls) == kept_line(l) + seq!['\n'] + stripped(ls),
{
    assert((seq![l] + ls).drop_first() =~= ls);
}

/// Take off the line-number gutter (`  12→`, `7\t`, `3 | `, …) that
/// file-reading tools print before each line, so the source can be
/// highlighted; a line that is all gutter is kept whole. Every line comes
/// out ended by a newline.
pub fn strip_line_numbers(s: &str) -> (r: String)
    ensures
        r@ == stripped(lines_of(s@)),
{
    let mut out = String::new();
    let mut cur = String::new();
    let mut body = String::new();
    let mut digits_done = false;
    proof {
        broadcast use vstd::string::axiom_spec_iter;

        assert(s@.skip(0) =~= s@);
        assert(skip_digits(Seq::<char>::empty()) == Seq::<char>::empty());
    }
    for c in it: s.chars()
        invariant
            it.seq() == s@,
            line_state(cur@, body@, digits_done),
            stripped(lines_of(s@)) == out@ + stripped(lines_from(s@.skip(it.index()), cur@)),
    {
        let ghost i = it.index();
        proof {
            assert(s@.skip(i)[0] == c);
            assert(s@.skip(i).drop_first() =~= s@.skip(i + 1));
        }
        if c == '\n' {
            proof {
                lemma_kept_ended(cur@, body@, digits_done);
                lemma_stripped_cons(strip_cr(cur@), lines_from(s@.skip(i + 1), Seq::empty()));
                reveal_strlit("\n");
            }
            let kept = finish_line(&cur, &body, true);
            let line = concat2(kept.as_str(), "\n");
            let ghost before = out@;
            out.append(line.as_str());
            proof {
                assert(kept@ == kept_line(strip_cr(cur@)));
                assert(out@ =~= before + (kept_line(strip_cr(cur@)) + seq!['\n']));
                assert(before + (kept_line(strip_cr(cur@)) + seq!['\n']) + stripped(
                    lines_from(s@.skip(i + 1), Seq::empty()),
                ) =~= before + (kept_line(strip_cr(cur@)) + seq!['\n'] + stripped(
                    lines_from(s@.skip(i + 1), Seq::empty()),
                )));
                assert(skip_digits(Seq::<char>::empty()) == Seq::<char>::empty());
                assert(skip_marks(Seq::<char>::empty()) == Seq::<char>::empty());
            }
            cur = String::new();
            body = String::new();
            digits_done = false;
            assert(line_state(cur@, body@, digits_done));
        } else {
            proof {
                lemma_body_push(cur@, c);
                lemma_skip_digits_push(cur@, c);
                assert(skip_marks(Seq::<char>::empty()) == Seq::<char>::empty());
            }
            let one = char_to_string(c);
            let ghost body0 = body@;
            if !digits_done {
                let digit = ('0' <= c && c <= '9') || c == ' ';
                let mark = c == '\t' || c == '→' || c == '|' || c == ':';
                if !digit {
                    digits_done = true;
                    if !mark {
                        body.append(one.as_str());
                        assert(body@ =~= seq![c]);
                    }
                }
            } else if body.unicode_len() == 0 {
                let mark = c == '\t' || c == '→' || c == '|' || c == ':';
                if !mark {
                    body.append(one.as_str());
                    assert(body@ =~= seq![c]);
                }
            } else {
                body.append(one.as_str());
                assert(body@ =~= body0.push(c));
            }
            let ghost cur0 = cur@;
            cur.append(one.as_str());
            proof {
                assert(cur@ =~= cur0.push(c));
                assert(body@ == skip_marks(skip_digits(cur@)));
                assert(digits_done == (skip_digits(cur@).len() > 0));
            }
        }
    }
    proof {
        assert(s@.skip(s@.len() as int) =~= Seq::<char>::empty());
    }
    if cur.unicode_len() > 0 {
        proof {
            lemma_stripped_cons(cur@, Seq::empty());
            assert(seq![cur@] + Seq::<Seq<char>>::empty() =~= seq![cur@]);
        }
        let kept = finish_line(&cur, &body, false);
        out.append(kept.as_str());
        out.append("\n");
        proof {
            reveal_strlit("\n");
        }
    }
    out
}

} // verus!

verus! {

use crate::helpers::{concat3, truncate_preview, truncated};
use crate::tools::{arg_chip, primary_arg_chip};
use crate::transcript::{ToolCall, ToolStatus};

/// The status shown on a tool card when it has no argument chip.
pub open spec fn status_chip(s: ToolStatus) -> Seq<char> {
    match s {
        ToolStatus::Running => "⚙ running"@,
        ToolStatus::Succeeded => "✓ ok"@,
        ToolStatus::Failed => "✗ error"@,
    }
}

/// The titles of a tool call's card: on the left the expansion arrow
/// and the tool's name, on the right its primary argument cut to 60
/// characters, or its status when it has none.
pub fn tool_card_titles(tc: &ToolCall) -> (r: (String, String))
    ensures
        r.0@ == (if tc.expanded {
            "▾"@
        } else {
            "▸"@
        }) + " "@ + tc.name@,
        r.1@ == (match arg_chip(tc.args) {
            Some(c) => truncated(c, 60),
            None => status_chip(tc.status),
        }),
{
    let arrow = if tc.expanded {
        "▾"
    } else {
        "▸"
    };
    let title = concat3(arrow, " ", tc.name.as_str());
    let right = match primary_arg_chip(tc) {
        Some(c) => truncate_preview(c.as_str(), 60),
        None => String::from_str(
            match tc.status {
                ToolStatus::Running => "⚙ running",
                ToolStatus::Succeeded => "✓ ok",
                ToolStatus::Failed => "✗ error",
            },
        ),
    };
    (title, right)
}

} // verus!
