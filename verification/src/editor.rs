//! Single-field text editing: the editing keys of a one-line text field
//! (the search query, a plan step being rewritten), over a byte-offset
//! cursor.

use vstd::prelude::*;
use vstd::utf8::*;

use crate::keys::{KeyCode, KeyModifiers};
use crate::text::{
    blen, boundary, byte_len, last_boundary_before, next_boundary_of, next_char_boundary,
    prev_char_boundary, splice, word_left_index, word_left_of, word_right_index, word_right_of,
};

verus! {

broadcast use {vstd::utf8::encode_utf8_valid_utf8, vstd::utf8::is_char_boundary_start_end_of_seq};

/// `t2` is `t` with the bytes `[a, b)` replaced by the encoding of `ins`.
pub open spec fn spliced(t: Seq<char>, a: int, b: int, ins: Seq<char>, t2: Seq<char>) -> bool {
    encode_utf8(t2) == encode_utf8(t).subrange(0, a) + encode_utf8(ins) + encode_utf8(t).subrange(
        b,
        blen(t),
    )
}

/// The effect of one key on a text field holding `t` with cursor `c`:
/// `(t2, c2)` is the text and cursor afterwards. The arms are tried in
/// order; a key that matches none leaves both unchanged.
pub open spec fn text_key_effect(
    t: Seq<char>,
    c: int,
    multiline: bool,
    code: KeyCode,
    mods: KeyModifiers,
    t2: Seq<char>,
    c2: int,
) -> bool {
    let n = blen(t);
    let unchanged = t2 == t && c2 == c;
    if code is Char && !mods.control && !mods.alt {
        let ch = code->Char_0;
        spliced(t, c, c, seq![ch], t2) && c2 == c + encode_utf8(seq![ch]).len()
    } else if code is Enter && mods.shift && multiline {
        spliced(t, c, c, seq!['\n'], t2) && c2 == c + 1
    } else if code is Backspace {
        if c > 0 {
            let p = last_boundary_before(t, c);
            spliced(t, p, c, Seq::empty(), t2) && c2 == p
        } else {
            unchanged
        }
    } else if code is Delete {
        if c < n {
            exists|q: int|
                #![trigger next_boundary_of(t, c, q)]
                next_boundary_of(t, c, q) && spliced(t, c, q, Seq::empty(), t2) && c2 == c
        } else {
            unchanged
        }
    } else if code is Left && !mods.alt {
        if c > 0 {
            t2 == t && c2 == last_boundary_before(t, c)
        } else {
            unchanged
        }
    } else if code is Right && !mods.alt && c < n {
        t2 == t && next_boundary_of(t, c, c2)
    } else if code is Left && mods.alt {
        t2 == t && word_left_of(t, c, c2)
    } else if code is Right && mods.alt {
        t2 == t && word_right_of(t, c, c2)
    } else if code is Home {
        t2 == t && c2 == 0
    } else if code == KeyCode::Char('a') && mods.control {
        t2 == t && c2 == 0
    } else if code is End {
        t2 == t && c2 == n
    } else if code == KeyCode::Char('e') && mods.control {
        t2 == t && c2 == n
    } else if code == KeyCode::Char('u') && mods.control {
        spliced(t, 0, c, Seq::empty(), t2) && c2 == 0
    } else if code == KeyCode::Char('k') && mods.control {
        spliced(t, c, n, Seq::empty(), t2) && c2 == c
    } else if code == KeyCode::Char('w') && mods.control {
        word_left_of(t, c, c2) && spliced(t, c2, c, Seq::empty(), t2)
    } else {
        unchanged
    }
}


/// The keys that rewrite the text (rather than only move the cursor) at
/// cursor `c` of a text of `n` bytes.
pub open spec fn rewrites_text(code: KeyCode, mods: KeyModifiers, multiline: bool, c: int, n: int) -> bool {
    ||| code is Char && !mods.control && !mods.alt
    ||| code is Enter && mods.shift && multiline
    ||| code is Backspace && c > 0
    ||| code is Delete && c < n
    ||| mods.control && (code == KeyCode::Char('u') || code == KeyCode::Char('k') || code == KeyCode::Char('w'))
}

/// The text and cursor after one key; `None` when the text is unchanged.
pub(crate) fn edit_text(
    s: &str,
    c: usize,
    multiline: bool,
    code: KeyCode,
    mods: KeyModifiers,
) -> (r: (Option<String>, usize))
    requires
        boundary(s@, c as int),
        blen(s@) + 4 <= usize::MAX,
    ensures
        text_key_effect(
            s@,
            c as int,
            multiline,
            code,
            mods,
            match r.0 {
                Some(v) => v@,
                None => s@,
            },
            r.1 as int,
        ),
        boundary(
            match r.0 {
                Some(v) => v@,
                None => s@,
            },
            r.1 as int,
        ),
        r.0 is Some <==> rewrites_text(code, mods, multiline, c as int, blen(s@)),
{
    let ghost t = s@;
    let n = byte_len(s);
    proof {
        crate::text::lemma_boundary_le_len(t, c as int);
        encode_utf8_valid_utf8(t);
        is_char_boundary_start_end_of_seq(encode_utf8(t));
    }
    let empty = String::new();
    match code {
        KeyCode::Char(ch) if !mods.control && !mods.alt => {
            let ins = crate::text::char_to_string(ch);
            let w = byte_len(ins.as_str());
            proof {
                crate::text::lemma_encode_single(ch);
            }
            let v = splice(s, c, c, ins.as_str());
            proof {
                lemma_spliced_boundary(t, c as int, c as int, ins@, v@);
            }
            (Some(v), c + w)
        },
        KeyCode::Enter if mods.shift && multiline => {
            let ins = crate::text::char_to_string('\n');
            let w = byte_len(ins.as_str());
            proof {
                crate::text::lemma_encode_single('\n');
            }
            let v = splice(s, c, c, ins.as_str());
            proof {
                lemma_spliced_boundary(t, c as int, c as int, ins@, v@);
            }
            (Some(v), c + w)
        },
        KeyCode::Backspace => {
            if c > 0 {
                let p = prev_char_boundary(s, c);
                let v = splice(s, p, c, empty.as_str());
                proof {
                    crate::text::lemma_last_boundary_before(t, c as int, p as int);
                    lemma_spliced_boundary(t, p as int, c as int, Seq::empty(), v@);
                }
                (Some(v), p)
            } else {
                (None, c)
            }
        },
        KeyCode::Delete => {
            if c < n {
                let q = next_char_boundary(s, c);
                let v = splice(s, c, q, empty.as_str());
                proof {
                    lemma_spliced_boundary(t, c as int, q as int, Seq::empty(), v@);
                    assert(next_boundary_of(t, c as int, q as int));
                }
                (Some(v), c)
            } else {
                (None, c)
            }
        },
        KeyCode::Left if !mods.alt => {
            if c > 0 {
                let p = prev_char_boundary(s, c);
                proof {
                    crate::text::lemma_last_boundary_before(t, c as int, p as int);
                }
                (None, p)
            } else {
                (None, c)
            }
        },
        KeyCode::Right if !mods.alt && c < n => (None, next_char_boundary(s, c)),
        KeyCode::Left if mods.alt => (None, word_left_index(s, c)),
        KeyCode::Right if mods.alt => (None, word_right_index(s, c)),
        KeyCode::Home => (None, 0),
        KeyCode::Char('a') if mods.control => (None, 0),
        KeyCode::End => (None, n),
        KeyCode::Char('e') if mods.control => (None, n),
        KeyCode::Char('u') if mods.control => {
            let v = splice(s, 0, c, empty.as_str());
            (Some(v), 0)
        },
        KeyCode::Char('k') if mods.control => {
            let v = splice(s, c, n, empty.as_str());
            proof {
                lemma_spliced_boundary(t, c as int, n as int, Seq::empty(), v@);
            }
            (Some(v), c)
        },
        KeyCode::Char('w') if mods.control => {
            let start = word_left_index(s, c);
            let v = splice(s, start, c, empty.as_str());
            proof {
                lemma_spliced_boundary(t, start as int, c as int, Seq::empty(), v@);
            }
            (Some(v), start)
        },
        _ => (None, c),
    }
}

/// Apply one key to a text field: insert, Backspace, Delete, cursor and
/// word motion, Home/End, and the Ctrl+A/E/U/K/W line editing keys;
/// Shift+Enter inserts a newline in multiline fields.
pub fn text_field_key(
    value: &mut String,
    cursor: &mut usize,
    multiline: bool,
    code: KeyCode,
    mods: KeyModifiers,
)
    requires
        boundary(old(value)@, *old(cursor) as int),
        blen(old(value)@) + 4 <= usize::MAX,
    ensures
        text_key_effect(
            old(value)@,
            *old(cursor) as int,
            multiline,
            code,
            mods,
            final(value)@,
            *final(cursor) as int,
        ),
        boundary(final(value)@, *final(cursor) as int),
{
    let (v, c2) = edit_text(value.as_str(), *cursor, multiline, code, mods);
    match v {
        Some(v) => {
            *value = v;
        },
        None => {},
    }
    *cursor = c2;
}

/// After a splice at boundaries, the end of the inserted text is a boundary.
proof fn lemma_spliced_boundary(t: Seq<char>, a: int, b: int, ins: Seq<char>, t2: Seq<char>)
    requires
        0 <= a <= b,
        boundary(t, a),
        boundary(t, b),
        spliced(t, a, b, ins, t2),
    ensures
        boundary(t2, a + encode_utf8(ins).len()),
{
    let bytes = encode_utf8(t);
    encode_utf8_valid_utf8(t);
    encode_utf8_valid_utf8(ins);
    encode_utf8_valid_utf8(t2);
    crate::text::lemma_boundary_le_len(t, b);
    vstd::utf8::valid_utf8_split(bytes, a);
    vstd::utf8::valid_utf8_split(bytes, b);
    let x = bytes.subrange(0, a) + encode_utf8(ins);
    let y = bytes.subrange(b, bytes.len() as int);
    vstd::utf8::valid_utf8_concat(bytes.subrange(0, a), encode_utf8(ins));
    crate::text::lemma_concat_boundary(x, y);
    assert(encode_utf8(t2) =~= x + y);
}

} // verus!

