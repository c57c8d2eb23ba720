//! Byte-offset cursor helpers over UTF-8 text.
//!
//! Cursors are byte offsets into the buffer, as in `str` indexing. A
//! cursor is valid when it sits on a character boundary.

use vstd::prelude::*;
use vstd::string::*;
use vstd::utf8::*;

verus! {

broadcast use {vstd::utf8::encode_utf8_valid_utf8, vstd::utf8::is_char_boundary_start_end_of_seq};

/// `i` is a character boundary of `s` (0 and the byte length included).
pub open spec fn boundary(t: Seq<char>, i: int) -> bool {
    is_char_boundary(encode_utf8(t), i)
}

/// The byte length of `s`.
pub open spec fn blen(t: Seq<char>) -> int {
    encode_utf8(t).len() as int
}

/// No character boundary lies strictly between `a` and `b`.
pub open spec fn no_boundary_between(t: Seq<char>, a: int, b: int) -> bool {
    forall|k: int| a < k < b ==> !boundary(t, k)
}

/// Only the empty text encodes to no bytes.
pub proof fn lemma_encode_empty(t: Seq<char>)
    ensures
        blen(t) == 0 <==> t.len() == 0,
{
    if t.len() > 0 {
        lemma_encode_concat(seq![t[0]], t.drop_first());
        assert(seq![t[0]] + t.drop_first() =~= t);
        lemma_encode_single(t[0]);
    } else {
        assert(encode_utf8(t) =~= Seq::<u8>::empty());
    }
}

/// Character boundaries past the end do not exist.
pub proof fn lemma_boundary_le_len(t: Seq<char>, k: int)
    requires
        boundary(t, k),
    ensures
        0 <= k <= blen(t),
{
    encode_utf8_valid_utf8(t);
}

/// The byte length of `s`, exactly as the specification counts it.
pub fn byte_len(s: &str) -> (n: usize)
    ensures
        n == blen(s@),
{
    s.as_bytes().len()
}

/// `r` is one character back from `i`: the largest boundary strictly
/// below `i`, or 0 when `i` is 0.
pub open spec fn prev_boundary_of(t: Seq<char>, i: int, r: int) -> bool {
    if i <= 0 {
        r == 0
    } else {
        0 <= r < i && boundary(t, r) && no_boundary_between(t, r, i)
    }
}

/// `r` is one character forward from `i`: the smallest boundary strictly
/// above `i`, or the byte length when `i` is at or past the end.
pub open spec fn next_boundary_of(t: Seq<char>, i: int, r: int) -> bool {
    if i >= blen(t) {
        r == blen(t)
    } else {
        i < r <= blen(t) && boundary(t, r) && no_boundary_between(t, i, r)
    }
}

/// Step back one character: the largest boundary strictly below `i`
/// (0 when `i` is 0).
pub fn prev_char_boundary(s: &str, i: usize) -> (r: usize)
    ensures
        prev_boundary_of(s@, i as int, r as int),
{
    let mut j = i.saturating_sub(1);
    while j > 0 && !s.is_char_boundary(j)
        invariant
            i == 0 ==> j == 0,
            i > 0 ==> j < i,
            no_boundary_between(s@, j as int, i as int),
        decreases j,
    {
        j -= 1;
    }
    proof {
        encode_utf8_valid_utf8(s@);
    }
    j
}

/// Step forward one character: the smallest boundary strictly above `i`,
/// or the byte length when `i` is already at or past the end.
pub fn next_char_boundary(s: &str, i: usize) -> (r: usize)
    ensures
        next_boundary_of(s@, i as int, r as int),
{
    let n = byte_len(s);
    let mut j = i.saturating_add(1);
    if j > n {
        j = n;
    }
    while j < n && !s.is_char_boundary(j)
        invariant
            n == blen(s@),
            i >= n ==> j == n,
            i < n ==> i < j <= n,
            no_boundary_between(s@, i as int, j as int),
        decreases n - j,
    {
        j += 1;
    }
    proof {
        encode_utf8_valid_utf8(s@);
    }
    j
}

} // verus!

verus! {

/// The character whose encoding starts at byte offset `p`.
pub open spec fn char_at(t: Seq<char>, p: int) -> char {
    decode_utf8(encode_utf8(t).subrange(p, blen(t)))[0]
}

/// The boundary just before `m`: the largest boundary strictly below it.
pub open spec fn last_boundary_before(t: Seq<char>, m: int) -> int {
    choose|k: int| 0 <= k < m && boundary(t, k) && no_boundary_between(t, k, m)
}

/// A character that word motion treats as part of a word.
pub open spec fn is_word_char(c: char) -> bool {
    unicode_alphanumeric(c) || c == '_'
}

/// Every character starting in `[a, b)` is a word character.
pub open spec fn word_run(t: Seq<char>, a: int, b: int) -> bool {
    forall|k: int| a <= k < b && #[trigger] boundary(t, k) ==> is_word_char(char_at(t, k))
}

/// No character starting in `[a, b)` is a word character.
pub open spec fn nonword_run(t: Seq<char>, a: int, b: int) -> bool {
    forall|k: int| a <= k < b && #[trigger] boundary(t, k) ==> !is_word_char(char_at(t, k))
}

/// Whether `c` is alphanumeric in the Unicode sense of `char::is_alphanumeric`.
pub uninterp spec fn unicode_alphanumeric(c: char) -> bool;

/// Calls `char::is_alphanumeric`, which tests the Unicode `Alphabetic` and
/// `Numeric` properties; its result is the name `unicode_alphanumeric`, and
/// the ASCII letters and digits are stated to be alphanumeric while other
/// ASCII characters are not.
#[verifier::external_body]
fn char_is_alphanumeric(c: char) -> (r: bool)
    ensures
        r == unicode_alphanumeric(c),
        (c as u32) < 128 ==> (r <==> (('a' <= c && c <= 'z') || ('A' <= c && c <= 'Z') || (
        '0' <= c && c <= '9'))),
{
    c.is_alphanumeric()
}

/// The largest boundary below `m` is unique.
pub proof fn lemma_last_boundary_before(t: Seq<char>, m: int, r: int)
    requires
        0 <= r < m,
        boundary(t, r),
        no_boundary_between(t, r, m),
    ensures
        last_boundary_before(t, m) == r,
{
    let k = last_boundary_before(t, m);
    assert(0 <= k < m && boundary(t, k) && no_boundary_between(t, k, m));
    if k < r {
        assert(!boundary(t, r));
    } else if r < k {
        assert(!boundary(t, k));
    }
}

/// The character starting at boundary `p`.
pub fn char_starting_at(s: &str, p: usize) -> (c: char)
    requires
        boundary(s@, p as int),
        p < blen(s@),
    ensures
        c == char_at(s@, p as int),
{
    let (_, rest) = s.split_at(p);
    proof {
        encode_utf8_decode_utf8(rest@);
        assert(rest@.len() > 0) by {
            if rest@.len() == 0 {
                assert(encode_utf8(rest@) =~= Seq::<u8>::empty());
            }
        }
    }
    let mut it = rest.chars();
    proof {
        broadcast use vstd::string::axiom_spec_iter, vstd::string::next_postcondition;
    }
    let first = it.next();
    proof {
        broadcast use vstd::string::axiom_spec_iter, vstd::string::next_postcondition;
    }
    match first {
        Some(c) => c,
        None => {
            proof {
                assert(false);
            }
            ' '
        },
    }
}

/// Whether `c` belongs to a word for Alt+←/→ and Ctrl+W.
pub fn is_word(c: char) -> (r: bool)
    ensures
        r == is_word_char(c),
{
    char_is_alphanumeric(c) || c == '_'
}

} // verus!

verus! {

/// `r` is the Alt+← target from boundary `i`: the run of non-word
/// characters just before `i` and the word before that run are skipped.
pub open spec fn word_left_of(t: Seq<char>, i: int, r: int) -> bool {
    &&& r <= i
    &&& boundary(t, r)
    &&& exists|m: int|
        #![trigger word_run(t, r, m)]
        r <= m <= i && boundary(t, m) && word_run(t, r, m) && nonword_run(t, m, i) && (m == 0
            || is_word_char(char_at(t, last_boundary_before(t, m))))
    &&& (r == 0 || !is_word_char(char_at(t, last_boundary_before(t, r))))
}

/// `r` is the Alt+→ target from boundary `i`: the rest of the word at
/// `i` and the non-word characters after it are skipped.
pub open spec fn word_right_of(t: Seq<char>, i: int, r: int) -> bool {
    &&& i <= r <= blen(t)
    &&& boundary(t, r)
    &&& exists|m: int|
        #![trigger nonword_run(t, m, r)]
        i <= m <= r && boundary(t, m) && word_run(t, i, m) && nonword_run(t, m, r) && (m == blen(
            t,
        ) || !is_word_char(char_at(t, m)))
    &&& (r == blen(t) || is_word_char(char_at(t, r)))
}

/// Alt+← target: from boundary `i`, skip the non-word characters just
/// before it, then the word before those. The result `r` and the end `m`
/// of that word are pinned down by the runs on either side.
pub fn word_left_index(s: &str, i: usize) -> (r: usize)
    requires
        boundary(s@, i as int),
    ensures
        word_left_of(s@, i as int, r as int),
{
    proof {
        lemma_boundary_le_len(s@, i as int);
    }
    let mut i2 = i;
    while i2 > 0
        invariant
            i2 <= i <= blen(s@),
            boundary(s@, i2 as int),
            nonword_run(s@, i2 as int, i as int),
        ensures
            i2 <= i,
            boundary(s@, i2 as int),
            nonword_run(s@, i2 as int, i as int),
            i2 == 0 || is_word_char(char_at(s@, last_boundary_before(s@, i2 as int))),
        decreases i2,
    {
        let p = prev_char_boundary(s, i2);
        let c = char_starting_at(s, p);
        if is_word(c) {
            proof {
                lemma_last_boundary_before(s@, i2 as int, p as int);
            }
            break;
        }
        assert(nonword_run(s@, p as int, i as int)) by {
            assert forall|k: int| p <= k < i && #[trigger] boundary(s@, k) implies !is_word_char(
                char_at(s@, k),
            ) by {
                if k < i2 && k != p {
                    assert(p < k);
                }
            }
        }
        i2 = p;
    }
    let m = i2;
    let mut r = m;
    while r > 0
        invariant
            r <= m,
            m <= i <= blen(s@),
            boundary(s@, r as int),
            word_run(s@, r as int, m as int),
        ensures
            r <= m,
            boundary(s@, r as int),
            word_run(s@, r as int, m as int),
            r == 0 || !is_word_char(char_at(s@, last_boundary_before(s@, r as int))),
        decreases r,
    {
        let p = prev_char_boundary(s, r);
        let c = char_starting_at(s, p);
        if !is_word(c) {
            proof {
                lemma_last_boundary_before(s@, r as int, p as int);
            }
            break;
        }
        assert(word_run(s@, p as int, m as int)) by {
            assert forall|k: int| p <= k < m && #[trigger] boundary(s@, k) implies is_word_char(
                char_at(s@, k),
            ) by {
                if k < r && k != p {
                    assert(p < k);
                }
            }
        }
        r = p;
    }
    assert(word_run(s@, r as int, m as int));
    r
}

/// Alt+→ target: from boundary `i`, skip the rest of the current word,
/// then the non-word characters after it. The result `r` and the end `m`
/// of the word are pinned down by the runs on either side.
pub fn word_right_index(s: &str, i: usize) -> (r: usize)
    requires
        boundary(s@, i as int),
    ensures
        word_right_of(s@, i as int, r as int),
{
    proof {
        lemma_boundary_le_len(s@, i as int);
    }
    let n = byte_len(s);
    let mut m = i;
    while m < n
        invariant
            n == blen(s@),
            i <= m <= n,
            boundary(s@, m as int),
            word_run(s@, i as int, m as int),
        ensures
            i <= m <= n,
            boundary(s@, m as int),
            word_run(s@, i as int, m as int),
            m == n || !is_word_char(char_at(s@, m as int)),
        decreases n - m,
    {
        let c = char_starting_at(s, m);
        if !is_word(c) {
            break;
        }
        let q = next_char_boundary(s, m);
        assert(word_run(s@, i as int, q as int)) by {
            assert forall|k: int| i <= k < q && #[trigger] boundary(s@, k) implies is_word_char(
                char_at(s@, k),
            ) by {
                if k >= m && k != m {
                    assert(m < k);
                }
            }
        }
        m = q;
    }
    let mut r = m;
    while r < n
        invariant
            n == blen(s@),
            m <= r <= n,
            boundary(s@, r as int),
            nonword_run(s@, m as int, r as int),
        ensures
            m <= r <= n,
            boundary(s@, r as int),
            nonword_run(s@, m as int, r as int),
            r == n || is_word_char(char_at(s@, r as int)),
        decreases n - r,
    {
        let c = char_starting_at(s, r);
        if is_word(c) {
            break;
        }
        let q = next_char_boundary(s, r);
        assert(nonword_run(s@, m as int, q as int)) by {
            assert forall|k: int| m <= k < q && #[trigger] boundary(s@, k) implies !is_word_char(
                char_at(s@, k),
            ) by {
                if k >= r && k != r {
                    assert(r < k);
                }
            }
        }
        r = q;
    }
    assert(nonword_run(s@, m as int, r as int));
    r
}

} // verus!

verus! {

/// Encoding distributes over concatenation.
pub proof fn lemma_encode_concat(a: Seq<char>, b: Seq<char>)
    ensures
        encode_utf8(a + b) == encode_utf8(a) + encode_utf8(b),
    decreases a.len(),
{
    if a.len() == 0 {
        assert(a + b =~= b);
        assert(encode_utf8(a) =~= Seq::<u8>::empty());
        assert(encode_utf8(a) + encode_utf8(b) =~= encode_utf8(b));
    } else {
        assert((a + b).drop_first() =~= a.drop_first() + b);
        lemma_encode_concat(a.drop_first(), b);
        assert((a + b)[0] == a[0]);
        assert(encode_utf8(a + b) =~= encode_utf8(a) + encode_utf8(b));
    }
}

/// Equal encodings come from equal text.
pub proof fn lemma_encode_injective(a: Seq<char>, b: Seq<char>)
    requires
        encode_utf8(a) == encode_utf8(b),
    ensures
        a == b,
{
    encode_utf8_decode_utf8(a);
    encode_utf8_decode_utf8(b);
}

/// The encoding of a single character is its scalar encoding.
pub proof fn lemma_encode_single(c: char)
    ensures
        encode_utf8(seq![c]) == encode_scalar(c as u32),
{
    assert(seq![c].drop_first() =~= Seq::<char>::empty());
    assert(encode_utf8(seq![c].drop_first()) =~= Seq::<u8>::empty());
    assert(encode_scalar(c as u32) + Seq::<u8>::empty() =~= encode_scalar(c as u32));
}

/// The bytes `[a, b)` of `s`, both ends on boundaries.
pub fn str_slice(s: &str, a: usize, b: usize) -> (r: &str)
    requires
        a <= b,
        boundary(s@, a as int),
        boundary(s@, b as int),
    ensures
        encode_utf8(r@) == encode_utf8(s@).subrange(a as int, b as int),
{
    proof {
        lemma_boundary_le_len(s@, b as int);
        encode_utf8_valid_utf8(s@);
    }
    let (_, rest) = s.split_at(a);
    let ghost bytes = encode_utf8(s@);
    assert(encode_utf8(rest@) == bytes.subrange(a as int, bytes.len() as int));
    proof {
        // `b - a` is a boundary of the suffix that starts at `a`.
        let tail = bytes.subrange(a as int, bytes.len() as int);
        assert(tail.subrange(0, (b - a) as int) =~= bytes.subrange(a as int, b as int));
        if b > a {
            assert(bytes.subrange(0, b as int).subrange(a as int, b as int) =~= bytes.subrange(
                a as int,
                b as int,
            ));
        }
        lemma_boundary_shift(bytes, a as int, b as int);
    }
    let (mid, _) = rest.split_at(b - a);
    proof {
        let tail = bytes.subrange(a as int, bytes.len() as int);
        assert(tail.subrange(0, (b - a) as int) =~= bytes.subrange(a as int, b as int));
    }
    mid
}

/// A boundary `b` at or after boundary `a` is a boundary of the suffix
/// that starts at `a`, shifted by `a`.
pub proof fn lemma_boundary_shift(bytes: Seq<u8>, a: int, b: int)
    requires
        valid_utf8(bytes),
        0 <= a <= b,
        is_char_boundary(bytes, a),
        is_char_boundary(bytes, b),
    ensures
        valid_utf8(bytes.subrange(a, bytes.len() as int)),
        is_char_boundary(bytes.subrange(a, bytes.len() as int), b - a),
    decreases a,
{
    vstd::utf8::valid_utf8_split(bytes, a);
    if a == 0 {
        assert(bytes.subrange(0, bytes.len() as int) =~= bytes);
    } else {
        reveal_with_fuel(is_char_boundary, 2);
        let w = length_of_first_scalar(bytes);
        let tail = pop_first_scalar(bytes);
        lemma_first_scalar_positive(bytes);
        lemma_boundary_shift(tail, a - w, b - w);
        assert(tail.subrange(a - w, tail.len() as int) =~= bytes.subrange(a, bytes.len() as int));
    }
}

proof fn lemma_first_scalar_positive(bytes: Seq<u8>)
    requires
        valid_utf8(bytes),
        bytes.len() > 0,
    ensures
        1 <= length_of_first_scalar(bytes) <= bytes.len(),
        pop_first_scalar(bytes) == bytes.subrange(length_of_first_scalar(bytes), bytes.len() as int),
        valid_utf8(pop_first_scalar(bytes)),
{
    reveal_with_fuel(valid_utf8, 2);
}

} // verus!

verus! {

/// `s` with the bytes `[a, b)` replaced by `ins`.
pub fn splice(s: &str, a: usize, b: usize, ins: &str) -> (r: String)
    requires
        a <= b,
        boundary(s@, a as int),
        boundary(s@, b as int),
    ensures
        encode_utf8(r@) == encode_utf8(s@).subrange(0, a as int) + encode_utf8(ins@)
            + encode_utf8(s@).subrange(b as int, blen(s@)),
{
    let n = byte_len(s);
    proof {
        lemma_boundary_le_len(s@, b as int);
        encode_utf8_valid_utf8(s@);
    }
    let head = str_slice(s, 0, a);
    let tail = str_slice(s, b, n);
    let mut out = String::from_str(head);
    out.append(ins);
    out.append(tail);
    proof {
        lemma_encode_concat(head@, ins@);
        lemma_encode_concat(head@ + ins@, tail@);
    }
    out
}

/// Calls `char::to_string`, whose documented result is the one-character
/// string holding `c`.
#[verifier::external_body]
pub(crate) fn char_to_string(c: char) -> (r: String)
    ensures
        r@ == seq![c],
{
    c.to_string()
}

/// The number of bytes `c` takes when encoded in UTF-8.
pub(crate) fn char_len_utf8(c: char) -> (n: usize)
    ensures
        n == encode_scalar(c as u32).len(),
{
    let u = c as u32;
    if u <= 0x7F {
        1
    } else if u <= 0x7FF {
        2
    } else if u <= 0xFFFF {
        3
    } else {
        4
    }
}

/// Split a buffer at `cursor` (clamped to the byte length) into
/// `(before, under, after)`, where `under` is the single character at the
/// cursor, or `" "` at the end of the buffer.
pub fn split_cursor(s: &str, cursor: usize) -> (r: (String, String, String))
    requires
        boundary(s@, if cursor as int <= blen(s@) { cursor as int } else { blen(s@) }),
    ensures
        ({
            let c = if cursor as int <= blen(s@) { cursor as int } else { blen(s@) };
            &&& encode_utf8(r.0@) == encode_utf8(s@).subrange(0, c)
            &&& c < blen(s@) ==> r.1@ == seq![char_at(s@, c)] && r.0@ + r.1@ + r.2@ == s@
            &&& c == blen(s@) ==> r.0@ == s@ && r.1@ == seq![' '] && r.2@ == Seq::<char>::empty()
        }),
{
    let n = byte_len(s);
    let c = if cursor <= n {
        cursor
    } else {
        n
    };
    proof {
        encode_utf8_valid_utf8(s@);
    }
    let before = str_slice(s, 0, c);
    let before_s = String::from_str(before);
    if c == n {
        proof {
            assert(encode_utf8(s@).subrange(0, c as int) =~= encode_utf8(s@));
            lemma_encode_injective(before@, s@);
        }
        return (before_s, char_to_string(' '), String::new());
    }
    let ch = char_starting_at(s, c);
    let w = char_len_utf8(ch);
    let ghost bytes = encode_utf8(s@);
    let ghost rest = bytes.subrange(c as int, bytes.len() as int);
    proof {
        // the suffix at `c` starts with the encoding of `ch`
        lemma_boundary_shift(bytes, c as int, n as int);
        decode_utf8_encode_utf8(rest);
        let rc = decode_utf8(rest);
        assert(rc.len() > 0) by {
            if rc.len() == 0 {
                assert(encode_utf8(rc) =~= Seq::<u8>::empty());
            }
        }
        assert(rc[0] == ch);
        assert(rc =~= seq![ch] + rc.drop_first());
        lemma_encode_concat(seq![ch], rc.drop_first());
        lemma_encode_single(ch);
        assert(rest =~= encode_scalar(ch as u32) + encode_utf8(rc.drop_first()));
        // so `c + w` is a boundary of `s`
        encode_utf8_first_scalar(rc);
        lemma_first_scalar_positive(rest);
        assert(bytes.subrange(c as int, c + w) =~= encode_scalar(ch as u32)) by {
            assert(rest.subrange(0, w as int) =~= bytes.subrange(c as int, c + w));
        }
        assert(c + w <= n);
        lemma_boundary_after_first(bytes, c as int, w as int);
    }
    let after = str_slice(s, c + w, n);
    let under = char_to_string(ch);
    let after_s = String::from_str(after);
    proof {
        lemma_encode_single(ch);
        lemma_encode_concat(before@, seq![ch]);
        lemma_encode_concat(before@ + seq![ch], after@);
        assert(bytes =~= bytes.subrange(0, c as int) + bytes.subrange(c as int, c + w)
            + bytes.subrange(c + w, n as int));
        assert(encode_utf8(before@ + seq![ch] + after@) =~= bytes);
        lemma_encode_injective(before@ + seq![ch] + after@, s@);
    }
    (before_s, under, after_s)
}

/// If the suffix at boundary `c` starts with a scalar of width `w`, then
/// `c + w` is a boundary too.
proof fn lemma_boundary_after_first(bytes: Seq<u8>, c: int, w: int)
    requires
        valid_utf8(bytes),
        0 <= c < bytes.len(),
        is_char_boundary(bytes, c),
        w == length_of_first_scalar(bytes.subrange(c, bytes.len() as int)),
    ensures
        c + w <= bytes.len(),
        is_char_boundary(bytes, c + w),
    decreases c,
{
    vstd::utf8::valid_utf8_split(bytes, c);
    lemma_first_scalar_positive(bytes.subrange(c, bytes.len() as int));
    if c == 0 {
        assert(bytes.subrange(0, bytes.len() as int) =~= bytes);
        reveal_with_fuel(is_char_boundary, 2);
        lemma_first_scalar_positive(bytes);
        is_char_boundary_start_end_of_seq(pop_first_scalar(bytes));
    } else {
        reveal_with_fuel(is_char_boundary, 2);
        let v = length_of_first_scalar(bytes);
        let tail = pop_first_scalar(bytes);
        lemma_first_scalar_positive(bytes);
        assert(tail.subrange(c - v, tail.len() as int) =~= bytes.subrange(c, bytes.len() as int));
        lemma_boundary_after_first(tail, c - v, w);
    }
}


/// The junction of two valid encodings is a boundary of their
/// concatenation.
pub proof fn lemma_concat_boundary(x: Seq<u8>, y: Seq<u8>)
    requires
        valid_utf8(x),
        valid_utf8(y),
    ensures
        valid_utf8(x + y),
        is_char_boundary(x + y, x.len() as int),
    decreases x.len(),
{
    vstd::utf8::valid_utf8_concat(x, y);
    if x.len() == 0 {
        is_char_boundary_start_end_of_seq(x + y);
    } else {
        lemma_first_scalar_positive(x);
        let w = length_of_first_scalar(x);
        assert((x + y)[0] == x[0]);
        assert(length_of_first_scalar(x + y) == w);
        assert(pop_first_scalar(x + y) =~= pop_first_scalar(x) + y);
        lemma_concat_boundary(pop_first_scalar(x), y);
        reveal_with_fuel(is_char_boundary, 2);
    }
}


/// Text equality, decided over the encodings.
pub fn str_eq(a: &str, b: &str) -> (r: bool)
    ensures
        r == (a@ == b@),
{
    let x = a.as_bytes();
    let y = b.as_bytes();
    if x.len() != y.len() {
        return false;
    }
    let mut i: usize = 0;
    while i < x.len()
        invariant
            x@ == encode_utf8(a@),
            y@ == encode_utf8(b@),
            x@.len() == y@.len(),
            i <= x@.len(),
            forall|k: int| 0 <= k < i ==> x@[k] == y@[k],
        decreases x@.len() - i,
    {
        if x[i] != y[i] {
            return false;
        }
        i += 1;
    }
    proof {
        assert(x@ =~= y@);
        lemma_encode_injective(a@, b@);
    }
    true
}

/// `needle` occurs in `hay` starting at byte offset `i`.
pub open spec fn occurs_at(hay: Seq<u8>, needle: Seq<u8>, i: int) -> bool {
    0 <= i && i + needle.len() <= hay.len() && hay.subrange(i, i + needle.len()) == needle
}

/// The byte offset of the first occurrence of `needle` in `hay`, as
/// `str::find` reports it.
pub fn find(hay: &str, needle: &str) -> (r: Option<usize>)
    ensures
        match r {
            Some(i) => occurs_at(encode_utf8(hay@), encode_utf8(needle@), i as int) && forall|
                j: int,
            |
                0 <= j < i ==> !occurs_at(encode_utf8(hay@), encode_utf8(needle@), j),
            None => forall|j: int| !occurs_at(encode_utf8(hay@), encode_utf8(needle@), j),
        },
{
    let h = hay.as_bytes();
    let n = needle.as_bytes();
    if n.len() == 0 {
        assert(h@.subrange(0, 0) =~= n@);
        return Some(0);
    }
    if n.len() > h.len() {
        return None;
    }
    let hl = h.len();
    let last = hl - n.len();
    let mut i: usize = 0;
    while i <= last
        invariant
            hl == h@.len(),
            h@ == encode_utf8(hay@),
            n@ == encode_utf8(needle@),
            n@.len() > 0,
            last + n@.len() == h@.len(),
            i <= last + 1,
            forall|j: int| 0 <= j < i ==> !occurs_at(h@, n@, j),
        decreases last + 1 - i,
    {
        let mut k: usize = 0;
        let mut ok = true;
        while k < n.len() && ok
            invariant
                hl == h@.len(),
                h@ == encode_utf8(hay@),
                n@ == encode_utf8(needle@),
                i <= last,
                last + n@.len() == h@.len(),
                k <= n@.len(),
                ok ==> forall|q: int| 0 <= q < k ==> h@[i + q] == n@[q],
                !ok ==> !occurs_at(h@, n@, i as int),
            decreases n@.len() - k + (if ok { 1int } else { 0int }),
        {
            if h[i + k] != n[k] {
                ok = false;
                proof {
                    if occurs_at(h@, n@, i as int) {
                        assert(h@.subrange(i as int, i + n@.len())[k as int] == h@[i + k]);
                    }
                }
            } else {
                k += 1;
            }
        }
        if ok {
            assert(h@.subrange(i as int, i + n@.len()) =~= n@);
            return Some(i);
        }
        i += 1;
    }
    None
}

} // verus!

verus! {

/// Whether `c` has the Unicode `White_Space` property: the ASCII tab,
/// line feed, vertical tab, form feed, carriage return and space, and
/// U+0085, U+00A0, U+1680, U+2000 to U+200A, U+2028, U+2029, U+202F,
/// U+205F and U+3000.
pub open spec fn unicode_whitespace(c: char) -> bool {
    let u = c as u32;
    ||| 0x09 <= u <= 0x0D
    ||| u == 0x20 || u == 0x85 || u == 0xA0 || u == 0x1680
    ||| 0x2000 <= u <= 0x200A
    ||| u == 0x2028 || u == 0x2029 || u == 0x202F || u == 0x205F || u == 0x3000
}

/// Whether `c` has the Unicode `White_Space` property.
pub(crate) fn char_is_whitespace(c: char) -> (r: bool)
    ensures
        r == unicode_whitespace(c),
{
    let u = c as u32;
    (0x09 <= u && u <= 0x0D) || u == 0x20 || u == 0x85 || u == 0xA0 || u == 0x1680 || (0x2000 <= u
        && u <= 0x200A) || u == 0x2028 || u == 0x2029 || u == 0x202F || u == 0x205F || u == 0x3000
}

/// `t` without its leading whitespace.
pub open spec fn trim_start(t: Seq<char>) -> Seq<char>
    decreases t.len(),
{
    if t.len() > 0 && unicode_whitespace(t[0]) {
        trim_start(t.drop_first())
    } else {
        t
    }
}

/// `t` without its trailing whitespace.
pub open spec fn trim_end(t: Seq<char>) -> Seq<char>
    decreases t.len(),
{
    if t.len() > 0 && unicode_whitespace(t.last()) {
        trim_end(t.drop_last())
    } else {
        t
    }
}

/// `t` without leading and trailing whitespace.
pub open spec fn trimmed(t: Seq<char>) -> Seq<char> {
    trim_end(trim_start(t))
}

/// What `trim_start` leaves is a suffix of `t` starting with a
/// non-whitespace character.
pub proof fn lemma_trim_start_head(t: Seq<char>)
    ensures
        trim_start(t).len() <= t.len(),
        trim_start(t).len() > 0 ==> !unicode_whitespace(trim_start(t)[0]),
    decreases t.len(),
{
    if t.len() > 0 && unicode_whitespace(t[0]) {
        lemma_trim_start_head(t.drop_first());
    }
}

/// What `trim_end` leaves is a prefix of `t` ending in a non-whitespace
/// character.
pub proof fn lemma_trim_end_prefix(t: Seq<char>)
    ensures
        trim_end(t).len() <= t.len(),
        trim_end(t) == t.take(trim_end(t).len() as int),
        trim_end(t).len() > 0 ==> !unicode_whitespace(trim_end(t).last()),
    decreases t.len(),
{
    if t.len() > 0 && unicode_whitespace(t.last()) {
        lemma_trim_end_prefix(t.drop_last());
        assert(t.drop_last().take(trim_end(t).len() as int) =~= t.take(trim_end(t).len() as int));
    } else {
        assert(t.take(t.len() as int) =~= t);
    }
}

/// A trimmed text neither starts nor ends with whitespace.
pub proof fn lemma_trimmed_ends(t: Seq<char>)
    ensures
        trimmed(t).len() > 0 ==> !unicode_whitespace(trimmed(t)[0]) && !unicode_whitespace(
            trimmed(t).last(),
        ),
{
    let u = trim_start(t);
    lemma_trim_start_head(t);
    lemma_trim_end_prefix(u);
    if trimmed(t).len() > 0 {
        assert(trimmed(t)[0] == u.take(trimmed(t).len() as int)[0]);
    }
}

/// `s` without its leading and trailing characters with the Unicode
/// `White_Space` property.
pub(crate) fn trim(s: &str) -> (r: &str)
    ensures
        r@ == trimmed(s@),
        r@.len() > 0 ==> !unicode_whitespace(r@[0]) && !unicode_whitespace(r@.last()),
{
    let n = s.unicode_len();
    let mut i: usize = 0;
    assert(s@.skip(0) =~= s@);
    while i < n
        invariant
            n == s@.len(),
            i <= n,
            trim_start(s@) == trim_start(s@.skip(i as int)),
        ensures
            i <= n,
            trim_start(s@) == trim_start(s@.skip(i as int)),
            i < n ==> !unicode_whitespace(s@[i as int]),
        decreases n - i,
    {
        if !char_is_whitespace(s.get_char(i)) {
            break;
        }
        assert(s@.skip(i as int).drop_first() =~= s@.skip(i + 1));
        i += 1;
    }
    assert(trim_start(s@) == s@.subrange(i as int, n as int)) by {
        assert(s@.skip(i as int) =~= s@.subrange(i as int, n as int));
        if i < n {
            assert(s@.skip(i as int)[0] == s@[i as int]);
        }
    }
    let mut j: usize = n;
    while j > i
        invariant
            n == s@.len(),
            i <= j <= n,
            trim_end(s@.subrange(i as int, n as int)) == trim_end(s@.subrange(i as int, j as int)),
        ensures
            i <= j <= n,
            trim_end(s@.subrange(i as int, n as int)) == trim_end(s@.subrange(i as int, j as int)),
            j > i ==> !unicode_whitespace(s@[j - 1]),
        decreases j,
    {
        if !char_is_whitespace(s.get_char(j - 1)) {
            break;
        }
        assert(s@.subrange(i as int, j as int).drop_last() =~= s@.subrange(i as int, j - 1));
        j -= 1;
    }
    proof {
        lemma_trimmed_ends(s@);
        if j == i {
            assert(s@.subrange(i as int, j as int) =~= Seq::<char>::empty());
        } else {
            assert(s@.subrange(i as int, j as int).last() == s@[j - 1]);
        }
    }
    s.substring_char(i, j)
}

/// The characters of `t` before its first newline (all of `t` without one).
pub open spec fn line_head(t: Seq<char>) -> Seq<char>
    decreases t.len(),
{
    if t.len() == 0 {
        t
    } else if t[0] == '\n' {
        Seq::empty()
    } else {
        seq![t[0]] + line_head(t.drop_first())
    }
}

/// The first line of `t` as `str::lines` yields it: the text before the
/// first newline, less a carriage return just before that newline; the
/// whole text when it has no newline.
pub open spec fn first_line(t: Seq<char>) -> Seq<char> {
    let h = line_head(t);
    if t.contains('\n') && h.len() > 0 && h.last() == '\r' {
        h.drop_last()
    } else {
        h
    }
}

/// `line_head` of a prefix that holds no newline is that prefix.
proof fn lemma_line_head(t: Seq<char>, k: int)
    requires
        0 <= k <= t.len(),
        forall|j: int| 0 <= j < k ==> t[j] != '\n',
    ensures
        k < t.len() && t[k] == '\n' ==> line_head(t) == t.take(k),
        k == t.len() ==> line_head(t) == t,
    decreases k,
{
    if k > 0 {
        lemma_line_head(t.drop_first(), k - 1);
        assert(t.drop_first().take(k - 1) =~= t.take(k).drop_first());
        assert(seq![t[0]] + t.take(k).drop_first() =~= t.take(k));
        assert(seq![t[0]] + t.drop_first() =~= t);
    } else {
        assert(t.take(0) =~= Seq::<char>::empty());
    }
}

/// The first line of `s`, as `s.lines().next().unwrap_or("")` gives it.
pub fn first_line_of(s: &str) -> (r: &str)
    ensures
        r@ == first_line(s@),
{
    let n = s.unicode_len();
    let mut k: usize = 0;
    while k < n
        invariant
            n == s@.len(),
            k <= n,
            forall|j: int| 0 <= j < k ==> s@[j] != '\n',
        ensures
            k <= n,
            forall|j: int| 0 <= j < k ==> s@[j] != '\n',
            k < n ==> s@[k as int] == '\n',
        decreases n - k,
    {
        if s.get_char(k) == '\n' {
            break;
        }
        k += 1;
    }
    proof {
        lemma_line_head(s@, k as int);
        if k < n {
            assert(s@[k as int] == '\n');
            assert(s@.contains('\n'));
        } else {
            assert(!s@.contains('\n'));
        }
    }
    if k < n && k > 0 && s.get_char(k - 1) == '\r' {
        s.substring_char(0, k - 1)
    } else {
        proof {
            if k == n {
                assert(s@.subrange(0, n as int) =~= s@);
            }
        }
        s.substring_char(0, k)
    }
}

} // verus!
