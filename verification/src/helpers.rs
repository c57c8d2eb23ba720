//! Small string helpers shared by the transcript, status and modal code.

use vstd::prelude::*;
use vstd::string::*;

verus! {

/// Stringify a boolean as `"on"` / `"off"` for flash messages.
pub fn on_off(b: bool) -> (r: &'static str)
    ensures
        r@ == (if b {
            "on"@
        } else {
            "off"@
        }),
{
    if b {
        "on"
    } else {
        "off"
    }
}

/// A new string holding `a` followed by `b`.
pub fn concat2(a: &str, b: &str) -> (r: String)
    ensures
        r@ == a@ + b@,
{
    let mut out = String::from_str(a);
    out.append(b);
    out
}

/// A new string holding `a`, `b` and `c` in turn.
pub fn concat3(a: &str, b: &str, c: &str) -> (r: String)
    ensures
        r@ == a@ + b@ + c@,
{
    let mut out = String::from_str(a);
    out.append(b);
    out.append(c);
    out
}

/// Very rough char→token approximation: a quarter of the character
/// count (taken as a `u32`), rounded up.
pub open spec fn token_estimate(s: Seq<char>) -> u32 {
    (((s.len() as u32) as int + 3) / 4) as u32
}

/// The token estimate of `s`.
pub fn approx_tokens(s: &str) -> (r: u32)
    ensures
        r == token_estimate(s@),
{
    let n = s.unicode_len();
    let m = n as u32;
    let q = m / 4;
    if m % 4 == 0 {
        q
    } else {
        q + 1
    }
}

/// The preview of `s` in at most `max` characters: `s` itself when it
/// fits, else its first `max - 1` characters (none when `max` is 0)
/// followed by an ellipsis.
pub open spec fn truncated(s: Seq<char>, max: int) -> Seq<char> {
    if s.len() > max {
        s.take(if max >= 1 {
            max - 1
        } else {
            0
        }) + seq!['…']
    } else {
        s
    }
}

/// Truncate a string to `max` characters, appending an ellipsis if cut.
pub fn truncate_preview(s: &str, max: usize) -> (r: String)
    ensures
        r@ == truncated(s@, max as int),
{
    let n = s.unicode_len();
    if n > max {
        let keep = max.saturating_sub(1);
        let head = s.substring_char(0, keep);
        proof {
            reveal_strlit("…");
        }
        concat2(head, "…")
    } else {
        String::from_str(s)
    }
}

} // verus!

verus! {

/// The character of decimal digit `d`.
pub open spec fn digit_char(d: nat) -> char {
    (48 + d) as char
}

/// The decimal digits of `n`, most significant first, with no leading
/// zeros (`0` for zero).
pub open spec fn decimal(n: nat) -> Seq<char>
    decreases n,
{
    if n < 10 {
        seq![digit_char(n)]
    } else {
        decimal(n / 10).push(digit_char(n % 10))
    }
}

/// The decimal digits of `n`, zero-padded to at least two.
pub open spec fn two_digits(n: nat) -> Seq<char> {
    if n < 10 {
        seq!['0'] + decimal(n)
    } else {
        decimal(n)
    }
}

/// The character of decimal digit `d`.
fn digit_of(d: u64) -> (c: char)
    requires
        d < 10,
    ensures
        c == digit_char(d as nat),
{
    match d {
        0 => '0',
        1 => '1',
        2 => '2',
        3 => '3',
        4 => '4',
        5 => '5',
        6 => '6',
        7 => '7',
        8 => '8',
        _ => '9',
    }
}

/// The decimal digits of `n`, as `format!("{}")` writes them.
pub(crate) fn decimal_string(n: u64) -> (r: String)
    ensures
        r@ == decimal(n as nat),
    decreases n,
{
    if n < 10 {
        crate::text::char_to_string(digit_of(n))
    } else {
        let mut s = decimal_string(n / 10);
        let d = crate::text::char_to_string(digit_of(n % 10));
        s.append(d.as_str());
        s
    }
}

/// The decimal digits of `n`, zero-padded to at least two, as
/// `format!("{:02}")` writes them.
pub(crate) fn two_digit_string(n: u64) -> (r: String)
    ensures
        r@ == two_digits(n as nat),
{
    let d = decimal_string(n);
    if n < 10 {
        proof {
            reveal_strlit("0");
        }
        concat2("0", d.as_str())
    } else {
        d
    }
}

} // verus!

verus! {

/// An elapsed time of `s` seconds as `MM:SS`, or `HH:MM:SS` from an hour
/// on (hours are not capped).
pub open spec fn elapsed_text(s: nat) -> Seq<char> {
    let h = s / 3600;
    let m = (s % 3600) / 60;
    let sec = s % 60;
    if h > 0 {
        two_digits(h) + ":"@ + two_digits(m) + ":"@ + two_digits(sec)
    } else {
        two_digits(m) + ":"@ + two_digits(sec)
    }
}

/// Format an elapsed time, given in whole seconds, for the status widget.
pub fn fmt_elapsed(secs: u64) -> (r: String)
    ensures
        r@ == elapsed_text(secs as nat),
{
    let h = secs / 3600;
    let m = (secs % 3600) / 60;
    let sec = secs % 60;
    let mm = two_digit_string(m);
    let ss = two_digit_string(sec);
    let tail = concat3(mm.as_str(), ":", ss.as_str());
    if h > 0 {
        let hh = two_digit_string(h);
        concat3(hh.as_str(), ":", tail.as_str())
    } else {
        tail
    }
}

/// The index of the last `/` in `t`, or -1.
pub open spec fn last_slash(t: Seq<char>) -> int
    decreases t.len(),
{
    if t.len() == 0 {
        -1
    } else if t.last() == '/' {
        t.len() - 1
    } else {
        last_slash(t.drop_last())
    }
}

/// The header's model label: the full label when it takes at most 24
/// bytes, else the part after its last `/` (the whole label without one).
pub open spec fn short_label(t: Seq<char>) -> Seq<char> {
    if crate::text::blen(t) <= 24 {
        t
    } else if last_slash(t) >= 0 {
        t.skip(last_slash(t) + 1)
    } else {
        t
    }
}

/// Shorten a `<provider>/<id>` model label for the header.
pub fn short_model_label(full: &str) -> (r: String)
    ensures
        r@ == short_label(full@),
{
    if crate::text::byte_len(full) <= 24 {
        return String::from_str(full);
    }
    let n = full.unicode_len();
    let mut k: usize = n;
    proof {
        assert(full@.take(n as int) =~= full@);
    }
    while k > 0
        invariant
            k <= n,
            n == full@.len(),
            crate::text::blen(full@) > 24,
            last_slash(full@) == last_slash(full@.take(k as int)),
        decreases k,
    {
        if full.get_char(k - 1) == '/' {
            proof {
                assert(full@.take(k as int).last() == '/');
                assert(last_slash(full@.take(k as int)) == k - 1);
                assert(full@.skip(k as int) =~= full@.subrange(k as int, n as int));
            }
            return String::from_str(full.substring_char(k, n));
        }
        proof {
            assert(full@.take(k as int).drop_last() =~= full@.take(k - 1));
        }
        k -= 1;
    }
    proof {
        assert(full@.take(0) =~= Seq::<char>::empty());
    }
    String::from_str(full)
}

} // verus!
