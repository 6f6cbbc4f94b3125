//! Text building blocks shared by every line builder: appending characters,
//! decimal rendering of counts, and the ASCII fallback for glyphs the map's
//! built-in font cannot draw.

use vstd::prelude::*;

verus! {

/// Appends one character to `s` (std's `String::push`).
#[verifier::external_body]
pub(crate) fn push_char(s: &mut String, c: char)
    ensures
        final(s)@ == old(s)@.push(c),
{
    s.push(c);
}

/// Appends the characters of `t` to `s`.
pub fn push_str(s: &mut String, t: &str)
    ensures
        final(s)@ == old(s)@ + t@,
{
    let ghost start = s@;
    for c in it: t.chars()
        invariant
            it.seq() == t@,
            s@ == start + t@.take(it.index()),
    {
        proof {
            assert(t@.take(it.index() + 1) == t@.take(it.index()).push(c));
        }
        push_char(s, c);
    }
    assert(s@ == start + t@);
}


/// The decimal digit character for `d` (`0 <= d < 10`).
pub open spec fn digit_spec(d: int) -> char {
    if d == 0 {
        '0'
    } else if d == 1 {
        '1'
    } else if d == 2 {
        '2'
    } else if d == 3 {
        '3'
    } else if d == 4 {
        '4'
    } else if d == 5 {
        '5'
    } else if d == 6 {
        '6'
    } else if d == 7 {
        '7'
    } else if d == 8 {
        '8'
    } else {
        '9'
    }
}

/// The decimal rendering of `n`, most significant digit first, with no
/// leading zeros (`0` renders as `"0"`).
pub open spec fn dec(n: nat) -> Seq<char>
    decreases n,
{
    if n < 10 {
        seq![digit_spec(n as int)]
    } else {
        dec(n / 10).push(digit_spec((n % 10) as int))
    }
}

fn digit_char(d: u64) -> (c: char)
    requires
        d < 10,
    ensures
        c == digit_spec(d as int),
{
    if d == 0 {
        '0'
    } else if d == 1 {
        '1'
    } else if d == 2 {
        '2'
    } else if d == 3 {
        '3'
    } else if d == 4 {
        '4'
    } else if d == 5 {
        '5'
    } else if d == 6 {
        '6'
    } else if d == 7 {
        '7'
    } else if d == 8 {
        '8'
    } else {
        '9'
    }
}

/// Appends the decimal rendering of `n` to `s`.
pub fn push_dec(s: &mut String, n: u64)
    ensures
        final(s)@ == old(s)@ + dec(n as nat),
    decreases n,
{
    if n >= 10 {
        push_dec(s, n / 10);
    }
    push_char(s, digit_char(n % 10));
    proof {
        if n >= 10 {
            assert(dec(n as nat) == dec((n / 10) as nat).push(digit_spec((n % 10) as int)));
        }
    }
}

/// The decimal rendering of a signed `i`: a minus sign before the
/// magnitude when it is negative.
pub open spec fn int_dec(i: int) -> Seq<char> {
    if i < 0 {
        seq!['-'] + dec((-i) as nat)
    } else {
        dec(i as nat)
    }
}

/// Appends the decimal rendering of the signed `i` to `s`.
pub fn push_int(s: &mut String, i: i64)
    ensures
        final(s)@ == old(s)@ + int_dec(i as int),
{
    if i < 0 {
        push_char(s, '-');
        let m: u64 = if i == i64::MIN {
            9223372036854775808u64
        } else {
            (-i) as u64
        };
        push_dec(s, m);
        assert(old(s)@.push('-') + dec(m as nat) == old(s)@ + (seq!['-'] + dec(m as nat)));
    } else {
        push_dec(s, i as u64);
    }
}

/// The decimal rendering of `n` as a fresh string.
pub fn dec_string(n: u64) -> (r: String)
    ensures
        r@ == dec(n as nat),
{
    let mut s = String::new();
    push_dec(&mut s, n);
    s
}

/// Whether a non-ASCII character is one the map font draws as-is.
pub open spec fn drawable_extra(c: char) -> bool {
    ||| c == '\u{b7}'
    ||| c == '\u{2014}'
    ||| c == '\u{2013}'
    ||| c == '\u{2026}'
    ||| c == '\u{d7}'
    ||| c == '\u{2260}'
    ||| c == '\u{2194}'
    ||| c == '\u{2212}'
    ||| c == '\u{2248}'
    ||| c == '\u{2713}'
    ||| c == '\u{2717}'
}

/// The plain stand-in for one character of the glyph vocabulary: the four
/// symbols with an ASCII look-alike map to it, ASCII and the drawable
/// punctuation pass through, everything else becomes `?`.
pub open spec fn ascii_char(c: char) -> char {
    if c == '\u{25b8}' {
        '>'
    } else if c == '\u{203c}' {
        '!'
    } else if c == '\u{2298}' {
        'o'
    } else if c == '\u{2263}' {
        '='
    } else if (c as u32) < 128 || drawable_extra(c) {
        c
    } else {
        '?'
    }
}

fn ascii_char_exec(c: char) -> (r: char)
    ensures
        r == ascii_char(c),
{
    if c == '\u{25b8}' {
        '>'
    } else if c == '\u{203c}' {
        '!'
    } else if c == '\u{2298}' {
        'o'
    } else if c == '\u{2263}' {
        '='
    } else if (c as u32) < 128 || c == '\u{b7}' || c == '\u{2014}' || c == '\u{2013}'
        || c == '\u{2026}' || c == '\u{d7}' || c == '\u{2260}' || c == '\u{2194}' || c
        == '\u{2212}' || c == '\u{2248}' || c == '\u{2713}' || c == '\u{2717}' {
        c
    } else {
        '?'
    }
}

/// Swaps the glyph vocabulary for characters the map font can draw, one
/// character for one: the result has the same length as `s`.
pub fn ascii(s: &str) -> (r: String)
    ensures
        r@ == s@.map_values(|c: char| ascii_char(c)),
        r@.len() == s@.len(),
{
    let mut out = String::new();
    for c in it: s.chars()
        invariant
            it.seq() == s@,
            out@ == s@.take(it.index()).map_values(|c: char| ascii_char(c)),
    {
        proof {
            assert(s@.take(it.index() + 1) == s@.take(it.index()).push(c));
            assert(s@.take(it.index() + 1).map_values(|c: char| ascii_char(c))
                == s@.take(it.index()).map_values(|c: char| ascii_char(c)).push(ascii_char(c)));
        }
        let a = ascii_char_exec(c);
        push_char(&mut out, a);
    }
    assert(s@.take(s@.len() as int) == s@);
    out
}

} // verus!
