//! Small text-building helpers shared by the fragment generators: appending
//! single characters, decimal renderings of coordinates, and the accidental
//! glyph substitution used for chord suffixes.

use vstd::prelude::*;

verus! {

use vstd::string::StrSliceExecFns;

/// Relies on `String::push`: appends exactly the given character to the end
/// of the string.
#[verifier::external_body]
pub(crate) fn push_char(s: &mut String, c: char)
    ensures
        final(s)@ == old(s)@ + seq![c],
{
    s.push(c);
}

/// The decimal digit character for `d` (`0 <= d <= 9`).
pub open spec fn digit_char(d: nat) -> char {
    if d == 0 {
        '0'
    } else if d == 1 {
        '1'
    } else if d == 2 {
        '2'
    } else if d == 3 {
        '3'
    } else if d == 4 {
        '4'
    } else if d == 5 {
        '5'
    } else if d == 6 {
        '6'
    } else if d == 7 {
        '7'
    } else if d == 8 {
        '8'
    } else {
        '9'
    }
}

/// The usual base-ten rendering of `n`, without a sign and without leading
/// zeros (except for `n == 0`, rendered as `"0"`).
pub open spec fn dec_str(n: nat) -> Seq<char>
    decreases n,
{
    if n < 10 {
        seq![digit_char(n)]
    } else {
        dec_str(n / 10) + seq![digit_char(n % 10)]
    }
}

fn digit_char_exec(d: u64) -> (c: char)
    requires
        d < 10,
    ensures
        c == digit_char(d as nat),
{
    if d == 0 {
        '0'
    } else if d == 1 {
        '1'
    } else if d == 2 {
        '2'
    } else if d == 3 {
        '3'
    } else if d == 4 {
        '4'
    } else if d == 5 {
        '5'
    } else if d == 6 {
        '6'
    } else if d == 7 {
        '7'
    } else if d == 8 {
        '8'
    } else {
        '9'
    }
}

/// Appends the decimal rendering of `n` to `s`.
pub fn push_dec(s: &mut String, n: u64)
    ensures
        final(s)@ == old(s)@ + dec_str(n as nat),
    decreases n,
{
    if n >= 10 {
        push_dec(s, n / 10);
        push_char(s, digit_char_exec(n % 10));
        proof {
            assert(s@ =~= old(s)@ + dec_str(n as nat));
        }
    } else {
        push_char(s, digit_char_exec(n));
    }
}

/// The decimal rendering of `n` as an owned string.
pub fn u64_to_string(n: u64) -> (s: String)
    ensures
        s@ == dec_str(n as nat),
{
    let mut s = String::new();
    push_dec(&mut s, n);
    proof {
        assert(s@ =~= dec_str(n as nat));
    }
    s
}

/// Accidental glyph substitution for one character of a chord suffix: the
/// ASCII encodings `b` and `#` become the flat and sharp signs; every other
/// character stands for itself.
pub open spec fn glyph_of(c: char) -> char {
    if c == 'b' {
        '\u{266D}'
    } else if c == '#' {
        '\u{266F}'
    } else {
        c
    }
}

/// [`glyph_of`] applied to every character of `s`.
pub open spec fn glyph_sub(s: Seq<char>) -> Seq<char> {
    s.map_values(|c: char| glyph_of(c))
}

/// Appends `suffix` to `s` with accidental ASCII encodings replaced by their
/// glyphs.
pub fn push_glyph_sub(s: &mut String, suffix: &str)
    ensures
        final(s)@ == old(s)@ + glyph_sub(suffix@),
{
    let n = suffix.unicode_len();
    let mut i: usize = 0;
    while i < n
        invariant
            n == suffix@.len(),
            0 <= i <= n,
            s@ == old(s)@ + glyph_sub(suffix@.take(i as int)),
        decreases n - i,
    {
        let c = suffix.get_char(i);
        let g = if c == 'b' {
            '\u{266D}'
        } else if c == '#' {
            '\u{266F}'
        } else {
            c
        };
        push_char(s, g);
        proof {
            assert(glyph_sub(suffix@.take(i + 1)) =~= glyph_sub(suffix@.take(i as int)) + seq![
                glyph_of(suffix@[i as int]),
            ]);
            assert(s@ =~= old(s)@ + glyph_sub(suffix@.take(i + 1)));
        }
        i = i + 1;
    }
    proof {
        assert(suffix@.take(n as int) =~= suffix@);
    }
}

} // verus!
