//! Palette lookup and the content hash used to derive output filenames.

use vstd::prelude::*;

verus! {

use vstd::string::StrSliceExecFns;
use vstd::string::StringExecFns;

use crate::types::Chord;
use crate::types::Hand;
use crate::types::Mode;

/// Foreground and background colours resolved once per render from the
/// chord's theme.
pub struct Palette {
    pub fg: String,
    pub bg: String,
}

/// Foreground colour of each theme.
pub open spec fn palette_fg(mode: Mode) -> Seq<char> {
    if mode == Mode::Light {
        "#222222"@
    } else {
        "#FAF5EF"@
    }
}

/// Background colour of each theme.
pub open spec fn palette_bg(mode: Mode) -> Seq<char> {
    if mode == Mode::Light {
        "#FFFFFF"@
    } else {
        "#1E1E2E"@
    }
}

/// Pure lookup from theme selector to colour pair.
pub fn get_palette(mode: Mode) -> (p: Palette)
    ensures
        p.fg@ == palette_fg(mode),
        p.bg@ == palette_bg(mode),
{
    match mode {
        Mode::Light => Palette { fg: String::from_str("#222222"), bg: String::from_str("#FFFFFF") },
        Mode::Dark => Palette { fg: String::from_str("#FAF5EF"), bg: String::from_str("#1E1E2E") },
    }
}

/// Offset basis of the 64-bit FNV-1a hash.
pub const FNV_OFFSET: u64 = 0xcbf29ce484222325;

/// Multiplicative prime of the 64-bit FNV-1a hash.
pub const FNV_PRIME: u64 = 0x100000001b3;

/// Separator symbol placed between the encoded parts of a chord; it is
/// larger than every character code and every encoded fret value, so distinct
/// parts cannot run into each other.
pub const ENC_SEP: u64 = 0x100000000;

/// One FNV-1a round: fold one symbol into the running hash.
#[verifier::opaque]
pub open spec fn fnv_step(h: u64, x: u64) -> u64 {
    vstd::wrapping::u64_specs::wrapping_mul(h ^ x, FNV_PRIME)
}

/// FNV-1a folded over a whole symbol sequence.
pub open spec fn fnv_fold(h: u64, data: Seq<u64>) -> u64
    decreases data.len(),
{
    if data.len() == 0 {
        h
    } else {
        fnv_step(fnv_fold(h, data.drop_last()), data.last())
    }
}

/// Folding a single symbol is one hash round.
pub proof fn lemma_fnv_fold_one(h: u64, x: u64)
    ensures
        fnv_fold(h, seq![x]) == fnv_step(h, x),
{
    assert(seq![x].drop_last() =~= Seq::<u64>::empty());
    assert(fnv_fold(h, Seq::<u64>::empty()) == h);
    assert(seq![x].last() == x);
}

/// Hashing a concatenation is hashing the parts in order.
pub proof fn lemma_fnv_fold_concat(h: u64, a: Seq<u64>, b: Seq<u64>)
    ensures
        fnv_fold(h, a + b) == fnv_fold(fnv_fold(h, a), b),
    decreases b.len(),
{
    if b.len() == 0 {
        assert(a + b =~= a);
    } else {
        lemma_fnv_fold_concat(h, a, b.drop_last());
        assert((a + b).drop_last() =~= a + b.drop_last());
        assert((a + b).last() == b.last());
    }
}

/// The view of an optional string.
pub open spec fn opt_string_view(o: Option<String>) -> Option<Seq<char>> {
    match o {
        Option::None => Option::None,
        Option::Some(s) => Option::Some(s@),
    }
}

/// The view of an optional fret list.
pub open spec fn opt_frets_view(o: Option<Vec<i32>>) -> Option<Seq<i32>> {
    match o {
        Option::None => Option::None,
        Option::Some(v) => Option::Some(v@),
    }
}

/// Encoding of one fret value as a hash symbol: muted strings map to `0`,
/// a fret `f >= 0` maps to `f + 1`.
pub open spec fn enc_fret(f: i32) -> u64 {
    if f >= 0 {
        (f + 1) as u64
    } else {
        0
    }
}

/// Encoding of a fret assignment.
pub open spec fn enc_frets(frets: Seq<i32>) -> Seq<u64> {
    frets.map_values(|f: i32| enc_fret(f))
}

/// Encoding of a string as its character codes.
pub open spec fn enc_str(s: Seq<char>) -> Seq<u64> {
    s.map_values(|c: char| c as u64)
}

/// Encoding of an optional string: a presence flag, then the characters.
pub open spec fn enc_opt_str(o: Option<Seq<char>>) -> Seq<u64> {
    match o {
        Option::None => seq![0u64],
        Option::Some(s) => seq![1u64] + enc_str(s),
    }
}

/// Encoding of the optional barre list: a presence flag, then the entries.
pub open spec fn enc_barres(o: Option<Seq<i32>>) -> Seq<u64> {
    match o {
        Option::None => seq![0u64],
        Option::Some(bs) => seq![1u64] + enc_frets(bs),
    }
}

/// Hash code of a theme selector.
pub open spec fn mode_code(m: Mode) -> u64 {
    if m == Mode::Light {
        0
    } else {
        1
    }
}

/// Hash code of a handedness selector.
pub open spec fn hand_code(h: Hand) -> u64 {
    if h == Hand::Left {
        0
    } else {
        1
    }
}

/// The canonical symbol sequence a chord is hashed as: every field of the
/// chord appears, so equal encodings of valid chords mean equal drawings.
pub open spec fn encode_chord(c: Chord) -> Seq<u64> {
    enc_frets(c.frets@) + seq![ENC_SEP] + enc_opt_str(opt_string_view(c.title)) + seq![ENC_SEP]
        + enc_opt_str(opt_string_view(c.suffix)) + seq![
        ENC_SEP,
        mode_code(c.mode),
        hand_code(c.hand),
        if c.use_background {
            1u64
        } else {
            0u64
        },
        ENC_SEP,
    ] + enc_barres(opt_frets_view(c.barres))
}

/// The content hash of a chord: FNV-1a over [`encode_chord`]. A pure
/// function of the chord's fields, so equal chords always land in the same
/// output file.
pub open spec fn spec_chord_hash(c: Chord) -> u64 {
    fnv_fold(FNV_OFFSET, encode_chord(c))
}

fn fnv_step_exec(h: u64, x: u64) -> (r: u64)
    ensures
        r == fnv_step(h, x),
{
    proof {
        reveal(fnv_step);
    }
    (h ^ x).wrapping_mul(FNV_PRIME)
}

fn fnv_fold_frets(h0: u64, frets: &Vec<i32>) -> (r: u64)
    ensures
        r == fnv_fold(h0, enc_frets(frets@)),
{
    let mut h = h0;
    let mut i: usize = 0;
    while i < frets.len()
        invariant
            0 <= i <= frets@.len(),
            h == fnv_fold(h0, enc_frets(frets@.take(i as int))),
        decreases frets@.len() - i,
    {
        let f = frets[i];
        let x: u64 = if f >= 0 {
            (f as u64) + 1
        } else {
            0
        };
        h = fnv_step_exec(h, x);
        proof {
            assert(enc_frets(frets@.take(i + 1)).drop_last() =~= enc_frets(
                frets@.take(i as int),
            ));
            assert(enc_frets(frets@.take(i + 1)).last() == enc_fret(frets@[i as int]));
        }
        i = i + 1;
    }
    proof {
        assert(frets@.take(frets@.len() as int) =~= frets@);
    }
    h
}

fn fnv_fold_str(h0: u64, s: &str) -> (r: u64)
    ensures
        r == fnv_fold(h0, enc_str(s@)),
{
    let n = s.unicode_len();
    let mut h = h0;
    let mut i: usize = 0;
    while i < n
        invariant
            n == s@.len(),
            0 <= i <= n,
            h == fnv_fold(h0, enc_str(s@.take(i as int))),
        decreases n - i,
    {
        let c = s.get_char(i);
        h = fnv_step_exec(h, c as u64);
        proof {
            assert(enc_str(s@.take(i + 1)).drop_last() =~= enc_str(s@.take(i as int)));
            assert(enc_str(s@.take(i + 1)).last() == s@[i as int] as u64);
        }
        i = i + 1;
    }
    proof {
        assert(s@.take(n as int) =~= s@);
    }
    h
}

#[verifier::rlimit(50)]
fn fnv_fold_opt_str(h0: u64, o: &Option<String>) -> (r: u64)
    ensures
        r == fnv_fold(h0, enc_opt_str(opt_string_view(*o))),
{
    match o {
        Option::None => {
            let r = fnv_step_exec(h0, 0);
            proof {
                lemma_fnv_fold_one(h0, 0);
            }
            r
        },
        Option::Some(s) => {
            let h1 = fnv_step_exec(h0, 1);
            proof {
                lemma_fnv_fold_one(h0, 1);
                lemma_fnv_fold_concat(h0, seq![1u64], enc_str(s@));
            }
            fnv_fold_str(h1, s.as_str())
        },
    }
}

/// Derives the content-addressed identifier of a chord: the FNV-1a hash of
/// its canonical encoding, used by callers as the output filename.
#[verifier::rlimit(50)]
pub fn get_filename(chord: &Chord) -> (h: u64)
    ensures
        h == spec_chord_hash(*chord),
{
    let ghost enc = encode_chord(*chord);
    let ghost p_frets = enc_frets(chord.frets@);
    let ghost p_title = enc_opt_str(opt_string_view(chord.title));
    let ghost p_suffix = enc_opt_str(opt_string_view(chord.suffix));
    let ghost p_flags = seq![
        ENC_SEP,
        mode_code(chord.mode),
        hand_code(chord.hand),
        if chord.use_background {
            1u64
        } else {
            0u64
        },
        ENC_SEP,
    ];
    let ghost p_barres = enc_barres(opt_frets_view(chord.barres));

    let h1 = fnv_fold_frets(FNV_OFFSET, &chord.frets);
    let h2 = fnv_step_exec(h1, ENC_SEP);
    let h3 = fnv_fold_opt_str(h2, &chord.title);
    let h4 = fnv_step_exec(h3, ENC_SEP);
    let h5 = fnv_fold_opt_str(h4, &chord.suffix);
    let h6 = fnv_step_exec(h5, ENC_SEP);
    let h7 = fnv_step_exec(
        h6,
        match chord.mode {
            Mode::Light => 0,
            Mode::Dark => 1,
        },
    );
    let h8 = fnv_step_exec(
        h7,
        match chord.hand {
            Hand::Left => 0,
            Hand::Right => 1,
        },
    );
    let h9 = fnv_step_exec(
        h8,
        if chord.use_background {
            1
        } else {
            0
        },
    );
    let h10 = fnv_step_exec(h9, ENC_SEP);
    let h11 = match &chord.barres {
        Option::None => {
            let r = fnv_step_exec(h10, 0);
            proof {
                lemma_fnv_fold_one(h10, 0);
            }
            r
        },
        Option::Some(bs) => {
            let hb = fnv_step_exec(h10, 1);
            proof {
                lemma_fnv_fold_one(h10, 1);
                lemma_fnv_fold_concat(h10, seq![1u64], enc_frets(bs@));
            }
            fnv_fold_frets(hb, bs)
        },
    };
    proof {
        let s1 = p_frets + seq![ENC_SEP];
        let s2 = s1 + p_title;
        let s3 = s2 + seq![ENC_SEP];
        let s4 = s3 + p_suffix;
        let s5 = s4 + p_flags;
        lemma_fnv_fold_concat(FNV_OFFSET, p_frets, seq![ENC_SEP]);
        lemma_fnv_fold_one(h1, ENC_SEP);
        assert(fnv_fold(FNV_OFFSET, s1) == h2);
        lemma_fnv_fold_concat(FNV_OFFSET, s1, p_title);
        assert(fnv_fold(FNV_OFFSET, s2) == h3);
        lemma_fnv_fold_concat(FNV_OFFSET, s2, seq![ENC_SEP]);
        lemma_fnv_fold_one(h3, ENC_SEP);
        assert(fnv_fold(FNV_OFFSET, s3) == h4);
        lemma_fnv_fold_concat(FNV_OFFSET, s3, p_suffix);
        assert(fnv_fold(FNV_OFFSET, s4) == h5);
        lemma_fnv_fold_concat(FNV_OFFSET, s4, p_flags);
        assert(fnv_fold(h5, p_flags) == h10) by {
            let f1 = seq![ENC_SEP];
            let f2 = f1.push(mode_code(chord.mode));
            let f3 = f2.push(hand_code(chord.hand));
            let f4 = f3.push(
                if chord.use_background {
                    1u64
                } else {
                    0u64
                },
            );
            let f5 = f4.push(ENC_SEP);
            lemma_fnv_fold_one(h5, ENC_SEP);
            assert(f2.drop_last() =~= f1);
            assert(f3.drop_last() =~= f2);
            assert(f4.drop_last() =~= f3);
            assert(f5.drop_last() =~= f4);
            assert(fnv_fold(h5, f1) == h6);
            assert(fnv_fold(h5, f2) == h7);
            assert(fnv_fold(h5, f3) == h8);
            assert(fnv_fold(h5, f4) == h9);
            assert(fnv_fold(h5, f5) == h10);
            assert(p_flags =~= f5);
        }
        assert(fnv_fold(FNV_OFFSET, s5) == h10);
        assert(fnv_fold(h10, p_barres) == h11);
        lemma_fnv_fold_concat(FNV_OFFSET, s5, p_barres);
        assert(enc =~= s5 + p_barres);
    }
    h11
}

} // verus!
