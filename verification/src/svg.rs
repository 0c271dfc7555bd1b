//! Per-element SVG fragment generators: string markers, the barre bar, the
//! floating-position label, the title and the background fill. Each fragment
//! is specified exactly, character for character.

use vstd::prelude::*;

verus! {

use vstd::string::StringExecFns;

use crate::geometry::spec_phys;
use crate::geometry::physical_string;
use crate::text::dec_str;
use crate::text::glyph_sub;
use crate::text::push_dec;
use crate::text::push_glyph_sub;
use crate::types::Chord;
use crate::types::Hand;
use crate::types::STRING_COUNT;
use crate::utils::Palette;
use crate::utils::opt_string_view;

/// Left margin of the grid; also the x coordinate of the first string.
pub const MARGIN: u64 = 30;

/// Horizontal distance between neighbouring strings, and vertical distance
/// between neighbouring fret rows.
pub const STRING_SPACE: u64 = 40;

/// The x coordinate of physical string `p`.
pub open spec fn x_of(p: int) -> int {
    MARGIN as int + p * (STRING_SPACE as int)
}

/// The displayed row of an absolute fret: rows are relative to the currently
/// displayed window, never absolute fret numbers.
pub open spec fn note_row(fret: int, lowest: int) -> int {
    fret - lowest + 1
}

/// The y coordinate of the centre of row `row`.
pub open spec fn y_of(row: int) -> int {
    10 + row * (STRING_SPACE as int)
}

/// The muted-string marker: an `x` glyph above physical string `p`.
pub open spec fn frag_muted(p: int, fg: Seq<char>) -> Seq<char> {
    "<text x=\""@ + dec_str(x_of(p) as nat) + "\" y=\"20\" text-anchor=\"middle\" fill=\""@ + fg
        + "\">x</text>"@
}

/// Draws the muted marker for one string.
pub fn svg_draw_muted_string(string: usize, palette: &Palette) -> (r: String)
    requires
        string < STRING_COUNT,
    ensures
        r@ == frag_muted(string as int, palette.fg@),
{
    let mut s = String::new();
    s.append("<text x=\"");
    push_dec(&mut s, MARGIN + (string as u64) * STRING_SPACE);
    s.append("\" y=\"20\" text-anchor=\"middle\" fill=\"");
    s.append(palette.fg.as_str());
    s.append("\">x</text>");
    proof {
        assert(s@ =~= frag_muted(string as int, palette.fg@));
    }
    s
}

/// The open-string marker: a `0` label above physical string `p`.
pub open spec fn frag_open(p: int, fg: Seq<char>) -> Seq<char> {
    "<text x=\""@ + dec_str(x_of(p) as nat) + "\" y=\"20\" text-anchor=\"middle\" fill=\""@ + fg
        + "\">0</text>"@
}

/// Draws the open marker for one string.
pub fn svg_draw_open_string(string: usize, palette: &Palette) -> (r: String)
    requires
        string < STRING_COUNT,
    ensures
        r@ == frag_open(string as int, palette.fg@),
{
    let mut s = String::new();
    s.append("<text x=\"");
    push_dec(&mut s, MARGIN + (string as u64) * STRING_SPACE);
    s.append("\" y=\"20\" text-anchor=\"middle\" fill=\"");
    s.append(palette.fg.as_str());
    s.append("\">0</text>");
    proof {
        assert(s@ =~= frag_open(string as int, palette.fg@));
    }
    s
}

/// The note marker: a filled circle at the string's column and the fret's
/// row within the displayed window.
pub open spec fn frag_note(p: int, fret: int, lowest: int, fg: Seq<char>) -> Seq<char> {
    "<circle cx=\""@ + dec_str(x_of(p) as nat) + "\" cy=\""@ + dec_str(
        y_of(note_row(fret, lowest)) as nat,
    ) + "\" r=\"12\" fill=\""@ + fg + "\" />"@
}

/// Draws the note marker for one fretted string.
pub fn svg_draw_note(note: i32, string: usize, lowest: i32, palette: &Palette) -> (r: String)
    requires
        string < STRING_COUNT,
        0 < lowest <= note,
    ensures
        r@ == frag_note(string as int, note as int, lowest as int, palette.fg@),
{
    let row: u64 = ((note - lowest) as u64) + 1;
    let mut s = String::new();
    s.append("<circle cx=\"");
    push_dec(&mut s, MARGIN + (string as u64) * STRING_SPACE);
    s.append("\" cy=\"");
    push_dec(&mut s, 10 + row * STRING_SPACE);
    s.append("\" r=\"12\" fill=\"");
    s.append(palette.fg.as_str());
    s.append("\" />");
    proof {
        assert(s@ =~= frag_note(string as int, note as int, lowest as int, palette.fg@));
    }
    s
}

/// Whether the floating-window label is drawn: the window starts well above
/// the nut, or starts above fret `1` while no nut is drawn to anchor it.
pub open spec fn min_fret_visible(lowest: int, show_nut: bool) -> bool {
    lowest > 2 || (lowest > 1 && !show_nut)
}

/// The floating-position label: the lowest displayed fret number near the
/// top-left of the grid, or nothing when the window is unambiguous.
pub open spec fn frag_min_fret(lowest: int, show_nut: bool, fg: Seq<char>) -> Seq<char> {
    if min_fret_visible(lowest, show_nut) {
        "<text x=\"2\" y=\"44\" fill=\""@ + fg + "\">"@ + dec_str(lowest as nat) + "</text>"@
    } else {
        Seq::<char>::empty()
    }
}

/// Draws the floating-position label when the visibility rule calls for it.
pub fn svg_draw_min_fret(lowest: i32, show_nut: bool, palette: &Palette) -> (r: String)
    requires
        lowest >= 0,
    ensures
        r@ == frag_min_fret(lowest as int, show_nut, palette.fg@),
{
    if lowest > 2 || (lowest > 1 && !show_nut) {
        let mut s = String::new();
        s.append("<text x=\"2\" y=\"44\" fill=\"");
        s.append(palette.fg.as_str());
        s.append("\">");
        push_dec(&mut s, lowest as u64);
        s.append("</text>");
        proof {
            assert(s@ =~= frag_min_fret(lowest as int, show_nut, palette.fg@));
        }
        s
    } else {
        String::new()
    }
}

/// The background fill, emitted only when the chord asks for one.
pub open spec fn frag_bg(use_background: bool, bg: Seq<char>) -> Seq<char> {
    if use_background {
        "<rect width=\"100%\" height=\"100%\" fill=\""@ + bg + "\" />"@
    } else {
        Seq::<char>::empty()
    }
}

/// Draws the background fill.
pub fn svg_draw_bg(use_background: bool, palette: &Palette) -> (r: String)
    ensures
        r@ == frag_bg(use_background, palette.bg@),
{
    if use_background {
        let mut s = String::new();
        s.append("<rect width=\"100%\" height=\"100%\" fill=\"");
        s.append(palette.bg.as_str());
        s.append("\" />");
        proof {
            assert(s@ =~= frag_bg(use_background, palette.bg@));
        }
        s
    } else {
        String::new()
    }
}

/// The readable chord name: the title as given, then the suffix with its
/// ASCII accidental encodings replaced by glyphs.
pub open spec fn title_text(title: Option<Seq<char>>, suffix: Option<Seq<char>>) -> Seq<char> {
    (match title {
        Option::Some(t) => t,
        Option::None => Seq::<char>::empty(),
    }) + (match suffix {
        Option::Some(s) => glyph_sub(s),
        Option::None => Seq::<char>::empty(),
    })
}

/// The title fragment: a centred label under the grid, or nothing when the
/// chord has neither title nor suffix.
pub open spec fn frag_title(title: Option<Seq<char>>, suffix: Option<Seq<char>>, fg: Seq<
    char,
>) -> Seq<char> {
    if title is None && suffix is None {
        Seq::<char>::empty()
    } else {
        "<text x=\"130\" y=\"260\" text-anchor=\"middle\" fill=\""@ + fg + "\">"@ + title_text(
            title,
            suffix,
        ) + "</text>"@
    }
}

/// Draws the title label of a chord.
pub fn svg_draw_title(chord: &Chord, palette: &Palette) -> (r: String)
    ensures
        r@ == frag_title(
            opt_string_view(chord.title),
            opt_string_view(chord.suffix),
            palette.fg@,
        ),
{
    if chord.title.is_none() && chord.suffix.is_none() {
        return String::new();
    }
    let mut s = String::new();
    s.append("<text x=\"130\" y=\"260\" text-anchor=\"middle\" fill=\"");
    s.append(palette.fg.as_str());
    s.append("\">");
    match &chord.title {
        Option::Some(t) => s.append(t.as_str()),
        Option::None => (),
    }
    match &chord.suffix {
        Option::Some(sfx) => push_glyph_sub(&mut s, sfx.as_str()),
        Option::None => (),
    }
    s.append("</text>");
    proof {
        assert(s@ =~= frag_title(
            opt_string_view(chord.title),
            opt_string_view(chord.suffix),
            palette.fg@,
        ));
    }
    s
}

/// The physical span of a barre at fret `b`: the least and greatest physical
/// position among the strings whose fret lies at or above `b`, or nothing
/// when no string is covered. Muted strings and strings fretted below the
/// barre never widen the bar.
pub open spec fn spec_span(frets: Seq<i32>, b: int, hand: Hand) -> Option<(int, int)>
    decreases frets.len(),
{
    if frets.len() == 0 {
        Option::None
    } else {
        let rest = spec_span(frets.drop_last(), b, hand);
        if frets.last() >= b {
            let p = spec_phys(hand, frets.len() - 1);
            match rest {
                Option::None => Option::Some((p, p)),
                Option::Some(lohi) => Option::Some(
                    (
                        if p < lohi.0 {
                            p
                        } else {
                            lohi.0
                        },
                        if p > lohi.1 {
                            p
                        } else {
                            lohi.1
                        },
                    ),
                ),
            }
        } else {
            rest
        }
    }
}

/// The barre bar: a rounded rectangle spanning the covered strings at the
/// barre's row. Nothing is drawn when no string is covered, or when the
/// barre lies above the displayed window (`b < lowest`).
pub open spec fn frag_barres(frets: Seq<i32>, b: int, lowest: int, hand: Hand, fg: Seq<
    char,
>) -> Seq<char> {
    match spec_span(frets, b, hand) {
        Option::None => Seq::<char>::empty(),
        Option::Some(lohi) => {
            if lowest <= b {
                "<rect x=\""@ + dec_str((x_of(lohi.0) - 12) as nat) + "\" y=\""@ + dec_str(
                    (y_of(note_row(b, lowest)) - 12) as nat,
                ) + "\" width=\""@ + dec_str(((lohi.1 - lohi.0) * (STRING_SPACE as int) + 24) as nat)
                    + "\" height=\"24\" rx=\"12\" fill=\""@ + fg + "\" />"@
            } else {
                Seq::<char>::empty()
            }
        },
    }
}

/// Draws the barre bar for the first barre fret of a chord.
pub fn svg_draw_barres(barre: i32, frets: &Vec<i32>, lowest: i32, hand: Hand, palette: &Palette) -> (r:
    String)
    requires
        frets@.len() == STRING_COUNT,
        barre >= 1,
        lowest >= 0,
    ensures
        r@ == frag_barres(frets@, barre as int, lowest as int, hand, palette.fg@),
{
    let mut lo: usize = 0;
    let mut hi: usize = 0;
    let mut found = false;
    let mut i: usize = 0;
    while i < frets.len()
        invariant
            frets@.len() == STRING_COUNT,
            0 <= i <= frets@.len(),
            found == (spec_span(frets@.take(i as int), barre as int, hand) is Some),
            found ==> spec_span(frets@.take(i as int), barre as int, hand) == Option::Some(
                (lo as int, hi as int),
            ),
            found ==> lo <= hi && hi < STRING_COUNT,
        decreases frets@.len() - i,
    {
        let ghost prev = spec_span(frets@.take(i as int), barre as int, hand);
        proof {
            assert(frets@.take(i + 1).len() == i + 1);
            assert(frets@.take(i + 1).drop_last() =~= frets@.take(i as int));
            assert(frets@.take(i + 1).last() == frets@[i as int]);
        }
        if frets[i] >= barre {
            let p = physical_string(hand, i);
            if !found {
                found = true;
                lo = p;
                hi = p;
            } else {
                if p < lo {
                    lo = p;
                }
                if p > hi {
                    hi = p;
                }
            }
            proof {
                assert(spec_span(frets@.take(i + 1), barre as int, hand) == Option::Some(
                    (lo as int, hi as int),
                ));
            }
        } else {
            proof {
                assert(spec_span(frets@.take(i + 1), barre as int, hand) == prev);
            }
        }
        i = i + 1;
    }
    proof {
        assert(frets@.take(frets@.len() as int) =~= frets@);
    }
    if !found {
        return String::new();
    }
    if barre < lowest {
        return String::new();
    }
    let row: u64 = ((barre - lowest) as u64) + 1;
    let mut s = String::new();
    s.append("<rect x=\"");
    push_dec(&mut s, MARGIN + (lo as u64) * STRING_SPACE - 12);
    s.append("\" y=\"");
    push_dec(&mut s, 10 + row * STRING_SPACE - 12);
    s.append("\" width=\"");
    push_dec(&mut s, ((hi - lo) as u64) * STRING_SPACE + 24);
    s.append("\" height=\"24\" rx=\"12\" fill=\"");
    s.append(palette.fg.as_str());
    s.append("\" />");
    proof {
        assert(s@ =~= frag_barres(frets@, barre as int, lowest as int, hand, palette.fg@));
    }
    s
}

} // verus!
