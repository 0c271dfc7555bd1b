//! The library's cross-cutting laws, stated and proved once over the spec
//! functions that the executable contracts use. The per-function laws (the
//! lowest-fret characterisation and its monotonicity) live in [`crate::geometry`].

use vstd::prelude::*;

verus! {

use crate::geometry::spec_lowest_fret;
use crate::geometry::spec_show_nut;
use crate::svg::frag_min_fret;
use crate::svg::min_fret_visible;
use crate::render::spec_render;
use crate::render::spec_slots;
use crate::types::Chord;

/// The nut is drawn iff an open string exists while the displayed window
/// starts below fret `3`, or some string is fretted at absolute fret `1`.
pub proof fn lemma_show_nut_iff(frets: Seq<i32>)
    ensures
        spec_show_nut(frets) <==> (((exists|i: int| 0 <= i < frets.len() && frets[i] == 0)
            && spec_lowest_fret(frets) < 3) || (exists|i: int|
            0 <= i < frets.len() && frets[i] == 1)),
{
    assert(frets.contains(0) == (exists|i: int| 0 <= i < frets.len() && frets[i] == 0));
    assert(frets.contains(1) == (exists|i: int| 0 <= i < frets.len() && frets[i] == 1));
}

/// When a barre is present, the open-marker slot of the rendered document is
/// the empty fragment, however many strings read fret `0`.
pub proof fn lemma_barre_suppresses_open_markers(c: Chord)
    requires
        c.barres is Some,
    ensures
        spec_slots(c)["open"@] == Seq::<char>::empty(),
{
    reveal_strlit("open");
    reveal_strlit("foreground");
    reveal_strlit("background");
    reveal_strlit("barres");
    assert("open"@.len() == 4);
    assert("foreground"@.len() == 10);
    assert("background"@.len() == 10);
    assert("barres"@.len() == 6);
    assert("open"@ != "foreground"@);
    assert("open"@ != "background"@);
    assert("open"@ != "barres"@);
}

/// The floating-position label is non-empty iff the window starts above
/// fret `2`, or above fret `1` with no nut drawn to anchor it.
pub proof fn lemma_min_fret_marker_iff(lowest: int, show_nut: bool, fg: Seq<char>)
    ensures
        frag_min_fret(lowest, show_nut, fg).len() > 0 <==> min_fret_visible(lowest, show_nut),
{
    if min_fret_visible(lowest, show_nut) {
        reveal_strlit("<text x=\"2\" y=\"44\" fill=\"");
        assert("<text x=\"2\" y=\"44\" fill=\""@.len() > 0);
        assert(frag_min_fret(lowest, show_nut, fg).len() > 0);
    }
}

/// The same law at the level of the slot map handed to the renderer.
pub proof fn lemma_min_fret_slot_iff(c: Chord)
    ensures
        spec_slots(c)["minFret"@].len() > 0 <==> min_fret_visible(
            spec_lowest_fret(c.frets@),
            spec_show_nut(c.frets@),
        ),
{
    reveal_strlit("minFret");
    reveal_strlit("muted");
    reveal_strlit("open");
    reveal_strlit("foreground");
    reveal_strlit("background");
    reveal_strlit("barres");
    assert("minFret"@.len() == 7);
    assert("muted"@.len() == 5);
    assert("open"@.len() == 4);
    assert("foreground"@.len() == 10);
    assert("background"@.len() == 10);
    assert("barres"@.len() == 6);
    assert("minFret"@ != "muted"@);
    assert("minFret"@ != "open"@);
    assert("minFret"@ != "foreground"@);
    assert("minFret"@ != "background"@);
    assert("minFret"@ != "barres"@);
    lemma_min_fret_marker_iff(
        spec_lowest_fret(c.frets@),
        spec_show_nut(c.frets@),
        crate::utils::palette_fg(c.mode),
    );
}

/// Rendering is a pure function of the chord: equal chords render to equal
/// results — the same document bytes, or the same error.
pub proof fn lemma_render_deterministic(c1: Chord, c2: Chord)
    requires
        c1 == c2,
    ensures
        spec_render(c1) == spec_render(c2),
{
}

} // verus!
