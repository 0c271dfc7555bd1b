//! Shared layout geometry: the lowest displayed fret, nut style, and the
//! mapping from logical string index to physical position.

use vstd::prelude::*;

verus! {

use crate::types::Hand;
use crate::types::STRING_COUNT;

/// The lowest positive fret value in `frets`, or `0` if no string is fretted
/// above `0`. This anchors the displayed fret window: chords played high on
/// the neck are drawn floating, starting at this fret rather than at fret 1.
pub open spec fn spec_lowest_fret(frets: Seq<i32>) -> int
    decreases frets.len(),
{
    if frets.len() == 0 {
        0
    } else {
        let rest = spec_lowest_fret(frets.drop_last());
        let f = frets.last();
        if f <= 0 {
            rest
        } else if rest == 0 || f < rest {
            f as int
        } else {
            rest
        }
    }
}

/// Computes [`spec_lowest_fret`] of the fret assignment.
pub fn lowest_fret(frets: &Vec<i32>) -> (r: i32)
    ensures
        r == spec_lowest_fret(frets@),
{
    let mut r: i32 = 0;
    let mut i: usize = 0;
    while i < frets.len()
        invariant
            0 <= i <= frets@.len(),
            r == spec_lowest_fret(frets@.take(i as int)),
        decreases frets@.len() - i,
    {
        let f = frets[i];
        proof {
            assert(frets@.take(i + 1).drop_last() =~= frets@.take(i as int));
        }
        if f > 0 && (r == 0 || f < r) {
            r = f;
        }
        i = i + 1;
    }
    proof {
        assert(frets@.take(frets@.len() as int) =~= frets@);
    }
    r
}

/// The lowest displayed fret is the minimum of the positive fret values, and
/// `0` exactly when no string is fretted above `0`.
pub proof fn lemma_lowest_fret_is_min(frets: Seq<i32>)
    ensures
        0 <= spec_lowest_fret(frets),
        spec_lowest_fret(frets) == 0 <==> (forall|i: int| 0 <= i < frets.len() ==> frets[i] <= 0),
        spec_lowest_fret(frets) > 0 ==> exists|i: int|
            0 <= i < frets.len() && frets[i] == spec_lowest_fret(frets),
        forall|i: int|
            0 <= i < frets.len() && frets[i] > 0 ==> spec_lowest_fret(frets) <= #[trigger] frets[i],
    decreases frets.len(),
{
    if frets.len() > 0 {
        lemma_lowest_fret_is_min(frets.drop_last());
        assert(forall|i: int|
            0 <= i < frets.len() - 1 ==> #[trigger] frets[i] == frets.drop_last()[i]);
        let rest = spec_lowest_fret(frets.drop_last());
        if rest > 0 {
            let wi = choose|i: int| 0 <= i < frets.len() - 1 && frets.drop_last()[i] == rest;
            assert(frets[wi] == rest);
        }
        if spec_lowest_fret(frets) > 0 {
            if frets.last() > 0 && (rest == 0 || frets.last() < rest) {
                assert(frets[frets.len() - 1] == spec_lowest_fret(frets));
            }
        }
    }
}

/// Adding a fretted string to a chord that already has one never raises the
/// lowest displayed fret: it can only fall or stay equal.
pub proof fn lemma_lowest_fret_monotonic(frets: Seq<i32>, v: i32)
    requires
        spec_lowest_fret(frets) > 0,
    ensures
        spec_lowest_fret(frets.push(v)) <= spec_lowest_fret(frets),
{
    assert(frets.push(v).drop_last() =~= frets);
    assert(frets.push(v).last() == v);
}

/// Whether the thick rounded nut is drawn: the displayed window visually
/// includes the instrument's real nut exactly when an open string sits near
/// the top of the window or some string is fretted at absolute fret `1`.
pub open spec fn spec_show_nut(frets: Seq<i32>) -> bool {
    (frets.contains(0) && spec_lowest_fret(frets) < 3) || frets.contains(1)
}

/// Computes [`spec_show_nut`]; `lowest` must be the already-computed lowest
/// displayed fret.
pub fn show_nut(frets: &Vec<i32>, lowest: i32) -> (r: bool)
    requires
        lowest == spec_lowest_fret(frets@),
    ensures
        r == spec_show_nut(frets@),
{
    let mut has_open = false;
    let mut has_first = false;
    let mut i: usize = 0;
    while i < frets.len()
        invariant
            0 <= i <= frets@.len(),
            has_open == (exists|j: int| 0 <= j < i && frets@[j] == 0),
            has_first == (exists|j: int| 0 <= j < i && frets@[j] == 1),
        decreases frets@.len() - i,
    {
        let f = frets[i];
        if f == 0 {
            has_open = true;
        }
        if f == 1 {
            has_first = true;
        }
        proof {
            if f == 0 {
                assert(frets@[i as int] == 0);
            }
            if f == 1 {
                assert(frets@[i as int] == 1);
            }
        }
        i = i + 1;
    }
    (has_open && lowest < 3) || has_first
}

/// Physical position of logical string `i`: right-handed diagrams use the
/// index as-is, left-handed diagrams mirror the string order.
pub open spec fn spec_phys(hand: Hand, i: int) -> int {
    if hand == Hand::Right {
        i
    } else {
        STRING_COUNT as int - 1 - i
    }
}

/// Bounds-checked mapping from (handedness, logical index) to physical
/// string position.
pub fn physical_string(hand: Hand, i: usize) -> (p: usize)
    requires
        i < STRING_COUNT,
    ensures
        p == spec_phys(hand, i as int),
        p < STRING_COUNT,
{
    match hand {
        Hand::Right => i,
        Hand::Left => STRING_COUNT - 1 - i,
    }
}

} // verus!
