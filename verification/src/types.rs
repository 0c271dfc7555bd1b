use vstd::prelude::*;

verus! {

/// Colour theme selector for a diagram.
#[derive(Clone, Copy, PartialEq, Eq, Structural, Debug)]
pub enum Mode {
    Light,
    Dark,
}

/// Playing orientation: a left-handed diagram mirrors the string order.
#[derive(Clone, Copy, PartialEq, Eq, Structural, Debug)]
pub enum Hand {
    Left,
    Right,
}

/// Number of strings on the instrument; `frets` must have exactly this length.
pub const STRING_COUNT: usize = 6;

/// A chord to be drawn. Immutable once constructed: every render is a pure
/// function of this value.
///
/// `frets` holds one value per string, in physical string order:
/// `-1` = muted, `0` = open, `n > 0` = pressed at absolute fret `n`.
///
/// `barres` models a list of barre frets, but only the first entry is ever
/// drawn; an empty list is rejected as invalid input rather than silently
/// ignored.
pub struct Chord {
    pub frets: Vec<i32>,
    pub title: Option<String>,
    pub suffix: Option<String>,
    pub mode: Mode,
    pub barres: Option<Vec<i32>>,
    pub use_background: bool,
    pub hand: Hand,
}

impl Default for Chord {
    /// An empty right-handed light-theme chord with no strings assigned.
    fn default() -> (c: Chord)
        ensures
            c.frets@ == Seq::<i32>::empty(),
            c.title is None,
            c.suffix is None,
            c.mode == Mode::Light,
            c.barres is None,
            c.use_background == false,
            c.hand == Hand::Right,
    {
        Chord {
            frets: Vec::new(),
            title: None,
            suffix: None,
            mode: Mode::Light,
            barres: None,
            use_background: false,
            hand: Hand::Right,
        }
    }
}

} // verus!
