//! Renders fretted-instrument chord diagrams as SVG documents.
//!
//! A [`types::Chord`] describes which fret each string is pressed at, an
//! optional barre, a title and a colour theme; the geometry engine decides
//! where every visual element goes (nut style, floating-position marker,
//! barre bar, open/muted symbols) and hands the computed fragments to a
//! template renderer that substitutes them into a fixed SVG skeleton.

pub mod geometry;
pub mod laws;
pub mod render;
pub mod svg;
pub mod text;
pub mod tpl;
pub mod types;
pub mod utils;

pub use types::Chord;
