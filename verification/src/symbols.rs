//! The symbols a rule is drawn with, and the ways it can be laid out.

use vstd::prelude::*;

verus! {

/// The five symbols of a rule, in the order they are drawn:
/// `start`, `rep_1` repeated, `center`, `rep_2` repeated, `end`.
///
/// With `start = '+'`, `rep_1 = rep_2 = '─'`, `center = '+'`, `end = '+'`
/// the rule reads `+───+───+`.
#[derive(Clone, Copy, Debug, PartialEq, Eq, Structural, Hash)]
pub struct SymbolSet {
    pub start: char,
    pub end: char,
    pub rep_1: char,
    pub rep_2: char,
    pub center: char,
}

/// Whether the rule runs across (horizontal) or down (vertical).
#[derive(Clone, Copy, Debug, PartialEq, Eq, Structural, Hash)]
pub enum Orientation {
    Vertical,
    Horizontal,
}

/// Vertical counterpart of [`Alignment`].
#[derive(Clone, Copy, Debug, PartialEq, Eq, Structural, Hash)]
pub enum VerticalAlignment {
    Top,
    Center,
    Bottom,
}

/// Horizontal alignment.
#[derive(Clone, Copy, Debug, PartialEq, Eq, Structural, Hash)]
pub enum Alignment {
    Left,
    Center,
    Right,
}

/// The light horizontal line `─` (U+2500).
pub const LIGHT_HORIZONTAL: char = '\u{2500}';

} // verus!
