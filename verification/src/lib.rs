//! A horizontal or vertical rule ("divider") for terminal user interfaces.
//!
//! The library works out where a rule goes inside an area of the screen and
//! which symbols make it up; the drawing itself is done by the caller.

pub mod geometry;
pub mod laws;
pub mod rule;
pub mod segment;
pub mod symbols;

pub use geometry::{Margin, Padding, Rect};
pub use rule::{Bg, Coloring, Rule, RuleLayout};
pub use segment::create_segment;
pub use symbols::{Alignment, Orientation, SymbolSet, VerticalAlignment};
