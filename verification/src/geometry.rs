//! Rectangles, margins and paddings measured in terminal cells.

use vstd::prelude::*;

verus! {

/// A rectangle of terminal cells: its top-left corner and its size.
#[derive(Clone, Copy, Debug, PartialEq, Eq, Structural, Hash)]
pub struct Rect {
    pub x: u16,
    pub y: u16,
    pub width: u16,
    pub height: u16,
}

/// Space kept free on each side of an area: `horizontal` cells left and right,
/// `vertical` cells above and below.
#[derive(Clone, Copy, Debug, PartialEq, Eq, Structural, Hash)]
pub struct Margin {
    pub horizontal: u16,
    pub vertical: u16,
}

/// Padding on each of the four sides, in cells.
#[derive(Clone, Copy, Debug, PartialEq, Eq, Structural, Hash)]
pub struct Padding {
    pub left: u16,
    pub right: u16,
    pub top: u16,
    pub bottom: u16,
}

impl Margin {
    pub fn new(horizontal: u16, vertical: u16) -> (m: Margin)
        ensures
            m == (Margin { horizontal, vertical }),
    {
        Margin { horizontal, vertical }
    }
}

impl Padding {
    pub fn new(left: u16, right: u16, top: u16, bottom: u16) -> (p: Padding)
        ensures
            p == (Padding { left, right, top, bottom }),
    {
        Padding { left, right, top, bottom }
    }
}

/// The first row below the rectangle, held at `u16::MAX`.
pub open spec fn spec_bottom(r: Rect) -> u16 {
    r.y.saturating_add(r.height)
}

/// The first column right of the rectangle, held at `u16::MAX`.
pub open spec fn spec_right(r: Rect) -> u16 {
    r.x.saturating_add(r.width)
}

/// Twice `n`, saturating at `u16::MAX`.
pub open spec fn doubled(n: u16) -> u16 {
    if 2 * n > u16::MAX { u16::MAX } else { (2 * n) as u16 }
}

/// The rectangle shrunk by `m` on every side; the empty rectangle at the
/// origin when the margin does not fit.
pub open spec fn spec_inner(r: Rect, m: Margin) -> Rect {
    let dh = doubled(m.horizontal);
    let dv = doubled(m.vertical);
    if r.width < dh || r.height < dv {
        Rect { x: 0, y: 0, width: 0, height: 0 }
    } else {
        Rect {
            x: r.x.saturating_add(m.horizontal),
            y: r.y.saturating_add(m.vertical),
            width: r.width.saturating_sub(dh),
            height: r.height.saturating_sub(dv),
        }
    }
}

/// `ratatui::layout::Rect::bottom`: `y + height`, saturating at `u16::MAX`.
#[verifier::external_body]
pub(crate) fn rect_bottom(r: Rect) -> (b: u16)
    ensures
        b == spec_bottom(r),
{
    ratatui::layout::Rect { x: r.x, y: r.y, width: r.width, height: r.height }.bottom()
}

/// `ratatui::layout::Rect::right`: `x + width`, saturating at `u16::MAX`.
#[verifier::external_body]
pub(crate) fn rect_right(r: Rect) -> (b: u16)
    ensures
        b == spec_right(r),
{
    ratatui::layout::Rect { x: r.x, y: r.y, width: r.width, height: r.height }.right()
}

/// `ratatui::layout::Rect::inner`: doubles each margin (saturating); if the
/// rectangle is narrower or lower than that, gives the zero rectangle, else
/// moves the corner in by the margin and shrinks the size by the doubled margin.
#[verifier::external_body]
pub(crate) fn rect_inner(r: Rect, m: Margin) -> (i: Rect)
    ensures
        i == spec_inner(r, m),
{
    let rect = ratatui::layout::Rect { x: r.x, y: r.y, width: r.width, height: r.height };
    let out = rect.inner(ratatui::layout::Margin { horizontal: m.horizontal, vertical: m.vertical });
    Rect { x: out.x, y: out.y, width: out.width, height: out.height }
}

} // verus!
