//! The rule widget: its settings, the builder methods that change them, and
//! where and how it is laid out in an area.

use vstd::prelude::*;

use crate::geometry::{
    rect_bottom, rect_inner, rect_right, spec_bottom, spec_inner, spec_right, Margin, Padding,
    Rect,
};
use crate::segment::{create_segment, fits_in_memory, segment, segment_len};
use crate::symbols::{Alignment, Orientation, SymbolSet, VerticalAlignment, LIGHT_HORIZONTAL};

verus! {

/// `ratatui::style::Color`, a terminal colour: opaque here, the library only
/// stores it and hands it back.
#[verifier::external_type_specification]
#[verifier::external_body]
pub struct ExColor(ratatui::style::Color);

/// What is painted behind the rule's symbols. `G` is the type of a colour
/// gradient; the library keeps gradients without looking into them.
pub enum Bg<G> {
    /// No background.
    Plain,
    Solid(ratatui::style::Color),
    /// The same gradient as the symbols.
    Gradient,
    GradientCustom(G),
}

/// A horizontal or vertical rule, drawn with the symbols of a [`SymbolSet`].
///
/// It can be aligned vertically and horizontally, padded on every side,
/// coloured with a gradient `G`, and given extra repetitions of its two
/// repeated symbols.
pub struct Rule<G> {
    pub gradient: Option<G>,
    pub symbol_set: SymbolSet,
    pub orientation: Orientation,
    pub padding: Padding,
    pub vertical_alignment: VerticalAlignment,
    pub horizontal_alignment: Alignment,
    pub extra_rep_1: usize,
    pub extra_rep_2: usize,
    pub bg: Bg<G>,
    pub area_margin: Margin,
}

/// How the cells of a rule are coloured. With a gradient the symbols take its
/// colours, and the background is left alone, one solid colour, the same
/// gradient, or a gradient of its own. Without one the symbols keep their
/// colour, and the background is left alone, one solid colour, or a gradient
/// of its own.
#[derive(Debug)]
pub enum Coloring {
    Uncolored,
    SolidBackground(ratatui::style::Color),
    GradientBackground,
    Gradient,
    GradientOnSolid(ratatui::style::Color),
    GradientOnItself,
    GradientOnGradient,
}

/// The text of a rule and the area whose top-left cell it starts at: a
/// horizontal rule runs right from there, a vertical one down.
pub struct RuleLayout {
    pub area: Rect,
    pub text: String,
}

impl<G> Rule<G> {
    /// The rule `new` makes: `─────────────`, no gradient, no padding, no
    /// background, centered both ways, a margin of one cell all round.
    pub open spec fn spec_new() -> Rule<G> {
        Rule {
            gradient: None,
            symbol_set: SymbolSet {
                start: LIGHT_HORIZONTAL,
                end: LIGHT_HORIZONTAL,
                rep_1: LIGHT_HORIZONTAL,
                rep_2: LIGHT_HORIZONTAL,
                center: LIGHT_HORIZONTAL,
            },
            orientation: Orientation::Horizontal,
            padding: Padding { left: 0, right: 0, top: 0, bottom: 0 },
            vertical_alignment: VerticalAlignment::Center,
            horizontal_alignment: Alignment::Center,
            extra_rep_1: 0,
            extra_rep_2: 0,
            bg: Bg::Plain,
            area_margin: Margin { horizontal: 1, vertical: 1 },
        }
    }

    /// Generates a new rule that looks like `─────────────` with no gradient
    /// and no padding, centered horizontally and vertically.
    pub fn new() -> (r: Self)
        ensures
            r == Self::spec_new(),
    {
        Rule {
            gradient: None,
            symbol_set: SymbolSet {
                start: LIGHT_HORIZONTAL,
                end: LIGHT_HORIZONTAL,
                rep_1: LIGHT_HORIZONTAL,
                rep_2: LIGHT_HORIZONTAL,
                center: LIGHT_HORIZONTAL,
            },
            padding: Padding::new(0, 0, 0, 0),
            orientation: Orientation::Horizontal,
            horizontal_alignment: Alignment::Center,
            vertical_alignment: VerticalAlignment::Center,
            bg: Bg::Plain,
            area_margin: Margin::new(1, 1),
            extra_rep_1: 0,
            extra_rep_2: 0,
        }
    }

    pub fn area_margin(self, margin: Margin) -> (r: Self)
        ensures
            r == (Rule { area_margin: margin, ..self }),
    {
        let mut r = self;
        r.area_margin = margin;
        r
    }

    /// Makes the background a solid colour.
    pub fn bg_solid(self, c: ratatui::style::Color) -> (r: Self)
        ensures
            r == (Rule { bg: Bg::Solid(c), ..self }),
    {
        let mut r = self;
        r.bg = Bg::Solid(c);
        r
    }

    /// Makes the background use the same gradient as the symbols.
    pub fn bg_same_gradient(self) -> (r: Self)
        ensures
            r == (Rule { bg: Bg::Gradient, ..self }),
    {
        let mut r = self;
        r.bg = Bg::Gradient;
        r
    }

    pub fn extra_rep_1(self, rep: usize) -> (r: Self)
        ensures
            r == (Rule { extra_rep_1: rep, ..self }),
    {
        let mut r = self;
        r.extra_rep_1 = rep;
        r
    }

    pub fn extra_rep_2(self, rep: usize) -> (r: Self)
        ensures
            r == (Rule { extra_rep_2: rep, ..self }),
    {
        let mut r = self;
        r.extra_rep_2 = rep;
        r
    }

    pub fn extra_rep(self, rep_1: usize, rep_2: usize) -> (r: Self)
        ensures
            r == (Rule { extra_rep_1: rep_1, extra_rep_2: rep_2, ..self }),
    {
        let mut r = self;
        r.extra_rep_1 = rep_1;
        r.extra_rep_2 = rep_2;
        r
    }

    /// Makes the background a gradient of its own.
    pub fn bg_gradient(self, g: G) -> (r: Self)
        ensures
            r == (Rule { bg: Bg::GradientCustom(g), ..self }),
    {
        let mut r = self;
        r.bg = Bg::GradientCustom(g);
        r
    }

    pub fn bg(self, bg: Bg<G>) -> (r: Self)
        ensures
            r == (Rule { bg: bg, ..self }),
    {
        let mut r = self;
        r.bg = bg;
        r
    }

    /// Creates a new vertical rule.
    pub fn new_vertical() -> (r: Self)
        ensures
            r == (Rule { orientation: Orientation::Vertical, ..Self::spec_new() }),
    {
        Self::new().vertical()
    }

    /// Creates a new rule with the start, end, center and both repeated
    /// symbols of `set`.
    pub fn from_set(set: SymbolSet) -> (r: Self)
        ensures
            r == (Rule { symbol_set: set, ..Self::spec_new() }),
    {
        Self::new().with_set(set)
    }

    /// `new` and `with_gradient` combined.
    pub fn new_with_gradient(gradient: G) -> (r: Self)
        ensures
            r == (Rule { gradient: Some(gradient), ..Self::spec_new() }),
    {
        Self::new().with_gradient(gradient)
    }

    /// Sets the gradient the symbols are coloured with.
    pub fn with_gradient(self, gradient: G) -> (r: Self)
        ensures
            r == (Rule { gradient: Some(gradient), ..self }),
    {
        let mut r = self;
        r.gradient = Some(gradient);
        r
    }

    /// Sets the left and right padding.
    pub fn horizontal_padding(self, padding: u16) -> (r: Self)
        ensures
            r == (Rule { padding: Padding { left: padding, right: padding, ..self.padding }, ..self }),
    {
        let mut r = self;
        r.padding.right = padding;
        r.padding.left = padding;
        r
    }

    /// Sets the top and bottom padding.
    pub fn vertical_padding(self, padding: u16) -> (r: Self)
        ensures
            r == (Rule { padding: Padding { top: padding, bottom: padding, ..self.padding }, ..self }),
    {
        let mut r = self;
        r.padding.bottom = padding;
        r.padding.top = padding;
        r
    }

    pub fn right_padding(self, padding: u16) -> (r: Self)
        ensures
            r == (Rule { padding: Padding { right: padding, ..self.padding }, ..self }),
    {
        let mut r = self;
        r.padding.right = padding;
        r
    }

    pub fn left_padding(self, padding: u16) -> (r: Self)
        ensures
            r == (Rule { padding: Padding { left: padding, ..self.padding }, ..self }),
    {
        let mut r = self;
        r.padding.left = padding;
        r
    }

    pub fn top_padding(self, padding: u16) -> (r: Self)
        ensures
            r == (Rule { padding: Padding { top: padding, ..self.padding }, ..self }),
    {
        let mut r = self;
        r.padding.top = padding;
        r
    }

    pub fn bottom_padding(self, padding: u16) -> (r: Self)
        ensures
            r == (Rule { padding: Padding { bottom: padding, ..self.padding }, ..self }),
    {
        let mut r = self;
        r.padding.bottom = padding;
        r
    }

    /// Takes all five symbols from `set`.
    pub fn with_set(self, set: SymbolSet) -> (r: Self)
        ensures
            r == (Rule { symbol_set: set, ..self }),
    {
        let r = self.end(set.end).start(set.start).rep_2(set.rep_2).rep_1(set.rep_1).center(
            set.center,
        );
        r
    }

    /// Makes the rule horizontal (the default).
    pub fn horizontal(self) -> (r: Self)
        ensures
            r == (Rule { orientation: Orientation::Horizontal, ..self }),
    {
        let mut r = self;
        r.orientation = Orientation::Horizontal;
        r
    }

    /// Makes the rule vertical.
    pub fn vertical(self) -> (r: Self)
        ensures
            r == (Rule { orientation: Orientation::Vertical, ..self }),
    {
        let mut r = self;
        r.orientation = Orientation::Vertical;
        r
    }

    /// The repeated symbol on the right (or lower) side.
    pub fn rep_2(self, symb: char) -> (r: Self)
        ensures
            r == (Rule { symbol_set: SymbolSet { rep_2: symb, ..self.symbol_set }, ..self }),
    {
        let mut r = self;
        r.symbol_set.rep_2 = symb;
        r
    }

    /// The repeated symbol on the left (or upper) side.
    pub fn rep_1(self, symb: char) -> (r: Self)
        ensures
            r == (Rule { symbol_set: SymbolSet { rep_1: symb, ..self.symbol_set }, ..self }),
    {
        let mut r = self;
        r.symbol_set.rep_1 = symb;
        r
    }

    /// The first symbol.
    pub fn start(self, symb: char) -> (r: Self)
        ensures
            r == (Rule { symbol_set: SymbolSet { start: symb, ..self.symbol_set }, ..self }),
    {
        let mut r = self;
        r.symbol_set.start = symb;
        r
    }

    /// The last symbol.
    pub fn end(self, symb: char) -> (r: Self)
        ensures
            r == (Rule { symbol_set: SymbolSet { end: symb, ..self.symbol_set }, ..self }),
    {
        let mut r = self;
        r.symbol_set.end = symb;
        r
    }

    /// The center symbol.
    pub fn center(self, symb: char) -> (r: Self)
        ensures
            r == (Rule { symbol_set: SymbolSet { center: symb, ..self.symbol_set }, ..self }),
    {
        let mut r = self;
        r.symbol_set.center = symb;
        r
    }

    /// `rep_1` and `rep_2` in one.
    pub fn main_symbol(self, symb: char) -> (r: Self)
        ensures
            r == (Rule {
                symbol_set: SymbolSet { rep_1: symb, rep_2: symb, ..self.symbol_set },
                ..self
            }),
    {
        let r = self.rep_1(symb).rep_2(symb);
        r
    }

    pub fn padding(self, padding: Padding) -> (r: Self)
        ensures
            r == (Rule { padding: padding, ..self }),
    {
        let mut r = self;
        r.padding = padding;
        r
    }

    /// Sets the orientation; `horizontal` and `vertical` say the same more
    /// briefly.
    pub fn orientation(self, orientation: Orientation) -> (r: Self)
        ensures
            r == (Rule { orientation: orientation, ..self }),
    {
        let mut r = self;
        r.orientation = orientation;
        r
    }

    /// Sets the vertical alignment (centered by default).
    pub fn vertical_alignment(self, alignment: VerticalAlignment) -> (r: Self)
        ensures
            r == (Rule { vertical_alignment: alignment, ..self }),
    {
        let mut r = self;
        r.vertical_alignment = alignment;
        r
    }

    /// Sets the horizontal alignment (centered by default).
    pub fn horizontal_alignment(self, alignment: Alignment) -> (r: Self)
        ensures
            r == (Rule { horizontal_alignment: alignment, ..self }),
    {
        let mut r = self;
        r.horizontal_alignment = alignment;
        r
    }

    /// The padding before the symbols along the rule: top for a vertical rule,
    /// left for a horizontal one.
    pub open spec fn lead_padding(self) -> u16 {
        match self.orientation {
            Orientation::Vertical => self.padding.top,
            Orientation::Horizontal => self.padding.left,
        }
    }

    /// The padding after the symbols along the rule: bottom for a vertical
    /// rule, right for a horizontal one.
    pub open spec fn trail_padding(self) -> u16 {
        match self.orientation {
            Orientation::Vertical => self.padding.bottom,
            Orientation::Horizontal => self.padding.right,
        }
    }

    /// `area` moved across the rule's direction by the alignment, the
    /// paddings across it and the first extra repetition count (taken modulo
    /// 2^16): the row of a horizontal rule, the column of a vertical one.
    /// Top and left keep the area's first cell, center starts one cell before
    /// its middle cell and bottom and right one cell and two margins before
    /// its end, so that once the margin is taken off the rule sits on the
    /// first, middle or last line inside the margin.
    pub open spec fn spec_placed(self, area: Rect) -> Rect {
        let shift = self.extra_rep_1 as u16;
        let pad = self.padding;
        match self.orientation {
            Orientation::Horizontal => Rect {
                y: (match self.vertical_alignment {
                    VerticalAlignment::Top => area.y.saturating_sub(pad.bottom).saturating_add(
                        pad.top,
                    ),
                    VerticalAlignment::Center => area.y.saturating_add(area.height / 2).saturating_sub(
                        (1 + pad.bottom) as u16,
                    ).saturating_add(pad.top),
                    VerticalAlignment::Bottom => spec_bottom(area).saturating_sub(
                        (1 + pad.bottom + 2 * self.area_margin.vertical) as u16,
                    ).saturating_add(pad.top),
                }).saturating_sub(shift),
                ..area
            },
            Orientation::Vertical => Rect {
                x: (match self.horizontal_alignment {
                    Alignment::Left => area.x.saturating_sub(pad.right).saturating_add(pad.left),
                    Alignment::Center => area.x.saturating_add(area.width / 2).saturating_sub(
                        (1 + pad.right) as u16,
                    ).saturating_add(pad.left),
                    Alignment::Right => spec_right(area).saturating_sub(
                        (1 + pad.right + 2 * self.area_margin.horizontal) as u16,
                    ),
                }).saturating_sub(shift),
                ..area
            },
        }
    }

    /// The area the rule is drawn in: the placed area less the margin.
    pub open spec fn spec_area(self, area: Rect) -> Rect {
        spec_inner(self.spec_placed(area), self.area_margin)
    }

    /// The number of cells along the rule: the width of its area for a
    /// horizontal rule, the height for a vertical one.
    pub open spec fn extent(self, area: Rect) -> u16 {
        match self.orientation {
            Orientation::Horizontal => self.spec_area(area).width,
            Orientation::Vertical => self.spec_area(area).height,
        }
    }

    /// The text of the rule laid out in `area`.
    pub open spec fn spec_text(self, area: Rect) -> Seq<char> {
        segment(
            self.symbol_set,
            self.lead_padding() as usize,
            self.trail_padding() as usize,
            self.extent(area),
            self.orientation,
            self.horizontal_alignment,
            self.vertical_alignment,
            self.extra_rep_1,
            self.extra_rep_2,
        )
    }

    /// How the rule's cells are coloured.
    pub open spec fn spec_coloring(self) -> Coloring {
        match self.gradient {
            None => match self.bg {
                Bg::Plain => Coloring::Uncolored,
                Bg::Solid(c) => Coloring::SolidBackground(c),
                Bg::Gradient => Coloring::Uncolored,
                Bg::GradientCustom(_) => Coloring::GradientBackground,
            },
            Some(_) => match self.bg {
                Bg::Plain => Coloring::Gradient,
                Bg::Solid(c) => Coloring::GradientOnSolid(c),
                Bg::Gradient => Coloring::GradientOnItself,
                Bg::GradientCustom(_) => Coloring::GradientOnGradient,
            },
        }
    }

    /// How the rule's cells are coloured. "The same gradient" as background
    /// needs a gradient on the symbols; without one it leaves the background
    /// alone.
    pub fn coloring(&self) -> (c: Coloring)
        ensures
            c == self.spec_coloring(),
    {
        match &self.gradient {
            None => match &self.bg {
                Bg::Plain => Coloring::Uncolored,
                Bg::Solid(c) => Coloring::SolidBackground(*c),
                Bg::Gradient => Coloring::Uncolored,
                Bg::GradientCustom(_) => Coloring::GradientBackground,
            },
            Some(_) => match &self.bg {
                Bg::Plain => Coloring::Gradient,
                Bg::Solid(c) => Coloring::GradientOnSolid(*c),
                Bg::Gradient => Coloring::GradientOnItself,
                Bg::GradientCustom(_) => Coloring::GradientOnGradient,
            },
        }
    }

    /// The cell arithmetic of the chosen alignment stays within `u16`.
    pub open spec fn placement_in_range(self) -> bool {
        match self.orientation {
            Orientation::Horizontal => match self.vertical_alignment {
                VerticalAlignment::Top => true,
                VerticalAlignment::Center => self.padding.bottom < u16::MAX,
                VerticalAlignment::Bottom => 1 + self.padding.bottom + 2
                    * self.area_margin.vertical <= u16::MAX,
            },
            Orientation::Vertical => match self.horizontal_alignment {
                Alignment::Left => true,
                Alignment::Center => self.padding.right < u16::MAX,
                Alignment::Right => 1 + self.padding.right + 2 * self.area_margin.horizontal
                    <= u16::MAX,
            },
        }
    }

    /// Whether [`Rule::placement_in_range`] holds.
    fn check_placement(&self) -> (b: bool)
        ensures
            b == self.placement_in_range(),
    {
        match self.orientation {
            Orientation::Horizontal => match self.vertical_alignment {
                VerticalAlignment::Top => true,
                VerticalAlignment::Center => self.padding.bottom < u16::MAX,
                VerticalAlignment::Bottom => 1 + (self.padding.bottom as u32) + 2 * (
                self.area_margin.vertical as u32) <= u16::MAX as u32,
            },
            Orientation::Vertical => match self.horizontal_alignment {
                Alignment::Left => true,
                Alignment::Center => self.padding.right < u16::MAX,
                Alignment::Right => 1 + (self.padding.right as u32) + 2 * (
                self.area_margin.horizontal as u32) <= u16::MAX as u32,
            },
        }
    }

    /// The rule can be laid out in `area`: its placement stays within `u16`
    /// and its text fits in memory.
    pub open spec fn can_lay_out(self, area: Rect) -> bool {
        &&& self.placement_in_range()
        &&& fits_in_memory(self.spec_text(area).len() as int)
    }

    /// The area the rule is drawn in: `area` moved across the rule by its
    /// alignment, padding and first extra repetition count, less the margin.
    pub fn render_area(&self, area: Rect) -> (r: Rect)
        requires
            self.placement_in_range(),
        ensures
            r == self.spec_area(area),
    {
        let p_l = self.padding.left;
        let p_r = self.padding.right;
        let p_t = self.padding.top;
        let p_b = self.padding.bottom;
        let shift = self.extra_rep_1 as u16;
        let mut placed = area;
        match self.orientation {
            Orientation::Horizontal => {
                let y = match self.vertical_alignment {
                    VerticalAlignment::Top => area.y.saturating_sub(p_b).saturating_add(p_t),
                    VerticalAlignment::Center => area.y.saturating_add(area.height / 2).saturating_sub(
                        1 + p_b,
                    ).saturating_add(p_t),
                    VerticalAlignment::Bottom => rect_bottom(area).saturating_sub(
                        1 + p_b + self.area_margin.vertical * 2,
                    ).saturating_add(p_t),
                };
                placed.y = y.saturating_sub(shift);
            },
            Orientation::Vertical => {
                let x = match self.horizontal_alignment {
                    Alignment::Left => area.x.saturating_sub(p_r).saturating_add(p_l),
                    Alignment::Center => area.x.saturating_add(area.width / 2).saturating_sub(
                        1 + p_r,
                    ).saturating_add(p_l),
                    Alignment::Right => rect_right(area).saturating_sub(
                        1 + p_r + self.area_margin.horizontal * 2,
                    ),
                };
                placed.x = x.saturating_sub(shift);
            },
        }
        assert(placed == self.spec_placed(area));
        rect_inner(placed, self.area_margin)
    }

    /// Lays the rule out in `area`: where it starts and what it reads.
    pub fn layout(&self, area: Rect) -> (l: RuleLayout)
        requires
            self.can_lay_out(area),
        ensures
            l.area == self.spec_area(area),
            l.text@ == self.spec_text(area),
    {
        let inner = self.render_area(area);
        let (p_1, p_2, extent) = match self.orientation {
            Orientation::Vertical => (self.padding.top, self.padding.bottom, inner.height),
            Orientation::Horizontal => (self.padding.left, self.padding.right, inner.width),
        };
        let text = create_segment(
            &self.symbol_set,
            p_1 as usize,
            p_2 as usize,
            extent,
            self.orientation,
            self.horizontal_alignment,
            self.vertical_alignment,
            self.extra_rep_1,
            self.extra_rep_2,
        );
        RuleLayout { area: inner, text }
    }

    /// Lays the rule out in `area` when it can be, and says `None` when its
    /// placement would leave `u16` or its text would not fit in memory.
    pub fn try_layout(&self, area: Rect) -> (l: Option<RuleLayout>)
        ensures
            l is Some <==> self.can_lay_out(area),
            l matches Some(x) ==> x.area == self.spec_area(area) && x.text@ == self.spec_text(
                area,
            ),
    {
        let in_range = self.check_placement();
        if !in_range {
            return None;
        }
        let inner = self.render_area(area);
        let (p_1, p_2, extent) = match self.orientation {
            Orientation::Vertical => (self.padding.top, self.padding.bottom, inner.height),
            Orientation::Horizontal => (self.padding.left, self.padding.right, inner.width),
        };
        let len = segment_len(
            &self.symbol_set,
            p_1 as usize,
            p_2 as usize,
            extent,
            self.orientation,
            self.horizontal_alignment,
            self.vertical_alignment,
            self.extra_rep_1,
            self.extra_rep_2,
        );
        match len {
            Some(n) => {
                if n <= (isize::MAX as usize) / 4 {
                    Some(self.layout(area))
                } else {
                    None
                }
            },
            None => None,
        }
    }
}

impl<G> Default for Rule<G> {
    fn default() -> (r: Self)
        ensures
            r == Self::spec_new(),
    {
        Self::new()
    }
}

} // verus!
