//! What holds of every rule: how long its text is, where its center symbol
//! falls, and which row or column of an area it is placed on.

use vstd::prelude::*;

use crate::geometry::Rect;
use crate::rule::{Bg, Coloring, Rule};
use crate::segment::{
    body, leading, left_arm, left_base, repeated, right_arm, right_base, segment, trailing,
};
use crate::symbols::{Alignment, Orientation, SymbolSet, VerticalAlignment};

verus! {

/// The rule is centered along its own direction.
pub open spec fn centered_along(
    orientation: Orientation,
    h_alignment: Alignment,
    v_alignment: VerticalAlignment,
) -> bool {
    match orientation {
        Orientation::Horizontal => h_alignment == Alignment::Center,
        Orientation::Vertical => v_alignment == VerticalAlignment::Center,
    }
}

/// Alignment only moves the symbols: whatever the alignment, the spaces before
/// and after them add up to the two paddings, and the text is the paddings,
/// the five fixed symbols and the two arms long.
pub proof fn lemma_alignment_moves_symbols_only(
    set: SymbolSet,
    p_1: usize,
    p_2: usize,
    extent: u16,
    orientation: Orientation,
    h_alignment: Alignment,
    v_alignment: VerticalAlignment,
    extra_rep_1: usize,
    extra_rep_2: usize,
)
    requires
        p_1 + p_2 <= usize::MAX,
    ensures
        leading(orientation, h_alignment, v_alignment, p_1, p_2) + trailing(
            orientation,
            h_alignment,
            v_alignment,
            p_1,
            p_2,
        ) == p_1 + p_2,
        segment(
            set,
            p_1,
            p_2,
            extent,
            orientation,
            h_alignment,
            v_alignment,
            extra_rep_1,
            extra_rep_2,
        ).len() == p_1 + p_2 + 3 + left_arm(extent, p_1, extra_rep_1) + right_arm(
            extent,
            p_2,
            extra_rep_2,
        ),
        segment(
            set,
            p_1,
            p_2,
            extent,
            orientation,
            h_alignment,
            v_alignment,
            extra_rep_1,
            extra_rep_2,
        ).subrange(
            leading(orientation, h_alignment, v_alignment, p_1, p_2) as int,
            leading(orientation, h_alignment, v_alignment, p_1, p_2) + 3 + left_arm(
                extent,
                p_1,
                extra_rep_1,
            ) + right_arm(extent, p_2, extra_rep_2),
        ) == body(
            set,
            left_arm(extent, p_1, extra_rep_1) as nat,
            right_arm(extent, p_2, extra_rep_2) as nat,
        ),
{
    let lead = leading(orientation, h_alignment, v_alignment, p_1, p_2);
    let b = body(
        set,
        left_arm(extent, p_1, extra_rep_1) as nat,
        right_arm(extent, p_2, extra_rep_2) as nat,
    );
    let s = segment(
        set,
        p_1,
        p_2,
        extent,
        orientation,
        h_alignment,
        v_alignment,
        extra_rep_1,
        extra_rep_2,
    );
    assert(s.subrange(lead as int, lead + b.len()) =~= b);
}

/// Without extra repetitions, and with paddings that leave both arms some
/// room, the rule's text is exactly as long as the extent it is laid out over:
/// it spans the area from edge to edge.
pub proof fn lemma_text_spans_extent(
    set: SymbolSet,
    p_1: usize,
    p_2: usize,
    extent: u16,
    orientation: Orientation,
    h_alignment: Alignment,
    v_alignment: VerticalAlignment,
)
    requires
        p_1 + 1 <= extent / 2,
        p_2 + 2 <= (extent + 1) / 2,
    ensures
        segment(set, p_1, p_2, extent, orientation, h_alignment, v_alignment, 0, 0).len()
            == extent,
{
    lemma_alignment_moves_symbols_only(
        set,
        p_1,
        p_2,
        extent,
        orientation,
        h_alignment,
        v_alignment,
        0,
        0,
    );
    assert(left_arm(extent, p_1, 0) == left_base(extent) - p_1);
    assert(right_arm(extent, p_2, 0) == right_base(extent) - p_2 - 1);
}

/// A rule centered along its direction, without extra repetitions of its
/// first symbol, has its center symbol in the middle cell of its extent
/// whenever the first padding leaves the left arm some room.
pub proof fn lemma_center_symbol_in_middle(
    set: SymbolSet,
    p_1: usize,
    p_2: usize,
    extent: u16,
    orientation: Orientation,
    h_alignment: Alignment,
    v_alignment: VerticalAlignment,
    extra_rep_2: usize,
)
    requires
        centered_along(orientation, h_alignment, v_alignment),
        p_1 + 1 <= extent / 2,
        p_2 < usize::MAX,
    ensures
        segment(set, p_1, p_2, extent, orientation, h_alignment, v_alignment, 0, extra_rep_2)[(extent
            / 2) as int] == set.center,
{
    let s = segment(set, p_1, p_2, extent, orientation, h_alignment, v_alignment, 0, extra_rep_2);
    let left = left_arm(extent, p_1, 0);
    let right = right_arm(extent, p_2, extra_rep_2);
    assert(leading(orientation, h_alignment, v_alignment, p_1, p_2) == p_1);
    assert(left == extent / 2 - 1 - p_1);
    let pre = repeated(' ', p_1 as nat) + seq![set.start] + repeated(set.rep_1, left as nat);
    let rest = seq![set.center] + repeated(set.rep_2, right as nat) + seq![set.end] + repeated(
        ' ',
        trailing(orientation, h_alignment, v_alignment, p_1, p_2) as nat,
    );
    assert(s =~= pre + rest);
    assert(pre.len() == extent / 2);
    assert(rest[0] == set.center);
}

/// Centered, with equal paddings, no extra repetitions and an odd extent, the
/// rule is symmetric: both arms are as long, and as many spaces stand before
/// it as after it.
pub proof fn lemma_centered_odd_extent_is_symmetric(
    p: usize,
    extent: u16,
    orientation: Orientation,
    h_alignment: Alignment,
    v_alignment: VerticalAlignment,
)
    requires
        centered_along(orientation, h_alignment, v_alignment),
        extent % 2 == 1,
        p + 1 <= extent / 2,
    ensures
        left_arm(extent, p, 0) == right_arm(extent, p, 0),
        leading(orientation, h_alignment, v_alignment, p, p) == trailing(
            orientation,
            h_alignment,
            v_alignment,
            p,
            p,
        ),
{
}

/// Top alignment (horizontal rule) with no padding across the rule and no
/// extra repetitions puts the rule on the first row inside the margin.
pub proof fn lemma_top_row<G>(rule: Rule<G>, area: Rect)
    requires
        rule.orientation == Orientation::Horizontal,
        rule.vertical_alignment == VerticalAlignment::Top,
        rule.padding.top == 0,
        rule.padding.bottom == 0,
        rule.extra_rep_1 == 0,
        area.width >= 2 * rule.area_margin.horizontal,
        area.height >= 2 * rule.area_margin.vertical,
        area.y + rule.area_margin.vertical <= u16::MAX,
    ensures
        rule.spec_area(area).y == area.y + rule.area_margin.vertical,
{
}

/// Bottom alignment (horizontal rule) with no padding across the rule and no
/// extra repetitions puts the rule on the last row inside the margin.
pub proof fn lemma_bottom_row<G>(rule: Rule<G>, area: Rect)
    requires
        rule.orientation == Orientation::Horizontal,
        rule.vertical_alignment == VerticalAlignment::Bottom,
        rule.padding.top == 0,
        rule.padding.bottom == 0,
        rule.extra_rep_1 == 0,
        area.width >= 2 * rule.area_margin.horizontal,
        area.height >= 1 + 2 * rule.area_margin.vertical,
        area.y + area.height <= u16::MAX,
    ensures
        rule.spec_area(area).y == area.y + area.height - 1 - rule.area_margin.vertical,
{
}

/// The default vertical centering (horizontal rule, one cell of margin, no
/// padding across the rule, no extra repetitions) puts the rule on the middle
/// row of the area, wherever the area is.
pub proof fn lemma_middle_row<G>(rule: Rule<G>, area: Rect)
    requires
        rule.orientation == Orientation::Horizontal,
        rule.vertical_alignment == VerticalAlignment::Center,
        rule.padding.top == 0,
        rule.padding.bottom == 0,
        rule.extra_rep_1 == 0,
        rule.area_margin.vertical == 1,
        area.width >= 2 * rule.area_margin.horizontal,
        area.height >= 2,
        area.y + area.height <= u16::MAX,
    ensures
        rule.spec_area(area).y == area.y + area.height / 2,
{
}

/// Left alignment (vertical rule) with no padding across the rule and no
/// extra repetitions puts the rule in the first column inside the margin.
pub proof fn lemma_left_column<G>(rule: Rule<G>, area: Rect)
    requires
        rule.orientation == Orientation::Vertical,
        rule.horizontal_alignment == Alignment::Left,
        rule.padding.left == 0,
        rule.padding.right == 0,
        rule.extra_rep_1 == 0,
        area.width >= 2 * rule.area_margin.horizontal,
        area.height >= 2 * rule.area_margin.vertical,
        area.x + rule.area_margin.horizontal <= u16::MAX,
    ensures
        rule.spec_area(area).x == area.x + rule.area_margin.horizontal,
{
}

/// Right alignment (vertical rule) with no right padding and no extra
/// repetitions puts the rule in the last column inside the margin.
pub proof fn lemma_right_column<G>(rule: Rule<G>, area: Rect)
    requires
        rule.orientation == Orientation::Vertical,
        rule.horizontal_alignment == Alignment::Right,
        rule.padding.right == 0,
        rule.extra_rep_1 == 0,
        area.width >= 1 + 2 * rule.area_margin.horizontal,
        area.height >= 2 * rule.area_margin.vertical,
        area.x + area.width <= u16::MAX,
    ensures
        rule.spec_area(area).x == area.x + area.width - 1 - rule.area_margin.horizontal,
{
}

/// The default horizontal centering (vertical rule, one cell of margin, no
/// padding across the rule, no extra repetitions) puts the rule in the middle
/// column of the area, wherever the area is.
pub proof fn lemma_middle_column<G>(rule: Rule<G>, area: Rect)
    requires
        rule.orientation == Orientation::Vertical,
        rule.horizontal_alignment == Alignment::Center,
        rule.padding.left == 0,
        rule.padding.right == 0,
        rule.extra_rep_1 == 0,
        rule.area_margin.horizontal == 1,
        area.height >= 2 * rule.area_margin.vertical,
        area.width >= 2,
        area.x + area.width <= u16::MAX,
    ensures
        rule.spec_area(area).x == area.x + area.width / 2,
{
}

/// A rule without extra repetitions whose paddings along it leave both arms
/// some room spans its area from edge to edge: its text is as long as the
/// area is wide (horizontal) or high (vertical).
pub proof fn lemma_rule_spans_area<G>(rule: Rule<G>, area: Rect)
    requires
        rule.extra_rep_1 == 0,
        rule.extra_rep_2 == 0,
        rule.lead_padding() + 1 <= rule.extent(area) / 2,
        rule.trail_padding() + 2 <= (rule.extent(area) + 1) / 2,
    ensures
        rule.spec_text(area).len() == rule.extent(area),
{
    lemma_text_spans_extent(
        rule.symbol_set,
        rule.lead_padding() as usize,
        rule.trail_padding() as usize,
        rule.extent(area),
        rule.orientation,
        rule.horizontal_alignment,
        rule.vertical_alignment,
    );
}

/// The cell the `i`-th symbol of the rule laid out in `area` is drawn in: to
/// the right of the start of its area for a horizontal rule, below it for a
/// vertical one.
pub open spec fn cell<G>(rule: Rule<G>, area: Rect, i: int) -> (int, int) {
    let a = rule.spec_area(area);
    match rule.orientation {
        Orientation::Horizontal => (a.x + i, a.y as int),
        Orientation::Vertical => (a.x as int, a.y + i),
    }
}

/// The cell `c` lies inside `area`.
pub open spec fn inside(area: Rect, c: (int, int)) -> bool {
    &&& area.x <= c.0 < area.x + area.width
    &&& area.y <= c.1 < area.y + area.height
}

/// A rule without extra repetitions or padding across it, whose paddings
/// along it leave both arms some room, is drawn entirely inside its area,
/// whatever its alignment, as long as the area leaves room for the margin
/// and two lines across the rule.
pub proof fn lemma_rule_stays_in_area<G>(rule: Rule<G>, area: Rect)
    requires
        rule.extra_rep_1 == 0,
        rule.extra_rep_2 == 0,
        rule.orientation == Orientation::Horizontal ==> rule.padding.top == 0
            && rule.padding.bottom == 0,
        rule.orientation == Orientation::Vertical ==> rule.padding.left == 0
            && rule.padding.right == 0,
        rule.lead_padding() + 1 <= rule.extent(area) / 2,
        rule.trail_padding() + 2 <= (rule.extent(area) + 1) / 2,
        area.x + area.width <= u16::MAX,
        area.y + area.height <= u16::MAX,
        area.width >= 2 * rule.area_margin.horizontal + 2,
        area.height >= 2 * rule.area_margin.vertical + 2,
    ensures
        forall|i: int| 0 <= i < rule.spec_text(area).len() ==> inside(area, #[trigger] cell(rule, area, i)),
{
    lemma_rule_spans_area(rule, area);
}

/// Where a horizontal rule goes, in plain arithmetic: it keeps its area's
/// columns less the margin, and its row is counted from the area's first row
/// (top), one row before its middle row (center) or one row and two margins
/// before its end (bottom), then moved up by the bottom padding, down by the
/// top padding, up by the first extra repetition count and down by the
/// margin. Each cell of top padding moves the rule one row down, each cell of
/// bottom padding one row up.
pub proof fn lemma_horizontal_rule_row<G>(rule: Rule<G>, area: Rect)
    requires
        rule.orientation == Orientation::Horizontal,
        rule.extra_rep_1 <= u16::MAX,
        area.width >= 2 * rule.area_margin.horizontal,
        area.height >= 2 * rule.area_margin.vertical,
        area.x + rule.area_margin.horizontal <= u16::MAX,
        area.y + area.height <= u16::MAX,
        ({
            let from = match rule.vertical_alignment {
                VerticalAlignment::Top => area.y as int,
                VerticalAlignment::Center => area.y + area.height / 2 - 1,
                VerticalAlignment::Bottom => area.y + area.height - 1 - 2
                    * rule.area_margin.vertical,
            };
            &&& from - rule.padding.bottom >= 0
            &&& from - rule.padding.bottom + rule.padding.top <= u16::MAX
            &&& from - rule.padding.bottom + rule.padding.top - rule.extra_rep_1 >= 0
            &&& from - rule.padding.bottom + rule.padding.top - rule.extra_rep_1
                + rule.area_margin.vertical <= u16::MAX
        }),
    ensures
        ({
            let from = match rule.vertical_alignment {
                VerticalAlignment::Top => area.y as int,
                VerticalAlignment::Center => area.y + area.height / 2 - 1,
                VerticalAlignment::Bottom => area.y + area.height - 1 - 2
                    * rule.area_margin.vertical,
            };
            let a = rule.spec_area(area);
            &&& a.y == from - rule.padding.bottom + rule.padding.top - rule.extra_rep_1
                + rule.area_margin.vertical
            &&& a.x == area.x + rule.area_margin.horizontal
            &&& a.width == area.width - 2 * rule.area_margin.horizontal
            &&& a.height == area.height - 2 * rule.area_margin.vertical
        }),
{
}

/// Where a vertical rule goes, in plain arithmetic: it keeps its area's rows
/// less the margin, and its column is counted from the area's first column
/// (left), one column before its middle column (center) or one column and two
/// margins before its end (right), then moved left by the right padding,
/// right by the left padding (except when right-aligned), left by the first
/// extra repetition count and right by the margin. Each cell of left padding
/// moves a left-aligned or centered rule one column right.
pub proof fn lemma_vertical_rule_column<G>(rule: Rule<G>, area: Rect)
    requires
        rule.orientation == Orientation::Vertical,
        rule.extra_rep_1 <= u16::MAX,
        area.width >= 2 * rule.area_margin.horizontal,
        area.height >= 2 * rule.area_margin.vertical,
        area.y + rule.area_margin.vertical <= u16::MAX,
        area.x + area.width <= u16::MAX,
        ({
            let from = match rule.horizontal_alignment {
                Alignment::Left => area.x as int,
                Alignment::Center => area.x + area.width / 2 - 1,
                Alignment::Right => area.x + area.width - 1 - 2 * rule.area_margin.horizontal,
            };
            let left = if rule.horizontal_alignment == Alignment::Right {
                0
            } else {
                rule.padding.left as int
            };
            &&& from - rule.padding.right >= 0
            &&& from - rule.padding.right + left <= u16::MAX
            &&& from - rule.padding.right + left - rule.extra_rep_1 >= 0
            &&& from - rule.padding.right + left - rule.extra_rep_1
                + rule.area_margin.horizontal <= u16::MAX
        }),
    ensures
        ({
            let from = match rule.horizontal_alignment {
                Alignment::Left => area.x as int,
                Alignment::Center => area.x + area.width / 2 - 1,
                Alignment::Right => area.x + area.width - 1 - 2 * rule.area_margin.horizontal,
            };
            let left = if rule.horizontal_alignment == Alignment::Right {
                0
            } else {
                rule.padding.left as int
            };
            let a = rule.spec_area(area);
            &&& a.x == from - rule.padding.right + left - rule.extra_rep_1
                + rule.area_margin.horizontal
            &&& a.y == area.y + rule.area_margin.vertical
            &&& a.width == area.width - 2 * rule.area_margin.horizontal
            &&& a.height == area.height - 2 * rule.area_margin.vertical
        }),
{
}

/// Top-aligned horizontal rules and left-aligned vertical ones never
/// overflow, and any alignment is safe once one cell, the padding after the
/// rule across its direction and twice the margin fit in `u16`: then the rule
/// can be laid out exactly when its text fits in memory.
pub proof fn lemma_placement_never_overflows_when_room<G>(rule: Rule<G>, area: Rect)
    requires
        ({
            ||| rule.orientation == Orientation::Horizontal && rule.vertical_alignment
                == VerticalAlignment::Top
            ||| rule.orientation == Orientation::Vertical && rule.horizontal_alignment
                == Alignment::Left
            ||| rule.orientation == Orientation::Horizontal && 1 + rule.padding.bottom + 2
                * rule.area_margin.vertical <= u16::MAX
            ||| rule.orientation == Orientation::Vertical && 1 + rule.padding.right + 2
                * rule.area_margin.horizontal <= u16::MAX
        }),
    ensures
        rule.placement_in_range(),
        rule.can_lay_out(area) <==> 4 * rule.spec_text(area).len() <= isize::MAX,
{
}

/// The padding along a rule before its symbols: top for a vertical rule,
/// left for a horizontal one.
pub open spec fn padding_before<G>(rule: Rule<G>) -> int {
    match rule.orientation {
        Orientation::Vertical => rule.padding.top as int,
        Orientation::Horizontal => rule.padding.left as int,
    }
}

/// The padding along a rule after its symbols: bottom for a vertical rule,
/// right for a horizontal one.
pub open spec fn padding_after<G>(rule: Rule<G>) -> int {
    match rule.orientation {
        Orientation::Vertical => rule.padding.bottom as int,
        Orientation::Horizontal => rule.padding.right as int,
    }
}

/// The rule is aligned to the start of its own line (top or left).
pub open spec fn aligned_to_start<G>(rule: Rule<G>) -> bool {
    match rule.orientation {
        Orientation::Vertical => rule.vertical_alignment == VerticalAlignment::Top,
        Orientation::Horizontal => rule.horizontal_alignment == Alignment::Left,
    }
}

/// The rule is aligned to the end of its own line (bottom or right).
pub open spec fn aligned_to_end<G>(rule: Rule<G>) -> bool {
    match rule.orientation {
        Orientation::Vertical => rule.vertical_alignment == VerticalAlignment::Bottom,
        Orientation::Horizontal => rule.horizontal_alignment == Alignment::Right,
    }
}

/// Blank cells before the start symbol: none when aligned to the start, both
/// paddings when aligned to the end, the padding before when centered.
pub open spec fn blanks_before<G>(rule: Rule<G>) -> int {
    if aligned_to_start(rule) {
        0
    } else if aligned_to_end(rule) {
        padding_before(rule) + padding_after(rule)
    } else {
        padding_before(rule)
    }
}

/// Blank cells after the end symbol: both paddings when aligned to the start,
/// none when aligned to the end, the padding after when centered.
pub open spec fn blanks_after<G>(rule: Rule<G>) -> int {
    if aligned_to_start(rule) {
        padding_before(rule) + padding_after(rule)
    } else if aligned_to_end(rule) {
        0
    } else {
        padding_after(rule)
    }
}

/// The paddings along a rule are blank cells around its symbols: the top
/// (vertical rule) or left (horizontal rule) padding comes before them and
/// the bottom or right padding after them. A rule aligned to the start of its
/// line has no blank before the start symbol and both paddings after the end
/// symbol; a centered one has the first padding before and the second after;
/// one aligned to the end has both before and none after.
pub proof fn lemma_paddings_surround_symbols<G>(rule: Rule<G>, area: Rect)
    ensures
        ({
            let t = rule.spec_text(area);
            let lead = blanks_before(rule);
            let trail = blanks_after(rule);
            &&& t.len() >= lead + trail + 3
            &&& t.subrange(0, lead) == repeated(' ', lead as nat)
            &&& t[lead] == rule.symbol_set.start
            &&& t[t.len() - trail - 1] == rule.symbol_set.end
            &&& t.subrange(t.len() - trail, t.len() as int) == repeated(' ', trail as nat)
        }),
{
    let t = rule.spec_text(area);
    let lead = leading(
        rule.orientation,
        rule.horizontal_alignment,
        rule.vertical_alignment,
        rule.lead_padding() as usize,
        rule.trail_padding() as usize,
    ) as int;
    let trail = trailing(
        rule.orientation,
        rule.horizontal_alignment,
        rule.vertical_alignment,
        rule.lead_padding() as usize,
        rule.trail_padding() as usize,
    ) as int;
    let e = rule.extent(area);
    let b = body(
        rule.symbol_set,
        left_arm(e, rule.lead_padding() as usize, rule.extra_rep_1) as nat,
        right_arm(e, rule.trail_padding() as usize, rule.extra_rep_2) as nat,
    );
    assert(t == repeated(' ', lead as nat) + b + repeated(' ', trail as nat));
    assert(t.subrange(0, lead) =~= repeated(' ', lead as nat));
    assert(t[lead] == b[0]);
    assert(t[t.len() - trail - 1] == b[b.len() - 1]);
    assert(t.subrange(t.len() - trail, t.len() as int) =~= repeated(' ', trail as nat));
}

/// The blank counts stated from the paddings are the ones the text is built
/// with.
proof fn lemma_blank_counts<G>(rule: Rule<G>)
    ensures
        blanks_before(rule) == leading(
            rule.orientation,
            rule.horizontal_alignment,
            rule.vertical_alignment,
            rule.lead_padding() as usize,
            rule.trail_padding() as usize,
        ),
        blanks_after(rule) == trailing(
            rule.orientation,
            rule.horizontal_alignment,
            rule.vertical_alignment,
            rule.lead_padding() as usize,
            rule.trail_padding() as usize,
        ),
{
}

/// Extra repetitions move a rule across its direction but never change its
/// extent.
proof fn lemma_extra_reps_keep_extent<G>(rule: Rule<G>, more: Rule<G>, area: Rect)
    requires
        more == (Rule { extra_rep_1: more.extra_rep_1, extra_rep_2: more.extra_rep_2, ..rule }),
    ensures
        more.extent(area) == rule.extent(area),
{
}

/// In the text of a rule, `k` more copies of the first repeated symbol sit
/// right after the start symbol.
proof fn lemma_segment_longer_first_arm(
    set: SymbolSet,
    lead: nat,
    a: nat,
    b: nat,
    trail: nat,
    k: nat,
)
    ensures
        ({
            let t = repeated(' ', lead) + body(set, a, b) + repeated(' ', trail);
            repeated(' ', lead) + body(set, a + k, b) + repeated(' ', trail) == t.subrange(
                0,
                lead + 1int,
            ) + repeated(set.rep_1, k) + t.subrange(lead + 1int, t.len() as int)
        }),
{
    let t = repeated(' ', lead) + body(set, a, b) + repeated(' ', trail);
    let tail = seq![set.center] + repeated(set.rep_2, b) + seq![set.end] + repeated(' ', trail);
    let sp = repeated(' ', lead);
    assert(t =~= sp + seq![set.start] + repeated(set.rep_1, a) + tail);
    assert(t.subrange(0, lead + 1int) =~= sp + seq![set.start]);
    assert(t.subrange(lead + 1int, t.len() as int) =~= repeated(set.rep_1, a) + tail);
    assert(repeated(set.rep_1, a + k) =~= repeated(set.rep_1, k) + repeated(set.rep_1, a));
    assert(repeated(' ', lead) + body(set, a + k, b) + repeated(' ', trail) =~= sp + seq![
        set.start,
    ] + repeated(set.rep_1, a + k) + tail);
}

/// In the text of a rule, `k` more copies of the second repeated symbol sit
/// right before the end symbol.
proof fn lemma_segment_longer_second_arm(
    set: SymbolSet,
    lead: nat,
    a: nat,
    b: nat,
    trail: nat,
    k: nat,
)
    ensures
        ({
            let t = repeated(' ', lead) + body(set, a, b) + repeated(' ', trail);
            let at = t.len() - trail - 1;
            repeated(' ', lead) + body(set, a, b + k) + repeated(' ', trail) == t.subrange(0, at)
                + repeated(set.rep_2, k) + t.subrange(at, t.len() as int)
        }),
{
    let t = repeated(' ', lead) + body(set, a, b) + repeated(' ', trail);
    let head = repeated(' ', lead) + seq![set.start] + repeated(set.rep_1, a) + seq![set.center]
        + repeated(set.rep_2, b);
    let end = seq![set.end] + repeated(' ', trail);
    assert(t =~= head + end);
    let at = t.len() - trail - 1;
    assert(at == head.len());
    assert(t.subrange(0, at) =~= head);
    assert(t.subrange(at, t.len() as int) =~= end);
    assert(repeated(set.rep_2, b + k) =~= repeated(set.rep_2, b) + repeated(set.rep_2, k));
    assert(repeated(' ', lead) + body(set, a, b + k) + repeated(' ', trail) =~= head
        + repeated(set.rep_2, k) + end);
}

/// Each extra repetition of the first symbol is one more `rep_1` right after
/// the start symbol, and nothing else of the text changes.
pub proof fn lemma_extra_rep_1_adds_to_first_arm<G>(rule: Rule<G>, area: Rect, k: usize)
    requires
        rule.extra_rep_1 + k <= usize::MAX - u16::MAX,
    ensures
        ({
            let more = Rule { extra_rep_1: (rule.extra_rep_1 + k) as usize, ..rule };
            let t = rule.spec_text(area);
            let lead = blanks_before(rule);
            more.spec_text(area) == t.subrange(0, lead + 1) + repeated(
                rule.symbol_set.rep_1,
                k as nat,
            ) + t.subrange(lead + 1int, t.len() as int)
        }),
{
    let more = Rule { extra_rep_1: (rule.extra_rep_1 + k) as usize, ..rule };
    lemma_extra_reps_keep_extent(rule, more, area);
    lemma_blank_counts(rule);
    let e = rule.extent(area);
    let p1 = rule.lead_padding() as usize;
    let p2 = rule.trail_padding() as usize;
    let lead = leading(rule.orientation, rule.horizontal_alignment, rule.vertical_alignment, p1, p2);
    let trail = trailing(
        rule.orientation,
        rule.horizontal_alignment,
        rule.vertical_alignment,
        p1,
        p2,
    );
    let a = left_arm(e, p1, rule.extra_rep_1) as nat;
    let b = right_arm(e, p2, rule.extra_rep_2) as nat;
    assert(left_arm(e, p1, more.extra_rep_1) == a + k);
    lemma_segment_longer_first_arm(rule.symbol_set, lead as nat, a, b, trail as nat, k as nat);
}

/// Each extra repetition of the second symbol is one more `rep_2` right
/// before the end symbol, and nothing else of the text changes.
pub proof fn lemma_extra_rep_2_adds_to_second_arm<G>(rule: Rule<G>, area: Rect, k: usize)
    requires
        rule.extra_rep_2 + k <= usize::MAX - u16::MAX,
    ensures
        ({
            let more = Rule { extra_rep_2: (rule.extra_rep_2 + k) as usize, ..rule };
            let t = rule.spec_text(area);
            let at = t.len() - blanks_after(rule) - 1;
            more.spec_text(area) == t.subrange(0, at) + repeated(rule.symbol_set.rep_2, k as nat)
                + t.subrange(at, t.len() as int)
        }),
{
    let more = Rule { extra_rep_2: (rule.extra_rep_2 + k) as usize, ..rule };
    lemma_extra_reps_keep_extent(rule, more, area);
    lemma_blank_counts(rule);
    let e = rule.extent(area);
    let p1 = rule.lead_padding() as usize;
    let p2 = rule.trail_padding() as usize;
    let lead = leading(rule.orientation, rule.horizontal_alignment, rule.vertical_alignment, p1, p2);
    let trail = trailing(
        rule.orientation,
        rule.horizontal_alignment,
        rule.vertical_alignment,
        p1,
        p2,
    );
    let a = left_arm(e, p1, rule.extra_rep_1) as nat;
    let b = right_arm(e, p2, rule.extra_rep_2) as nat;
    assert(right_arm(e, p2, more.extra_rep_2) == b + k);
    lemma_segment_longer_second_arm(rule.symbol_set, lead as nat, a, b, trail as nat, k as nat);
}

/// The symbols of a rule take a gradient's colours exactly when it has a
/// gradient. A solid background is painted in its colour and a background
/// gradient of its own is painted, with or without a gradient on the
/// symbols; no background leaves the background alone; "the same gradient as
/// the symbols" paints the symbols' gradient behind them when there is one,
/// and nothing when there is none.
pub proof fn lemma_coloring_follows_settings<G>(rule: Rule<G>)
    ensures
        ({
            let c = rule.spec_coloring();
            let symbols_coloured = match c {
                Coloring::Gradient | Coloring::GradientOnSolid(_) | Coloring::GradientOnItself
                | Coloring::GradientOnGradient => true,
                _ => false,
            };
            &&& symbols_coloured <==> rule.gradient is Some
            &&& (rule.bg matches Bg::Solid(col) ==> (c == Coloring::SolidBackground(col) || c
                == Coloring::GradientOnSolid(col)))
            &&& (rule.bg matches Bg::GradientCustom(_) ==> (c is GradientBackground || c
                is GradientOnGradient))
            &&& (rule.bg is Plain ==> (c is Uncolored || c is Gradient))
            &&& (rule.bg is Gradient ==> (c is Uncolored || c is GradientOnItself))
        }),
{
}

} // verus!
