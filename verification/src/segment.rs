//! The text of a rule: leading spaces, the five symbols of a [`SymbolSet`] with the
//! two repeated ones in between, trailing spaces.

use vstd::prelude::*;

use crate::symbols::{Alignment, Orientation, SymbolSet, VerticalAlignment};

verus! {

/// `n` copies of `c`.
pub open spec fn repeated(c: char, n: nat) -> Seq<char> {
    Seq::new(n, |_i: int| c)
}

/// Half the extent less one, rounded down and never below zero: the length of
/// the left arm before padding and extra repetitions.
pub open spec fn left_base(extent: u16) -> nat {
    if extent / 2 >= 1 {
        (extent / 2 - 1) as nat
    } else {
        0
    }
}

/// Half the extent less one, rounded half away from zero and never below zero:
/// the right arm's count before padding and extra repetitions.
pub open spec fn right_base(extent: u16) -> nat {
    if (extent + 1) / 2 >= 1 {
        ((extent + 1) / 2 - 1) as nat
    } else {
        0
    }
}

/// How many `rep_1` symbols stand between `start` and `center`.
pub open spec fn left_arm(extent: u16, p_1: usize, extra: usize) -> usize {
    (left_base(extent) as usize).saturating_sub(p_1).saturating_add(extra)
}

/// How many `rep_2` symbols stand between `center` and `end`.
pub open spec fn right_arm(extent: u16, p_2: usize, extra: usize) -> usize
    recommends
        p_2 < usize::MAX,
{
    (right_base(extent) as usize).saturating_sub((p_2 + 1) as usize).saturating_add(extra)
}

/// Spaces before `start`: none when the rule is aligned to the start of its
/// line, the first padding when centered, both paddings at the far end.
pub open spec fn leading(
    orientation: Orientation,
    h_alignment: Alignment,
    v_alignment: VerticalAlignment,
    p_1: usize,
    p_2: usize,
) -> usize {
    match orientation {
        Orientation::Horizontal => match h_alignment {
            Alignment::Left => 0,
            Alignment::Center => p_1,
            Alignment::Right => p_1.saturating_add(p_2),
        },
        Orientation::Vertical => match v_alignment {
            VerticalAlignment::Top => 0,
            VerticalAlignment::Center => p_1,
            VerticalAlignment::Bottom => p_1.saturating_add(p_2),
        },
    }
}

/// Spaces after `end`, the mirror image of [`leading`].
pub open spec fn trailing(
    orientation: Orientation,
    h_alignment: Alignment,
    v_alignment: VerticalAlignment,
    p_1: usize,
    p_2: usize,
) -> usize {
    match orientation {
        Orientation::Horizontal => match h_alignment {
            Alignment::Left => p_2.saturating_add(p_1),
            Alignment::Center => p_2,
            Alignment::Right => 0,
        },
        Orientation::Vertical => match v_alignment {
            VerticalAlignment::Top => p_1.saturating_add(p_2),
            VerticalAlignment::Center => p_2,
            VerticalAlignment::Bottom => 0,
        },
    }
}

/// The symbols of the rule without the surrounding spaces.
pub open spec fn body(set: SymbolSet, left: nat, right: nat) -> Seq<char> {
    seq![set.start] + repeated(set.rep_1, left) + seq![set.center] + repeated(set.rep_2, right)
        + seq![set.end]
}

/// The full text of a rule over `extent` cells.
pub open spec fn segment(
    set: SymbolSet,
    p_1: usize,
    p_2: usize,
    extent: u16,
    orientation: Orientation,
    h_alignment: Alignment,
    v_alignment: VerticalAlignment,
    extra_rep_1: usize,
    extra_rep_2: usize,
) -> Seq<char> {
    repeated(' ', leading(orientation, h_alignment, v_alignment, p_1, p_2) as nat) + body(
        set,
        left_arm(extent, p_1, extra_rep_1) as nat,
        right_arm(extent, p_2, extra_rep_2) as nat,
    ) + repeated(' ', trailing(orientation, h_alignment, v_alignment, p_1, p_2) as nat)
}

/// A string of `n` characters fits in memory: at four bytes a character its
/// byte length stays within `isize::MAX`.
pub open spec fn fits_in_memory(n: int) -> bool {
    4 * n <= isize::MAX
}

/// `std::string::String::push`: appends `c`. A string longer than
/// `isize::MAX` bytes makes it panic; a character takes at most four bytes,
/// so the `requires` keeps the string well below that.
#[verifier::external_body]
fn push_char(s: &mut String, c: char)
    requires
        fits_in_memory(old(s)@.len() + 1int),
    ensures
        final(s)@ == old(s)@.push(c),
{
    s.push(c);
}

/// Appends `n` copies of `c`.
fn push_repeated(s: &mut String, c: char, n: usize)
    requires
        fits_in_memory(old(s)@.len() + n),
    ensures
        final(s)@ == old(s)@ + repeated(c, n as nat),
{
    let ghost start = s@;
    let mut i: usize = 0;
    while i < n
        invariant
            i <= n,
            s@ == start + repeated(c, i as nat),
            fits_in_memory(start.len() + n),
        decreases n - i,
    {
        push_char(s, c);
        i = i + 1;
        assert(s@ =~= start + repeated(c, i as nat));
    }
    assert(s@ =~= start + repeated(c, n as nat));
}

/// The four counts of [`segment`]: spaces before, `rep_1` symbols, `rep_2`
/// symbols, spaces after.
fn segment_counts(
    p_1: usize,
    p_2: usize,
    base_area: u16,
    orientation: Orientation,
    h_alignment: Alignment,
    v_alignment: VerticalAlignment,
    extra_rep_1: usize,
    extra_rep_2: usize,
) -> (c: (usize, usize, usize, usize))
    requires
        p_2 < usize::MAX,
    ensures
        c.0 == leading(orientation, h_alignment, v_alignment, p_1, p_2),
        c.1 == left_arm(base_area, p_1, extra_rep_1),
        c.2 == right_arm(base_area, p_2, extra_rep_2),
        c.3 == trailing(orientation, h_alignment, v_alignment, p_1, p_2),
{
    let rep_floor: usize = (base_area / 2).saturating_sub(1) as usize;
    let rep_round: usize = ((base_area as usize + 1) / 2).saturating_sub(1);
    let count_1 = rep_floor.saturating_sub(p_1).saturating_add(extra_rep_1);
    let count_2 = rep_round.saturating_sub(p_2 + 1).saturating_add(extra_rep_2);
    let lead = match orientation {
        Orientation::Horizontal => match h_alignment {
            Alignment::Left => 0,
            Alignment::Center => p_1,
            Alignment::Right => p_1.saturating_add(p_2),
        },
        Orientation::Vertical => match v_alignment {
            VerticalAlignment::Top => 0,
            VerticalAlignment::Center => p_1,
            VerticalAlignment::Bottom => p_1.saturating_add(p_2),
        },
    };
    let trail = match orientation {
        Orientation::Horizontal => match h_alignment {
            Alignment::Left => p_2.saturating_add(p_1),
            Alignment::Center => p_2,
            Alignment::Right => 0,
        },
        Orientation::Vertical => match v_alignment {
            VerticalAlignment::Top => p_1.saturating_add(p_2),
            VerticalAlignment::Center => p_2,
            VerticalAlignment::Bottom => 0,
        },
    };
    (lead, count_1, count_2, trail)
}

/// The length of [`segment`], or `None` when it exceeds `usize::MAX`.
pub fn segment_len(
    set: &SymbolSet,
    p_1: usize,
    p_2: usize,
    base_area: u16,
    orientation: Orientation,
    h_alignment: Alignment,
    v_alignment: VerticalAlignment,
    extra_rep_1: usize,
    extra_rep_2: usize,
) -> (n: Option<usize>)
    requires
        p_2 < usize::MAX,
    ensures
        ({
            let len = segment(
                *set,
                p_1,
                p_2,
                base_area,
                orientation,
                h_alignment,
                v_alignment,
                extra_rep_1,
                extra_rep_2,
            ).len();
            match n {
                Some(k) => k == len,
                None => len > usize::MAX,
            }
        }),
{
    let (lead, count_1, count_2, trail) = segment_counts(
        p_1,
        p_2,
        base_area,
        orientation,
        h_alignment,
        v_alignment,
        extra_rep_1,
        extra_rep_2,
    );
    let ghost whole = segment(
        *set,
        p_1,
        p_2,
        base_area,
        orientation,
        h_alignment,
        v_alignment,
        extra_rep_1,
        extra_rep_2,
    );
    assert(whole.len() == lead + count_1 + count_2 + trail + 3);
    let a = lead.checked_add(trail);
    let a = match a {
        Some(a) => a.checked_add(3),
        None => None,
    };
    let a = match a {
        Some(a) => a.checked_add(count_1),
        None => None,
    };
    match a {
        Some(a) => a.checked_add(count_2),
        None => None,
    }
}

/// Builds the text of a rule over `base_area` cells (the width of a
/// horizontal rule, the height of a vertical one), with paddings `p_1` before
/// and `p_2` after the symbols and `extra_rep_1`, `extra_rep_2` more copies of
/// the repeated symbols.
pub fn create_segment(
    set: &SymbolSet,
    p_1: usize,
    p_2: usize,
    base_area: u16,
    orientation: Orientation,
    h_alignment: Alignment,
    v_alignment: VerticalAlignment,
    extra_rep_1: usize,
    extra_rep_2: usize,
) -> (ln: String)
    requires
        p_2 < usize::MAX,
        fits_in_memory(
            segment(
                *set,
                p_1,
                p_2,
                base_area,
                orientation,
                h_alignment,
                v_alignment,
                extra_rep_1,
                extra_rep_2,
            ).len() as int,
        ),
    ensures
        ln@ == segment(
            *set,
            p_1,
            p_2,
            base_area,
            orientation,
            h_alignment,
            v_alignment,
            extra_rep_1,
            extra_rep_2,
        ),
{
    let (lead, count_1, count_2, trail) = segment_counts(
        p_1,
        p_2,
        base_area,
        orientation,
        h_alignment,
        v_alignment,
        extra_rep_1,
        extra_rep_2,
    );
    let ghost whole = segment(
        *set,
        p_1,
        p_2,
        base_area,
        orientation,
        h_alignment,
        v_alignment,
        extra_rep_1,
        extra_rep_2,
    );
    assert(whole.len() == lead + count_1 + count_2 + trail + 3);
    let mut ln = String::new();
    push_repeated(&mut ln, ' ', lead);
    push_char(&mut ln, set.start);
    push_repeated(&mut ln, set.rep_1, count_1);
    push_char(&mut ln, set.center);
    push_repeated(&mut ln, set.rep_2, count_2);
    push_char(&mut ln, set.end);
    push_repeated(&mut ln, ' ', trail);
    assert(ln@ =~= whole);
    ln
}

} // verus!
