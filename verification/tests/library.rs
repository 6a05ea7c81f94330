use ratatui::style::Color;
use tui_rule::{
    create_segment, Alignment, Bg, Coloring, Margin, Orientation, Padding, Rect, Rule, SymbolSet,
    VerticalAlignment,
};

const PLUS: SymbolSet = SymbolSet {
    start: '+',
    end: '+',
    rep_1: '─',
    rep_2: '─',
    center: '+',
};

const MARKED: SymbolSet = SymbolSet {
    start: '<',
    end: '>',
    rep_1: '-',
    rep_2: '=',
    center: '|',
};

fn seg(set: &SymbolSet, p_1: usize, p_2: usize, extent: u16) -> String {
    create_segment(
        set,
        p_1,
        p_2,
        extent,
        Orientation::Horizontal,
        Alignment::Center,
        VerticalAlignment::Center,
        0,
        0,
    )
}

fn area(x: u16, y: u16, width: u16, height: u16) -> Rect {
    Rect { x, y, width, height }
}

#[test]
fn segment_small_extents() {
    assert_eq!(seg(&PLUS, 0, 0, 0), "+++");
    assert_eq!(seg(&PLUS, 0, 0, 1), "+++");
    assert_eq!(seg(&PLUS, 0, 0, 2), "+++");
    assert_eq!(seg(&PLUS, 0, 0, 3), "+++");
    assert_eq!(seg(&PLUS, 0, 0, 4), "+─++");
    assert_eq!(seg(&PLUS, 0, 0, 5), "+─+─+");
    assert_eq!(seg(&PLUS, 0, 0, 6), "+──+─+");
    assert_eq!(seg(&PLUS, 0, 0, 7), "+──+──+");
}

#[test]
fn segment_symbols_in_order() {
    assert_eq!(seg(&MARKED, 0, 0, 9), "<---|===>");
    assert_eq!(seg(&MARKED, 0, 0, 10), "<----|===>");
}

#[test]
fn segment_padding_and_alignment() {
    // Centered: the first padding before, the second after.
    assert_eq!(seg(&MARKED, 2, 1, 11), "  <--|===> ");
    let left = create_segment(
        &MARKED,
        2,
        1,
        11,
        Orientation::Horizontal,
        Alignment::Left,
        VerticalAlignment::Bottom,
        0,
        0,
    );
    assert_eq!(left, "<--|===>   ");
    let right = create_segment(
        &MARKED,
        2,
        1,
        11,
        Orientation::Horizontal,
        Alignment::Right,
        VerticalAlignment::Top,
        0,
        0,
    );
    assert_eq!(right, "   <--|===>");
}

#[test]
fn segment_vertical_uses_vertical_alignment() {
    let top = create_segment(
        &MARKED,
        1,
        2,
        11,
        Orientation::Vertical,
        Alignment::Right,
        VerticalAlignment::Top,
        0,
        0,
    );
    assert_eq!(top, "<---|==>   ");
    let bottom = create_segment(
        &MARKED,
        1,
        2,
        11,
        Orientation::Vertical,
        Alignment::Left,
        VerticalAlignment::Bottom,
        0,
        0,
    );
    assert_eq!(bottom, "   <---|==>");
}

#[test]
fn segment_extra_repetitions() {
    let s = create_segment(
        &MARKED,
        0,
        0,
        5,
        Orientation::Horizontal,
        Alignment::Center,
        VerticalAlignment::Center,
        2,
        3,
    );
    assert_eq!(s, "<---|====>");
}

#[test]
fn segment_padding_larger_than_arm() {
    // The arms never go below zero.
    assert_eq!(seg(&MARKED, 9, 9, 7), format!("{}<|>{}", " ".repeat(9), " ".repeat(9)));
}

#[test]
fn new_rule_defaults() {
    let r = Rule::<()>::new();
    assert!(r.gradient.is_none());
    assert_eq!(
        r.symbol_set,
        SymbolSet { start: '─', end: '─', rep_1: '─', rep_2: '─', center: '─' }
    );
    assert_eq!(r.orientation, Orientation::Horizontal);
    assert_eq!(r.padding, Padding { left: 0, right: 0, top: 0, bottom: 0 });
    assert_eq!(r.vertical_alignment, VerticalAlignment::Center);
    assert_eq!(r.horizontal_alignment, Alignment::Center);
    assert_eq!(r.extra_rep_1, 0);
    assert_eq!(r.extra_rep_2, 0);
    assert!(matches!(r.bg, Bg::Plain));
    assert_eq!(r.area_margin, Margin { horizontal: 1, vertical: 1 });
    let d: Rule<()> = Rule::default();
    assert_eq!(d.symbol_set, r.symbol_set);
    assert_eq!(d.area_margin, r.area_margin);
    let line = r.layout(area(0, 0, 13, 3)).text;
    assert_eq!(line, "─".repeat(11));
}

#[test]
fn builders_set_one_field_each() {
    let r = Rule::<()>::new()
        .start('a')
        .end('b')
        .center('c')
        .rep_1('d')
        .rep_2('e');
    assert_eq!(
        r.symbol_set,
        SymbolSet { start: 'a', end: 'b', rep_1: 'd', rep_2: 'e', center: 'c' }
    );
    let r = r.main_symbol('x');
    assert_eq!(r.symbol_set.rep_1, 'x');
    assert_eq!(r.symbol_set.rep_2, 'x');
    assert_eq!(r.symbol_set.start, 'a');
    let r = r.left_padding(1).right_padding(2).top_padding(3).bottom_padding(4);
    assert_eq!(r.padding, Padding { left: 1, right: 2, top: 3, bottom: 4 });
    let r = r.horizontal_padding(7);
    assert_eq!(r.padding, Padding { left: 7, right: 7, top: 3, bottom: 4 });
    let r = r.vertical_padding(8);
    assert_eq!(r.padding, Padding { left: 7, right: 7, top: 8, bottom: 8 });
    let r = r.padding(Padding::new(1, 2, 3, 4));
    assert_eq!(r.padding, Padding { left: 1, right: 2, top: 3, bottom: 4 });
    let r = r.extra_rep_1(5).extra_rep_2(6);
    assert_eq!((r.extra_rep_1, r.extra_rep_2), (5, 6));
    let r = r.extra_rep(9, 10);
    assert_eq!((r.extra_rep_1, r.extra_rep_2), (9, 10));
    let r = r.area_margin(Margin::new(3, 4));
    assert_eq!(r.area_margin, Margin { horizontal: 3, vertical: 4 });
    let r = r.vertical();
    assert_eq!(r.orientation, Orientation::Vertical);
    let r = r.horizontal();
    assert_eq!(r.orientation, Orientation::Horizontal);
    let r = r.orientation(Orientation::Vertical);
    assert_eq!(r.orientation, Orientation::Vertical);
    let r = r
        .vertical_alignment(VerticalAlignment::Bottom)
        .horizontal_alignment(Alignment::Left);
    assert_eq!(r.vertical_alignment, VerticalAlignment::Bottom);
    assert_eq!(r.horizontal_alignment, Alignment::Left);
    // Nothing else moved.
    assert_eq!(r.symbol_set.start, 'a');
    assert_eq!(r.area_margin, Margin { horizontal: 3, vertical: 4 });
}

#[test]
fn set_builders() {
    let r = Rule::<()>::from_set(MARKED);
    assert_eq!(r.symbol_set, MARKED);
    assert_eq!(r.orientation, Orientation::Horizontal);
    let r = Rule::<()>::new().with_set(MARKED);
    assert_eq!(r.symbol_set, MARKED);
    let v = Rule::<()>::new_vertical();
    assert_eq!(v.orientation, Orientation::Vertical);
    assert_eq!(v.symbol_set, Rule::<()>::new().symbol_set);
}

#[test]
fn gradient_and_background_builders() {
    let r = Rule::new_with_gradient(7u8);
    assert_eq!(r.gradient, Some(7));
    let r = r.with_gradient(9);
    assert_eq!(r.gradient, Some(9));
    assert!(matches!(r.bg, Bg::Plain));
    let r = r.bg_solid(Color::Red);
    assert!(matches!(r.bg, Bg::Solid(Color::Red)));
    let r = r.bg_same_gradient();
    assert!(matches!(r.bg, Bg::Gradient));
    let r = r.bg_gradient(3);
    assert!(matches!(r.bg, Bg::GradientCustom(3)));
    let r = r.bg(Bg::Plain);
    assert!(matches!(r.bg, Bg::Plain));
}

#[test]
fn coloring_follows_gradient_and_background() {
    assert!(matches!(Rule::<u8>::new().coloring(), Coloring::Uncolored));
    // Without a gradient a solid background is still painted, ...
    assert!(matches!(
        Rule::<u8>::new().bg_solid(Color::Blue).coloring(),
        Coloring::SolidBackground(Color::Blue)
    ));
    // ... and so is a background gradient of its own ...
    assert!(matches!(Rule::<u8>::new().bg_gradient(4).coloring(), Coloring::GradientBackground));
    // ... but "the same gradient as the symbols" needs one on the symbols.
    assert!(matches!(Rule::<u8>::new().bg_same_gradient().coloring(), Coloring::Uncolored));
    let g = Rule::new_with_gradient(1u8);
    assert!(matches!(g.coloring(), Coloring::Gradient));
    let g = g.bg_solid(Color::Blue);
    assert!(matches!(g.coloring(), Coloring::GradientOnSolid(Color::Blue)));
    let g = g.bg_same_gradient();
    assert!(matches!(g.coloring(), Coloring::GradientOnItself));
    let g = g.bg_gradient(2);
    assert!(matches!(g.coloring(), Coloring::GradientOnGradient));
}

#[test]
fn layout_rows_for_each_vertical_alignment() {
    let a = area(0, 0, 49, 19);
    let top = Rule::<()>::new().vertical_alignment(VerticalAlignment::Top).layout(a);
    assert_eq!(top.area, area(1, 1, 47, 17));
    let mid = Rule::<()>::new().layout(a);
    assert_eq!(mid.area, area(1, 9, 47, 17));
    let bot = Rule::<()>::new().vertical_alignment(VerticalAlignment::Bottom).layout(a);
    assert_eq!(bot.area, area(1, 17, 47, 17));
    assert_eq!(mid.text.chars().count(), 47);
}

#[test]
fn layout_columns_for_each_horizontal_alignment() {
    let a = area(0, 0, 49, 19);
    let left = Rule::<()>::new_vertical().horizontal_alignment(Alignment::Left).layout(a);
    assert_eq!(left.area, area(1, 1, 47, 17));
    let mid = Rule::<()>::new_vertical().layout(a);
    assert_eq!(mid.area, area(24, 1, 47, 17));
    let right = Rule::<()>::new_vertical().horizontal_alignment(Alignment::Right).layout(a);
    assert_eq!(right.area, area(47, 1, 47, 17));
    assert_eq!(mid.text.chars().count(), 17);
}

#[test]
fn layout_padding_across_the_rule_moves_it() {
    let a = area(0, 0, 40, 20);
    let r = Rule::<()>::new().vertical_alignment(VerticalAlignment::Top).top_padding(3);
    assert_eq!(r.layout(a).area.y, 4);
    let r = Rule::<()>::new().bottom_padding(2);
    // (20 / 2) - (1 + 2) = 7, then one row of margin.
    assert_eq!(r.layout(a).area.y, 8);
    let r = Rule::<()>::new()
        .vertical_alignment(VerticalAlignment::Bottom)
        .bottom_padding(1);
    // 20 - (1 + 1 + 2) = 16, then one row of margin.
    assert_eq!(r.layout(a).area.y, 17);
    let r = Rule::<()>::new_vertical()
        .horizontal_alignment(Alignment::Right)
        .left_padding(5);
    // The right alignment ignores the left padding: 40 - 3 + 1.
    assert_eq!(r.layout(a).area.x, 38);
}

#[test]
fn layout_first_extra_repetition_shifts_across() {
    let a = area(0, 0, 40, 20);
    let r = Rule::<()>::new().extra_rep_1(3);
    assert_eq!(r.layout(a).area.y, 7);
    // The shift is taken modulo 2^16.
    let r = Rule::<()>::new().extra_rep_1(65536 + 2);
    assert_eq!(r.layout(a).area.y, 8);
    assert_eq!(r.layout(area(0, 0, 12, 3)).text.chars().count(), 65536 + 2 + 10);
}

#[test]
fn layout_margin_too_large_gives_empty_area() {
    let r = Rule::<()>::new().area_margin(Margin::new(10, 1));
    let l = r.layout(area(5, 5, 19, 19));
    assert_eq!(l.area, area(0, 0, 0, 0));
    assert_eq!(l.text, "───");
}

#[test]
fn layout_centers_in_areas_away_from_the_origin() {
    // The middle row of rows 40..50 is 45.
    let l = Rule::<()>::new().layout(area(0, 40, 10, 10));
    assert_eq!(l.area.y, 45);
    // Moving the area moves the rule by as much.
    let l = Rule::<()>::new().layout(area(0, 50, 10, 10));
    assert_eq!(l.area.y, 55);
    let l = Rule::<()>::new_vertical().layout(area(30, 0, 11, 10));
    assert_eq!(l.area.x, 35);
    // Far down the screen.
    let l = Rule::<()>::new().layout(area(0, 65000, 10, 500));
    assert_eq!(l.area.y, 65250);
}

#[test]
fn layout_bottom_edge_saturates() {
    // y + height passes u16::MAX: the bottom is held at u16::MAX.
    let l = Rule::<()>::new()
        .vertical_alignment(VerticalAlignment::Bottom)
        .layout(area(0, 65000, 10, 1000));
    assert_eq!(l.area.y, 65535 - 3 + 1);
    let l = Rule::<()>::new_vertical()
        .horizontal_alignment(Alignment::Right)
        .layout(area(65000, 0, 1000, 10));
    assert_eq!(l.area.x, 65535 - 3 + 1);
}

#[test]
fn rule_stays_inside_its_area() {
    let a = area(7, 13, 21, 9);
    for v in [VerticalAlignment::Top, VerticalAlignment::Center, VerticalAlignment::Bottom] {
        let l = Rule::<()>::new().horizontal_padding(1).vertical_alignment(v).layout(a);
        assert!(a.y <= l.area.y && l.area.y < a.y + a.height);
        assert!(a.x <= l.area.x);
        assert!(l.area.x as usize + l.text.chars().count() <= (a.x + a.width) as usize);
    }
    for h in [Alignment::Left, Alignment::Center, Alignment::Right] {
        let l = Rule::<()>::new_vertical().vertical_padding(1).horizontal_alignment(h).layout(a);
        assert!(a.x <= l.area.x && l.area.x < a.x + a.width);
        assert!(a.y <= l.area.y);
        assert!(l.area.y as usize + l.text.chars().count() <= (a.y + a.height) as usize);
    }
}

#[test]
fn text_spans_area_width() {
    for w in 6u16..60 {
        let r = Rule::<()>::new().horizontal_padding(1);
        let l = r.layout(area(0, 0, w + 2, 5));
        assert_eq!(l.text.chars().count(), w as usize);
    }
}

#[test]
fn center_symbol_in_the_middle() {
    for w in 4u16..40 {
        let r = Rule::<()>::from_set(MARKED).left_padding(1).right_padding(0);
        let l = r.layout(area(0, 0, w + 2, 5));
        let chars: Vec<char> = l.text.chars().collect();
        assert_eq!(chars[(w / 2) as usize], '|');
    }
}

#[test]
fn centered_odd_extent_is_symmetric() {
    let s = seg(&PLUS, 2, 2, 21);
    let rev: String = s.chars().rev().collect();
    assert_eq!(s, rev);
}

#[test]
fn alignment_does_not_change_length() {
    let mut lengths = Vec::new();
    for h in [Alignment::Left, Alignment::Center, Alignment::Right] {
        let s = create_segment(
            &MARKED,
            3,
            5,
            30,
            Orientation::Horizontal,
            h,
            VerticalAlignment::Center,
            1,
            1,
        );
        lengths.push(s.chars().count());
    }
    // 3 + 5 paddings, 3 fixed symbols, arms of 14 - 3 + 1 and 14 - 6 + 1.
    assert_eq!(lengths, vec![32, 32, 32]);
}

#[test]
fn try_layout_refuses_overflowing_placement() {
    let a = area(0, 0, 40, 20);
    assert!(Rule::<()>::new().bottom_padding(u16::MAX).try_layout(a).is_none());
    assert!(Rule::<()>::new().bottom_padding(u16::MAX - 1).try_layout(a).is_some());
    let r = Rule::<()>::new()
        .vertical_alignment(VerticalAlignment::Bottom)
        .area_margin(Margin::new(1, 32767));
    assert!(r.try_layout(a).is_some());
    let r = r.bottom_padding(1);
    assert!(r.try_layout(a).is_none());
    let r = Rule::<()>::new_vertical()
        .horizontal_alignment(Alignment::Right)
        .area_margin(Margin::new(32768, 1));
    assert!(r.try_layout(a).is_none());
    let r = Rule::<()>::new_vertical().right_padding(u16::MAX);
    assert!(r.try_layout(a).is_none());
    // Top and left alignments never overflow.
    let r = Rule::<()>::new()
        .vertical_alignment(VerticalAlignment::Top)
        .vertical_padding(u16::MAX);
    assert!(r.try_layout(a).is_some());
}

#[test]
fn try_layout_refuses_text_too_long_for_memory() {
    let a = area(0, 0, 40, 20);
    assert!(Rule::<()>::new().extra_rep_2(usize::MAX).try_layout(a).is_none());
    assert!(Rule::<()>::new().extra_rep(usize::MAX / 2, usize::MAX / 2).try_layout(a).is_none());
}

#[test]
fn try_layout_agrees_with_layout() {
    let a = area(3, 4, 30, 12);
    let r = Rule::<()>::from_set(MARKED).horizontal_padding(2).extra_rep_2(1);
    let t = r.try_layout(a).unwrap();
    let l = r.layout(a);
    assert_eq!(t.area, l.area);
    assert_eq!(t.text, l.text);
    assert_eq!(r.render_area(a), l.area);
}

#[test]
fn documented_set_example() {
    let set = SymbolSet { start: '+', rep_1: '─', center: '+', rep_2: '─', end: '+' };
    let rule = Rule::<()>::from_set(set);
    assert_eq!(rule.layout(area(0, 0, 11, 3)).text, "+───+───+");
}

#[test]
fn documented_symbol_setters() {
    let a = area(0, 0, 15, 3);
    let base = || Rule::<()>::from_set(SymbolSet {
        start: '+',
        rep_1: '=',
        center: '+',
        rep_2: '=',
        end: '+',
    });
    assert_eq!(base().layout(a).text, "+=====+=====+");
    assert_eq!(base().rep_2('-').layout(a).text, "+=====+-----+");
    assert_eq!(base().rep_1('-').layout(a).text, "+-----+=====+");
    assert_eq!(base().start('%').layout(a).text, "%=====+=====+");
    assert_eq!(base().end('%').layout(a).text, "+=====+=====%");
    assert_eq!(base().center('%').layout(a).text, "+=====%=====+");
    assert_eq!(base().main_symbol('-').layout(a).text, "+-----+-----+");
}
