use ratatui::buffer::Buffer;
use ratatui::layout::Rect as TuiRect;
use ratatui::text::{Line, Span};
use ratatui::widgets::{Block, Widget};
use tui_rule::{Alignment, Orientation, Rect, Rule, SymbolSet, VerticalAlignment};

const HORIZONTAL: SymbolSet = SymbolSet {
    start: '+',
    end: '+',
    rep_1: '─',
    rep_2: '─',
    center: '+',
};

const VERTICAL: SymbolSet = SymbolSet {
    start: '+',
    end: '+',
    rep_1: '│',
    rep_2: '│',
    center: '+',
};

/// Draws a rule into `buf` the way the widget does: a horizontal rule as one
/// line, a vertical one a cell at a time downwards.
fn paint(rule: &Rule<()>, area: TuiRect, buf: &mut Buffer) {
    let layout = rule.layout(Rect {
        x: area.x,
        y: area.y,
        width: area.width,
        height: area.height,
    });
    let spans: Vec<Span> = layout
        .text
        .chars()
        .map(String::from)
        .map(Span::from)
        .collect();
    match rule.orientation {
        Orientation::Horizontal => {
            let line = Line::from(spans);
            buf.set_line(layout.area.x, layout.area.y, &line, line.spans.len() as u16 + 1);
        }
        Orientation::Vertical => {
            for (y_n, s) in spans.iter().enumerate() {
                buf.set_span(layout.area.x, layout.area.y + y_n as u16, s, 1);
            }
        }
    }
}

fn framed(title: &str, bottom: &str) -> Buffer {
    let mut buffer = Buffer::empty(TuiRect::new(0, 0, 49, 19));
    Block::bordered()
        .title_top(Line::raw(title.to_string()).centered())
        .title_bottom(Line::raw(bottom.to_string()).centered())
        .render(buffer.area, &mut buffer);
    buffer
}

#[test]
pub fn test_hr() {
    let mut buffer = framed("Horizontal Rule", " Vertical Alignment: Center ");
    let area = buffer.area;
    let rule = Rule::<()>::from_set(HORIZONTAL)
        .horizontal_padding(1)
        .vertical_alignment(VerticalAlignment::Center)
        .horizontal();
    paint(&rule, area, &mut buffer);
    let expected = Buffer::with_lines([
            "┌────────────────Horizontal Rule────────────────┐",
            "│                                               │",
            "│                                               │",
            "│                                               │",
            "│                                               │",
            "│                                               │",
            "│                                               │",
            "│                                               │",
            "│                                               │",
            "│ +─────────────────────+─────────────────────+ │",
            "│                                               │",
            "│                                               │",
            "│                                               │",
            "│                                               │",
            "│                                               │",
            "│                                               │",
            "│                                               │",
            "│                                               │",
            "└───────── Vertical Alignment: Center ──────────┘",
        ]);
    assert_eq!(buffer, expected);
    let mut buffer = framed("Horizontal Rule", " Vertical Alignment: Top ");
    let rule = Rule::<()>::from_set(HORIZONTAL)
        .horizontal_padding(1)
        .vertical_alignment(VerticalAlignment::Top)
        .horizontal();
    paint(&rule, area, &mut buffer);
    let expected = Buffer::with_lines([
            "┌────────────────Horizontal Rule────────────────┐",
            "│ +─────────────────────+─────────────────────+ │",
            "│                                               │",
            "│                                               │",
            "│                                               │",
            "│                                               │",
            "│                                               │",
            "│                                               │",
            "│                                               │",
            "│                                               │",
            "│                                               │",
            "│                                               │",
            "│                                               │",
            "│                                               │",
            "│                                               │",
            "│                                               │",
            "│                                               │",
            "│                                               │",
            "└─────────── Vertical Alignment: Top ───────────┘",
        ]);
    assert_eq!(buffer, expected);
    let mut buffer = framed("Horizontal Rule", " Vertical Alignment: Bottom ");
    let rule = Rule::<()>::from_set(HORIZONTAL)
        .horizontal_padding(1)
        .vertical_alignment(VerticalAlignment::Bottom)
        .horizontal();
    paint(&rule, area, &mut buffer);
    let expected = Buffer::with_lines([
            "┌────────────────Horizontal Rule────────────────┐",
            "│                                               │",
            "│                                               │",
            "│                                               │",
            "│                                               │",
            "│                                               │",
            "│                                               │",
            "│                                               │",
            "│                                               │",
            "│                                               │",
            "│                                               │",
            "│                                               │",
            "│                                               │",
            "│                                               │",
            "│                                               │",
            "│                                               │",
            "│                                               │",
            "│ +─────────────────────+─────────────────────+ │",
            "└───────── Vertical Alignment: Bottom ──────────┘",
        ]);
    assert_eq!(buffer, expected);
}

#[test]
pub fn test_vr() {
    let mut buffer = framed("Vertical Rule", " Horizontal Alignment: Center ");
    let area = buffer.area;
    let rule = Rule::<()>::from_set(VERTICAL)
        .vertical()
        .vertical_padding(1)
        .horizontal_alignment(Alignment::Center);
    paint(&rule, area, &mut buffer);
    let expected = Buffer::with_lines([
        "┌─────────────────Vertical Rule─────────────────┐",
        "│                                               │",
        "│                       +                       │",
        "│                       │                       │",
        "│                       │                       │",
        "│                       │                       │",
        "│                       │                       │",
        "│                       │                       │",
        "│                       │                       │",
        "│                       +                       │",
        "│                       │                       │",
        "│                       │                       │",
        "│                       │                       │",
        "│                       │                       │",
        "│                       │                       │",
        "│                       │                       │",
        "│                       +                       │",
        "│                                               │",
        "└──────── Horizontal Alignment: Center ─────────┘",
    ]);
    assert_eq!(buffer, expected);
    let mut buffer = framed("Vertical Rule", " Horizontal Alignment: Left ");
    let rule = Rule::<()>::from_set(VERTICAL)
        .vertical()
        .vertical_padding(1)
        .horizontal_alignment(Alignment::Left);
    paint(&rule, area, &mut buffer);
    let expected = Buffer::with_lines([
        "┌─────────────────Vertical Rule─────────────────┐",
        "│                                               │",
        "│+                                              │",
        "││                                              │",
        "││                                              │",
        "││                                              │",
        "││                                              │",
        "││                                              │",
        "││                                              │",
        "│+                                              │",
        "││                                              │",
        "││                                              │",
        "││                                              │",
        "││                                              │",
        "││                                              │",
        "││                                              │",
        "│+                                              │",
        "│                                               │",
        "└───────── Horizontal Alignment: Left ──────────┘",
    ]);
    assert_eq!(buffer, expected);
    let expected = Buffer::with_lines([
        "┌─────────────────Vertical Rule─────────────────┐",
        "│                                               │",
        "│                                              +│",
        "│                                              ││",
        "│                                              ││",
        "│                                              ││",
        "│                                              ││",
        "│                                              ││",
        "│                                              ││",
        "│                                              +│",
        "│                                              ││",
        "│                                              ││",
        "│                                              ││",
        "│                                              ││",
        "│                                              ││",
        "│                                              ││",
        "│                                              +│",
        "│                                               │",
        "└───────── Horizontal Alignment: Right ─────────┘",
    ]);
    let mut buffer = framed("Vertical Rule", " Horizontal Alignment: Right ");
    let rule = Rule::<()>::new()
        .with_set(VERTICAL)
        .vertical()
        .vertical_padding(1)
        .main_symbol('│')
        .horizontal_alignment(Alignment::Right);
    paint(&rule, area, &mut buffer);
    assert_eq!(buffer, expected);
}
