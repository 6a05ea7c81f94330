# tui_rule

A horizontal or vertical rule (a divider line) for ratatui interfaces.

- `src/` is the verified library: the symbol sets, the rule's settings and
  builder methods, the text of a rule (`create_segment`) and where it is placed
  in an area (`Rule::render_area`, `Rule::layout`, `Rule::try_layout`), with
  the properties of that layout proved in `src/laws.rs`.
- `app/` is the ratatui glue: the `RuleWidget` that paints a laid-out rule into
  a `Buffer`, the colouring along colorgrad gradients, and copies of the
  library's types with serde and builder derives.
- `tests/` holds the widget's rendering tests and tests of the library.
