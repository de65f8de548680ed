# tui

The decision and text logic of a terminal dashboard for aurora monitoring,
verified with Verus.

- `src/` is the library: byte-window slicing of timestamps (`text`), the
  tones readings are drawn in (`tone`), which series entries are shown
  (`series`), how replies from the backend become data (`fetch`), the text
  of each panel (`view`) and what a key press does (`control`).
- `app/` is the terminal client around it: HTTP requests, JSON decoding,
  drawing with ratatui and reading keys.
- `tests/` runs the library on concrete values.
