# claude_usage

A COSMIC top-panel applet that shows how much of the 5-hour session and 7-day
weekly usage budgets is spent, as a small coloured indicator.

- `src/` — the verified library (Verus): settings dropdown mapping, usage record
  staleness, countdown texts, reset windows, which budgets a scope shows, the
  popup state machine and settings changes, and splitting the usage history
  into trimmed candidate lines, newest first. Every public function carries a
  contract; the `pub proof fn`s state the laws that hold across calls.
- `tests/` — tests of the library.
- `app/` — the applet itself (libcosmic): widgets, colours and other floating
  point work, config persistence, the file watch and JSON decoding of records.
