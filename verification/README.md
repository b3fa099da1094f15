# tomatui

A terminal focus timer (work, break and long-break phases) whose logic is a
verified library.

- `src/` is the library, verified with Verus: the countdown and its phase cycle
  (`timer`), the application's decisions on clock ticks and keys (`app`), daily
  statistics and their history (`stats`), the calendar days a history lists
  (`calendar`, through chrono), settings (`config`), command-line values
  (`cli`), the one-line display's text (`minimal`), and the spans and text helpers
  they use (`duration`, `text`, `clock`).
- `app/` is the program around it: argument parsing with clap, settings and
  statistics files as JSON, the terminal loops with crossterm and ratatui,
  notifications, and the floating-point progress of a phase.
- `tests/` exercises the library.
