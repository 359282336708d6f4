# AI Usage Monitor

A small floating widget for the Windows desktop that shows how much of a usage
limit is left, with a countdown to the next reset.

- `src/` is the core, written in Verus: the state of the program and every
  decision about it, proved against the contracts that stand with the functions.
  It performs nothing itself. Each operation takes what happened and returns the
  actions to perform.
- `app/` is the shell: it owns the window, the settings file, the network and the
  threads, and performs those actions. What it needs from the rest of a program
  (polling, texts, the tray icon) it takes through the trait `Services`.
- `tests/` runs the core on concrete values.

Some of what is proved, by module:

- `history`: at every moment of a run a model is shown, polling is paused only
  after a failure to sign in, and work on updates ends only by its own end.
- `window`, `launch`: a window that the screen has room for stays on the screen,
  wherever it is dragged; what the user has set comes back in the next run.
- `poll`: retries come after thirty seconds, twice as long each time, never later
  than the normal interval; a failure is reported once.
- `install`, `replace`: the helper starts only after a complete download; as long
  as undoing works, replacing the program never loses the old one.
- `updater`, `version`: only a newer release is offered.
- `menu`: every item is that of a command and is marked as the state is.
- `paint`: the cards lie within the widget, at any DPI at which its size is an
  `i32`, and do not overlap.
