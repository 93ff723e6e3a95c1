# codex-quota

A desktop widget that watches the rate limits of a Codex account: a main window,
and a floating window that is a card or an orb at the edge of the screen.

- `src/` is the library: everything that the widget decides and computes, with
  contracts that Verus proves. `pixels` holds lengths in double precision as
  integers; `placement`, `orb`, `layout`, `desk` and `drag` place the windows;
  `click_through` lets clicks pass through a pinned card; `events`, `state` and
  `writer` say what is remembered and when; `launcher`, `paths`, `query`, `reading`,
  `json`, `usage` and `proxy` find Codex, ask it and read its answers; `launch`
  holds the menus.
- `tests/` runs the library.
- `app/` is the application around it: windows, tray, taskbar, files, processes
  and threads.

A function whose places on the desktop may lie beyond the range of coordinates
comes with one whose name begins with `check`. It tells whether they do not, and
is called first.
