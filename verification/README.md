# uishell

The state logic of a multi-pane terminal workspace shell, verified with Verus:
the split-pane workspace layout, the function pane (sidebar) and its tabs, the
actions that flow between them, the dialogs' form logic, the dual-pane file
manager (selection, keyboard, clipboard, paste and rename requests), the orders in
which saved connections are listed, the targets of the shell's animations, and
small pieces of the terminal view.

Layout:

- `src/` — the verified library. Each module states its behaviour in `requires` /
  `ensures` over spec functions and views; public proof functions named `law_*`
  state properties that relate several operations.
- `tests/` — tests that run the library with the real outside crates linked.
- `app/` — unverified glue: the persisted form of the layout (serde), the
  floating-point conversions of the front end, and the file-system side of the
  file manager's local panes.
