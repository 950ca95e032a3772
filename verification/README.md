# tskm

A keyboard-driven task board: projects hold sections, sections hold tasks.

- `src/` is the board's logic, verified with Verus: the data (`model.rs`), the
  board and every rule that changes it (`board.rs`: moving and deleting tasks,
  the arrow keys, project tabs, new tasks, opening and saving), two calls into
  std (`text.rs`), and the laws that hold across the operations (`laws.rs`).
- `app/` is the egui window around it, and the JSON file the board is kept in.
- `tests/` runs the library on concrete boards.
