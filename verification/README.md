# excel_tui

A terminal viewer and editor for Excel (`.xlsx`, `.xls`) and CSV sheets with
Vim-style keys, whose editing core is verified with Verus.

- `src/` — the verified library:
  - `table.rs`: cells, sheets and workbooks, with their values (`CellView`,
    `Sheet::cells`) and every sheet operation stated over them;
  - `app.rs`: the editor state (cursor, modes, edit and command lines, search,
    clipboard, undo and redo histories) and its operations;
  - `control.rs`, `event.rs`: key bindings and how each mode (normal, insert,
    command, search, help) reacts to a key press, including the `:` commands
    (`:w`, `:q`, refused with unsaved changes, `:wq`, `:q!`, `:42`);
  - `reader.rs`, `writer.rs`, `error.rs`: choosing a format by extension, CSV
    decoding (byte order mark, UTF-8, delimiter detection) and CSV encoding
    through the `csv` crate;
  - `layout.rs`: text widths, cell truncation to an exact screen width,
    column widths, scrolling, highlighting, and the contents of the header and
    the status bar;
  - `laws.rs`: properties across operations (undo gives back the sheet; redo
    of an edit, a clearing, a deletion, an opened or a pasted row leaves the
    sheet as the operation left it; sheet and search-hit cycling; the cursor
    staying on the sheet);
  - `text.rs`: character-level string helpers.
- `app/` — the program: terminal I/O with `crossterm` and `ratatui`, file
  access, `.xlsx`/`.xls` reading with `calamine`, `.xlsx` writing with
  `rust_xlsxwriter`, and the floating-point parsing and formatting of numbers.
- `tests/` — the test suite.

Numbers are kept in cells as the bit pattern of their 64-bit float together
with the text they are shown as; both are made by `app/numbers.rs`.
