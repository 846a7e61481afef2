//! The editor state: cursor, modes, edit buffers, search, clipboard and undo history.
use vstd::prelude::*;
use vstd::arithmetic::div_mod::{lemma_add_mod_noop_right, lemma_mod_add_multiples_vanish, lemma_small_mod};
use crate::error::{error_text, AppError};
use crate::layout::capped;
use crate::table::{
    clone_row, cell_at, cell_text, empty_cells, max_row_len, row_view, rows_with_cell, rows_with_row, Cell,
    CellView, Number, Sheet, TableData,
};
use crate::text::{
    chars_equal, chars_of, concat, contains_chars, has_infix, owned, pop_char, push_char, spec_lowercase,
    spec_uppercase, string_from_chars, to_lowercase, to_uppercase, trim_chars, trimmed,
};

verus! {

/// The editor's input mode.
#[derive(Debug, Clone, Copy, PartialEq, Eq, Structural)]
pub enum Mode {
    Normal,
    Insert,
    Command,
    Search,
    Help,
}

/// One undoable change to a sheet.
#[derive(Debug, Clone)]
pub enum Action {
    EditCell { sheet: usize, row: usize, col: usize, old: Cell, new: Cell },
    DeleteRow { sheet: usize, row: usize, cells: Vec<Cell> },
    InsertRow { sheet: usize, row: usize, cells: Vec<Cell> },
    ClearCell { sheet: usize, row: usize, col: usize, old: Cell },
}

/// What a command line asks for.
#[derive(Debug, Clone, PartialEq)]
pub enum CommandResult {
    NoOp,
    Save,
    Quit,
    SaveQuit,
    ForceQuit,
    Unknown(String),
}

/// The sheet an action changes.
pub open spec fn action_sheet(a: Action) -> usize {
    match a {
        Action::EditCell { sheet, .. } => sheet,
        Action::DeleteRow { sheet, .. } => sheet,
        Action::InsertRow { sheet, .. } => sheet,
        Action::ClearCell { sheet, .. } => sheet,
    }
}

/// The mathematical value of an action.
pub enum ActionView {
    EditCell { sheet: usize, row: usize, col: usize, old: CellView, new: CellView },
    DeleteRow { sheet: usize, row: usize, cells: Seq<CellView> },
    InsertRow { sheet: usize, row: usize, cells: Seq<CellView> },
    ClearCell { sheet: usize, row: usize, col: usize, old: CellView },
}

impl View for Action {
    type V = ActionView;

    open spec fn view(&self) -> ActionView {
        match self {
            Action::EditCell { sheet, row, col, old, new } => ActionView::EditCell {
                sheet: *sheet,
                row: *row,
                col: *col,
                old: old@,
                new: new@,
            },
            Action::DeleteRow { sheet, row, cells } => ActionView::DeleteRow {
                sheet: *sheet,
                row: *row,
                cells: row_view(cells@),
            },
            Action::InsertRow { sheet, row, cells } => ActionView::InsertRow {
                sheet: *sheet,
                row: *row,
                cells: row_view(cells@),
            },
            Action::ClearCell { sheet, row, col, old } => ActionView::ClearCell {
                sheet: *sheet,
                row: *row,
                col: *col,
                old: old@,
            },
        }
    }
}

/// The values of the actions of a history, oldest first.
pub open spec fn history_view(h: Seq<Action>) -> Seq<ActionView> {
    h.map_values(|a: Action| a@)
}

/// The cells of row `r` copied across all `width` columns.
pub open spec fn row_copy(s: Seq<Seq<CellView>>, r: int, width: nat) -> Seq<CellView> {
    Seq::new(width, |c: int| cell_at(s, r, c))
}

/// Every action of a history names an existing sheet.
pub open spec fn history_fits(h: Seq<Action>, sheet_count: nat) -> bool {
    forall|i: int| 0 <= i < h.len() ==> (action_sheet(#[trigger] h[i]) as nat) < sheet_count
}

/// `n - 1`, or 0 for 0.
pub open spec fn dec(n: int) -> int {
    if n > 0 { n - 1 } else { 0 }
}

/// The workbook after sheet `i` got the cells `cells`, all else unchanged.
pub open spec fn sheet_changed(pre: TableData, post: TableData, i: int, cells: Seq<Seq<CellView>>) -> bool {
    &&& post.file_path == pre.file_path
    &&& post.sheets@.len() == pre.sheets@.len()
    &&& forall|j: int| 0 <= j < pre.sheets@.len() && j != i ==> post.sheets@[j] == pre.sheets@[j]
    &&& post.sheets@[i].name == pre.sheets@[i].name
    &&& post.sheets@[i].cells() == cells
}

/// The value of an optional parsed number.
pub open spec fn number_view(n: Option<Number>) -> Option<(u64, Seq<char>)> {
    match n {
        Some(x) => Some((x.bits, x.text@)),
        None => None,
    }
}

/// The cell that the text `s` of an edit becomes: empty text gives an empty
/// cell, `TRUE` and `FALSE` in any case give booleans, text that parsed as a
/// number (`number`) gives that number, any other text stays text.
pub open spec fn parsed_cell(s: Seq<char>, number: Option<(u64, Seq<char>)>) -> CellView {
    if s.len() == 0 {
        CellView::Empty
    } else if spec_uppercase(s) == seq!['T', 'R', 'U', 'E'] {
        CellView::Bool(true)
    } else if spec_uppercase(s) == seq!['F', 'A', 'L', 'S', 'E'] {
        CellView::Bool(false)
    } else {
        match number {
            Some((b, t)) => CellView::Number(b, t),
            None => CellView::Text(s),
        }
    }
}

/// The cell an edit's text becomes; `number` is what parsing the text as a
/// 64-bit float gave (`None` when it is not a number).
pub fn parse_cell(s: &str, number: Option<Number>) -> (c: Cell)
    ensures
        c@ == parsed_cell(s@, number_view(number)),
        s@.len() == 0 ==> c@ == CellView::Empty,
        s@.len() > 0 && spec_uppercase(s@) == seq!['T', 'R', 'U', 'E'] ==> c@ == CellView::Bool(true),
        s@.len() > 0 && spec_uppercase(s@) == seq!['F', 'A', 'L', 'S', 'E'] ==> c@ == CellView::Bool(false),
        s@.len() > 0 && spec_uppercase(s@) != seq!['T', 'R', 'U', 'E'] && spec_uppercase(s@) != seq![
            'F',
            'A',
            'L',
            'S',
            'E',
        ] && number is Some ==> c@ == CellView::Number(number->0.bits, number->0.text@),
        s@.len() > 0 && spec_uppercase(s@) != seq!['T', 'R', 'U', 'E'] && spec_uppercase(s@) != seq![
            'F',
            'A',
            'L',
            'S',
            'E',
        ] && number is None ==> c@ == CellView::Text(s@),
{
    let chars = chars_of(s);
    if chars.len() == 0 {
        return Cell::Empty;
    }
    let up = to_uppercase(s);
    let up_chars = chars_of(up.as_str());
    let t = chars_of("TRUE");
    let f = chars_of("FALSE");
    proof {
        reveal_strlit("TRUE");
        reveal_strlit("FALSE");
    }
    assert(t@ =~= seq!['T', 'R', 'U', 'E']);
    assert(f@ =~= seq!['F', 'A', 'L', 'S', 'E']);
    if chars_equal(&up_chars, &t) {
        return Cell::Bool(true);
    }
    if chars_equal(&up_chars, &f) {
        return Cell::Bool(false);
    }
    match number {
        Some(n) => Cell::Number(n),
        None => Cell::Text(owned(s)),
    }
}

/// The number a line of decimal digits writes, `usize::MAX` when it is
/// larger; `None` for an empty line or one with another character.
fn line_number(t: &Vec<char>) -> (r: Option<usize>)
    ensures
        r is Some == (t@.len() > 0 && all_digits(t@)),
        r matches Some(v) ==> v == capped(decimal_value(t@)),
{
    let mut v: usize = 0;
    let mut i: usize = 0;
    assert(t@.take(0) =~= Seq::<char>::empty());
    while i < t.len()
        invariant
            i <= t@.len(),
            all_digits(t@.take(i as int)),
            v == capped(decimal_value(t@.take(i as int))),
        decreases t@.len() - i,
    {
        let code = t[i] as u32;
        if code < 48 || code > 57 {
            assert(!all_digits(t@)) by {
                assert(t@[i as int] as u32 == code);
            }
            return None;
        }
        let d = (code - 48) as usize;
        let ghost e = decimal_value(t@.take(i as int));
        assert(t@.take(i + 1).drop_last() =~= t@.take(i as int));
        assert(decimal_value(t@.take(i + 1)) == e * 10 + d);
        v = match v.checked_mul(10) {
            Some(m) => m.saturating_add(d),
            None => usize::MAX,
        };
        i = i + 1;
        assert(all_digits(t@.take(i as int))) by {
            assert forall|j: int| 0 <= j < i implies 48 <= (#[trigger] t@.take(i as int)[j] as u32) <= 57 by {
                if j < i - 1 {
                    assert(t@.take(i as int)[j] == t@.take(i - 1)[j]);
                }
            }
        }
    }
    assert(t@.take(t@.len() as int) =~= t@);
    if t.len() == 0 {
        None
    } else {
        Some(v)
    }
}

/// The effect of deleting the cursor's row: the row leaves the active sheet, the
/// deletion is recorded for undo, the redo history is dropped, the workbook is
/// marked changed and the cursor moves up if it is now past the last row. With
/// no row under the cursor nothing changes.
pub open spec fn row_deleted(pre: App, post: App) -> bool {
    let s = pre.sheet_cells();
    let r = pre.cursor_row as int;
    if r < s.len() {
        let max = dec(s.len() - 1);
        &&& post == (App {
            data: post.data,
            undo_stack: post.undo_stack,
            redo_stack: post.redo_stack,
            dirty: true,
            cursor_row: if r > max { max as usize } else { pre.cursor_row },
            ..pre
        })
        &&& sheet_changed(pre.data, post.data, pre.active_sheet as int, s.remove(r))
        &&& history_view(post.undo_stack@) == history_view(pre.undo_stack@).push(
            ActionView::DeleteRow { sheet: pre.active_sheet, row: pre.cursor_row, cells: s[r] },
        )
        &&& post.redo_stack@.len() == 0
    } else {
        post == pre
    }
}

/// The effect of copying the cursor's row: the clipboard holds the row's cells
/// across all columns of the sheet, and the status line says the row was copied.
pub open spec fn row_yanked(pre: App, post: App) -> bool {
    &&& post == (App { clipboard: post.clipboard, status_msg: post.status_msg, ..pre })
    &&& post.clipboard matches Some(v) && row_view(v@) == row_copy(
        pre.sheet_cells(),
        pre.cursor_row as int,
        max_row_len(pre.sheet_cells()),
    )
    &&& post.status_msg matches Some(m) && m@ == "Linha copiada"@
}

/// The effect of feeding key `c` to the two-key sequences `gg`, `dd` and `yy`:
/// with a key pending, the pending key is dropped and the sequence it
/// completes with `c` is run (first row, delete row, copy row), any other key
/// completing none; without one, `g`, `d` and `y` become pending and other keys
/// change nothing.
pub open spec fn pending_handled(pre: App, post: App, c: char) -> bool {
    match pre.pending_key {
        Some(p) => {
            let mid = App { pending_key: None, ..pre };
            if p == 'g' && c == 'g' {
                post == (App { cursor_row: 0, ..mid })
            } else if p == 'd' && c == 'd' {
                row_deleted(mid, post)
            } else if p == 'y' && c == 'y' {
                row_yanked(mid, post)
            } else {
                post == mid
            }
        },
        None => if c == 'g' || c == 'd' || c == 'y' {
            post == (App { pending_key: Some(c), ..pre })
        } else {
            post == pre
        },
    }
}

/// The effect of recording how saving went: after a save the workbook counts
/// as unchanged, the editor quits when `quit_after` asks for it and the status
/// line says the file was saved; after a failure only the status line changes,
/// to the error's message.
pub open spec fn save_finished(pre: App, post: App, result: Result<(), AppError>, quit_after: bool) -> bool {
    match result {
        Ok(_) => {
            &&& post == (App {
                dirty: false,
                should_quit: pre.should_quit || quit_after,
                status_msg: post.status_msg,
                ..pre
            })
            &&& post.status_msg matches Some(m) && m@ == "Arquivo salvo"@
        },
        Err(e) => {
            &&& post == (App { status_msg: post.status_msg, ..pre })
            &&& post.status_msg matches Some(m) && m@ == "Erro ao salvar: "@ + error_text(e)
        },
    }
}

/// The effect of entering insert mode: the edit buffer holds the text of the
/// cell under the cursor, the mode is insert and no key sequence is pending.
pub open spec fn insert_entered(pre: App, post: App) -> bool {
    &&& post == (App { edit_buffer: post.edit_buffer, mode: Mode::Insert, pending_key: None, ..pre })
    &&& post.edit_buffer@ == cell_text(cell_at(pre.sheet_cells(), pre.cursor_row as int, pre.cursor_col as int))
}

/// The effect of inserting the row `cells` at `row` of the active sheet, putting
/// the cursor on row `cursor`: the row goes in as `Sheet::insert_row` puts it,
/// the insertion is recorded for undo, the redo history is dropped and the
/// workbook is marked changed.
pub open spec fn row_inserted(pre: App, post: App, row: usize, cells: Seq<CellView>, cursor: usize) -> bool {
    &&& post == (App {
        data: post.data,
        undo_stack: post.undo_stack,
        redo_stack: post.redo_stack,
        dirty: true,
        cursor_row: cursor,
        ..pre
    })
    &&& sheet_changed(pre.data, post.data, pre.active_sheet as int, rows_with_row(pre.sheet_cells(), row as int, cells))
    &&& history_view(post.undo_stack@) == history_view(pre.undo_stack@).push(
        ActionView::InsertRow { sheet: pre.active_sheet, row, cells },
    )
    &&& post.redo_stack@.len() == 0
}

/// The workbook after undoing action `a` on `pre`: an edited or cleared cell
/// gets its old value back, a deleted row is inserted again, an inserted row is
/// deleted again (nothing changes when that row no longer exists).
pub open spec fn undo_data(pre: TableData, post: TableData, a: ActionView) -> bool {
    match a {
        ActionView::EditCell { sheet, row, col, old, .. } => sheet_changed(pre, post, sheet as int,
            rows_with_cell(pre.sheets@[sheet as int].cells(), row as int, col as int, old)),
        ActionView::ClearCell { sheet, row, col, old } => sheet_changed(pre, post, sheet as int,
            rows_with_cell(pre.sheets@[sheet as int].cells(), row as int, col as int, old)),
        ActionView::DeleteRow { sheet, row, cells } => sheet_changed(pre, post, sheet as int,
            rows_with_row(pre.sheets@[sheet as int].cells(), row as int, cells)),
        ActionView::InsertRow { sheet, row, .. } => if (row as int) < pre.sheets@[sheet as int].cells().len() {
            sheet_changed(pre, post, sheet as int, pre.sheets@[sheet as int].cells().remove(row as int))
        } else {
            post == pre
        },
    }
}

/// Where undoing action `a` leaves the cursor, which was at `(r, c)`.
pub open spec fn undo_cursor(a: ActionView, r: usize, c: usize) -> (usize, usize) {
    match a {
        ActionView::EditCell { row, col, .. } => (row, col),
        ActionView::ClearCell { row, col, .. } => (row, col),
        ActionView::DeleteRow { row, .. } => (row, c),
        ActionView::InsertRow { row, .. } => (dec(row as int) as usize, c),
    }
}

/// The workbook after redoing action `a` on `pre`: an edited cell gets its new
/// value, a cleared cell is emptied, a deleted row is deleted again (nothing
/// changes when that row no longer exists), an inserted row is inserted again
/// with the cells it was inserted with.
pub open spec fn redo_data(pre: TableData, post: TableData, a: ActionView) -> bool {
    match a {
        ActionView::EditCell { sheet, row, col, new, .. } => sheet_changed(pre, post, sheet as int,
            rows_with_cell(pre.sheets@[sheet as int].cells(), row as int, col as int, new)),
        ActionView::ClearCell { sheet, row, col, .. } => sheet_changed(pre, post, sheet as int,
            rows_with_cell(pre.sheets@[sheet as int].cells(), row as int, col as int, CellView::Empty)),
        ActionView::DeleteRow { sheet, row, .. } => if (row as int) < pre.sheets@[sheet as int].cells().len() {
            sheet_changed(pre, post, sheet as int, pre.sheets@[sheet as int].cells().remove(row as int))
        } else {
            post == pre
        },
        ActionView::InsertRow { sheet, row, cells } => sheet_changed(pre, post, sheet as int,
            rows_with_row(pre.sheets@[sheet as int].cells(), row as int, cells)),
    }
}

/// Where redoing action `a` leaves the cursor, which was at `(r, c)`.
pub open spec fn redo_cursor(a: ActionView, r: usize, c: usize) -> (usize, usize) {
    match a {
        ActionView::EditCell { row, col, .. } => (row, col),
        ActionView::ClearCell { .. } => (r, c),
        ActionView::DeleteRow { row, .. } => (dec(row as int) as usize, c),
        ActionView::InsertRow { row, .. } => (row, c),
    }
}

/// What a trimmed command line asks for, when it is one of the known commands:
/// `w` saves, `q` quits, `wq` and `x` save and quit, `q!` quits without saving.
pub open spec fn known_command(t: Seq<char>) -> Option<CommandResult> {
    if t == seq!['w'] {
        Some(CommandResult::Save)
    } else if t == seq!['q'] {
        Some(CommandResult::Quit)
    } else if t == seq!['w', 'q'] || t == seq!['x'] {
        Some(CommandResult::SaveQuit)
    } else if t == seq!['q', '!'] {
        Some(CommandResult::ForceQuit)
    } else {
        None
    }
}

/// Every character of the text is a decimal digit.
pub open spec fn all_digits(t: Seq<char>) -> bool {
    forall|i: int| 0 <= i < t.len() ==> 48 <= (#[trigger] t[i] as u32) <= 57
}

/// The number a text of decimal digits writes.
pub open spec fn decimal_value(t: Seq<char>) -> nat
    decreases t.len(),
{
    if t.len() == 0 {
        0
    } else {
        decimal_value(t.drop_last()) * 10 + ((t.last() as u32) - 48) as nat
    }
}

/// The row a command naming line `t` (counted from 1) goes to: that line's
/// row, or the last row when the sheet is shorter (row 0 on an empty sheet).
pub open spec fn line_row(pre: App, t: Seq<char>) -> usize {
    let wanted = dec(decimal_value(t) as int);
    let last = dec(pre.sheet_cells().len() as int);
    (if wanted < last { wanted } else { last }) as usize
}

/// Whether the cell at `(r, c)` is a search hit for the lower-case query `q`:
/// its text in lower case contains `q`.
pub open spec fn cell_matches(s: Seq<Seq<CellView>>, q: Seq<char>, r: int, c: int) -> bool {
    has_infix(spec_lowercase(cell_text(cell_at(s, r, c))), q)
}

/// `a` comes before `b` in row-major order.
pub open spec fn before(a: (usize, usize), b: (usize, usize)) -> bool {
    a.0 < b.0 || (a.0 == b.0 && a.1 < b.1)
}

/// `h` lists, in row-major order and without repeats, exactly the positions of
/// the sheet `s` (rows below its row count, columns below its column count)
/// whose cells match `q`.
pub open spec fn hit_list(h: Seq<(usize, usize)>, s: Seq<Seq<CellView>>, q: Seq<char>) -> bool {
    &&& forall|k: int| 0 <= k < h.len() ==> {
        &&& (#[trigger] h[k]).0 < s.len()
        &&& h[k].1 < max_row_len(s)
        &&& cell_matches(s, q, h[k].0 as int, h[k].1 as int)
    }
    &&& forall|r: usize, c: usize| r < s.len() && c < max_row_len(s) && cell_matches(s, q, r as int, c as int)
        ==> #[trigger] h.contains((r, c))
    &&& forall|i: int, j: int| 0 <= i < j < h.len() ==> before(#[trigger] h[i], #[trigger] h[j])
}

/// The editor after moving the cursor one row down, unless it is on the last row.
pub open spec fn scrolled_down(pre: App) -> App {
    App {
        cursor_row: if pre.cursor_row < dec(pre.sheet_cells().len() as int) {
            (pre.cursor_row + 1) as usize
        } else {
            pre.cursor_row
        },
        ..pre
    }
}

/// The editor after moving the cursor one row up, unless it is on the first row.
pub open spec fn scrolled_up(pre: App) -> App {
    App { cursor_row: dec(pre.cursor_row as int) as usize, ..pre }
}

/// The editor after moving the cursor one column right, unless it is on the last column.
pub open spec fn scrolled_right(pre: App) -> App {
    App {
        cursor_col: if pre.cursor_col < dec(max_row_len(pre.sheet_cells()) as int) {
            (pre.cursor_col + 1) as usize
        } else {
            pre.cursor_col
        },
        ..pre
    }
}

/// The editor after moving the cursor one column left, unless it is on the first column.
pub open spec fn scrolled_left(pre: App) -> App {
    App { cursor_col: dec(pre.cursor_col as int) as usize, ..pre }
}

/// The editor with the cursor on the last row (row 0 of an empty sheet).
pub open spec fn at_last_row(pre: App) -> App {
    App { cursor_row: dec(pre.sheet_cells().len() as int) as usize, ..pre }
}

/// The editor with the cursor on the last column (column 0 of an empty sheet).
pub open spec fn at_last_col(pre: App) -> App {
    App { cursor_col: dec(max_row_len(pre.sheet_cells()) as int) as usize, ..pre }
}

/// The editor with sheet `i` active and the cursor and scroll position at the origin.
pub open spec fn on_sheet(pre: App, i: int) -> App {
    App { active_sheet: i as usize, cursor_row: 0, cursor_col: 0, row_offset: 0, col_offset: 0, ..pre }
}

/// The editor on the next sheet, the first after the last.
pub open spec fn next_sheet_of(pre: App) -> App {
    on_sheet(pre, (pre.active_sheet + 1) % (pre.data.sheets@.len() as int))
}

/// The editor on the previous sheet, the last before the first.
pub open spec fn prev_sheet_of(pre: App) -> App {
    on_sheet(pre, (pre.active_sheet + pre.data.sheets@.len() - 1) % (pre.data.sheets@.len() as int))
}

/// The editor with the help overlay toggled: help mode goes back to normal mode,
/// any other mode goes to help mode.
pub open spec fn help_toggled(pre: App) -> App {
    App { mode: if pre.mode == Mode::Help { Mode::Normal } else { Mode::Help }, ..pre }
}

/// The editor with search hit `i` selected and the cursor on it.
pub open spec fn on_hit(pre: App, i: int) -> App {
    App {
        search_idx: i as usize,
        cursor_row: pre.search_hits@[i].0,
        cursor_col: pre.search_hits@[i].1,
        ..pre
    }
}

/// The editor on the next search hit, the first after the last; unchanged
/// without hits.
pub open spec fn next_hit(pre: App) -> App {
    if pre.search_hits@.len() == 0 {
        pre
    } else {
        on_hit(pre, (pre.search_idx + 1) % (pre.search_hits@.len() as int))
    }
}

/// The editor on the previous search hit, the last before the first; unchanged
/// without hits.
pub open spec fn prev_hit(pre: App) -> App {
    let n = pre.search_hits@.len() as int;
    if n == 0 {
        pre
    } else {
        on_hit(pre, (pre.search_idx + n - 1) % n)
    }
}

/// The effect of entering search mode: empty query, no hits, the first hit
/// selected, no key sequence pending.
pub open spec fn search_entered(pre: App, post: App) -> bool {
    &&& post == (App {
        search_query: post.search_query,
        search_hits: post.search_hits,
        search_idx: 0,
        mode: Mode::Search,
        pending_key: None,
        ..pre
    })
    &&& post.search_query@.len() == 0
    &&& post.search_hits@.len() == 0
}

/// The effect of searching the active sheet for `query`, ignoring case: the
/// query is kept in lower case, the hits are all cells whose text contains it
/// (see `hit_list`), the first hit is selected and the cursor moves onto it;
/// without hits the cursor stays.
pub open spec fn searched(pre: App, post: App, query: Seq<char>) -> bool {
    &&& post == (App {
        search_query: post.search_query,
        search_hits: post.search_hits,
        search_idx: 0,
        cursor_row: post.cursor_row,
        cursor_col: post.cursor_col,
        ..pre
    })
    &&& post.search_query@ == spec_lowercase(query)
    &&& hit_list(post.search_hits@, pre.sheet_cells(), spec_lowercase(query))
    &&& post.search_hits@.len() > 0 ==> post.cursor_row == post.search_hits@[0].0
        && post.cursor_col == post.search_hits@[0].1
    &&& post.search_hits@.len() == 0 ==> post.cursor_row == pre.cursor_row && post.cursor_col == pre.cursor_col
}

/// The effect of confirming an edit, `number` being what parsing the edit
/// buffer as a float gave: the cell under the cursor becomes `parsed_cell` of
/// the buffer, the change is recorded for undo, the redo history is dropped,
/// the workbook is marked changed and the mode goes back to normal.
pub open spec fn edit_confirmed(pre: App, post: App, number: Option<(u64, Seq<char>)>) -> bool {
    let s = pre.sheet_cells();
    let r = pre.cursor_row;
    let c = pre.cursor_col;
    let new = parsed_cell(pre.edit_buffer@, number);
    &&& post == (App {
        data: post.data,
        undo_stack: post.undo_stack,
        redo_stack: post.redo_stack,
        dirty: true,
        mode: Mode::Normal,
        ..pre
    })
    &&& sheet_changed(pre.data, post.data, pre.active_sheet as int, rows_with_cell(s, r as int, c as int, new))
    &&& history_view(post.undo_stack@) == history_view(pre.undo_stack@).push(
        ActionView::EditCell { sheet: pre.active_sheet, row: r, col: c, old: cell_at(s, r as int, c as int), new },
    )
    &&& post.redo_stack@.len() == 0
}

/// The effect of clearing the cell under the cursor: it becomes empty, the
/// change is recorded for undo, the redo history is dropped and the workbook
/// is marked changed.
pub open spec fn cell_cleared(pre: App, post: App) -> bool {
    let s = pre.sheet_cells();
    let r = pre.cursor_row;
    let c = pre.cursor_col;
    &&& post == (App { data: post.data, undo_stack: post.undo_stack, redo_stack: post.redo_stack, dirty: true, ..pre })
    &&& sheet_changed(pre.data, post.data, pre.active_sheet as int, rows_with_cell(s, r as int, c as int, CellView::Empty))
    &&& history_view(post.undo_stack@) == history_view(pre.undo_stack@).push(
        ActionView::ClearCell { sheet: pre.active_sheet, row: r, col: c, old: cell_at(s, r as int, c as int) },
    )
    &&& post.redo_stack@.len() == 0
}

/// The effect of undo: with nothing to undo nothing changes; otherwise the
/// latest action is undone (see `undo_data` and `undo_cursor`) and moves from
/// the undo history to the redo history.
pub open spec fn undone(pre: App, post: App) -> bool {
    if pre.undo_stack@.len() == 0 {
        post == pre
    } else {
        let a = pre.undo_stack@.last();
        let cur = undo_cursor(a@, pre.cursor_row, pre.cursor_col);
        &&& post == (App {
            data: post.data,
            undo_stack: post.undo_stack,
            redo_stack: post.redo_stack,
            cursor_row: cur.0,
            cursor_col: cur.1,
            ..pre
        })
        &&& undo_data(pre.data, post.data, a@)
        &&& post.undo_stack@ == pre.undo_stack@.drop_last()
        &&& post.redo_stack@ == pre.redo_stack@.push(a)
    }
}

/// The effect of redo: with nothing to redo nothing changes; otherwise the
/// latest undone action is applied again (see `redo_data` and `redo_cursor`)
/// and moves from the redo history back to the undo history.
pub open spec fn redone(pre: App, post: App) -> bool {
    if pre.redo_stack@.len() == 0 {
        post == pre
    } else {
        let a = pre.redo_stack@.last();
        let cur = redo_cursor(a@, pre.cursor_row, pre.cursor_col);
        &&& post == (App {
            data: post.data,
            undo_stack: post.undo_stack,
            redo_stack: post.redo_stack,
            cursor_row: cur.0,
            cursor_col: cur.1,
            ..pre
        })
        &&& redo_data(pre.data, post.data, a@)
        &&& post.redo_stack@ == pre.redo_stack@.drop_last()
        &&& post.undo_stack@ == pre.undo_stack@.push(a)
    }
}

/// The effect of `o`: an empty row is inserted below the cursor's row (see
/// `row_inserted`), the cursor moves onto it and insert mode is entered there.
pub open spec fn opened_below(pre: App, post: App) -> bool {
    exists|mid: App| {
        &&& #[trigger] row_inserted(pre, mid, (pre.cursor_row + 1) as usize,
            empty_cells(max_row_len(pre.sheet_cells())), (pre.cursor_row + 1) as usize)
        &&& mid.wf()
        &&& insert_entered(mid, post)
    }
}

/// The effect of `O`: an empty row is inserted at the cursor's row (see
/// `row_inserted`), the cursor staying on it, and insert mode is entered there.
pub open spec fn opened_above(pre: App, post: App) -> bool {
    exists|mid: App| {
        &&& #[trigger] row_inserted(pre, mid, pre.cursor_row, empty_cells(max_row_len(pre.sheet_cells())), pre.cursor_row)
        &&& mid.wf()
        &&& insert_entered(mid, post)
    }
}

/// The effect of `p`: the clipboard's row is inserted below the cursor's row
/// and the cursor moves onto it; nothing changes with an empty clipboard.
pub open spec fn pasted_below(pre: App, post: App) -> bool {
    match pre.clipboard {
        Some(v) => row_inserted(pre, post, (pre.cursor_row + 1) as usize, row_view(v@), (pre.cursor_row + 1) as usize),
        None => post == pre,
    }
}

/// The effect of `P`: the clipboard's row is inserted at the cursor's row, the
/// cursor staying on it; nothing changes with an empty clipboard.
pub open spec fn pasted_above(pre: App, post: App) -> bool {
    match pre.clipboard {
        Some(v) => row_inserted(pre, post, pre.cursor_row, row_view(v@), pre.cursor_row),
        None => post == pre,
    }
}

/// The whole editor state.
#[derive(Debug)]
pub struct App {
    pub data: TableData,
    pub active_sheet: usize,
    pub cursor_row: usize,
    pub cursor_col: usize,
    pub row_offset: usize,
    pub col_offset: usize,
    pub mode: Mode,
    pub pending_key: Option<char>,
    pub edit_buffer: String,
    pub command_buffer: String,
    pub search_query: String,
    pub search_hits: Vec<(usize, usize)>,
    pub search_idx: usize,
    pub clipboard: Option<Vec<Cell>>,
    pub dirty: bool,
    pub undo_stack: Vec<Action>,
    pub redo_stack: Vec<Action>,
    pub should_quit: bool,
    pub status_msg: Option<String>,
}

impl App {
    /// The state the editor methods rely on: the active sheet exists and the
    /// history names existing sheets only.
    pub open spec fn wf(&self) -> bool {
        &&& self.active_sheet < self.data.sheets@.len()
        &&& history_fits(self.undo_stack@, self.data.sheets@.len())
        &&& history_fits(self.redo_stack@, self.data.sheets@.len())
    }

    /// The cells of the active sheet.
    pub open spec fn sheet_cells(&self) -> Seq<Seq<CellView>> {
        self.data.sheets@[self.active_sheet as int].cells()
    }

    /// A fresh editor on a workbook: cursor and scroll at the origin, normal
    /// mode, empty buffers, search, clipboard and history, nothing changed.
    pub fn new(data: TableData) -> (app: App)
        ensures
            app.data == data,
            app.active_sheet == 0,
            app.cursor_row == 0,
            app.cursor_col == 0,
            app.row_offset == 0,
            app.col_offset == 0,
            app.mode == Mode::Normal,
            app.pending_key is None,
            app.edit_buffer@.len() == 0,
            app.command_buffer@.len() == 0,
            app.search_query@.len() == 0,
            app.search_hits@.len() == 0,
            app.search_idx == 0,
            app.clipboard is None,
            !app.dirty,
            app.undo_stack@.len() == 0,
            app.redo_stack@.len() == 0,
            !app.should_quit,
            app.status_msg is None,
            data.sheets@.len() > 0 ==> app.wf(),
    {
        App {
            data,
            active_sheet: 0,
            cursor_row: 0,
            cursor_col: 0,
            row_offset: 0,
            col_offset: 0,
            mode: Mode::Normal,
            pending_key: None,
            edit_buffer: String::new(),
            command_buffer: String::new(),
            search_query: String::new(),
            search_hits: Vec::new(),
            search_idx: 0,
            clipboard: None,
            dirty: false,
            undo_stack: Vec::new(),
            redo_stack: Vec::new(),
            should_quit: false,
            status_msg: None,
        }
    }

    /// The active sheet.
    pub fn current_sheet(&self) -> (s: &Sheet)
        requires
            self.wf(),
        ensures
            *s == self.data.sheets@[self.active_sheet as int],
    {
        &self.data.sheets[self.active_sheet]
    }

    /// Moves the cursor one row down, unless it is on the last row.
    pub fn scroll_down(&mut self)
        requires
            old(self).wf(),
        ensures
            *final(self) == scrolled_down(*old(self)),
            *final(self) == (App { cursor_row: final(self).cursor_row, ..*old(self) }),
            final(self).cursor_row == if old(self).cursor_row + 1 < old(self).sheet_cells().len() {
                old(self).cursor_row + 1
            } else {
                old(self).cursor_row as int
            },
    {
        let max = self.current_sheet().row_count();
        let max = if max > 0 { max - 1 } else { 0 };
        if self.cursor_row < max {
            self.cursor_row = self.cursor_row + 1;
        }
    }

    /// Moves the cursor one row up, unless it is on the first row.
    pub fn scroll_up(&mut self)
        ensures
            *final(self) == scrolled_up(*old(self)),
            *final(self) == (App { cursor_row: final(self).cursor_row, ..*old(self) }),
            final(self).cursor_row == if old(self).cursor_row > 0 { old(self).cursor_row - 1 } else { 0 },
    {
        if self.cursor_row > 0 {
            self.cursor_row = self.cursor_row - 1;
        }
    }

    /// Moves the cursor one column right, unless it is on the last column.
    pub fn scroll_right(&mut self)
        requires
            old(self).wf(),
        ensures
            *final(self) == scrolled_right(*old(self)),
            *final(self) == (App { cursor_col: final(self).cursor_col, ..*old(self) }),
            final(self).cursor_col == if old(self).cursor_col + 1 < max_row_len(old(self).sheet_cells()) {
                old(self).cursor_col + 1
            } else {
                old(self).cursor_col as int
            },
    {
        let max = self.current_sheet().col_count();
        let max = if max > 0 { max - 1 } else { 0 };
        if self.cursor_col < max {
            self.cursor_col = self.cursor_col + 1;
        }
    }

    /// Moves the cursor one column left, unless it is on the first column.
    pub fn scroll_left(&mut self)
        ensures
            *final(self) == scrolled_left(*old(self)),
            *final(self) == (App { cursor_col: final(self).cursor_col, ..*old(self) }),
            final(self).cursor_col == if old(self).cursor_col > 0 { old(self).cursor_col - 1 } else { 0 },
    {
        if self.cursor_col > 0 {
            self.cursor_col = self.cursor_col - 1;
        }
    }

    /// Moves the cursor to the first row.
    pub fn goto_first_row(&mut self)
        ensures
            *final(self) == (App { cursor_row: 0, ..*old(self) }),
    {
        self.cursor_row = 0;
    }

    /// Moves the cursor to the last row (row 0 of an empty sheet).
    pub fn goto_last_row(&mut self)
        requires
            old(self).wf(),
        ensures
            *final(self) == at_last_row(*old(self)),
            *final(self) == (App { cursor_row: final(self).cursor_row, ..*old(self) }),
            old(self).sheet_cells().len() > 0 ==> final(self).cursor_row == old(self).sheet_cells().len() - 1,
            old(self).sheet_cells().len() == 0 ==> final(self).cursor_row == 0,
    {
        let n = self.current_sheet().row_count();
        self.cursor_row = if n > 0 { n - 1 } else { 0 };
    }

    /// Moves the cursor to the first column.
    pub fn goto_first_col(&mut self)
        ensures
            *final(self) == (App { cursor_col: 0, ..*old(self) }),
    {
        self.cursor_col = 0;
    }

    /// Moves the cursor to the last column (column 0 of an empty sheet).
    pub fn goto_last_col(&mut self)
        requires
            old(self).wf(),
        ensures
            *final(self) == at_last_col(*old(self)),
            *final(self) == (App { cursor_col: final(self).cursor_col, ..*old(self) }),
            max_row_len(old(self).sheet_cells()) > 0 ==> final(self).cursor_col == max_row_len(old(self).sheet_cells()) - 1,
            max_row_len(old(self).sheet_cells()) == 0 ==> final(self).cursor_col == 0,
    {
        let n = self.current_sheet().col_count();
        self.cursor_col = if n > 0 { n - 1 } else { 0 };
    }

    /// Puts the cursor and the scroll position back at the origin.
    fn reset_cursor(&mut self)
        ensures
            *final(self) == (App { cursor_row: 0, cursor_col: 0, row_offset: 0, col_offset: 0, ..*old(self) }),
    {
        self.cursor_row = 0;
        self.cursor_col = 0;
        self.row_offset = 0;
        self.col_offset = 0;
    }

    /// Makes the next sheet active, the first after the last, with the cursor
    /// and scroll position at the origin.
    pub fn next_sheet(&mut self)
        requires
            old(self).wf(),
        ensures
            *final(self) == next_sheet_of(*old(self)),
            final(self).wf(),
            final(self).active_sheet == if old(self).active_sheet + 1 < old(self).data.sheets@.len() {
                old(self).active_sheet + 1
            } else {
                0
            },
            final(self).cursor_row == 0 && final(self).cursor_col == 0,
            final(self).row_offset == 0 && final(self).col_offset == 0,
            final(self).data == old(self).data,
    {
        let count = self.data.sheet_count();
        let a = self.active_sheet;
        self.active_sheet = (a + 1) % count;
        proof {
            if a + 1 < count {
                lemma_small_mod((a + 1) as nat, count as nat);
            } else {
                vstd::arithmetic::div_mod::lemma_mod_self_0(count as int);
            }
        }
        self.reset_cursor();
    }

    /// Makes the previous sheet active, the last before the first, with the
    /// cursor and scroll position at the origin.
    pub fn prev_sheet(&mut self)
        requires
            old(self).wf(),
        ensures
            *final(self) == prev_sheet_of(*old(self)),
            final(self).wf(),
            final(self).active_sheet == if old(self).active_sheet > 0 {
                old(self).active_sheet - 1
            } else {
                old(self).data.sheets@.len() - 1
            },
            final(self).cursor_row == 0 && final(self).cursor_col == 0,
            final(self).row_offset == 0 && final(self).col_offset == 0,
            final(self).data == old(self).data,
    {
        let count = self.data.sheet_count();
        let a = self.active_sheet;
        self.active_sheet = if a == 0 { count - 1 } else { a - 1 };
        assert(self.active_sheet == (a + count - 1) % (count as int)) by (nonlinear_arith)
            requires
                a < count,
                self.active_sheet == if a == 0 { count - 1 } else { a - 1 },
        ;
        self.reset_cursor();
    }

    /// Toggles the help overlay: help mode goes back to normal mode, any other
    /// mode goes to help mode.
    pub fn toggle_help(&mut self)
        ensures
            *final(self) == help_toggled(*old(self)),
            *final(self) == (App { mode: final(self).mode, ..*old(self) }),
            old(self).mode == Mode::Help ==> final(self).mode == Mode::Normal,
            old(self).mode != Mode::Help ==> final(self).mode == Mode::Help,
    {
        self.mode = if self.mode == Mode::Help { Mode::Normal } else { Mode::Help };
    }

    /// Replaces a cell of sheet `i`.
    fn sheet_set_cell(&mut self, i: usize, row: usize, col: usize, cell: Cell)
        requires
            i < old(self).data.sheets@.len(),
        ensures
            *final(self) == (App { data: final(self).data, ..*old(self) }),
            sheet_changed(old(self).data, final(self).data, i as int,
                rows_with_cell(old(self).data.sheets@[i as int].cells(), row as int, col as int, cell@)),
    {
        self.data.sheets[i].set_cell(row, col, cell);
    }

    /// Inserts a row into sheet `i`.
    fn sheet_insert_row(&mut self, i: usize, row: usize, cells: Vec<Cell>)
        requires
            i < old(self).data.sheets@.len(),
        ensures
            *final(self) == (App { data: final(self).data, ..*old(self) }),
            sheet_changed(old(self).data, final(self).data, i as int,
                rows_with_row(old(self).data.sheets@[i as int].cells(), row as int, row_view(cells@))),
    {
        self.data.sheets[i].insert_row(row, cells);
    }

    /// Deletes a row of sheet `i`.
    fn sheet_delete_row(&mut self, i: usize, row: usize) -> (r: Option<Vec<Cell>>)
        requires
            i < old(self).data.sheets@.len(),
        ensures
            *final(self) == (App { data: final(self).data, ..*old(self) }),
            row < old(self).data.sheets@[i as int].cells().len() ==> {
                &&& r is Some
                &&& row_view(r->0@) == old(self).data.sheets@[i as int].cells()[row as int]
                &&& sheet_changed(old(self).data, final(self).data, i as int,
                    old(self).data.sheets@[i as int].cells().remove(row as int))
            },
            row >= old(self).data.sheets@[i as int].cells().len() ==> r is None && final(self).data == old(self).data,
    {
        if row < self.data.sheets[i].row_count() {
            self.data.sheets[i].delete_row(row)
        } else {
            None
        }
    }

    /// Records an action for undo and drops the redo history.
    fn push_undo(&mut self, action: Action)
        requires
            old(self).wf(),
            (action_sheet(action) as nat) < old(self).data.sheets@.len(),
        ensures
            *final(self) == (App { undo_stack: final(self).undo_stack, redo_stack: final(self).redo_stack, ..*old(self) }),
            final(self).undo_stack@ == old(self).undo_stack@.push(action),
            history_view(final(self).undo_stack@) == history_view(old(self).undo_stack@).push(action@),
            final(self).redo_stack@.len() == 0,
            final(self).wf(),
    {
        self.undo_stack.push(action);
        self.redo_stack.clear();
        assert(history_view(self.undo_stack@) =~= history_view(old(self).undo_stack@).push(action@));
    }

    /// Deletes the cursor's row (`dd`); see `row_deleted`.
    pub fn delete_row(&mut self)
        requires
            old(self).wf(),
        ensures
            row_deleted(*old(self), *final(self)),
            final(self).wf(),
    {
        let row = self.cursor_row;
        let sheet = self.active_sheet;
        match self.sheet_delete_row(sheet, row) {
            Some(cells) => {
                self.push_undo(Action::DeleteRow { sheet, row, cells });
                self.dirty = true;
                let n = self.current_sheet().row_count();
                let max = if n > 0 { n - 1 } else { 0 };
                if self.cursor_row > max {
                    self.cursor_row = max;
                }
            },
            None => {},
        }
    }

    /// Copies the cursor's row to the clipboard (`yy`); see `row_yanked`.
    pub fn yank_row(&mut self)
        requires
            old(self).wf(),
        ensures
            row_yanked(*old(self), *final(self)),
            final(self).wf(),
    {
        let row = self.cursor_row;
        let n = self.current_sheet().col_count();
        let mut cells: Vec<Cell> = Vec::new();
        let mut c: usize = 0;
        while c < n
            invariant
                self == old(self),
                self.wf(),
                n == max_row_len(self.sheet_cells()),
                row == self.cursor_row,
                c <= n,
                cells@.len() == c,
                forall|j: int| 0 <= j < c ==> #[trigger] cells@[j]@ == cell_at(self.sheet_cells(), row as int, j),
            decreases n - c,
        {
            cells.push(self.current_sheet().get(row, c).clone_cell());
            c = c + 1;
        }
        assert(row_view(cells@) =~= row_copy(self.sheet_cells(), row as int, n as nat));
        self.clipboard = Some(cells);
        self.status_msg = Some(owned("Linha copiada"));
    }

    /// Feeds a key to the two-key sequences `gg` (first row), `dd` (delete row)
    /// and `yy` (copy row). With a key pending, the pending key is dropped, the
    /// sequence it completes is run, and the key counts as consumed. Without one,
    /// `g`, `d` and `y` become pending and count as consumed; other keys are not
    /// consumed and change nothing.
    pub fn handle_pending_key(&mut self, c: char) -> (consumed: bool)
        requires
            old(self).wf(),
        ensures
            final(self).wf(),
            pending_handled(*old(self), *final(self), c),
            consumed == (old(self).pending_key is Some || c == 'g' || c == 'd' || c == 'y'),
    {
        match self.pending_key {
            Some(prev) => {
                self.pending_key = None;
                if prev == 'g' && c == 'g' {
                    self.goto_first_row();
                } else if prev == 'd' && c == 'd' {
                    self.delete_row();
                } else if prev == 'y' && c == 'y' {
                    self.yank_row();
                }
                true
            },
            None => {
                if c == 'g' || c == 'd' || c == 'y' {
                    self.pending_key = Some(c);
                    true
                } else {
                    false
                }
            },
        }
    }

    /// Records how saving the workbook went; see `save_finished`.
    pub fn finish_save(&mut self, result: Result<(), AppError>, quit_after: bool)
        ensures
            save_finished(*old(self), *final(self), result, quit_after),
    {
        match result {
            Ok(_) => {
                self.dirty = false;
                self.should_quit = self.should_quit || quit_after;
                self.status_msg = Some(owned("Arquivo salvo"));
            },
            Err(e) => {
                let m = e.message();
                self.status_msg = Some(concat("Erro ao salvar: ", m.as_str()));
            },
        }
    }

    /// Enters insert mode on the cell under the cursor; see `insert_entered`.
    pub fn enter_insert(&mut self)
        requires
            old(self).wf(),
        ensures
            insert_entered(*old(self), *final(self)),
            final(self).wf(),
    {
        self.edit_buffer = self.current_sheet().get(self.cursor_row, self.cursor_col).to_text();
        self.mode = Mode::Insert;
        self.pending_key = None;
    }

    /// Appends a character to the edit buffer.
    pub fn edit_push(&mut self, c: char)
        ensures
            *final(self) == (App { edit_buffer: final(self).edit_buffer, ..*old(self) }),
            final(self).edit_buffer@ == old(self).edit_buffer@.push(c),
    {
        push_char(&mut self.edit_buffer, c);
    }

    /// Removes the last character of the edit buffer, if any.
    pub fn edit_backspace(&mut self)
        ensures
            *final(self) == (App { edit_buffer: final(self).edit_buffer, ..*old(self) }),
            final(self).edit_buffer@ == if old(self).edit_buffer@.len() > 0 {
                old(self).edit_buffer@.drop_last()
            } else {
                old(self).edit_buffer@
            },
    {
        pop_char(&mut self.edit_buffer);
    }

    /// Writes the edit buffer into the cell under the cursor and returns to
    /// normal mode. `number` is what parsing the buffer as a 64-bit float gave;
    /// the new cell is `parsed_cell` of the buffer. The change is recorded for
    /// undo, the redo history is dropped and the workbook is marked changed.
    pub fn confirm_edit(&mut self, number: Option<Number>)
        requires
            old(self).wf(),
        ensures
            edit_confirmed(*old(self), *final(self), number_view(number)),
            final(self).wf(),
    {
        let new_cell = parse_cell(self.edit_buffer.as_str(), number);
        let row = self.cursor_row;
        let col = self.cursor_col;
        let sheet = self.active_sheet;
        let old_cell = self.current_sheet().get(row, col).clone_cell();
        let new_copy = new_cell.clone_cell();
        self.sheet_set_cell(sheet, row, col, new_copy);
        self.push_undo(Action::EditCell { sheet, row, col, old: old_cell, new: new_cell });
        self.dirty = true;
        self.mode = Mode::Normal;
    }

    /// Leaves insert mode without changing the sheet; the edit buffer is emptied.
    pub fn cancel_edit(&mut self)
        ensures
            *final(self) == (App { edit_buffer: final(self).edit_buffer, mode: Mode::Normal, ..*old(self) }),
            final(self).edit_buffer@.len() == 0,
    {
        self.edit_buffer = String::new();
        self.mode = Mode::Normal;
    }

    /// Inserts an empty row below the cursor's row, moves the cursor onto it and
    /// enters insert mode there (`o`).
    pub fn insert_row_below(&mut self)
        requires
            old(self).wf(),
            old(self).cursor_row < usize::MAX,
        ensures
            final(self).wf(),
            opened_below(*old(self), *final(self)),
    {
        let row = self.cursor_row + 1;
        let sheet = self.active_sheet;
        let empty = self.current_sheet().empty_row();
        let kept = clone_row(&empty);
        self.sheet_insert_row(sheet, row, empty);
        self.cursor_row = row;
        self.push_undo(Action::InsertRow { sheet, row, cells: kept });
        self.dirty = true;
        let ghost mid = *self;
        assert(row_inserted(*old(self), mid, row, empty_cells(max_row_len(old(self).sheet_cells())), row));
        self.enter_insert();
    }

    /// Inserts an empty row above the cursor's row, keeps the cursor on the new
    /// row and enters insert mode there (`O`).
    pub fn insert_row_above(&mut self)
        requires
            old(self).wf(),
        ensures
            final(self).wf(),
            opened_above(*old(self), *final(self)),
    {
        let row = self.cursor_row;
        let sheet = self.active_sheet;
        let empty = self.current_sheet().empty_row();
        let kept = clone_row(&empty);
        self.sheet_insert_row(sheet, row, empty);
        self.push_undo(Action::InsertRow { sheet, row, cells: kept });
        self.dirty = true;
        let ghost mid = *self;
        assert(row_inserted(*old(self), mid, row, empty_cells(max_row_len(old(self).sheet_cells())), row));
        self.enter_insert();
    }

    /// Inserts the clipboard's row below the cursor's row and moves the cursor
    /// onto it (`p`); nothing happens with an empty clipboard.
    pub fn paste_below(&mut self)
        requires
            old(self).wf(),
            old(self).clipboard is Some ==> old(self).cursor_row < usize::MAX,
        ensures
            final(self).wf(),
            pasted_below(*old(self), *final(self)),
    {
        let cells = match &self.clipboard {
            Some(v) => clone_row(v),
            None => {
                return;
            },
        };
        let row = self.cursor_row + 1;
        let sheet = self.active_sheet;
        let kept = clone_row(&cells);
        self.sheet_insert_row(sheet, row, cells);
        self.push_undo(Action::InsertRow { sheet, row, cells: kept });
        self.cursor_row = row;
        self.dirty = true;
    }

    /// Inserts the clipboard's row above the cursor's row, the cursor staying
    /// on the pasted row (`P`); nothing happens with an empty clipboard.
    pub fn paste_above(&mut self)
        requires
            old(self).wf(),
        ensures
            final(self).wf(),
            pasted_above(*old(self), *final(self)),
    {
        let cells = match &self.clipboard {
            Some(v) => clone_row(v),
            None => {
                return;
            },
        };
        let row = self.cursor_row;
        let sheet = self.active_sheet;
        let kept = clone_row(&cells);
        self.sheet_insert_row(sheet, row, cells);
        self.push_undo(Action::InsertRow { sheet, row, cells: kept });
        self.dirty = true;
    }

    /// Empties the cell under the cursor (`x`); the change is recorded for undo,
    /// the redo history is dropped and the workbook is marked changed.
    pub fn clear_cell(&mut self)
        requires
            old(self).wf(),
        ensures
            cell_cleared(*old(self), *final(self)),
            final(self).wf(),
    {
        let row = self.cursor_row;
        let col = self.cursor_col;
        let sheet = self.active_sheet;
        let old_cell = self.current_sheet().get(row, col).clone_cell();
        self.sheet_set_cell(sheet, row, col, Cell::Empty);
        self.push_undo(Action::ClearCell { sheet, row, col, old: old_cell });
        self.dirty = true;
    }

    /// Undoes the latest recorded action (`u`) and moves it to the redo
    /// history; see `undo_data` and `undo_cursor`. With nothing to undo nothing
    /// changes.
    pub fn undo(&mut self)
        requires
            old(self).wf(),
        ensures
            final(self).wf(),
            undone(*old(self), *final(self)),
    {
        if self.undo_stack.len() == 0 {
            return;
        }
        let action = match self.undo_stack.pop() {
            Some(a) => a,
            None => {
                return;
            },
        };
        proof {
            assert(old(self).undo_stack@[old(self).undo_stack@.len() - 1] == action);
        }
        match &action {
            Action::EditCell { sheet, row, col, old, .. } => {
                self.sheet_set_cell(*sheet, *row, *col, old.clone_cell());
                self.cursor_row = *row;
                self.cursor_col = *col;
            },
            Action::DeleteRow { sheet, row, cells } => {
                self.sheet_insert_row(*sheet, *row, clone_row(cells));
                self.cursor_row = *row;
            },
            Action::InsertRow { sheet, row, .. } => {
                self.sheet_delete_row(*sheet, *row);
                self.cursor_row = if *row > 0 { *row - 1 } else { 0 };
            },
            Action::ClearCell { sheet, row, col, old } => {
                self.sheet_set_cell(*sheet, *row, *col, old.clone_cell());
                self.cursor_row = *row;
                self.cursor_col = *col;
            },
        }
        self.redo_stack.push(action);
    }

    /// Redoes the latest undone action (`Ctrl+R`) and moves it back to the undo
    /// history; see `redo_data` and `redo_cursor`. With nothing to redo nothing
    /// changes.
    pub fn redo(&mut self)
        requires
            old(self).wf(),
        ensures
            final(self).wf(),
            redone(*old(self), *final(self)),
    {
        if self.redo_stack.len() == 0 {
            return;
        }
        let action = match self.redo_stack.pop() {
            Some(a) => a,
            None => {
                return;
            },
        };
        proof {
            assert(old(self).redo_stack@[old(self).redo_stack@.len() - 1] == action);
        }
        match &action {
            Action::EditCell { sheet, row, col, new, .. } => {
                self.sheet_set_cell(*sheet, *row, *col, new.clone_cell());
                self.cursor_row = *row;
                self.cursor_col = *col;
            },
            Action::DeleteRow { sheet, row, .. } => {
                self.sheet_delete_row(*sheet, *row);
                self.cursor_row = if *row > 0 { *row - 1 } else { 0 };
            },
            Action::InsertRow { sheet, row, cells } => {
                self.sheet_insert_row(*sheet, *row, clone_row(cells));
                self.cursor_row = *row;
            },
            Action::ClearCell { sheet, row, col, .. } => {
                self.sheet_set_cell(*sheet, *row, *col, Cell::Empty);
            },
        }
        self.undo_stack.push(action);
    }

    /// Enters command mode (`:`) with an empty command line.
    pub fn enter_command(&mut self)
        ensures
            *final(self) == (App {
                command_buffer: final(self).command_buffer,
                mode: Mode::Command,
                pending_key: None,
                ..*old(self)
            }),
            final(self).command_buffer@.len() == 0,
    {
        self.command_buffer = String::new();
        self.mode = Mode::Command;
        self.pending_key = None;
    }

    /// Appends a character to the command line.
    pub fn command_push(&mut self, c: char)
        ensures
            *final(self) == (App { command_buffer: final(self).command_buffer, ..*old(self) }),
            final(self).command_buffer@ == old(self).command_buffer@.push(c),
    {
        push_char(&mut self.command_buffer, c);
    }

    /// Removes the last character of the command line, if any.
    pub fn command_backspace(&mut self)
        ensures
            *final(self) == (App { command_buffer: final(self).command_buffer, ..*old(self) }),
            final(self).command_buffer@ == if old(self).command_buffer@.len() > 0 {
                old(self).command_buffer@.drop_last()
            } else {
                old(self).command_buffer@
            },
    {
        pop_char(&mut self.command_buffer);
    }

    /// Runs the command line: it is emptied and the mode goes back to normal.
    /// A line number (the trimmed command is all decimal digits) moves the
    /// cursor to that line, counted from 1 and kept on the sheet (see
    /// `line_row`), and is answered with `NoOp`; any other command (trimmed of
    /// white space) is answered as `known_command` says, or as unknown,
    /// carrying the trimmed text.
    pub fn execute_command(&mut self) -> (r: CommandResult)
        requires
            old(self).wf(),
        ensures
            final(self).wf(),
            final(self).command_buffer@.len() == 0,
            final(self).mode == Mode::Normal,
            final(self).data == old(self).data,
            trimmed(old(self).command_buffer@) == seq!['w'] ==> r == CommandResult::Save,
            trimmed(old(self).command_buffer@) == seq!['q'] ==> r == CommandResult::Quit,
            trimmed(old(self).command_buffer@) == seq!['w', 'q'] ==> r == CommandResult::SaveQuit,
            trimmed(old(self).command_buffer@) == seq!['x'] ==> r == CommandResult::SaveQuit,
            trimmed(old(self).command_buffer@) == seq!['q', '!'] ==> r == CommandResult::ForceQuit,
            ({
                let t = trimmed(old(self).command_buffer@);
                let n = old(self).sheet_cells().len();
                &&& t.len() > 0 && all_digits(t) && 1 <= decimal_value(t) <= n ==> final(self).cursor_row
                    == decimal_value(t) - 1
                &&& t.len() > 0 && all_digits(t) && decimal_value(t) > n && n > 0 ==> final(self).cursor_row == n - 1
            }),
            ({
                let t = trimmed(old(self).command_buffer@);
                if t.len() > 0 && all_digits(t) {
                    &&& r == CommandResult::NoOp
                    &&& *final(self) == (App {
                        command_buffer: final(self).command_buffer,
                        mode: Mode::Normal,
                        cursor_row: line_row(*old(self), t),
                        ..*old(self)
                    })
                } else {
                    &&& *final(self) == (App { command_buffer: final(self).command_buffer, mode: Mode::Normal, ..*old(self) })
                    &&& match known_command(t) {
                        Some(k) => r == k,
                        None => r matches CommandResult::Unknown(u) && u@ == t,
                    }
                }
            }),
    {
        let line = chars_of(self.command_buffer.as_str());
        let cmd = trim_chars(&line);
        self.command_buffer = String::new();
        self.mode = Mode::Normal;
        match line_number(&cmd) {
            Some(v) => {
                let n = self.current_sheet().row_count();
                let last = if n > 0 { n - 1 } else { 0 };
                let wanted = if v > 0 { v - 1 } else { 0 };
                self.cursor_row = if wanted < last { wanted } else { last };
                return CommandResult::NoOp;
            },
            None => {},
        }
        let w = vec!['w'];
        let q = vec!['q'];
        let wq = vec!['w', 'q'];
        let x = vec!['x'];
        let qb = vec!['q', '!'];
        assert(w@ =~= seq!['w']);
        assert(q@ =~= seq!['q']);
        assert(wq@ =~= seq!['w', 'q']);
        assert(x@ =~= seq!['x']);
        assert(qb@ =~= seq!['q', '!']);
        if chars_equal(&cmd, &w) {
            CommandResult::Save
        } else if chars_equal(&cmd, &q) {
            CommandResult::Quit
        } else if chars_equal(&cmd, &wq) || chars_equal(&cmd, &x) {
            CommandResult::SaveQuit
        } else if chars_equal(&cmd, &qb) {
            CommandResult::ForceQuit
        } else {
            CommandResult::Unknown(string_from_chars(cmd.as_slice()))
        }
    }

    /// Leaves command mode, emptying the command line.
    pub fn cancel_command(&mut self)
        ensures
            *final(self) == (App { command_buffer: final(self).command_buffer, mode: Mode::Normal, ..*old(self) }),
            final(self).command_buffer@.len() == 0,
    {
        self.command_buffer = String::new();
        self.mode = Mode::Normal;
    }

    /// Enters search mode (`/`) with an empty query and no hits.
    pub fn enter_search(&mut self)
        ensures
            search_entered(*old(self), *final(self)),
    {
        self.mode = Mode::Search;
        self.search_query = String::new();
        self.search_hits.clear();
        self.search_idx = 0;
        self.pending_key = None;
    }

    /// Leaves search mode; the query and its hits stay.
    pub fn exit_search(&mut self)
        ensures
            *final(self) == (App { mode: Mode::Normal, ..*old(self) }),
    {
        self.mode = Mode::Normal;
    }

    /// Searches the active sheet for `query`, ignoring case: the query is kept
    /// in lower case, the hits are all cells whose text contains it (see
    /// `hit_list`), the first hit becomes the selected one and the cursor moves
    /// onto it; without hits the cursor stays.
    pub fn update_search(&mut self, query: &str)
        requires
            old(self).wf(),
        ensures
            final(self).wf(),
            searched(*old(self), *final(self), query@),
    {
        let lowered = to_lowercase(query);
        let q = chars_of(lowered.as_str());
        let ghost qs = spec_lowercase(query@);
        let sheet = self.current_sheet();
        let ghost s = sheet.cells();
        let rc = sheet.row_count();
        let cc = sheet.col_count();
        let mut hits: Vec<(usize, usize)> = Vec::new();
        let mut r: usize = 0;
        while r < rc
            invariant
                s == sheet.cells(),
                q@ == qs,
                rc == s.len(),
                cc == max_row_len(s),
                r <= rc,
                forall|k: int| 0 <= k < hits@.len() ==> {
                    &&& (#[trigger] hits@[k]).0 < r
                    &&& hits@[k].1 < cc
                    &&& cell_matches(s, qs, hits@[k].0 as int, hits@[k].1 as int)
                },
                forall|i: usize, j: usize| i < r && j < cc && cell_matches(s, qs, i as int, j as int)
                    ==> #[trigger] hits@.contains((i, j)),
                forall|i: int, j: int| 0 <= i < j < hits@.len() ==> before(#[trigger] hits@[i], #[trigger] hits@[j]),
            decreases rc - r,
        {
            let mut c: usize = 0;
            while c < cc
                invariant
                    s == sheet.cells(),
                    q@ == qs,
                    rc == s.len(),
                    cc == max_row_len(s),
                    r < rc,
                    c <= cc,
                    forall|k: int| 0 <= k < hits@.len() ==> {
                        &&& before(#[trigger] hits@[k], (r, c))
                        &&& hits@[k].0 <= r
                        &&& hits@[k].1 < cc
                        &&& cell_matches(s, qs, hits@[k].0 as int, hits@[k].1 as int)
                    },
                    forall|i: usize, j: usize| (i < r || (i == r && j < c)) && j < cc
                        && cell_matches(s, qs, i as int, j as int) ==> #[trigger] hits@.contains((i, j)),
                    forall|i: int, j: int| 0 <= i < j < hits@.len() ==> before(#[trigger] hits@[i], #[trigger] hits@[j]),
                decreases cc - c,
            {
                let text = sheet.get(r, c).to_text();
                let lower = to_lowercase(text.as_str());
                let lv = chars_of(lower.as_str());
                if contains_chars(&lv, &q) {
                    let ghost old_hits = hits@;
                    hits.push((r, c));
                    assert forall|i: usize, j: usize| (i < r || (i == r && j < c + 1)) && j < cc
                        && cell_matches(s, qs, i as int, j as int) implies #[trigger] hits@.contains((i, j)) by {
                        if i == r && j == c {
                            assert(hits@[old_hits.len() as int] == (i, j));
                        } else {
                            assert(old_hits.contains((i, j)));
                            let k = choose|k: int| 0 <= k < old_hits.len() && old_hits[k] == (i, j);
                            assert(hits@[k] == (i, j));
                        }
                    }
                }
                c = c + 1;
            }
            r = r + 1;
        }
        self.search_query = lowered;
        self.search_hits = hits;
        self.search_idx = 0;
        if self.search_hits.len() > 0 {
            self.cursor_row = self.search_hits[0].0;
            self.cursor_col = self.search_hits[0].1;
        }
    }

    /// Selects the next search hit, the first after the last, and moves the
    /// cursor onto it (`n`); nothing happens without hits.
    pub fn search_next(&mut self)
        ensures
            *final(self) == next_hit(*old(self)),
    {
        let n = self.search_hits.len();
        if n == 0 {
            return;
        }
        let idx = self.search_idx;
        let next = (idx % n + 1) % n;
        proof {
            lemma_add_mod_noop_right(1, idx as int, n as int);
        }
        self.search_idx = next;
        let (r, c) = self.search_hits[next];
        self.cursor_row = r;
        self.cursor_col = c;
    }

    /// Selects the previous search hit, the last before the first, and moves
    /// the cursor onto it (`N`); nothing happens without hits.
    pub fn search_prev(&mut self)
        ensures
            *final(self) == prev_hit(*old(self)),
    {
        let n = self.search_hits.len();
        if n == 0 {
            return;
        }
        let idx = self.search_idx;
        let m = idx % n;
        let prev = if m == 0 { n - 1 } else { m - 1 };
        proof {
            lemma_add_mod_noop_right(n - 1, idx as int, n as int);
            if m == 0 {
                lemma_small_mod((n - 1) as nat, n as nat);
            } else {
                lemma_mod_add_multiples_vanish(m - 1, n as int);
                lemma_small_mod((m - 1) as nat, n as nat);
            }
        }
        self.search_idx = prev;
        let (r, c) = self.search_hits[prev];
        self.cursor_row = r;
        self.cursor_col = c;
    }
}

}
