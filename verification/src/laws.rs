//! Properties that relate several editor operations.
use vstd::prelude::*;
use vstd::arithmetic::div_mod::{lemma_mod_add_multiples_vanish, lemma_mod_self_0, lemma_small_mod};
use crate::app::{
    at_last_col, at_last_row, cell_cleared, dec, edit_confirmed, help_toggled, history_view,
    all_digits, decimal_value, insert_entered, line_row, next_hit, next_sheet_of, opened_above, opened_below, parsed_cell,
    pasted_above, pasted_below, prev_hit, prev_sheet_of, redone, row_copy, row_deleted, row_inserted,
    row_yanked,
    scrolled_down, scrolled_left, scrolled_right, scrolled_up, sheet_changed, undone, Action, App,
    Mode,
};
use crate::control::search_step;
use crate::event::{key_event, AppEvent, Key};
use crate::reader::{count_of, csv_body, delimiter_of, field_cell_of, format_of};
use crate::text::spec_uppercase;
use crate::table::{
    cell_at, cell_text, empty_cells, max_row_len, pad_row, row_view, rows_with_cell, rows_with_row, CellView,
    TableData,
};

verus! {

/// Two workbooks hold the same sheets: the same names and the same cells,
/// sheet by sheet.
pub open spec fn same_sheets(a: TableData, b: TableData) -> bool {
    &&& a.sheets@.len() == b.sheets@.len()
    &&& forall|i: int| 0 <= i < a.sheets@.len() ==> {
        &&& (#[trigger] a.sheets@[i]).name == b.sheets@[i].name
        &&& a.sheets@[i].cells() == b.sheets@[i].cells()
    }
}

/// Writing a cell's own old value back over a new one gives the rows back.
proof fn lemma_cell_restored(s: Seq<Seq<CellView>>, r: int, c: int, v: CellView)
    ensures
        rows_with_cell(rows_with_cell(s, r, c, v), r, c, cell_at(s, r, c)) == s,
{
    if 0 <= r < s.len() && 0 <= c < s[r].len() {
        assert(s[r].update(c, v).update(c, s[r][c]) =~= s[r]);
        assert(rows_with_cell(rows_with_cell(s, r, c, v), r, c, cell_at(s, r, c)) =~= s);
    }
}

/// Changing sheet `i` of `d0` and then giving it back the cells it had in `d0`
/// leaves a workbook with the same sheets as `d0`.
proof fn lemma_changed_back(d0: TableData, d1: TableData, d2: TableData, i: int)
    requires
        0 <= i < d0.sheets@.len(),
        sheet_changed(d0, d1, i, d1.sheets@[i].cells()),
        sheet_changed(d1, d2, i, d0.sheets@[i].cells()),
    ensures
        same_sheets(d2, d0),
{
}

/// After one action was pushed, the newest action is the one pushed.
proof fn lemma_top_action(h0: Seq<Action>, h1: Seq<Action>)
    requires
        history_view(h1).len() == history_view(h0).len() + 1,
    ensures
        h1.len() == h0.len() + 1,
        history_view(h1)[h1.len() - 1] == h1.last()@,
{
    assert(history_view(h1).len() == h1.len());
    assert(history_view(h0).len() == h0.len());
}

/// Undoing an edit gives every sheet back its cells, and the undo history is
/// again what it was before the edit.
pub proof fn undo_reverts_edit(a0: App, a1: App, a2: App, number: Option<(u64, Seq<char>)>)
    requires
        a0.wf(),
        edit_confirmed(a0, a1, number),
        undone(a1, a2),
    ensures
        same_sheets(a2.data, a0.data),
        history_view(a2.undo_stack@) == history_view(a0.undo_stack@),
        a2.cursor_row == a0.cursor_row && a2.cursor_col == a0.cursor_col,
{
    lemma_top_action(a0.undo_stack@, a1.undo_stack@);
    let s = a0.sheet_cells();
    let new = parsed_cell(a0.edit_buffer@, number);
    lemma_cell_restored(s, a0.cursor_row as int, a0.cursor_col as int, new);
    lemma_changed_back(a0.data, a1.data, a2.data, a0.active_sheet as int);
    assert(history_view(a2.undo_stack@) =~= history_view(a1.undo_stack@).drop_last());
}

/// Undoing the clearing of a cell gives every sheet back its cells, and the
/// undo history is again what it was before.
pub proof fn undo_reverts_clear(a0: App, a1: App, a2: App)
    requires
        a0.wf(),
        cell_cleared(a0, a1),
        undone(a1, a2),
    ensures
        same_sheets(a2.data, a0.data),
        history_view(a2.undo_stack@) == history_view(a0.undo_stack@),
        a2.cursor_row == a0.cursor_row && a2.cursor_col == a0.cursor_col,
{
    lemma_top_action(a0.undo_stack@, a1.undo_stack@);
    let s = a0.sheet_cells();
    lemma_cell_restored(s, a0.cursor_row as int, a0.cursor_col as int, CellView::Empty);
    lemma_changed_back(a0.data, a1.data, a2.data, a0.active_sheet as int);
    assert(history_view(a2.undo_stack@) =~= history_view(a1.undo_stack@).drop_last());
}


/// Deleting row `r` and inserting it again gives back a row whose cells are
/// those of row `r`, followed by empty cells at most.
proof fn lemma_row_restored(s: Seq<Seq<CellView>>, r: int)
    requires
        0 <= r < s.len(),
    ensures
        rows_with_row(s.remove(r), r, s[r]).len() == s.len(),
        forall|i: int, c: int| #[trigger] cell_at(rows_with_row(s.remove(r), r, s[r]), i, c) == cell_at(s, i, c),
{
    let t = rows_with_row(s.remove(r), r, s[r]);
    let p = pad_row(s[r], max_row_len(s.remove(r)));
    assert(t =~= s.update(r, p));
    assert forall|i: int, c: int| #[trigger] cell_at(t, i, c) == cell_at(s, i, c) by {
        if i == r && 0 <= c {
            if c < s[r].len() {
                assert(p[c] == s[r][c]);
            } else if c < p.len() {
                assert(p[c] == CellView::Empty);
            }
        }
    }
}

/// Inserting a row at `r` and deleting row `r` again gives the rows back.
proof fn lemma_insert_removed(s: Seq<Seq<CellView>>, r: int, cells: Seq<CellView>)
    requires
        0 <= r <= s.len(),
    ensures
        rows_with_row(s, r, cells).len() == s.len() + 1,
        rows_with_row(s, r, cells).remove(r) == s,
{
    assert(rows_with_row(s, r, cells).remove(r) =~= s);
}

/// Two workbooks hold the same values: the same sheet names, the same number
/// of rows on each sheet and the same value at every position, reading a
/// missing cell as empty.
pub open spec fn same_cell_values(a: TableData, b: TableData) -> bool {
    &&& a.sheets@.len() == b.sheets@.len()
    &&& forall|i: int| 0 <= i < a.sheets@.len() ==> {
        &&& (#[trigger] a.sheets@[i]).name == b.sheets@[i].name
        &&& a.sheets@[i].cells().len() == b.sheets@[i].cells().len()
        &&& forall|r: int, c: int| #[trigger] cell_at(a.sheets@[i].cells(), r, c) == cell_at(b.sheets@[i].cells(), r, c)
    }
}

/// Undoing the deletion of a row gives every sheet back its rows, every cell
/// with its value (a row narrower than the others comes back padded with empty
/// cells), and the undo history is again what it was before.
pub proof fn undo_reverts_delete(a0: App, a1: App, a2: App)
    requires
        a0.wf(),
        (a0.cursor_row as int) < a0.sheet_cells().len(),
        row_deleted(a0, a1),
        undone(a1, a2),
    ensures
        same_cell_values(a2.data, a0.data),
        history_view(a2.undo_stack@) == history_view(a0.undo_stack@),
        a2.cursor_row == a0.cursor_row,
{
    lemma_top_action(a0.undo_stack@, a1.undo_stack@);
    lemma_row_restored(a0.sheet_cells(), a0.cursor_row as int);
    let k = a0.active_sheet as int;
    assert forall|i: int| 0 <= i < a2.data.sheets@.len() implies {
        &&& (#[trigger] a2.data.sheets@[i]).name == a0.data.sheets@[i].name
        &&& a2.data.sheets@[i].cells().len() == a0.data.sheets@[i].cells().len()
        &&& forall|r: int, c: int| #[trigger] cell_at(a2.data.sheets@[i].cells(), r, c) == cell_at(a0.data.sheets@[i].cells(), r, c)
    } by {
        if i != k {
            assert(a2.data.sheets@[i] == a0.data.sheets@[i]);
        }
    }
    assert(history_view(a2.undo_stack@) =~= history_view(a1.undo_stack@).drop_last());
}

/// Undoing the insertion of a row at `row` (the cursor moving to `cursor`)
/// gives every sheet back its cells when `row` was within the sheet or just
/// past its last row, and the undo history is again what it was before.
proof fn lemma_undo_reverts_insert(a0: App, mid: App, a1: App, a2: App, row: usize, cells: Seq<CellView>, cursor: usize)
    requires
        a0.wf(),
        (row as int) <= a0.sheet_cells().len(),
        row_inserted(a0, mid, row, cells, cursor),
        a1.data == mid.data,
        a1.undo_stack == mid.undo_stack,
        undone(a1, a2),
    ensures
        same_sheets(a2.data, a0.data),
        history_view(a2.undo_stack@) == history_view(a0.undo_stack@),
{
    lemma_top_action(a0.undo_stack@, a1.undo_stack@);
    lemma_insert_removed(a0.sheet_cells(), row as int, cells);
    assert(sheet_changed(a0.data, a1.data, a0.active_sheet as int, a1.data.sheets@[a0.active_sheet as int].cells()));
    lemma_changed_back(a0.data, a1.data, a2.data, a0.active_sheet as int);
    assert(history_view(a2.undo_stack@) =~= history_view(a1.undo_stack@).drop_last());
}

/// Undoing `o` (open a row below the cursor) gives every sheet back its cells
/// when the cursor is on a row of the sheet, and the undo history is again
/// what it was before.
pub proof fn undo_reverts_open_below(a0: App, a1: App, a2: App)
    requires
        a0.wf(),
        a0.cursor_row < usize::MAX,
        (a0.cursor_row as int) < a0.sheet_cells().len(),
        opened_below(a0, a1),
        undone(a1, a2),
    ensures
        same_sheets(a2.data, a0.data),
        history_view(a2.undo_stack@) == history_view(a0.undo_stack@),
{
    let mid = choose|mid: App| {
        &&& #[trigger] row_inserted(a0, mid, (a0.cursor_row + 1) as usize,
            empty_cells(max_row_len(a0.sheet_cells())), (a0.cursor_row + 1) as usize)
        &&& mid.wf()
        &&& insert_entered(mid, a1)
    };
    lemma_undo_reverts_insert(a0, mid, a1, a2, (a0.cursor_row + 1) as usize,
        empty_cells(max_row_len(a0.sheet_cells())), (a0.cursor_row + 1) as usize);
}

/// Undoing `O` (open a row at the cursor) gives every sheet back its cells
/// when the cursor is on a row of the sheet or just past the last one, and
/// the undo history is again what it was before.
pub proof fn undo_reverts_open_above(a0: App, a1: App, a2: App)
    requires
        a0.wf(),
        (a0.cursor_row as int) <= a0.sheet_cells().len(),
        opened_above(a0, a1),
        undone(a1, a2),
    ensures
        same_sheets(a2.data, a0.data),
        history_view(a2.undo_stack@) == history_view(a0.undo_stack@),
{
    let mid = choose|mid: App| {
        &&& #[trigger] row_inserted(a0, mid, a0.cursor_row, empty_cells(max_row_len(a0.sheet_cells())), a0.cursor_row)
        &&& mid.wf()
        &&& insert_entered(mid, a1)
    };
    lemma_undo_reverts_insert(a0, mid, a1, a2, a0.cursor_row, empty_cells(max_row_len(a0.sheet_cells())), a0.cursor_row);
}

/// Undoing `p` (paste below the cursor) gives every sheet back its cells when
/// the cursor is on a row of the sheet, and the undo history is again what it
/// was before.
pub proof fn undo_reverts_paste_below(a0: App, a1: App, a2: App)
    requires
        a0.wf(),
        a0.clipboard is Some,
        a0.cursor_row < usize::MAX,
        (a0.cursor_row as int) < a0.sheet_cells().len(),
        pasted_below(a0, a1),
        undone(a1, a2),
    ensures
        same_sheets(a2.data, a0.data),
        history_view(a2.undo_stack@) == history_view(a0.undo_stack@),
{
    let v = a0.clipboard->0;
    lemma_undo_reverts_insert(a0, a1, a1, a2, (a0.cursor_row + 1) as usize,
        row_view(v@), (a0.cursor_row + 1) as usize);
}

/// Undoing `P` (paste at the cursor) gives every sheet back its cells when the
/// cursor is on a row of the sheet or just past the last one, and the undo
/// history is again what it was before.
pub proof fn undo_reverts_paste_above(a0: App, a1: App, a2: App)
    requires
        a0.wf(),
        a0.clipboard is Some,
        (a0.cursor_row as int) <= a0.sheet_cells().len(),
        pasted_above(a0, a1),
        undone(a1, a2),
    ensures
        same_sheets(a2.data, a0.data),
        history_view(a2.undo_stack@) == history_view(a0.undo_stack@),
{
    let v = a0.clipboard->0;
    lemma_undo_reverts_insert(a0, a1, a1, a2, a0.cursor_row, row_view(v@), a0.cursor_row);
}

/// Undo followed by redo gives both histories back as they were.
pub proof fn redo_undoes_undo_history(a1: App, a2: App, a3: App)
    requires
        a1.undo_stack@.len() > 0,
        undone(a1, a2),
        redone(a2, a3),
    ensures
        a3.undo_stack@ == a1.undo_stack@,
        a3.redo_stack@ == a1.redo_stack@,
{
    assert(a3.undo_stack@ =~= a1.undo_stack@);
    assert(a3.redo_stack@ =~= a1.redo_stack@);
}

/// Redo followed by undo gives both histories back as they were.
pub proof fn undo_undoes_redo_history(a1: App, a2: App, a3: App)
    requires
        a1.redo_stack@.len() > 0,
        redone(a1, a2),
        undone(a2, a3),
    ensures
        a3.undo_stack@ == a1.undo_stack@,
        a3.redo_stack@ == a1.redo_stack@,
{
    assert(a3.undo_stack@ =~= a1.undo_stack@);
    assert(a3.redo_stack@ =~= a1.redo_stack@);
}

/// An edit, undone and then redone, leaves every sheet as the edit left it.
pub proof fn redo_reapplies_edit(a0: App, a1: App, a2: App, a3: App, number: Option<(u64, Seq<char>)>)
    requires
        a0.wf(),
        edit_confirmed(a0, a1, number),
        undone(a1, a2),
        redone(a2, a3),
    ensures
        same_sheets(a3.data, a1.data),
{
    lemma_top_action(a0.undo_stack@, a1.undo_stack@);
    let s = a0.sheet_cells();
    let r = a0.cursor_row as int;
    let c = a0.cursor_col as int;
    let new = parsed_cell(a0.edit_buffer@, number);
    lemma_cell_restored(s, r, c, new);
    assert(a2.redo_stack@.last() == a1.undo_stack@.last());
    let s1 = rows_with_cell(s, r, c, new);
    if 0 <= r < s.len() && 0 <= c < s[r].len() {
        assert(rows_with_cell(s, r, c, new) == rows_with_cell(rows_with_cell(s1, r, c, cell_at(s, r, c)), r, c, new));
    }
    lemma_changed_back(a1.data, a2.data, a3.data, a0.active_sheet as int);
}

/// Clearing a cell, undone and then redone, leaves every sheet as the
/// clearing left it.
pub proof fn redo_reapplies_clear(a0: App, a1: App, a2: App, a3: App)
    requires
        a0.wf(),
        cell_cleared(a0, a1),
        undone(a1, a2),
        redone(a2, a3),
    ensures
        same_sheets(a3.data, a1.data),
{
    lemma_top_action(a0.undo_stack@, a1.undo_stack@);
    let s = a0.sheet_cells();
    let r = a0.cursor_row as int;
    let c = a0.cursor_col as int;
    lemma_cell_restored(s, r, c, CellView::Empty);
    assert(a2.redo_stack@.last() == a1.undo_stack@.last());
    let s1 = rows_with_cell(s, r, c, CellView::Empty);
    if 0 <= r < s.len() && 0 <= c < s[r].len() {
        assert(s1 == rows_with_cell(rows_with_cell(s1, r, c, cell_at(s, r, c)), r, c, CellView::Empty));
    }
    lemma_changed_back(a1.data, a2.data, a3.data, a0.active_sheet as int);
}

/// Deleting a row, undone and then redone, leaves every sheet as the deletion
/// left it.
pub proof fn redo_reapplies_delete(a0: App, a1: App, a2: App, a3: App)
    requires
        a0.wf(),
        (a0.cursor_row as int) < a0.sheet_cells().len(),
        row_deleted(a0, a1),
        undone(a1, a2),
        redone(a2, a3),
    ensures
        same_sheets(a3.data, a1.data),
{
    lemma_top_action(a0.undo_stack@, a1.undo_stack@);
    let s = a0.sheet_cells();
    let r = a0.cursor_row as int;
    let s1 = s.remove(r);
    assert(a2.redo_stack@.last() == a1.undo_stack@.last());
    lemma_insert_removed(s1, r, s[r]);
    lemma_changed_back(a1.data, a2.data, a3.data, a0.active_sheet as int);
}

/// Inserting `cells` at `row`, undone and then redone, leaves every sheet as
/// the insertion left it, when `row` was within the sheet or just past its
/// last row.
proof fn lemma_redo_reapplies_insert(a0: App, mid: App, a1: App, a2: App, a3: App, row: usize, cells: Seq<CellView>, cursor: usize)
    requires
        a0.wf(),
        (row as int) <= a0.sheet_cells().len(),
        row_inserted(a0, mid, row, cells, cursor),
        a1.data == mid.data,
        a1.undo_stack == mid.undo_stack,
        undone(a1, a2),
        redone(a2, a3),
    ensures
        same_sheets(a3.data, a1.data),
{
    lemma_top_action(a0.undo_stack@, mid.undo_stack@);
    lemma_insert_removed(a0.sheet_cells(), row as int, cells);
    assert(a2.redo_stack@.last() == a1.undo_stack@.last());
    lemma_changed_back(a1.data, a2.data, a3.data, a0.active_sheet as int);
}

/// `o`, undone and then redone, leaves every sheet as `o` left it, when the
/// cursor was on a row of the sheet.
pub proof fn redo_reapplies_open_below(a0: App, a1: App, a2: App, a3: App)
    requires
        a0.wf(),
        a0.cursor_row < usize::MAX,
        (a0.cursor_row as int) < a0.sheet_cells().len(),
        opened_below(a0, a1),
        undone(a1, a2),
        redone(a2, a3),
    ensures
        same_sheets(a3.data, a1.data),
{
    let s = a0.sheet_cells();
    let row = (a0.cursor_row + 1) as usize;
    let e = empty_cells(max_row_len(s));
    let mid = choose|mid: App| {
        &&& #[trigger] row_inserted(a0, mid, row, e, row)
        &&& mid.wf()
        &&& insert_entered(mid, a1)
    };
    lemma_redo_reapplies_insert(a0, mid, a1, a2, a3, row, e, row);
}


/// `O`, undone and then redone, leaves every sheet as `O` left it, when the
/// cursor was on a row of the sheet or just past the last one.
pub proof fn redo_reapplies_open_above(a0: App, a1: App, a2: App, a3: App)
    requires
        a0.wf(),
        (a0.cursor_row as int) <= a0.sheet_cells().len(),
        opened_above(a0, a1),
        undone(a1, a2),
        redone(a2, a3),
    ensures
        same_sheets(a3.data, a1.data),
{
    let s = a0.sheet_cells();
    let row = a0.cursor_row;
    let e = empty_cells(max_row_len(s));
    let mid = choose|mid: App| {
        &&& #[trigger] row_inserted(a0, mid, row, e, row)
        &&& mid.wf()
        &&& insert_entered(mid, a1)
    };
    lemma_redo_reapplies_insert(a0, mid, a1, a2, a3, row, e, row);
}

/// `p`, undone and then redone, leaves every sheet as `p` left it, the pasted
/// cells included, when the cursor was on a row of the sheet.
pub proof fn redo_reapplies_paste_below(a0: App, a1: App, a2: App, a3: App)
    requires
        a0.wf(),
        a0.clipboard is Some,
        a0.cursor_row < usize::MAX,
        (a0.cursor_row as int) < a0.sheet_cells().len(),
        pasted_below(a0, a1),
        undone(a1, a2),
        redone(a2, a3),
    ensures
        same_sheets(a3.data, a1.data),
{
    let v = a0.clipboard->0;
    let row = (a0.cursor_row + 1) as usize;
    lemma_redo_reapplies_insert(a0, a1, a1, a2, a3, row, row_view(v@), row);
}

/// `P`, undone and then redone, leaves every sheet as `P` left it, the pasted
/// cells included, when the cursor was on a row of the sheet or just past the
/// last one.
pub proof fn redo_reapplies_paste_above(a0: App, a1: App, a2: App, a3: App)
    requires
        a0.wf(),
        a0.clipboard is Some,
        (a0.cursor_row as int) <= a0.sheet_cells().len(),
        pasted_above(a0, a1),
        undone(a1, a2),
        redone(a2, a3),
    ensures
        same_sheets(a3.data, a1.data),
{
    let v = a0.clipboard->0;
    lemma_redo_reapplies_insert(a0, a1, a1, a2, a3, a0.cursor_row, row_view(v@), a0.cursor_row);
}

/// `(i + 1) % n` and `(i + n - 1) % n` are within `[0, n)` and undo each other.
proof fn lemma_cyclic_steps(i: int, n: int)
    requires
        0 <= i < n,
    ensures
        0 <= (i + 1) % n < n,
        0 <= (i + n - 1) % n < n,
        ((i + 1) % n + n - 1) % n == i,
        ((i + n - 1) % n + 1) % n == i,
{
    if i + 1 < n {
        lemma_small_mod((i + 1) as nat, n as nat);
    } else {
        lemma_mod_self_0(n);
    }
    if i == 0 {
        lemma_small_mod((n - 1) as nat, n as nat);
        lemma_mod_self_0(n);
    } else {
        lemma_mod_add_multiples_vanish(i - 1, n);
        lemma_small_mod((i - 1) as nat, n as nat);
    }
    lemma_mod_add_multiples_vanish(i, n);
    lemma_small_mod(i as nat, n as nat);
}

/// Going to the next sheet and then to the previous one comes back to the
/// sheet one started on, and so does the other order.
pub proof fn sheet_switching_round_trip(a: App)
    requires
        a.wf(),
    ensures
        prev_sheet_of(next_sheet_of(a)).active_sheet == a.active_sheet,
        next_sheet_of(prev_sheet_of(a)).active_sheet == a.active_sheet,
{
    assert(a.data.sheets.len() == a.data.sheets@.len());
    lemma_cyclic_steps(a.active_sheet as int, a.data.sheets@.len() as int);
}

/// Moving to the next search hit and then to the previous one comes back to
/// the hit one started on, with the cursor on it, and so does the other order.
pub proof fn hit_switching_round_trip(a: App)
    requires
        a.search_idx < a.search_hits@.len(),
    ensures
        prev_hit(next_hit(a)).search_idx == a.search_idx,
        prev_hit(next_hit(a)).cursor_row == a.search_hits@[a.search_idx as int].0,
        prev_hit(next_hit(a)).cursor_col == a.search_hits@[a.search_idx as int].1,
        next_hit(prev_hit(a)).search_idx == a.search_idx,
        next_hit(prev_hit(a)).cursor_row == a.search_hits@[a.search_idx as int].0,
        next_hit(prev_hit(a)).cursor_col == a.search_hits@[a.search_idx as int].1,
{
    assert(a.search_hits.len() == a.search_hits@.len());
    lemma_cyclic_steps(a.search_idx as int, a.search_hits@.len() as int);
}


/// The cursor is on the sheet: on a row up to the last one and a column up to
/// the last one (row and column 0 on an empty sheet).
pub open spec fn cursor_on_sheet(a: App) -> bool {
    &&& a.cursor_row <= dec(a.sheet_cells().len() as int)
    &&& a.cursor_col <= dec(max_row_len(a.sheet_cells()) as int)
}

/// Cursor movement keeps a cursor that is on the sheet on the sheet, and
/// jumping to the first or last row or column, or to another sheet, always
/// leaves it on the sheet.
pub proof fn navigation_keeps_cursor_on_sheet(a: App)
    requires
        a.wf(),
    ensures
        cursor_on_sheet(a) ==> cursor_on_sheet(scrolled_down(a)),
        cursor_on_sheet(a) ==> cursor_on_sheet(scrolled_up(a)),
        cursor_on_sheet(a) ==> cursor_on_sheet(scrolled_right(a)),
        cursor_on_sheet(a) ==> cursor_on_sheet(scrolled_left(a)),
        cursor_on_sheet(a) ==> cursor_on_sheet(at_last_row(a)),
        cursor_on_sheet(a) ==> cursor_on_sheet(at_last_col(a)),
        cursor_on_sheet(a) ==> cursor_on_sheet(App { cursor_row: 0, ..a }),
        cursor_on_sheet(a) ==> cursor_on_sheet(App { cursor_col: 0, ..a }),
        cursor_on_sheet(next_sheet_of(a)),
        cursor_on_sheet(prev_sheet_of(a)),
{
    assert(a.data.sheets.len() == a.data.sheets@.len());
    lemma_cyclic_steps(a.active_sheet as int, a.data.sheets@.len() as int);
}

/// Going to a line with `:` keeps a cursor that is on the sheet on the sheet.
pub proof fn line_jump_keeps_cursor_on_sheet(a: App, t: Seq<char>)
    requires
        a.wf(),
        cursor_on_sheet(a),
    ensures
        cursor_on_sheet(App { cursor_row: line_row(a, t), ..a }),
{
}

/// Toggling help twice from normal or help mode comes back to where one was.
pub proof fn help_toggle_round_trip(a: App)
    requires
        a.mode == Mode::Normal || a.mode == Mode::Help,
    ensures
        help_toggled(help_toggled(a)) == a,
{
}

/// Leaving search mode keeps the query, the hits and the selected hit.
pub proof fn leaving_search_keeps_results(pre: App, post: App, ev: AppEvent)
    requires
        ev == AppEvent::ExitMode || ev == AppEvent::Enter,
        search_step(pre, post, ev),
    ensures
        post.mode == Mode::Normal,
        post.search_query == pre.search_query,
        post.search_hits == pre.search_hits,
        post.search_idx == pre.search_idx,
{
}

/// The detected delimiter is one of comma, semicolon and tab, and occurs at
/// least as often as each of them.
pub proof fn delimiter_is_most_frequent(s: Seq<char>)
    ensures
        ({
            let d = delimiter_of(s);
            let c = if d == 9 { '\t' } else if d == 59 { ';' } else { ',' };
            &&& d == 9 || d == 59 || d == 44
            &&& count_of(s, c) >= count_of(s, ',')
            &&& count_of(s, c) >= count_of(s, ';')
            &&& count_of(s, c) >= count_of(s, '\t')
        }),
{
}

/// `n` is the key for the next search hit and `N` the key for the previous
/// one, with or without Control, and no other character key gives either.
pub proof fn n_keys_step_through_hits(ctrl: bool)
    ensures
        key_event(Key::Char('n'), ctrl) == AppEvent::SearchNext,
        key_event(Key::Char('N'), ctrl) == AppEvent::SearchPrev,
        forall|c: char| #[trigger] key_event(Key::Char(c), ctrl) == AppEvent::SearchNext ==> c == 'n',
        forall|c: char| #[trigger] key_event(Key::Char(c), ctrl) == AppEvent::SearchPrev ==> c == 'N',
{
}

/// Moving to the next search hit selects the hit after the selected one (the
/// first after the last) and puts the cursor on it; moving to the previous one
/// selects the hit before (the last before the first). Nothing else changes.
pub proof fn hit_steps_move_by_one(a: App)
    requires
        a.search_hits@.len() > 0,
    ensures
        ({
            let n = a.search_hits@.len() as int;
            let f = next_hit(a);
            let b = prev_hit(a);
            &&& f.search_idx == (a.search_idx + 1) % n
            &&& (f.cursor_row, f.cursor_col) == a.search_hits@[f.search_idx as int]
            &&& f == (App { search_idx: f.search_idx, cursor_row: f.cursor_row, cursor_col: f.cursor_col, ..a })
            &&& b.search_idx == (a.search_idx + n - 1) % n
            &&& (b.cursor_row, b.cursor_col) == a.search_hits@[b.search_idx as int]
            &&& b == (App { search_idx: b.search_idx, cursor_row: b.cursor_row, cursor_col: b.cursor_col, ..a })
        }),
{
    assert(a.search_hits@.len() == a.search_hits.len());
}

/// A CSV field that is not empty and parsed as a number becomes exactly that
/// number, whatever its bits; one that did not parse stays text; a field
/// becomes an empty cell exactly when it is empty.
pub proof fn numeric_fields_stay_numbers(field: Seq<char>, number: Option<(u64, Seq<char>)>)
    ensures
        forall|b: u64, t: Seq<char>| field.len() > 0 ==> #[trigger] field_cell_of(field, Some((b, t))) == CellView::Number(b, t),
        field.len() > 0 ==> field_cell_of(field, None) == CellView::Text(field),
        (field_cell_of(field, number) is Empty) == (field.len() == 0),
{
}

/// An edit becomes a boolean only when its text is `TRUE` or `FALSE` in some
/// case; any other text that parsed as a number becomes exactly that number,
/// and any other text that did not stays text.
pub proof fn only_true_and_false_become_booleans(s: Seq<char>, number: Option<(u64, Seq<char>)>)
    ensures
        parsed_cell(s, number) is Bool ==> s.len() > 0 && (spec_uppercase(s) == seq!['T', 'R', 'U', 'E']
            || spec_uppercase(s) == seq!['F', 'A', 'L', 'S', 'E']),
        parsed_cell(s, number) == CellView::Bool(true) ==> spec_uppercase(s) == seq!['T', 'R', 'U', 'E'],
        parsed_cell(s, number) == CellView::Bool(false) ==> spec_uppercase(s) == seq!['F', 'A', 'L', 'S', 'E'],
        (parsed_cell(s, number) is Empty) == (s.len() == 0),
        s.len() > 0 && spec_uppercase(s) != seq!['T', 'R', 'U', 'E'] && spec_uppercase(s) != seq![
            'F',
            'A',
            'L',
            'S',
            'E',
        ] ==> forall|b: u64, t: Seq<char>| #[trigger] parsed_cell(s, Some((b, t))) == CellView::Number(b, t),
        s.len() > 0 && spec_uppercase(s) != seq!['T', 'R', 'U', 'E'] && spec_uppercase(s) != seq![
            'F',
            'A',
            'L',
            'S',
            'E',
        ] ==> parsed_cell(s, None) == CellView::Text(s),
{
}

/// `P` puts the clipboard's row at the cursor's row: the rows above it stay,
/// the rows from the cursor's row down move one down, the pasted row (padded to
/// the sheet's width) takes the cursor's row and the cursor stays on it.
pub proof fn paste_above_puts_row_at_cursor(pre: App, post: App)
    requires
        pre.wf(),
        pre.clipboard is Some,
        (pre.cursor_row as int) <= pre.sheet_cells().len(),
        pasted_above(pre, post),
    ensures
        ({
            let s = pre.sheet_cells();
            let t = post.sheet_cells();
            let r = pre.cursor_row as int;
            &&& post.active_sheet == pre.active_sheet
            &&& post.cursor_row == pre.cursor_row
            &&& t.len() == s.len() + 1
            &&& t[r] == pad_row(row_view(pre.clipboard->0@), max_row_len(s))
            &&& forall|i: int| 0 <= i < r ==> #[trigger] t[i] == s[i]
            &&& forall|i: int| r < i <= s.len() ==> #[trigger] t[i] == s[i - 1]
        }),
{
}

/// `p` puts the clipboard's row below the cursor's row: the rows down to the
/// cursor's row stay, the rows below move one down, the pasted row (padded to
/// the sheet's width) takes the row below the cursor's and the cursor moves
/// onto it.
pub proof fn paste_below_puts_row_under_cursor(pre: App, post: App)
    requires
        pre.wf(),
        pre.clipboard is Some,
        (pre.cursor_row as int) < pre.sheet_cells().len(),
        pasted_below(pre, post),
    ensures
        ({
            let s = pre.sheet_cells();
            let t = post.sheet_cells();
            let r = pre.cursor_row + 1;
            &&& post.active_sheet == pre.active_sheet
            &&& post.cursor_row == r
            &&& t.len() == s.len() + 1
            &&& t[r] == pad_row(row_view(pre.clipboard->0@), max_row_len(s))
            &&& forall|i: int| 0 <= i < r ==> #[trigger] t[i] == s[i]
            &&& forall|i: int| r < i <= s.len() ==> #[trigger] t[i] == s[i - 1]
        }),
{
    assert(pre.sheet_cells().len() == pre.data.sheets@[pre.active_sheet as int].rows.len());
}

/// Each cursor step moves the cursor by exactly one row or column, unless it
/// is at the edge of the sheet, and changes nothing else.
pub proof fn cursor_steps_move_by_one(a: App)
    requires
        a.wf(),
    ensures
        scrolled_up(a) == (App { cursor_row: scrolled_up(a).cursor_row, ..a }),
        scrolled_down(a) == (App { cursor_row: scrolled_down(a).cursor_row, ..a }),
        scrolled_left(a) == (App { cursor_col: scrolled_left(a).cursor_col, ..a }),
        scrolled_right(a) == (App { cursor_col: scrolled_right(a).cursor_col, ..a }),
        a.cursor_row > 0 ==> scrolled_up(a).cursor_row == a.cursor_row - 1,
        a.cursor_row == 0 ==> scrolled_up(a).cursor_row == 0,
        a.cursor_col > 0 ==> scrolled_left(a).cursor_col == a.cursor_col - 1,
        a.cursor_col == 0 ==> scrolled_left(a).cursor_col == 0,
        a.cursor_row + 1 < a.sheet_cells().len() ==> scrolled_down(a).cursor_row == a.cursor_row + 1,
        a.cursor_row + 1 >= a.sheet_cells().len() ==> scrolled_down(a).cursor_row == a.cursor_row,
        a.cursor_col + 1 < max_row_len(a.sheet_cells()) ==> scrolled_right(a).cursor_col == a.cursor_col + 1,
        a.cursor_col + 1 >= max_row_len(a.sheet_cells()) ==> scrolled_right(a).cursor_col == a.cursor_col,
{
    let rows = a.data.sheets@[a.active_sheet as int].rows;
    assert(a.sheet_cells().len() == rows.len());
    assert forall|i: int| 0 <= i < a.sheet_cells().len() implies #[trigger] a.sheet_cells()[i].len() <= usize::MAX by {
        assert(a.sheet_cells()[i].len() == rows@[i].len());
    }
    lemma_max_row_len_bounded(a.sheet_cells(), usize::MAX as nat);
}

/// The widest row is no wider than a bound on every row.
proof fn lemma_max_row_len_bounded(s: Seq<Seq<CellView>>, m: nat)
    requires
        forall|i: int| 0 <= i < s.len() ==> #[trigger] s[i].len() <= m,
    ensures
        max_row_len(s) <= m,
    decreases s.len(),
{
    if s.len() > 0 {
        assert forall|i: int| 0 <= i < s.drop_last().len() implies #[trigger] s.drop_last()[i].len() <= m by {
            assert(s.drop_last()[i] == s[i]);
        }
        lemma_max_row_len_bounded(s.drop_last(), m);
    }
}

/// A line number is read digit by digit, most significant first: the empty
/// text is 0, and a digit written after a number multiplies it by ten and adds
/// the digit's value.
pub proof fn line_numbers_are_decimal(t: Seq<char>, d: char)
    requires
        all_digits(t),
        48 <= (d as u32) <= 57,
    ensures
        decimal_value(Seq::<char>::empty()) == 0,
        all_digits(t.push(d)),
        decimal_value(t.push(d)) == decimal_value(t) * 10 + ((d as u32) - 48),
        all_digits(seq![d]),
        decimal_value(seq![d]) == (d as u32) - 48,
{
    assert(t.push(d).drop_last() =~= t);
    assert(seq![d].drop_last() =~= Seq::<char>::empty());
    assert forall|i: int| 0 <= i < t.push(d).len() implies 48 <= (#[trigger] t.push(d)[i] as u32) <= 57 by {
        if i < t.len() {
            assert(t.push(d)[i] == t[i]);
        }
    }
}

/// A line number within the sheet takes the cursor to that line, counted from
/// 1; one past the last line takes it to the last line.
pub proof fn line_jump_goes_to_the_line(a: App, t: Seq<char>)
    ensures
        1 <= decimal_value(t) <= a.sheet_cells().len() ==> line_row(a, t) == decimal_value(t) - 1,
        decimal_value(t) > a.sheet_cells().len() > 0 ==> line_row(a, t) == a.sheet_cells().len() - 1,
        decimal_value(t) == 0 ==> line_row(a, t) == 0,
{
    assert(a.sheet_cells().len() == a.data.sheets@[a.active_sheet as int].rows.len());
}

/// `dd` takes the cursor's row out: the rows above stay, the rows below move
/// one up and the cursor stays on its row, or on the new last row when it was
/// on the last one; without a row under the cursor nothing changes.
pub proof fn delete_removes_cursor_row(pre: App, post: App)
    requires
        pre.wf(),
        row_deleted(pre, post),
    ensures
        ({
            let s = pre.sheet_cells();
            let t = post.sheet_cells();
            let r = pre.cursor_row as int;
            &&& r < s.len() ==> {
                &&& post.active_sheet == pre.active_sheet
                &&& t.len() == s.len() - 1
                &&& forall|i: int| 0 <= i < r ==> #[trigger] t[i] == s[i]
                &&& forall|i: int| r <= i < s.len() - 1 ==> #[trigger] t[i] == s[i + 1]
                &&& post.cursor_row == if r < s.len() - 1 { r } else if r > 0 { r - 1 } else { 0 }
                &&& post.dirty
            }
            &&& r >= s.len() ==> post == pre
        }),
{
}

/// `yy` puts the cursor's row into the clipboard, one cell per column of the
/// sheet (empty past the row's end), and leaves the sheets alone.
pub proof fn yank_copies_cursor_row(pre: App, post: App)
    requires
        row_yanked(pre, post),
    ensures
        post.data == pre.data,
        post.clipboard is Some,
        post.clipboard->0@.len() == max_row_len(pre.sheet_cells()),
        forall|j: int| 0 <= j < max_row_len(pre.sheet_cells()) ==> (#[trigger] post.clipboard->0@[j])@ == cell_at(
            pre.sheet_cells(),
            pre.cursor_row as int,
            j,
        ),
{
    let v = post.clipboard->0;
    let w = max_row_len(pre.sheet_cells());
    assert(row_view(v@).len() == v@.len());
    assert(row_view(v@) == row_copy(pre.sheet_cells(), pre.cursor_row as int, w));
    assert forall|j: int| 0 <= j < max_row_len(pre.sheet_cells()) implies (#[trigger] post.clipboard->0@[j])@
        == cell_at(pre.sheet_cells(), pre.cursor_row as int, j) by {
        assert(row_view(v@)[j] == v@[j]@);
    }
}

/// `x` empties the cell under the cursor and no other cell.
pub proof fn clear_empties_one_cell(pre: App, post: App)
    requires
        pre.wf(),
        cell_cleared(pre, post),
    ensures
        ({
            let s = pre.sheet_cells();
            let t = post.sheet_cells();
            let r = pre.cursor_row as int;
            let c = pre.cursor_col as int;
            &&& t.len() == s.len()
            &&& cell_at(t, r, c) == CellView::Empty
            &&& forall|i: int, j: int| !(i == r && j == c) ==> #[trigger] cell_at(t, i, j) == cell_at(s, i, j)
            &&& post.cursor_row == pre.cursor_row && post.cursor_col == pre.cursor_col
        }),
{
}

/// Confirming an edit puts the edited value into the cell under the cursor
/// (when there is one) and changes no other cell; the mode goes back to normal.
pub proof fn edit_changes_one_cell(pre: App, post: App, number: Option<(u64, Seq<char>)>)
    requires
        pre.wf(),
        edit_confirmed(pre, post, number),
    ensures
        ({
            let s = pre.sheet_cells();
            let t = post.sheet_cells();
            let r = pre.cursor_row as int;
            let c = pre.cursor_col as int;
            &&& t.len() == s.len()
            &&& r < s.len() && c < s[r].len() ==> cell_at(t, r, c) == parsed_cell(pre.edit_buffer@, number)
            &&& forall|i: int, j: int| !(i == r && j == c) ==> #[trigger] cell_at(t, i, j) == cell_at(s, i, j)
            &&& post.mode == Mode::Normal
            &&& post.dirty
        }),
{
}

/// `o` opens an empty row (as wide as the sheet) below the cursor's row, moves
/// the cursor onto it and starts editing there with an empty buffer; the rows
/// down to the cursor's stay and the rows below move one down.
pub proof fn open_below_adds_empty_row(pre: App, post: App)
    requires
        pre.wf(),
        pre.cursor_row < usize::MAX,
        (pre.cursor_row as int) < pre.sheet_cells().len(),
        opened_below(pre, post),
    ensures
        ({
            let s = pre.sheet_cells();
            let t = post.sheet_cells();
            let r = pre.cursor_row + 1;
            &&& post.active_sheet == pre.active_sheet
            &&& t.len() == s.len() + 1
            &&& t[r] == empty_cells(max_row_len(s))
            &&& forall|i: int| 0 <= i < r ==> #[trigger] t[i] == s[i]
            &&& forall|i: int| r < i <= s.len() ==> #[trigger] t[i] == s[i - 1]
            &&& post.cursor_row == r
            &&& post.mode == Mode::Insert
            &&& post.edit_buffer@.len() == 0
        }),
{
    let e = empty_cells(max_row_len(pre.sheet_cells()));
    let row = (pre.cursor_row + 1) as usize;
    let mid = choose|mid: App| {
        &&& #[trigger] row_inserted(pre, mid, row, e, row)
        &&& mid.wf()
        &&& insert_entered(mid, post)
    };
    assert(pad_row(e, max_row_len(pre.sheet_cells())) =~= e);
    let t = mid.sheet_cells();
    assert(t[row as int] == e);
    assert(cell_at(t, row as int, pre.cursor_col as int) == CellView::Empty);
}

/// `O` opens an empty row (as wide as the sheet) at the cursor's row, the
/// cursor staying on it, and starts editing there with an empty buffer; the
/// rows above stay and the rows from the cursor's down move one down.
pub proof fn open_above_adds_empty_row(pre: App, post: App)
    requires
        pre.wf(),
        (pre.cursor_row as int) <= pre.sheet_cells().len(),
        opened_above(pre, post),
    ensures
        ({
            let s = pre.sheet_cells();
            let t = post.sheet_cells();
            let r = pre.cursor_row as int;
            &&& post.active_sheet == pre.active_sheet
            &&& t.len() == s.len() + 1
            &&& t[r] == empty_cells(max_row_len(s))
            &&& forall|i: int| 0 <= i < r ==> #[trigger] t[i] == s[i]
            &&& forall|i: int| r < i <= s.len() ==> #[trigger] t[i] == s[i - 1]
            &&& post.cursor_row == pre.cursor_row
            &&& post.mode == Mode::Insert
            &&& post.edit_buffer@.len() == 0
        }),
{
    let e = empty_cells(max_row_len(pre.sheet_cells()));
    let row = pre.cursor_row;
    let mid = choose|mid: App| {
        &&& #[trigger] row_inserted(pre, mid, row, e, row)
        &&& mid.wf()
        &&& insert_entered(mid, post)
    };
    assert(pad_row(e, max_row_len(pre.sheet_cells())) =~= e);
    let t = mid.sheet_cells();
    assert(t[row as int] == e);
    assert(cell_at(t, row as int, pre.cursor_col as int) == CellView::Empty);
}

/// A CSV file's leading UTF-8 byte order mark (EF BB BF) is dropped and
/// nothing else is: bytes without it are read as they are.
pub proof fn only_the_byte_order_mark_is_dropped(raw: Seq<u8>)
    ensures
        raw.len() >= 3 && raw[0] == 0xEF && raw[1] == 0xBB && raw[2] == 0xBF ==> csv_body(raw) == raw.subrange(
            3,
            raw.len() as int,
        ),
        !(raw.len() >= 3 && raw[0] == 0xEF && raw[1] == 0xBB && raw[2] == 0xBF) ==> csv_body(raw) == raw,
{
}

/// The formats go by extension: `csv` is CSV, `xlsx` is Excel 2007 and
/// later, `xls` is older Excel, and no other extension names a format.
pub proof fn formats_by_extension(ext: Seq<char>)
    ensures
        format_of(seq!['c', 's', 'v']) == Some(0u8),
        format_of(seq!['x', 'l', 's', 'x']) == Some(1u8),
        format_of(seq!['x', 'l', 's']) == Some(2u8),
        format_of(ext) is Some ==> ext == seq!['c', 's', 'v'] || ext == seq!['x', 'l', 's', 'x'] || ext == seq![
            'x',
            'l',
            's',
        ],
{
    let xls = seq!['x', 'l', 's'];
    let xlsx = seq!['x', 'l', 's', 'x'];
    let csv = seq!['c', 's', 'v'];
    assert(xls[0] != csv[0]);
    assert(xlsx.len() != csv.len());
    assert(xls.len() != xlsx.len());
}

/// A cell is shown as its text: a text cell as the text itself, a number as
/// its text, a boolean as `TRUE` or `FALSE` and an empty cell as nothing.
pub proof fn cells_show_their_text(t: Seq<char>, bits: u64)
    ensures
        cell_text(CellView::Text(t)) == t,
        cell_text(CellView::Number(bits, t)) == t,
        cell_text(CellView::Bool(true)) == seq!['T', 'R', 'U', 'E'],
        cell_text(CellView::Bool(false)) == seq!['F', 'A', 'L', 'S', 'E'],
        cell_text(CellView::Empty).len() == 0,
{
}

}
