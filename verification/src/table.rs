//! The spreadsheet data model: cells, sheets and the loaded workbook.
use vstd::prelude::*;
use crate::text::{chars_equal, chars_of, owned};

verus! {

/// A numeric cell value.
///
/// `bits` is the IEEE-754 bit pattern of the 64-bit float; `text` is the way the
/// number is shown (an integral value below 10^15 without a fractional part, any
/// other value in Rust's shortest round-trip form). Both are fixed when the
/// number is made, by the code that reads or parses floats.
#[derive(Debug, Clone, PartialEq)]
pub struct Number {
    pub bits: u64,
    pub text: String,
}

/// One cell of a sheet.
#[derive(Debug, Clone, PartialEq)]
pub enum Cell {
    Text(String),
    Number(Number),
    Bool(bool),
    Empty,
}

/// The mathematical value of a cell.
pub enum CellView {
    Text(Seq<char>),
    Number(u64, Seq<char>),
    Bool(bool),
    Empty,
}

impl View for Cell {
    type V = CellView;

    open spec fn view(&self) -> CellView {
        match self {
            Cell::Text(s) => CellView::Text(s@),
            Cell::Number(n) => CellView::Number(n.bits, n.text@),
            Cell::Bool(b) => CellView::Bool(*b),
            Cell::Empty => CellView::Empty,
        }
    }
}

/// The text a cell is shown as.
pub open spec fn cell_text(c: CellView) -> Seq<char> {
    match c {
        CellView::Text(s) => s,
        CellView::Number(_, t) => t,
        CellView::Bool(b) => if b { seq!['T', 'R', 'U', 'E'] } else { seq!['F', 'A', 'L', 'S', 'E'] },
        CellView::Empty => seq![],
    }
}

/// The values of a row of cells.
pub open spec fn row_view(r: Seq<Cell>) -> Seq<CellView> {
    r.map_values(|c: Cell| c@)
}

/// The values of a list of rows.
pub open spec fn rows_view(rows: Seq<Vec<Cell>>) -> Seq<Seq<CellView>> {
    rows.map_values(|r: Vec<Cell>| row_view(r@))
}

/// The widest row's length, 0 for no rows.
pub open spec fn max_row_len(rows: Seq<Seq<CellView>>) -> nat
    decreases rows.len(),
{
    if rows.len() == 0 {
        0
    } else {
        let m = max_row_len(rows.drop_last());
        if rows.last().len() > m { rows.last().len() } else { m }
    }
}

/// The cell at a position, `Empty` outside the rows.
pub open spec fn cell_at(rows: Seq<Seq<CellView>>, r: int, c: int) -> CellView {
    if 0 <= r < rows.len() && 0 <= c < rows[r].len() {
        rows[r][c]
    } else {
        CellView::Empty
    }
}

/// The rows with one cell replaced, unchanged when the position holds no cell.
pub open spec fn rows_with_cell(rows: Seq<Seq<CellView>>, r: int, c: int, v: CellView) -> Seq<Seq<CellView>> {
    if 0 <= r < rows.len() && 0 <= c < rows[r].len() {
        rows.update(r, rows[r].update(c, v))
    } else {
        rows
    }
}

/// `count` empty cells.
pub open spec fn empty_cells(count: nat) -> Seq<CellView> {
    Seq::new(count, |i: int| CellView::Empty)
}

/// A row extended with empty cells up to `width` cells.
pub open spec fn pad_row(cells: Seq<CellView>, width: nat) -> Seq<CellView> {
    if cells.len() >= width {
        cells
    } else {
        cells + empty_cells((width - cells.len()) as nat)
    }
}

/// The rows after a row is inserted at `r` (at the end when `r` is past it),
/// padded to the width of the widest row.
pub open spec fn rows_with_row(rows: Seq<Seq<CellView>>, r: int, cells: Seq<CellView>) -> Seq<Seq<CellView>> {
    let at = if r < rows.len() { r } else { rows.len() as int };
    rows.insert(at, pad_row(cells, max_row_len(rows)))
}

impl Cell {
    /// The text this cell is shown as: the string itself, the number's text,
    /// `TRUE` or `FALSE`, or nothing for an empty cell.
    pub fn to_text(&self) -> (s: String)
        ensures
            s@ == cell_text(self@),
    {
        match self {
            Cell::Text(t) => {
                let r = owned(t.as_str());
                assert(r@ == t@);
                r
            },
            Cell::Number(n) => owned(n.text.as_str()),
            Cell::Bool(b) => {
                proof {
                    reveal_strlit("TRUE");
                    reveal_strlit("FALSE");
                }
                if *b { owned("TRUE") } else { owned("FALSE") }
            },
            Cell::Empty => String::new(),
        }
    }
}


impl Cell {
    /// A copy of this cell with the same value.
    pub fn clone_cell(&self) -> (c: Cell)
        ensures
            c@ == self@,
    {
        match self {
            Cell::Text(t) => Cell::Text(owned(t.as_str())),
            Cell::Number(n) => Cell::Number(Number { bits: n.bits, text: owned(n.text.as_str()) }),
            Cell::Bool(b) => Cell::Bool(*b),
            Cell::Empty => Cell::Empty,
        }
    }
}

/// A copy of a row of cells with the same values.
pub fn clone_row(r: &Vec<Cell>) -> (c: Vec<Cell>)
    ensures
        row_view(c@) == row_view(r@),
{
    let mut c: Vec<Cell> = Vec::new();
    let mut i: usize = 0;
    while i < r.len()
        invariant
            i <= r@.len(),
            c@.len() == i,
            forall|j: int| 0 <= j < i ==> #[trigger] c@[j]@ == r@[j]@,
        decreases r@.len() - i,
    {
        c.push(r[i].clone_cell());
        i = i + 1;
    }
    assert(row_view(c@) =~= row_view(r@));
    c
}

/// One named sheet: a list of rows of cells, which may differ in length.
#[derive(Debug, Clone)]
pub struct Sheet {
    pub name: String,
    pub rows: Vec<Vec<Cell>>,
}

impl Sheet {
    /// The cell values of this sheet, row by row.
    pub open spec fn cells(&self) -> Seq<Seq<CellView>> {
        rows_view(self.rows@)
    }

    /// A sheet with the given name and rows.
    pub fn new(name: &str, rows: Vec<Vec<Cell>>) -> (s: Sheet)
        ensures
            s.name@ == name@,
            s.rows@ == rows@,
    {
        Sheet { name: owned(name), rows }
    }

    /// The number of rows.
    pub fn row_count(&self) -> (n: usize)
        ensures
            n == self.cells().len(),
    {
        self.rows.len()
    }

    /// The number of columns: the length of the widest row, 0 for no rows.
    pub fn col_count(&self) -> (n: usize)
        ensures
            n == max_row_len(self.cells()),
    {
        let mut m: usize = 0;
        let mut i: usize = 0;
        while i < self.rows.len()
            invariant
                i <= self.rows@.len(),
                m == max_row_len(self.cells().take(i as int)),
            decreases self.rows@.len() - i,
        {
            let l = self.rows[i].len();
            assert(self.cells().take(i + 1).drop_last() =~= self.cells().take(i as int));
            if l > m {
                m = l;
            }
            i = i + 1;
        }
        assert(self.cells().take(self.rows@.len() as int) =~= self.cells());
        m
    }

    /// The cell at a position; an empty cell where the sheet has none.
    pub fn get(&self, row: usize, col: usize) -> (c: &Cell)
        ensures
            c@ == cell_at(self.cells(), row as int, col as int),
    {
        if row < self.rows.len() && col < self.rows[row].len() {
            &self.rows[row][col]
        } else {
            &Cell::Empty
        }
    }

    /// Replaces the cell at a position; does nothing where the sheet has no cell.
    pub fn set_cell(&mut self, row: usize, col: usize, cell: Cell)
        ensures
            final(self).name == old(self).name,
            final(self).cells() == rows_with_cell(old(self).cells(), row as int, col as int, cell@),
    {
        if row < self.rows.len() && col < self.rows[row].len() {
            let ghost v = cell@;
            let mut r: Vec<Cell> = Vec::new();
            std::mem::swap(&mut r, &mut self.rows[row]);
            let ghost old_r = r@;
            r.set(col, cell);
            assert(row_view(r@) =~= row_view(old_r).update(col as int, v));
            std::mem::swap(&mut r, &mut self.rows[row]);
            assert(self.cells() =~= rows_with_cell(old(self).cells(), row as int, col as int, v));
        }
    }

    /// Removes the row at `row` and returns its cells; `None`, with the sheet
    /// unchanged, when there is no such row.
    pub fn delete_row(&mut self, row: usize) -> (r: Option<Vec<Cell>>)
        ensures
            final(self).name == old(self).name,
            row < old(self).cells().len() ==> {
                &&& r is Some
                &&& row_view(r->0@) == old(self).cells()[row as int]
                &&& final(self).cells() == old(self).cells().remove(row as int)
            },
            row >= old(self).cells().len() ==> r is None && *final(self) == *old(self),
    {
        if row < self.rows.len() {
            let r = self.rows.remove(row);
            assert(self.cells() =~= old(self).cells().remove(row as int));
            Some(r)
        } else {
            None
        }
    }

    /// Inserts a row at `row`, or at the end when `row` is past the last row;
    /// the row is first padded with empty cells to the current column count.
    pub fn insert_row(&mut self, row: usize, cells: Vec<Cell>)
        ensures
            final(self).name == old(self).name,
            final(self).cells() == rows_with_row(old(self).cells(), row as int, row_view(cells@)),
    {
        let col_count = self.col_count();
        let ghost given = row_view(cells@);
        let mut padded = cells;
        while padded.len() < col_count
            invariant
                padded@.len() >= given.len(),
                padded@.len() == given.len() || padded@.len() <= col_count,
                forall|j: int| 0 <= j < given.len() ==> #[trigger] padded@[j]@ == given[j],
                forall|j: int| given.len() <= j < padded@.len() ==> #[trigger] padded@[j]@ == CellView::Empty,
            decreases col_count - padded@.len(),
        {
            padded.push(Cell::Empty);
        }
        assert(row_view(padded@) =~= pad_row(given, col_count as nat));
        let at = if row < self.rows.len() { row } else { self.rows.len() };
        self.rows.insert(at, padded);
        assert(self.cells() =~= rows_with_row(old(self).cells(), row as int, given));
    }

    /// A row of empty cells as wide as the sheet.
    pub fn empty_row(&self) -> (r: Vec<Cell>)
        ensures
            row_view(r@) == empty_cells(max_row_len(self.cells())),
    {
        let n = self.col_count();
        let mut r: Vec<Cell> = Vec::new();
        while r.len() < n
            invariant
                r@.len() <= n,
                forall|j: int| 0 <= j < r@.len() ==> #[trigger] r@[j]@ == CellView::Empty,
            decreases n - r@.len(),
        {
            r.push(Cell::Empty);
        }
        assert(row_view(r@) =~= empty_cells(n as nat));
        r
    }
}

/// A loaded workbook: its sheets and the path it was read from.
#[derive(Debug, Clone)]
pub struct TableData {
    pub sheets: Vec<Sheet>,
    pub file_path: String,
}

impl TableData {
    /// A workbook with the given path and sheets.
    pub fn new(file_path: &str, sheets: Vec<Sheet>) -> (t: TableData)
        ensures
            t.file_path@ == file_path@,
            t.sheets@ == sheets@,
    {
        TableData { file_path: owned(file_path), sheets }
    }

    /// The first sheet, if there is one.
    pub fn first_sheet(&self) -> (s: Option<&Sheet>)
        ensures
            self.sheets@.len() == 0 ==> s is None,
            self.sheets@.len() > 0 ==> s == Some(&self.sheets@[0]),
    {
        if self.sheets.len() > 0 {
            Some(&self.sheets[0])
        } else {
            None
        }
    }

    /// The first sheet with the given name, if any.
    pub fn sheet_by_name(&self, name: &str) -> (s: Option<&Sheet>)
        ensures
            s is None <==> (forall|i: int| 0 <= i < self.sheets@.len() ==> self.sheets@[i].name@ != name@),
            s matches Some(sh) ==> exists|i: int|
                0 <= i < self.sheets@.len() && sh == &self.sheets@[i] && self.sheets@[i].name@ == name@
                && forall|j: int| 0 <= j < i ==> self.sheets@[j].name@ != name@,
    {
        let wanted = chars_of(name);
        let mut i: usize = 0;
        while i < self.sheets.len()
            invariant
                i <= self.sheets@.len(),
                wanted@ == name@,
                forall|j: int| 0 <= j < i ==> self.sheets@[j].name@ != name@,
            decreases self.sheets@.len() - i,
        {
            let have = chars_of(self.sheets[i].name.as_str());
            if chars_equal(&have, &wanted) {
                return Some(&self.sheets[i]);
            }
            i = i + 1;
        }
        None
    }

    /// The number of sheets.
    pub fn sheet_count(&self) -> (n: usize)
        ensures
            n == self.sheets@.len(),
    {
        self.sheets.len()
    }
}

}
