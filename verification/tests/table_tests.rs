use excel_tui::table::{Cell, Number, Sheet, TableData};

fn number_text(n: f64) -> String {
    if n.fract() == 0.0 && n.abs() < 1e15 {
        format!("{}", n as i64)
    } else {
        format!("{}", n)
    }
}

fn num(n: f64) -> Cell {
    Cell::Number(Number { bits: n.to_bits(), text: number_text(n) })
}

// --- Cell text ---

#[test]
fn cell_display_string() {
    assert_eq!(Cell::Text("hello".into()).to_text(), "hello");
}

#[test]
fn cell_display_number_integer() {
    assert_eq!(num(42.0).to_text(), "42");
}

#[test]
fn cell_display_number_float() {
    assert_eq!(num(3.14).to_text(), "3.14");
}

#[test]
fn cell_display_bool_true() {
    assert_eq!(Cell::Bool(true).to_text(), "TRUE");
}

#[test]
fn cell_display_bool_false() {
    assert_eq!(Cell::Bool(false).to_text(), "FALSE");
}

#[test]
fn cell_display_empty() {
    assert_eq!(Cell::Empty.to_text(), "");
}

// --- Sheet ---

fn sample_sheet() -> Sheet {
    Sheet::new("Sheet1", vec![
        vec![Cell::Text("Name".into()), Cell::Text("Age".into())],
        vec![Cell::Text("Alice".into()), num(30.0)],
        vec![Cell::Text("Bob".into()), num(25.0)],
    ])
}

#[test]
fn sheet_row_count() {
    assert_eq!(sample_sheet().row_count(), 3);
}

#[test]
fn sheet_col_count() {
    assert_eq!(sample_sheet().col_count(), 2);
}

#[test]
fn sheet_col_count_empty() {
    assert_eq!(Sheet::new("empty", vec![]).col_count(), 0);
}

#[test]
fn sheet_get_existing_cell() {
    let sheet = sample_sheet();
    assert_eq!(sheet.get(1, 0), &Cell::Text("Alice".into()));
}

#[test]
fn sheet_get_out_of_bounds_returns_empty() {
    let sheet = sample_sheet();
    assert_eq!(sheet.get(99, 99), &Cell::Empty);
}

// --- TableData ---

fn sample_table() -> TableData {
    TableData::new("file.xlsx", vec![
        Sheet::new("Dados", vec![vec![num(1.0)]]),
        Sheet::new("Resumo", vec![vec![Cell::Text("ok".into())]]),
    ])
}

#[test]
fn tabledata_first_sheet() {
    let t = sample_table();
    assert_eq!(t.first_sheet().unwrap().name, "Dados");
}

#[test]
fn tabledata_sheet_by_name_found() {
    let t = sample_table();
    assert!(t.sheet_by_name("Resumo").is_some());
}

#[test]
fn tabledata_sheet_by_name_not_found() {
    let t = sample_table();
    assert!(t.sheet_by_name("Inexistente").is_none());
}

#[test]
fn tabledata_sheet_count() {
    assert_eq!(sample_table().sheet_count(), 2);
}

#[test]
fn tabledata_file_path_stored() {
    assert_eq!(sample_table().file_path, "file.xlsx");
}

// --- Sheet changes ---

#[test]
fn set_cell_updates_value() {
    let mut s = sample_sheet();
    s.set_cell(1, 0, Cell::Text("Zed".into()));
    assert_eq!(s.get(1, 0), &Cell::Text("Zed".into()));
}

#[test]
fn set_cell_out_of_bounds_does_nothing() {
    let mut s = sample_sheet();
    s.set_cell(99, 99, num(1.0));
    assert_eq!(s.row_count(), 3);
}

#[test]
fn delete_row_removes_row() {
    let mut s = sample_sheet();
    s.delete_row(1);
    assert_eq!(s.row_count(), 2);
    assert_eq!(s.get(1, 0), &Cell::Text("Bob".into()));
}

#[test]
fn delete_row_returns_cells() {
    let mut s = sample_sheet();
    let removed = s.delete_row(1).unwrap();
    assert_eq!(removed[0], Cell::Text("Alice".into()));
}

#[test]
fn insert_row_adds_at_position() {
    let mut s = sample_sheet();
    s.insert_row(1, vec![Cell::Text("Zed".into()), num(99.0)]);
    assert_eq!(s.row_count(), 4);
    assert_eq!(s.get(1, 0), &Cell::Text("Zed".into()));
}

#[test]
fn empty_row_has_correct_col_count() {
    let s = sample_sheet();
    assert_eq!(s.empty_row().len(), s.col_count());
}

// --- further cases ---

#[test]
fn col_count_is_widest_row() {
    let s = Sheet::new("ragged", vec![
        vec![Cell::Empty],
        vec![Cell::Empty, Cell::Empty, Cell::Empty],
        vec![Cell::Empty, Cell::Empty],
    ]);
    assert_eq!(s.col_count(), 3);
}

#[test]
fn get_past_a_short_row_is_empty() {
    let s = Sheet::new("ragged", vec![vec![Cell::Bool(true)], vec![Cell::Bool(false), Cell::Bool(true)]]);
    assert_eq!(s.get(0, 1), &Cell::Empty);
    assert_eq!(s.get(1, 1), &Cell::Bool(true));
}

#[test]
fn set_cell_past_a_short_row_does_nothing() {
    let mut s = Sheet::new("ragged", vec![vec![Cell::Bool(true)], vec![Cell::Bool(false), Cell::Bool(true)]]);
    s.set_cell(0, 1, Cell::Text("x".into()));
    assert_eq!(s.rows[0].len(), 1);
    assert_eq!(s.get(0, 1), &Cell::Empty);
}

#[test]
fn delete_row_out_of_range_returns_none() {
    let mut s = sample_sheet();
    assert!(s.delete_row(3).is_none());
    assert_eq!(s.row_count(), 3);
}

#[test]
fn insert_row_pads_short_rows() {
    let mut s = sample_sheet();
    s.insert_row(0, vec![Cell::Text("only".into())]);
    assert_eq!(s.rows[0], vec![Cell::Text("only".into()), Cell::Empty]);
}

#[test]
fn insert_row_keeps_long_rows() {
    let mut s = sample_sheet();
    s.insert_row(0, vec![Cell::Empty, Cell::Empty, Cell::Bool(true)]);
    assert_eq!(s.rows[0].len(), 3);
    assert_eq!(s.col_count(), 3);
}

#[test]
fn insert_row_past_end_appends() {
    let mut s = sample_sheet();
    s.insert_row(50, vec![Cell::Text("last".into()), Cell::Empty]);
    assert_eq!(s.row_count(), 4);
    assert_eq!(s.get(3, 0), &Cell::Text("last".into()));
}

#[test]
fn empty_row_is_all_empty() {
    let s = sample_sheet();
    assert_eq!(s.empty_row(), vec![Cell::Empty, Cell::Empty]);
}

#[test]
fn first_sheet_of_no_sheets_is_none() {
    let t = TableData::new("x.csv", vec![]);
    assert!(t.first_sheet().is_none());
    assert_eq!(t.sheet_count(), 0);
}

#[test]
fn sheet_by_name_picks_first_match() {
    let t = TableData::new("x.xlsx", vec![
        Sheet::new("A", vec![vec![Cell::Bool(true)]]),
        Sheet::new("B", vec![]),
        Sheet::new("A", vec![]),
    ]);
    assert_eq!(t.sheet_by_name("A").unwrap().row_count(), 1);
}

#[test]
fn clone_cell_keeps_value() {
    let c = num(2.5);
    assert_eq!(c.clone_cell(), c);
    assert_eq!(Cell::Text("é".into()).clone_cell(), Cell::Text("é".into()));
}
