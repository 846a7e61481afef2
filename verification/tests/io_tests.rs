use excel_tui::error::AppError;
use excel_tui::reader::{reader_for, rows_of, AnyReader, CsvReader};
use excel_tui::table::{Cell, Number, Sheet, TableData};
use excel_tui::writer::{writer_for, AnyWriter, CsvWriter};

fn number_text(n: f64) -> String {
    if n.fract() == 0.0 && n.abs() < 1e15 {
        format!("{}", n as i64)
    } else {
        format!("{}", n)
    }
}

fn number(n: f64) -> Number {
    Number { bits: n.to_bits(), text: number_text(n) }
}

fn num(n: f64) -> Cell {
    Cell::Number(number(n))
}

fn parse_num(s: &str) -> Option<Number> {
    s.parse::<f64>().ok().map(number)
}

/// Reads CSV bytes as the program reads a CSV file at `test.csv`.
fn read_str(content: &[u8]) -> Result<TableData, AppError> {
    let reader = CsvReader;
    let records = reader.records(content)?;
    let numbers: Vec<Vec<Option<Number>>> =
        records.iter().map(|r| r.iter().map(|f| parse_num(f)).collect()).collect();
    Ok(reader.table("test.csv", rows_of(&records, &numbers)))
}

#[test]
fn reads_simple_csv() {
    let td = read_str(b"name,age\nAlice,30\nBob,25").unwrap();
    let sheet = td.first_sheet().unwrap();
    assert_eq!(sheet.row_count(), 3);
    assert_eq!(sheet.col_count(), 2);
}

#[test]
fn reads_semicolon_delimited() {
    let td = read_str(b"a;b;c\n1;2;3").unwrap();
    let sheet = td.first_sheet().unwrap();
    assert_eq!(sheet.col_count(), 3);
}

#[test]
fn reads_tab_delimited() {
    let td = read_str(b"a\tb\tc\n1\t2\t3").unwrap();
    let sheet = td.first_sheet().unwrap();
    assert_eq!(sheet.col_count(), 3);
}

#[test]
fn reads_empty_csv() {
    let td = read_str(b"").unwrap();
    assert_eq!(td.first_sheet().unwrap().row_count(), 0);
}

#[test]
fn reads_utf8_with_bom() {
    let mut content = vec![0xEF, 0xBB, 0xBF];
    content.extend_from_slice(b"nome,valor\nTeste,42");
    let td = read_str(&content).unwrap();
    let sheet = td.first_sheet().unwrap();
    assert_eq!(sheet.row_count(), 2);
}

#[test]
fn parses_numbers() {
    let td = read_str(b"x\n3.14\n100").unwrap();
    let sheet = td.first_sheet().unwrap();
    assert_eq!(sheet.get(1, 0), &num(3.14));
    assert_eq!(sheet.get(2, 0), &num(100.0));
}

#[test]
fn parses_empty_fields_as_empty_cell() {
    let td = read_str(b"a,b\n,2").unwrap();
    let sheet = td.first_sheet().unwrap();
    assert_eq!(sheet.get(1, 0), &Cell::Empty);
}

#[test]
fn factory_csv() {
    assert!(reader_for("data.csv").is_ok());
}

#[test]
fn factory_xlsx() {
    assert!(reader_for("data.xlsx").is_ok());
}

#[test]
fn factory_xls() {
    assert!(reader_for("data.xls").is_ok());
}

#[test]
fn factory_unknown_extension_error() {
    let result = reader_for("data.ods");
    assert!(matches!(result, Err(AppError::UnsupportedFormat(_))));
}

#[test]
fn factory_no_extension_error() {
    let result = reader_for("data");
    assert!(matches!(result, Err(AppError::UnsupportedFormat(_))));
}

fn sample() -> TableData {
    TableData::new("t.csv", vec![Sheet::new("S", vec![
        vec![Cell::Text("Nome".into()), Cell::Text("Idade".into())],
        vec![Cell::Text("Alice".into()), num(30.0)],
    ])])
}

#[test]
fn writes_simple_csv() {
    let bytes = CsvWriter.encode(&sample()).unwrap();
    let content = String::from_utf8(bytes).unwrap();
    assert!(content.contains("Alice"));
    assert!(content.contains("30"));
}

#[test]
fn roundtrip_csv() {
    let original = sample();
    let bytes = CsvWriter.encode(&original).unwrap();
    let loaded = read_str(&bytes).unwrap();
    let s = loaded.first_sheet().unwrap();
    assert_eq!(s.get(1, 0), &Cell::Text("Alice".into()));
    assert_eq!(s.get(1, 1), &num(30.0));
}

// ── further cases ──

#[test]
fn factory_picks_the_reader_by_extension() {
    assert!(matches!(reader_for("a/b/DATA.CSV"), Ok(AnyReader::Csv(_))));
    assert!(matches!(reader_for("x.XlSx"), Ok(AnyReader::Xlsx(_))));
    assert!(matches!(reader_for("legacy.xls"), Ok(AnyReader::Xls(_))));
    assert_eq!(reader_for("data.ODS").err(), Some(AppError::UnsupportedFormat("ods".into())));
    assert_eq!(reader_for("data").err(), Some(AppError::UnsupportedFormat(String::new())));
}

#[test]
fn writer_factory_picks_by_extension() {
    assert!(matches!(writer_for("out.csv"), Ok(AnyWriter::Csv(_))));
    assert!(matches!(writer_for("out.xlsx"), Ok(AnyWriter::Xlsx(_))));
    assert!(matches!(writer_for("out.XLS"), Ok(AnyWriter::Xlsx(_))));
    assert_eq!(writer_for("out.txt").err(), Some(AppError::UnsupportedFormat("txt".into())));
    assert_eq!(writer_for("out").err(), Some(AppError::UnsupportedFormat(String::new())));
}

#[test]
fn detect_delimiter_counts() {
    assert_eq!(CsvReader::detect_delimiter("a,b,c"), b',');
    assert_eq!(CsvReader::detect_delimiter("a;b;c,d"), b';');
    assert_eq!(CsvReader::detect_delimiter("a\tb"), b'\t');
    assert_eq!(CsvReader::detect_delimiter("no delimiters"), b'\t');
    assert_eq!(CsvReader::detect_delimiter("a,b;c"), b';');
    assert_eq!(CsvReader::detect_delimiter("a,b,c;d\te"), b',');
}

#[test]
fn records_split_on_the_detected_delimiter() {
    let recs = CsvReader.records(b"a;b\n\"x;y\";z").unwrap();
    assert_eq!(recs, vec![vec!["a".to_string(), "b".to_string()], vec!["x;y".to_string(), "z".to_string()]]);
}

#[test]
fn records_of_ragged_rows() {
    let recs = CsvReader.records(b"a,b,c\nd\n").unwrap();
    assert_eq!(recs[0].len(), 3);
    assert_eq!(recs[1], vec!["d".to_string()]);
}

#[test]
fn invalid_utf8_is_a_parse_error() {
    let r = CsvReader.records(&[b'a', 0xFF, b'b']);
    assert!(matches!(r, Err(AppError::Parse(m)) if !m.is_empty()));
}

#[test]
fn bom_only_is_dropped() {
    let recs = CsvReader.records(&[0xEF, 0xBB, 0xBF, b'x']).unwrap();
    assert_eq!(recs, vec![vec!["x".to_string()]]);
}

#[test]
fn field_cells() {
    assert_eq!(CsvReader::field_cell("", None), Cell::Empty);
    assert_eq!(CsvReader::field_cell("7", parse_num("7")), num(7.0));
    assert_eq!(CsvReader::field_cell("true", parse_num("true")), Cell::Text("true".into()));
}

#[test]
fn table_is_named_after_the_file() {
    let t = CsvReader.table("/tmp/dir/clientes.csv", vec![vec![Cell::Empty]]);
    assert_eq!(t.sheets[0].name, "clientes.csv");
    assert_eq!(t.file_path, "/tmp/dir/clientes.csv");
    let t = CsvReader.table("/", vec![]);
    assert_eq!(t.sheets[0].name, "sheet");
}

#[test]
fn encode_without_sheets_fails() {
    let t = TableData::new("x.csv", vec![]);
    assert_eq!(CsvWriter.encode(&t).err(), Some(AppError::Parse("sem sheets".into())));
}

#[test]
fn encode_writes_cell_texts() {
    let t = TableData::new("x.csv", vec![Sheet::new("S", vec![
        vec![Cell::Bool(true), Cell::Empty, num(2.5)],
        vec![Cell::Text("a,b".into()), Cell::Bool(false), Cell::Text("c".into())],
    ])]);
    let bytes = CsvWriter.encode(&t).unwrap();
    assert_eq!(String::from_utf8(bytes).unwrap(), "TRUE,,2.5\n\"a,b\",FALSE,c\n");
}

#[test]
fn encode_of_ragged_rows_fails() {
    let t = TableData::new("x.csv", vec![Sheet::new("S", vec![
        vec![Cell::Empty, Cell::Empty],
        vec![Cell::Empty],
    ])]);
    assert!(matches!(CsvWriter.encode(&t), Err(AppError::Parse(_))));
}

#[test]
fn records_become_rows_field_by_field() {
    let records = vec![vec!["a".to_string(), "".to_string()], vec!["3.5".to_string()]];
    let numbers: Vec<Vec<Option<Number>>> =
        records.iter().map(|r| r.iter().map(|f| parse_num(f)).collect()).collect();
    let rows = rows_of(&records, &numbers);
    assert_eq!(rows, vec![vec![Cell::Text("a".into()), Cell::Empty], vec![num(3.5)]]);
    assert!(rows_of(&vec![], &vec![]).is_empty());
}
