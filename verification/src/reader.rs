//! Choosing a reader by file extension, and the CSV reader's decoding steps.
use vstd::prelude::*;
use vstd::utf8::{decode_utf8, valid_utf8};
use crate::app::number_view;
use crate::error::AppError;
use crate::table::{Cell, CellView, Number, Sheet, TableData};
use crate::text::{chars_equal, chars_of, owned, spec_lowercase, to_lowercase};

verus! {

/// Reads comma, semicolon or tab separated text files.
pub struct CsvReader;

/// Reads Office Open XML workbooks (`.xlsx`).
pub struct XlsxReader;

/// Reads legacy Excel workbooks (`.xls`).
pub struct XlsReader;

/// The reader chosen for a file.
pub enum AnyReader {
    Csv(CsvReader),
    Xlsx(XlsxReader),
    Xls(XlsReader),
}

/// What `Path::extension` gives for a path, as text: the part of the file name
/// after its last dot, if any.
pub uninterp spec fn spec_path_extension(path: Seq<char>) -> Option<Seq<char>>;

/// What `Path::file_name` gives for a path, as text: its last component, if any.
pub uninterp spec fn spec_path_file_name(path: Seq<char>) -> Option<Seq<char>>;

/// The extension of a path.
///
/// Trusted: calls `std::path::Path::extension` on the path and converts the
/// result to a `String`; the result is named by `spec_path_extension`.
#[verifier::external_body]
pub fn path_extension(path: &str) -> (r: Option<String>)
    ensures
        r matches Some(e) ==> spec_path_extension(path@) == Some(e@),
        r is None ==> spec_path_extension(path@) is None,
{
    std::path::Path::new(path).extension().and_then(|e| e.to_str()).map(|e| e.to_owned())
}

/// The file name of a path.
///
/// Trusted: calls `std::path::Path::file_name` on the path and converts the
/// result to a `String`; the result is named by `spec_path_file_name`.
#[verifier::external_body]
pub fn path_file_name(path: &str) -> (r: Option<String>)
    ensures
        r matches Some(e) ==> spec_path_file_name(path@) == Some(e@),
        r is None ==> spec_path_file_name(path@) is None,
{
    std::path::Path::new(path).file_name().and_then(|e| e.to_str()).map(|e| e.to_owned())
}

/// The format a lower-case extension names: 0 for CSV, 1 for xlsx, 2 for xls,
/// `None` for any other.
pub open spec fn format_of(ext: Seq<char>) -> Option<u8> {
    if ext == seq!['c', 's', 'v'] {
        Some(0)
    } else if ext == seq!['x', 'l', 's', 'x'] {
        Some(1)
    } else if ext == seq!['x', 'l', 's'] {
        Some(2)
    } else {
        None
    }
}

/// The reader for a path, chosen by its extension in lower case: `csv`,
/// `xlsx` or `xls`. Any other extension is refused as unsupported, carrying
/// the lower-case extension; a path without extension is refused carrying the
/// empty text.
pub fn reader_for(path: &str) -> (r: Result<AnyReader, AppError>)
    ensures
        spec_path_extension(path@) is None ==> (r matches Err(AppError::UnsupportedFormat(e)) && e@.len() == 0),
        spec_path_extension(path@) matches Some(ext) ==> {
            let low = spec_lowercase(ext);
            match format_of(low) {
                Some(0) => r matches Ok(AnyReader::Csv(_)),
                Some(1) => r matches Ok(AnyReader::Xlsx(_)),
                Some(_) => r matches Ok(AnyReader::Xls(_)),
                None => r matches Err(AppError::UnsupportedFormat(e)) && e@ == low,
            }
        },
{
    match path_extension(path) {
        None => Err(AppError::UnsupportedFormat(String::new())),
        Some(ext) => {
            let low = to_lowercase(ext.as_str());
            let lv = chars_of(low.as_str());
            let csv = vec!['c', 's', 'v'];
            let xlsx = vec!['x', 'l', 's', 'x'];
            let xls = vec!['x', 'l', 's'];
            assert(csv@ =~= seq!['c', 's', 'v']);
            assert(xlsx@ =~= seq!['x', 'l', 's', 'x']);
            assert(xls@ =~= seq!['x', 'l', 's']);
            if chars_equal(&lv, &csv) {
                Ok(AnyReader::Csv(CsvReader))
            } else if chars_equal(&lv, &xlsx) {
                Ok(AnyReader::Xlsx(XlsxReader))
            } else if chars_equal(&lv, &xls) {
                Ok(AnyReader::Xls(XlsReader))
            } else {
                Err(AppError::UnsupportedFormat(low))
            }
        },
    }
}

/// How often `c` occurs in `s`.
pub open spec fn count_of(s: Seq<char>, c: char) -> nat
    decreases s.len(),
{
    if s.len() == 0 {
        0
    } else {
        count_of(s.drop_last(), c) + if s.last() == c { 1nat } else { 0nat }
    }
}

/// The delimiter that occurs most often among comma, semicolon and tab; on a
/// tie the later of them in that order wins, so text with none of them gives tab.
pub open spec fn delimiter_of(s: Seq<char>) -> u8 {
    let commas = count_of(s, ',');
    let semis = count_of(s, ';');
    let tabs = count_of(s, '\t');
    if tabs >= commas && tabs >= semis {
        9
    } else if semis >= commas {
        59
    } else {
        44
    }
}

/// Whether the bytes start with the UTF-8 byte order mark.
pub open spec fn has_bom(raw: Seq<u8>) -> bool {
    raw.len() >= 3 && raw[0] == 0xEF && raw[1] == 0xBB && raw[2] == 0xBF
}

/// The bytes of a CSV file without its byte order mark, if it has one.
pub open spec fn csv_body(raw: Seq<u8>) -> Seq<u8> {
    if has_bom(raw) { raw.skip(3) } else { raw }
}

/// What `std::str::from_utf8` says of bytes that are not valid UTF-8 (the
/// display text of its `Utf8Error`).
pub uninterp spec fn spec_utf8_error_text(bytes: Seq<u8>) -> Seq<char>;

/// The bytes decoded as UTF-8, or the decoder's error message.
///
/// Trusted: calls `std::str::from_utf8`, documented as succeeding exactly on
/// valid UTF-8; the decoded text is stated with vstd's UTF-8 specification and
/// the error message is named by `spec_utf8_error_text`.
#[verifier::external_body]
pub fn decode_text(bytes: &[u8]) -> (r: Result<String, String>)
    ensures
        r is Ok <==> valid_utf8(bytes@),
        r matches Ok(s) ==> s@ == decode_utf8(bytes@),
        r matches Err(m) ==> m@ == spec_utf8_error_text(bytes@),
{
    std::str::from_utf8(bytes).map(|s| s.to_owned()).map_err(|e| e.to_string())
}

/// The values of a list of strings.
pub open spec fn strings_view(v: Seq<String>) -> Seq<Seq<char>> {
    v.map_values(|s: String| s@)
}

/// The values of a list of records of strings.
pub open spec fn records_view(v: Seq<Vec<String>>) -> Seq<Seq<Seq<char>>> {
    v.map_values(|r: Vec<String>| strings_view(r@))
}

/// What the `csv` crate reads from a text with the given delimiter, no header
/// row and records of any length: the records as lists of fields, or the error
/// message.
pub uninterp spec fn spec_csv_read(text: Seq<char>, delimiter: u8) -> Result<Seq<Seq<Seq<char>>>, Seq<char>>;

/// The records of a CSV text.
///
/// Trusted: reads `text` with `csv::ReaderBuilder` (delimiter `delimiter`,
/// `has_headers(false)`, `flexible(true)`) and collects `records()` as strings;
/// the result is named by `spec_csv_read`.
#[verifier::external_body]
pub fn csv_read(text: &str, delimiter: u8) -> (r: Result<Vec<Vec<String>>, String>)
    ensures
        r matches Ok(v) ==> spec_csv_read(text@, delimiter) matches Ok(recs) && recs == records_view(v@),
        r matches Err(m) ==> spec_csv_read(text@, delimiter) matches Err(e) && e == m@,
{
    let mut rdr = csv::ReaderBuilder::new()
        .delimiter(delimiter)
        .has_headers(false)
        .flexible(true)
        .from_reader(text.as_bytes());
    rdr.records()
        .map(|r| r.map(|rec| rec.iter().map(|f| f.to_owned()).collect()))
        .collect::<Result<Vec<Vec<String>>, csv::Error>>()
        .map_err(|e| e.to_string())
}

/// The cell a CSV field becomes: empty fields give empty cells, fields that
/// parsed as a number (`number`) give that number, others stay text.
pub open spec fn field_cell_of(field: Seq<char>, number: Option<(u64, Seq<char>)>) -> CellView {
    if field.len() == 0 {
        CellView::Empty
    } else {
        match number {
            Some((b, t)) => CellView::Number(b, t),
            None => CellView::Text(field),
        }
    }
}

impl CsvReader {
    /// The delimiter of a CSV text; see `delimiter_of`.
    pub fn detect_delimiter(sample: &str) -> (d: u8)
        ensures
            d == delimiter_of(sample@),
    {
        let v = chars_of(sample);
        let mut commas: usize = 0;
        let mut semis: usize = 0;
        let mut tabs: usize = 0;
        let mut i: usize = 0;
        while i < v.len()
            invariant
                v@ == sample@,
                i <= v@.len(),
                commas == count_of(v@.take(i as int), ','),
                semis == count_of(v@.take(i as int), ';'),
                tabs == count_of(v@.take(i as int), '\t'),
                commas <= i && semis <= i && tabs <= i,
            decreases v@.len() - i,
        {
            assert(v@.take(i + 1).drop_last() =~= v@.take(i as int));
            if v[i] == ',' {
                commas = commas + 1;
            } else if v[i] == ';' {
                semis = semis + 1;
            } else if v[i] == '\t' {
                tabs = tabs + 1;
            }
            i = i + 1;
        }
        assert(v@.take(v@.len() as int) =~= v@);
        if tabs >= commas && tabs >= semis {
            9u8
        } else if semis >= commas {
            59u8
        } else {
            44u8
        }
    }

    /// The records of a CSV file's bytes: a leading byte order mark is
    /// dropped, the rest must be UTF-8, and the text is split with the
    /// delimiter that `detect_delimiter` picks. Decoding and splitting errors
    /// come back as parse errors carrying the decoder's message.
    pub fn records(&self, raw: &[u8]) -> (r: Result<Vec<Vec<String>>, AppError>)
        ensures
            !valid_utf8(csv_body(raw@)) ==> (r matches Err(AppError::Parse(m))
                && m@ == spec_utf8_error_text(csv_body(raw@))),
            valid_utf8(csv_body(raw@)) ==> {
                let text = decode_utf8(csv_body(raw@));
                match spec_csv_read(text, delimiter_of(text)) {
                    Ok(recs) => r matches Ok(v) && records_view(v@) == recs,
                    Err(m) => r matches Err(AppError::Parse(e)) && e@ == m,
                }
            },
    {
        let bom = raw.len() >= 3 && raw[0] == 0xEF && raw[1] == 0xBB && raw[2] == 0xBF;
        let decoded = if bom {
            let body = vstd::slice::slice_subrange(raw, 3, raw.len());
            assert(body@ =~= csv_body(raw@));
            decode_text(body)
        } else {
            assert(raw@ =~= csv_body(raw@));
            decode_text(raw)
        };
        let content = match decoded {
            Ok(s) => s,
            Err(m) => {
                return Err(AppError::Parse(m));
            },
        };
        let delimiter = Self::detect_delimiter(content.as_str());
        match csv_read(content.as_str(), delimiter) {
            Ok(v) => Ok(v),
            Err(m) => Err(AppError::Parse(m)),
        }
    }

    /// The cell a CSV field becomes; `number` is what parsing the field as a
    /// 64-bit float gave. See `field_cell_of`.
    pub fn field_cell(field: &str, number: Option<Number>) -> (c: Cell)
        ensures
            c@ == field_cell_of(field@, match number {
                Some(n) => Some((n.bits, n.text@)),
                None => None,
            }),
            (c@ is Empty) == (field@.len() == 0),
            field@.len() > 0 && number is Some ==> c@ == CellView::Number(number->0.bits, number->0.text@),
            field@.len() > 0 && number is None ==> c@ == CellView::Text(field@),
    {
        let v = chars_of(field);
        if v.len() == 0 {
            Cell::Empty
        } else {
            match number {
                Some(n) => Cell::Number(n),
                None => Cell::Text(owned(field)),
            }
        }
    }

    /// The workbook read from the CSV file at `path`: one sheet named after the
    /// file (or `sheet` when the path has no file name) holding `rows`.
    pub fn table(&self, path: &str, rows: Vec<Vec<Cell>>) -> (t: TableData)
        ensures
            t.file_path@ == path@,
            t.sheets@.len() == 1,
            t.sheets@[0].rows@ == rows@,
            t.sheets@[0].name@ == match spec_path_file_name(path@) {
                Some(n) => n,
                None => "sheet"@,
            },
    {
        let name = match path_file_name(path) {
            Some(n) => n,
            None => owned("sheet"),
        };
        let sheet = Sheet::new(name.as_str(), rows);
        let mut sheets: Vec<Sheet> = Vec::new();
        sheets.push(sheet);
        TableData::new(path, sheets)
    }
}

/// A copy of an optional number with the same value.
fn copy_number(n: &Option<Number>) -> (r: Option<Number>)
    ensures
        number_view(r) == number_view(*n),
{
    match n {
        Some(x) => Some(Number { bits: x.bits, text: owned(x.text.as_str()) }),
        None => None,
    }
}

/// The rows of cells that CSV records become, field by field (see
/// `field_cell_of`); `numbers` holds, at the same positions, what parsing each
/// field as a 64-bit float gave.
pub fn rows_of(records: &Vec<Vec<String>>, numbers: &Vec<Vec<Option<Number>>>) -> (rows: Vec<Vec<Cell>>)
    requires
        numbers@.len() == records@.len(),
        forall|i: int| 0 <= i < records@.len() ==> (#[trigger] numbers@[i])@.len() == records@[i]@.len(),
    ensures
        rows@.len() == records@.len(),
        forall|i: int| 0 <= i < records@.len() ==> (#[trigger] rows@[i])@.len() == records@[i]@.len(),
        forall|i: int, j: int| 0 <= i < records@.len() && 0 <= j < records@[i]@.len() ==>
            (#[trigger] rows@[i]@[j])@ == field_cell_of(records@[i]@[j]@, number_view(numbers@[i]@[j])),
{
    let mut rows: Vec<Vec<Cell>> = Vec::new();
    let mut i: usize = 0;
    while i < records.len()
        invariant
            numbers@.len() == records@.len(),
            forall|k: int| 0 <= k < records@.len() ==> (#[trigger] numbers@[k])@.len() == records@[k]@.len(),
            i <= records@.len(),
            rows@.len() == i,
            forall|k: int| 0 <= k < i ==> (#[trigger] rows@[k])@.len() == records@[k]@.len(),
            forall|k: int, j: int| 0 <= k < i && 0 <= j < records@[k]@.len() ==>
                (#[trigger] rows@[k]@[j])@ == field_cell_of(records@[k]@[j]@, number_view(numbers@[k]@[j])),
        decreases records@.len() - i,
    {
        let rec = &records[i];
        let nums = &numbers[i];
        assert(nums@.len() == rec@.len());
        let mut row: Vec<Cell> = Vec::new();
        let mut j: usize = 0;
        while j < rec.len()
            invariant
                nums@.len() == rec@.len(),
                j <= rec@.len(),
                row@.len() == j,
                forall|m: int| 0 <= m < j ==> (#[trigger] row@[m])@ == field_cell_of(rec@[m]@, number_view(nums@[m])),
            decreases rec@.len() - j,
        {
            let n = copy_number(&nums[j]);
            row.push(CsvReader::field_cell(rec[j].as_str(), n));
            j = j + 1;
        }
        rows.push(row);
        i = i + 1;
    }
    rows
}

}
