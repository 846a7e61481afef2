//! Choosing a writer by file extension, and the CSV writer's encoding.
use vstd::prelude::*;
use crate::error::AppError;
use crate::reader::{format_of, path_extension, records_view, spec_path_extension, strings_view};
use crate::table::{cell_text, CellView, TableData};
use crate::text::{chars_equal, chars_of, owned, spec_lowercase, to_lowercase};

verus! {

/// Writes the first sheet as comma separated text.
pub struct CsvWriter;

/// Writes every sheet into an Office Open XML workbook.
pub struct XlsxWriter;

/// The writer chosen for a file.
pub enum AnyWriter {
    Csv(CsvWriter),
    Xlsx(XlsxWriter),
}

/// The writer for a path, chosen by its extension in lower case: `csv`
/// writes CSV, `xlsx` and `xls` both write an xlsx workbook. Any other
/// extension is refused as unsupported, carrying the lower-case extension; a
/// path without extension is refused carrying the empty text.
pub fn writer_for(path: &str) -> (r: Result<AnyWriter, AppError>)
    ensures
        spec_path_extension(path@) is None ==> (r matches Err(AppError::UnsupportedFormat(e)) && e@.len() == 0),
        spec_path_extension(path@) matches Some(ext) ==> {
            let low = spec_lowercase(ext);
            match format_of(low) {
                Some(0) => r matches Ok(AnyWriter::Csv(_)),
                Some(_) => r matches Ok(AnyWriter::Xlsx(_)),
                None => r matches Err(AppError::UnsupportedFormat(e)) && e@ == low,
            }
        },
{
    match path_extension(path) {
        None => Err(AppError::UnsupportedFormat(String::new())),
        Some(ext) => {
            let low = to_lowercase(ext.as_str());
            let lv = chars_of(low.as_str());
            let csv = vec!['c', 's', 'v'];
            let xlsx = vec!['x', 'l', 's', 'x'];
            let xls = vec!['x', 'l', 's'];
            assert(csv@ =~= seq!['c', 's', 'v']);
            assert(xlsx@ =~= seq!['x', 'l', 's', 'x']);
            assert(xls@ =~= seq!['x', 'l', 's']);
            if chars_equal(&lv, &csv) {
                Ok(AnyWriter::Csv(CsvWriter))
            } else if chars_equal(&lv, &xlsx) || chars_equal(&lv, &xls) {
                Ok(AnyWriter::Xlsx(XlsxWriter))
            } else {
                Err(AppError::UnsupportedFormat(low))
            }
        },
    }
}

/// What the `csv` crate writes for the given records with the given delimiter
/// and its default settings (records must all have the same number of fields):
/// the bytes, or the error message.
pub uninterp spec fn spec_csv_write(records: Seq<Seq<Seq<char>>>, delimiter: u8) -> Result<Seq<u8>, Seq<char>>;

/// The CSV encoding of a list of records.
///
/// Trusted: writes each record with `csv::Writer::write_record` into an
/// in-memory `csv::WriterBuilder` writer with the given delimiter and takes
/// the bytes with `into_inner`; the result is named by `spec_csv_write`.
#[verifier::external_body]
pub fn csv_write(records: &Vec<Vec<String>>, delimiter: u8) -> (r: Result<Vec<u8>, String>)
    ensures
        r matches Ok(b) ==> spec_csv_write(records_view(records@), delimiter) matches Ok(x) && x == b@,
        r matches Err(m) ==> spec_csv_write(records_view(records@), delimiter) matches Err(e) && e == m@,
{
    let mut wtr = csv::WriterBuilder::new().delimiter(delimiter).from_writer(Vec::new());
    for record in records {
        wtr.write_record(record).map_err(|e| e.to_string())?;
    }
    wtr.into_inner().map_err(|e| e.to_string())
}

/// The texts of the cells of a list of rows.
pub open spec fn rows_text(rows: Seq<Seq<CellView>>) -> Seq<Seq<Seq<char>>> {
    rows.map_values(|r: Seq<CellView>| r.map_values(|c: CellView| cell_text(c)))
}

impl CsvWriter {
    /// The CSV bytes of a workbook: its first sheet's rows, each cell written
    /// as its text, comma separated. A workbook without sheets is refused as a
    /// parse error (`sem sheets`); the encoder's errors come back as parse
    /// errors carrying its message.
    pub fn encode(&self, data: &TableData) -> (r: Result<Vec<u8>, AppError>)
        ensures
            data.sheets@.len() == 0 ==> (r matches Err(AppError::Parse(m)) && m@ == "sem sheets"@),
            data.sheets@.len() > 0 ==> match spec_csv_write(rows_text(data.sheets@[0].cells()), 44) {
                Ok(b) => r matches Ok(v) && v@ == b,
                Err(e) => r matches Err(AppError::Parse(m)) && m@ == e,
            },
    {
        if data.sheets.len() == 0 {
            return Err(AppError::Parse(owned("sem sheets")));
        }
        let sheet = &data.sheets[0];
        let mut records: Vec<Vec<String>> = Vec::new();
        let mut i: usize = 0;
        while i < sheet.rows.len()
            invariant
                i <= sheet.rows@.len(),
                records@.len() == i,
                forall|k: int| 0 <= k < i ==> #[trigger] strings_view(records@[k]@) == rows_text(sheet.cells())[k],
            decreases sheet.rows@.len() - i,
        {
            let row = &sheet.rows[i];
            let mut record: Vec<String> = Vec::new();
            let mut j: usize = 0;
            while j < row.len()
                invariant
                    j <= row@.len(),
                    record@.len() == j,
                    forall|k: int| 0 <= k < j ==> (#[trigger] record@[k])@ == cell_text(row@[k]@),
                decreases row@.len() - j,
            {
                record.push(row[j].to_text());
                j = j + 1;
            }
            assert(strings_view(record@) =~= rows_text(sheet.cells())[i as int]);
            records.push(record);
            i = i + 1;
        }
        assert(records_view(records@) =~= rows_text(sheet.cells()));
        match csv_write(&records, 44u8) {
            Ok(b) => Ok(b),
            Err(m) => Err(AppError::Parse(m)),
        }
    }
}

}
