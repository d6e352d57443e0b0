//! The CSV framing of the files, which the `csv` crate does.

use crate::text::texts;
use vstd::prelude::*;

verus! {

/// The line that `csv` writes for one record of these fields, its terminator
/// included, or `None` where it writes none.
pub uninterp spec fn csv_record_text(fields: Seq<Seq<char>>) -> Option<Seq<char>>;

/// The records that `csv` reads from a text, each as its fields, the first
/// line taken as a record like the rest; `None` where it refuses the text.
pub uninterp spec fn csv_rows(text: Seq<char>) -> Option<Seq<Seq<Seq<char>>>>;

/// The fields of each of some rows.
pub open spec fn rows_view(rows: Seq<Vec<String>>) -> Seq<Seq<Seq<char>>> {
    rows.map_values(|row: Vec<String>| texts(row@))
}

/// Writes one record with `csv::Writer::write_record` into memory, with the
/// writer's default settings, and hands out what was written as text; `None`
/// where `csv` reports an error or the bytes are no text. The outcome depends
/// on the fields alone.
#[verifier::external_body]
pub(crate) fn write_record(fields: &Vec<String>) -> (line: Option<String>)
    ensures
        csv_record_text(texts(fields@)) == (match line {
            Some(text) => Some(text@),
            None => None,
        }),
{
    let mut writer = csv::Writer::from_writer(Vec::new());
    writer.write_record(fields).ok()?;
    String::from_utf8(writer.into_inner().ok()?).ok()
}

/// Reads every record of a text with `csv::Reader::records`, headers switched
/// off so that the first line comes out too, and hands out the fields of each;
/// `None` where `csv` reports an error for some record. The outcome depends
/// on the text alone.
#[verifier::external_body]
pub(crate) fn read_rows(text: &str) -> (rows: Option<Vec<Vec<String>>>)
    ensures
        csv_rows(text@) == (match rows {
            Some(list) => Some(rows_view(list@)),
            None => None,
        }),
{
    let mut reader = csv::ReaderBuilder::new().has_headers(false).from_reader(text.as_bytes());
    let mut rows = Vec::new();
    for record in reader.records() {
        rows.push(record.ok()?.iter().map(String::from).collect());
    }
    Some(rows)
}

} // verus!
