//! The few calls into outside crates that the library's logic needs, each
//! behind a declaration whose contract is taken on trust. Everything else in
//! the crate is verified against these contracts.

use vstd::prelude::*;

verus! {

// What parsing `s` as a TOML table yields, reduced to the table's top-level
// entries: `None` when `s` is not a valid TOML document; otherwise the
// entries in the table's stored order (lexicographic by key), each value
// `Some` of the text of a TOML string, and `None` for a value of any other
// TOML type.
pub uninterp spec fn toml_string_entries(s: Seq<char>) -> Option<
    Seq<(Seq<char>, Option<Seq<char>>)>,
>;

/// Relies on `toml::from_str::<toml::Table>` (toml's document parser): it
/// fails exactly on invalid TOML, and on success yields the top-level table,
/// whose entries are stored in lexicographic key order and depend on `s`
/// alone. Each entry is kept as its key and, for a TOML string, its text.
#[verifier::external_body]
pub(crate) fn parse_toml_entries(s: &str) -> (r: Option<Vec<(String, Option<String>)>>)
    ensures
        r is Some <==> toml_string_entries(s@) is Some,
        r matches Some(entries) ==> toml_string_entries(s@) matches Some(spec_entries)
            && entries.deep_view() == spec_entries,
{
    match toml::from_str::<toml::Table>(s) {
        Ok(table) => Some(
            table
                .into_iter()
                .map(
                    |(key, value)| match value {
                        toml::Value::String(text) => (key, Some(text)),
                        _ => (key, None),
                    },
                )
                .collect(),
        ),
        Err(_) => None,
    }
}

// What the csv reader yields on `s` when every record may have its own
// width and the first record is not treated as a header: the records in
// order, each the sequence of its cells' text.
pub uninterp spec fn csv_rows_of(s: Seq<char>) -> Seq<Seq<Seq<char>>>;

/// Relies on `csv::Reader::records` over an in-memory reader built with
/// `has_headers(false)` and `flexible(true)`: the records depend on `s`
/// alone. With ragged records allowed and the input an in-memory `&str`,
/// reading cannot fail: I/O errors cannot arise from a byte slice, unequal
/// record lengths are permitted, and every cell is a slice of `s` cut at
/// ASCII delimiter, quote or line-break bytes, hence valid UTF-8.
#[verifier::external_body]
pub(crate) fn parse_csv_rows(s: &str) -> (r: Vec<Vec<String>>)
    ensures
        r.deep_view() == csv_rows_of(s@),
{
    let mut reader = csv::ReaderBuilder::new().has_headers(false).flexible(true).from_reader(
        s.as_bytes(),
    );
    reader
        .records()
        .map(
            |record| {
                let record = record.expect("reading csv from an in-memory str cannot fail");
                record.iter().map(|cell| cell.to_string()).collect()
            },
        )
        .collect()
}

/// Relies on `chrono::Utc::now` and its `format`: the current UTC time as
/// "day/month/year hour:minute UTC". The result depends on the clock, so
/// nothing is promised of it.
#[verifier::external_body]
pub(crate) fn now_timestamp() -> String {
    chrono::Utc::now().format("%d/%m/%Y %H:%M UTC").to_string()
}

/// Relies on `String::push`: std documents that it appends the given char
/// to the end of the string.
pub assume_specification [ String::push ](s: &mut String, c: char)
    ensures
        final(s)@ == old(s)@.push(c),
;

} // verus!
