//! The export pipeline on plain text: parse the config document, parse the
//! tabular data, regroup the cells by column, and render the page. The
//! caller reads the two files beforehand and writes the page afterwards.

use vstd::prelude::*;
use crate::bindings;
use crate::board::{Board, BoardView, ConfigError, parse_board};
use crate::group::{GroupError, group, groups_of};
use crate::render::{render_document, render_spec};

verus! {

/// Why an export was refused: the config document, or the tabular data.
#[derive(Clone, Copy, Debug, PartialEq, Eq, Structural)]
pub enum ExportError {
    Config(ConfigError),
    Data(GroupError),
}

/// The header record of the tabular data: its first record, or no columns
/// at all when the data is empty.
pub open spec fn header_of(rows: Seq<Seq<Seq<char>>>) -> Seq<Seq<char>> {
    if rows.len() == 0 {
        Seq::empty()
    } else {
        rows[0]
    }
}

/// The data records of the tabular data: everything after the header.
pub open spec fn data_rows_of(rows: Seq<Seq<Seq<char>>>) -> Seq<Seq<Seq<char>>> {
    if rows.len() == 0 {
        Seq::empty()
    } else {
        rows.drop_first()
    }
}

/// Whether every one of `records` has at most `n` cells.
pub open spec fn rows_fit(records: Seq<Seq<Seq<char>>>, n: nat) -> bool {
    forall|j: int| 0 <= j < records.len() ==> (#[trigger] records[j]).len() <= n
}

/// Whether exporting `config` and `csv` succeeds: the config parses and no
/// data record is wider than the header.
pub open spec fn export_ok(config: Seq<char>, csv: Seq<char>) -> bool {
    let rows = bindings::csv_rows_of(csv);
    parse_board(config) is Ok && rows_fit(data_rows_of(rows), header_of(rows).len())
}

/// The page a successful export produces at timestamp `ts`.
pub open spec fn export_doc(config: Seq<char>, csv: Seq<char>, ts: Seq<char>) -> Seq<char> {
    let rows = bindings::csv_rows_of(csv);
    render_spec(
        parse_board(config).unwrap(),
        groups_of(header_of(rows), data_rows_of(rows)),
        ts,
    )
}

/// What a failed export reports: the config's own error when the config is
/// rejected, and otherwise the first data record wider than the header, by
/// its index among the data records.
pub open spec fn export_err_matches(config: Seq<char>, csv: Seq<char>, e: ExportError) -> bool {
    match e {
        ExportError::Config(ce) => parse_board(config) == Err::<BoardView, ConfigError>(ce),
        ExportError::Data(GroupError::RowTooWide { row, expected, actual }) => {
            let records = data_rows_of(bindings::csv_rows_of(csv));
            let n = header_of(bindings::csv_rows_of(csv)).len();
            &&& parse_board(config) is Ok
            &&& row < records.len()
            &&& records[row as int].len() > n
            &&& forall|j: int| 0 <= j < row ==> (#[trigger] records[j]).len() <= n
            &&& expected == n
            &&& actual == records[row as int].len()
        },
    }
}

/// Export a board: the page for `config_text` and `csv_text` at the given
/// timestamp, or the error that refused it.
pub fn export_document(config_text: &str, csv_text: &str, timestamp: &str) -> (r: Result<
    String,
    ExportError,
>)
    ensures
        r is Ok <==> export_ok(config_text@, csv_text@),
        r matches Ok(doc) ==> doc@ == export_doc(config_text@, csv_text@, timestamp@),
        r matches Err(e) ==> export_err_matches(config_text@, csv_text@, e),
{
    let board = match Board::from_toml(config_text) {
        Ok(board) => board,
        Err(e) => {
            return Err(ExportError::Config(e));
        },
    };
    let mut rows = bindings::parse_csv_rows(csv_text);
    let ghost all_rows = rows.deep_view();
    let header: Vec<String> = if rows.len() == 0 {
        Vec::new()
    } else {
        rows.remove(0)
    };
    proof {
        assert(header.deep_view() =~= header_of(all_rows));
        assert(rows.deep_view() =~= data_rows_of(all_rows));
    }
    match group(&header, &rows) {
        Err(e) => Err(ExportError::Data(e)),
        Ok(groups) => Ok(render_document(&board, &groups, timestamp)),
    }
}

/// Export a board stamped with the current UTC time. Whether it succeeds,
/// and any error, depend on the two texts alone; the page itself embeds
/// whatever the clock read.
pub fn export_now(config_text: &str, csv_text: &str) -> (r: Result<String, ExportError>)
    ensures
        r is Ok <==> export_ok(config_text@, csv_text@),
        r matches Ok(doc) ==> exists|ts: Seq<char>|
            doc@ == export_doc(config_text@, csv_text@, ts),
        r matches Err(e) ==> export_err_matches(config_text@, csv_text@, e),
{
    let stamp = bindings::now_timestamp();
    let r = export_document(config_text, csv_text, stamp.as_str());
    proof {
        if r is Ok {
            assert(r.unwrap()@ == export_doc(config_text@, csv_text@, stamp@));
        }
    }
    r
}

} // verus!
