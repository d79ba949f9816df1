//! The tabular-to-grouped-list transform: row-oriented records become one
//! column-oriented list per header entry, in header order, with blank cells
//! skipped and a record wider than the header reported as an error.

use vstd::prelude::*;

verus! {

/// A data record held more cells than the header names columns.
#[derive(Clone, Copy, Debug, PartialEq, Eq, Structural)]
pub enum GroupError {
    RowTooWide { row: usize, expected: usize, actual: usize },
}

/// What `record` contributes to column `i`: its cell at position `i` when
/// that cell exists and is non-blank, and nothing otherwise.
pub open spec fn record_contrib(record: Seq<Seq<char>>, i: int) -> Seq<Seq<char>> {
    if 0 <= i < record.len() && record[i].len() > 0 {
        seq![record[i]]
    } else {
        Seq::empty()
    }
}

/// The non-blank cells at column position `i` across `records`, in record
/// order. A record shorter than `i + 1` contributes nothing; no placeholder
/// stands in for a blank or absent cell.
pub open spec fn col_values(records: Seq<Seq<Seq<char>>>, i: int) -> Seq<Seq<char>>
    decreases records.len(),
{
    if records.len() == 0 {
        Seq::empty()
    } else {
        col_values(records.drop_last(), i) + record_contrib(records.last(), i)
    }
}

/// One group per header entry, in header order: the header name first,
/// followed by that column's non-blank cells in record order.
pub open spec fn groups_of(header: Seq<Seq<char>>, records: Seq<Seq<Seq<char>>>) -> Seq<
    Seq<Seq<char>>,
> {
    Seq::new(header.len(), |i: int| seq![header[i]] + col_values(records, i))
}

/// Group `records` by column under `header`. Returns exactly one group per
/// header entry, each headed by its column name; a record wider than the
/// header is reported with its index among `records`, and the first such
/// record is the one named.
pub fn group(header: &Vec<String>, records: &Vec<Vec<String>>) -> (r: Result<
    Vec<Vec<String>>,
    GroupError,
>)
    ensures
        match r {
            Ok(gs) => {
                &&& forall|j: int|
                    0 <= j < records.deep_view().len() ==> (#[trigger] records.deep_view()[j]).len()
                        <= header@.len()
                &&& gs.deep_view() == groups_of(header.deep_view(), records.deep_view())
            },
            Err(GroupError::RowTooWide { row, expected, actual }) => {
                &&& row < records.deep_view().len()
                &&& records.deep_view()[row as int].len() > header@.len()
                &&& forall|j: int|
                    0 <= j < row ==> (#[trigger] records.deep_view()[j]).len() <= header@.len()
                &&& expected == header@.len()
                &&& actual == records.deep_view()[row as int].len()
            },
        },
{
    let n = header.len();
    let mut j: usize = 0;
    while j < records.len()
        invariant
            j <= records@.len(),
            n == header@.len(),
            forall|k: int| 0 <= k < j ==> (#[trigger] records.deep_view()[k]).len() <= n,
        decreases records@.len() - j,
    {
        let width = records[j].len();
        if width > n {
            return Err(GroupError::RowTooWide { row: j, expected: n, actual: width });
        }
        j += 1;
    }
    let mut groups: Vec<Vec<String>> = Vec::new();
    let mut i: usize = 0;
    while i < n
        invariant
            i <= n,
            n == header@.len(),
            groups.deep_view().len() == i,
            forall|k: int|
                0 <= k < i ==> #[trigger] groups.deep_view()[k] == seq![
                    header.deep_view()[k],
                ] + col_values(records.deep_view(), k),
        decreases n - i,
    {
        let mut col: Vec<String> = Vec::new();
        col.push(header[i].clone());
        proof {
            let rd = records.deep_view();
            assert(rd.take(0) =~= Seq::<Seq<Seq<char>>>::empty());
            assert(col.deep_view() =~= seq![header.deep_view()[i as int]] + col_values(
                rd.take(0),
                i as int,
            ));
        }
        let mut j: usize = 0;
        while j < records.len()
            invariant
                i < header@.len(),
                j <= records@.len(),
                col.deep_view() == seq![header.deep_view()[i as int]] + col_values(
                    records.deep_view().take(j as int),
                    i as int,
                ),
            decreases records@.len() - j,
        {
            let ghost old_col = col.deep_view();
            let rec = &records[j];
            if i < rec.len() {
                let cell = &rec[i];
                if !cell.as_str().is_empty() {
                    col.push(cell.clone());
                }
            }
            proof {
                let rd = records.deep_view();
                assert(rd.take(j + 1).drop_last() =~= rd.take(j as int));
                assert(rd.take(j + 1).last() == rd[j as int]);
                assert(col_values(rd.take(j + 1), i as int) == col_values(rd.take(j as int), i as int)
                    + record_contrib(rd[j as int], i as int));
                if i < rec@.len() && rec@[i as int]@.len() > 0 {
                    assert(rd[j as int][i as int] == rec@[i as int]@);
                    assert(col.deep_view() =~= old_col + seq![rd[j as int][i as int]]);
                } else {
                    assert(record_contrib(rd[j as int], i as int) =~= Seq::<Seq<char>>::empty());
                    assert(col_values(rd.take(j + 1), i as int) =~= col_values(
                        rd.take(j as int),
                        i as int,
                    ));
                }
                assert(col.deep_view() =~= seq![header.deep_view()[i as int]] + col_values(
                    rd.take(j + 1),
                    i as int,
                ));
            }
            j += 1;
        }
        proof {
            let rd = records.deep_view();
            assert(rd.take(rd.len() as int) =~= rd);
        }
        let ghost col_view = col.deep_view();
        let ghost old_groups = groups.deep_view();
        groups.push(col);
        proof {
            assert(groups.deep_view() =~= old_groups.push(col_view));
            assert forall|k: int| 0 <= k < i + 1 implies #[trigger] groups.deep_view()[k] == seq![
                header.deep_view()[k],
            ] + col_values(records.deep_view(), k) by {
                if k < i {
                    assert(groups.deep_view()[k] == old_groups[k]);
                } else {
                    assert(groups.deep_view()[k] == col_view);
                }
            }
        }
        i += 1;
    }
    proof {
        assert(groups.deep_view() =~= groups_of(header.deep_view(), records.deep_view()));
    }
    Ok(groups)
}

} // verus!
