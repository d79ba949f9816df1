use kanboard::group::{group, GroupError};

fn rows(data: &[&[&str]]) -> Vec<Vec<String>> {
    data.iter().map(|r| r.iter().map(|c| c.to_string()).collect()).collect()
}

fn header(names: &[&str]) -> Vec<String> {
    names.iter().map(|n| n.to_string()).collect()
}

#[test]
fn concrete_scenario() {
    let h = header(&["TODO", "Done"]);
    let r = rows(&[&["Write spec", "Ship v1"], &["Review", ""]]);
    let groups = group(&h, &r).unwrap();
    assert_eq!(groups, rows(&[&["TODO", "Write spec", "Review"], &["Done", "Ship v1"]]));
}

#[test]
fn blank_skipping() {
    let h = header(&["A", "B", "C"]);
    let r = rows(&[&["", "x", ""]]);
    let groups = group(&h, &r).unwrap();
    assert_eq!(groups, rows(&[&["A"], &["B", "x"], &["C"]]));
}

#[test]
fn grouping_shape() {
    let h = header(&["A", "B", "C"]);
    let r = rows(&[&["1", "2", "3"], &["4", "5", "6"]]);
    let groups = group(&h, &r).unwrap();
    assert_eq!(groups.len(), 3);
    for (i, g) in groups.iter().enumerate() {
        assert_eq!(g[0], h[i]);
    }
    assert_eq!(groups, rows(&[&["A", "1", "4"], &["B", "2", "5"], &["C", "3", "6"]]));
}

#[test]
fn short_record_contributes_to_fewer_groups() {
    let h = header(&["A", "B", "C"]);
    let r = rows(&[&["1"], &["2", "3"]]);
    let groups = group(&h, &r).unwrap();
    assert_eq!(groups, rows(&[&["A", "1", "2"], &["B", "3"], &["C"]]));
}

#[test]
fn overflow_detection() {
    let h = header(&["A", "B"]);
    let r = rows(&[&["1", "2"], &["1", "2", "3"]]);
    let e = group(&h, &r).unwrap_err();
    assert_eq!(e, GroupError::RowTooWide { row: 1, expected: 2, actual: 3 });
}

#[test]
fn overflow_reports_first_wide_row() {
    let h = header(&["A"]);
    let r = rows(&[&["1", "2"], &["1", "2", "3"]]);
    let e = group(&h, &r).unwrap_err();
    assert_eq!(e, GroupError::RowTooWide { row: 0, expected: 1, actual: 2 });
}

#[test]
fn empty_table() {
    let groups = group(&header(&[]), &rows(&[])).unwrap();
    assert!(groups.is_empty());
}

#[test]
fn values_kept_in_record_order_with_duplicates() {
    let h = header(&["A"]);
    let r = rows(&[&["x"], &["x"], &["y"]]);
    let groups = group(&h, &r).unwrap();
    assert_eq!(groups, rows(&[&["A", "x", "x", "y"]]));
}
