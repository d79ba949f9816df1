use kanboard::board::ConfigError;
use kanboard::export::{export_document, export_now, ExportError};
use kanboard::group::GroupError;
use kanboard::render::escape_html;

const CONFIG: &str = "title = \"T&C\"\ndescription = \"D\"\nauthor = \"A\"\n";

#[test]
fn export_exact_document() {
    let csv = "X,Y\na,\n<b>,c\n";
    let doc = export_document(CONFIG, csv, "01/01/2020 00:00 UTC").unwrap();
    let expected = "<!DOCTYPE html><html><head><title>T&amp;C</title>\
<link rel=\"stylesheet\" href=\"reset.css\"/>\
<link rel=\"stylesheet\" href=\"kanban.css\"/>\
</head><body><header><h1>T&amp;C</h1><h2>created by A</h2><p>D</p>\
<time>Last edited on 01/01/2020 00:00 UTC</time></header><ul>\
<li><ul><li>X</li><li>a</li><li>&lt;b&gt;</li></ul></li>\
<li><ul><li>Y</li><li>c</li></ul></li>\
</ul><footer><p>Statically generated with Rust</p></footer></body></html>";
    assert_eq!(doc, expected);
}

#[test]
fn export_keeps_quoted_commas_in_one_cell() {
    let csv = "A,B\n\"x,y\",z\n";
    let doc = export_document(CONFIG, csv, "ts").unwrap();
    assert!(doc.contains("<li><ul><li>A</li><li>x,y</li></ul></li>"));
    assert!(doc.contains("<li><ul><li>B</li><li>z</li></ul></li>"));
}

#[test]
fn export_empty_table() {
    let doc = export_document(CONFIG, "", "ts").unwrap();
    assert!(doc.contains("<ul></ul>"));
}

#[test]
fn export_reports_wide_row() {
    let e = export_document(CONFIG, "A\nb,c\n", "ts").unwrap_err();
    assert_eq!(
        e,
        ExportError::Data(GroupError::RowTooWide { row: 0, expected: 1, actual: 2 })
    );
}

#[test]
fn export_rejects_bad_config() {
    let e = export_document("title = ", "A\n", "ts").unwrap_err();
    assert_eq!(e, ExportError::Config(ConfigError::Syntax));
}

#[test]
fn export_rejects_incomplete_config() {
    let e = export_document("author = \"a\"\n", "A\n", "ts").unwrap_err();
    assert_eq!(e, ExportError::Config(ConfigError::MissingTitle));
}

#[test]
fn export_now_stamps_the_page() {
    let doc = export_now(CONFIG, "A\nb\n").unwrap();
    assert!(doc.contains("<time>Last edited on "));
    assert!(doc.contains(" UTC</time>"));
}

#[test]
fn escape_html_rewrites_special_characters() {
    assert_eq!(escape_html("a<b&c>\"d'"), "a&lt;b&amp;c&gt;&quot;d&#39;");
    assert_eq!(escape_html("plain"), "plain");
    assert_eq!(escape_html(""), "");
}
