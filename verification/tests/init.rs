use kanboard::board::Board;
use kanboard::export::export_document;
use kanboard::init::{init_plan, kanban_css, reset_css, InitError};

#[test]
fn init_empty_directory() {
    let files = init_plan(0, false).unwrap();
    assert!(!files.config_toml.is_empty());
    assert!(!files.board_csv.is_empty());
    assert!(!files.kanban_css.is_empty());
    assert!(!files.reset_css.is_empty());
}

#[test]
fn init_guard_fails_twice_without_force() {
    let first = init_plan(3, false).unwrap_err();
    let second = init_plan(3, false).unwrap_err();
    assert_eq!(first, InitError::NotEmpty);
    assert_eq!(second, InitError::NotEmpty);
    assert_eq!(first, second);
}

#[test]
fn init_force_overrides_guard() {
    assert!(init_plan(3, true).is_ok());
}

#[test]
fn init_config_describes_template() {
    let files = init_plan(0, false).unwrap();
    let board = Board::from_toml(&files.config_toml).unwrap();
    let template = Board::template();
    assert_eq!(board.title, template.title);
    assert_eq!(board.description, template.description);
    assert_eq!(board.author, template.author);
}

#[test]
fn init_then_export_round_trip() {
    let files = init_plan(0, false).unwrap();
    let doc = export_document(&files.config_toml, &files.board_csv, "ts").unwrap();
    assert!(doc.contains("<title>My cool project</title>"));
    assert!(doc.contains("<li><ul><li>TODO</li><li>Implement feature</li></ul></li>"));
    assert!(doc.contains("<li><ul><li>Done</li><li>Host repo</li></ul></li>"));
    assert_eq!(files.kanban_css.as_str(), kanban_css());
    assert_eq!(files.reset_css.as_str(), reset_css());
}
