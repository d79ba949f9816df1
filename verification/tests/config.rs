use kanboard::board::{Board, ConfigError};

#[test]
fn parse_valid_config() {
    let text = "title = \"My board\"\ndescription = \"All my tasks\"\nauthor = \"Me\"\n";
    let board = Board::from_toml(text).unwrap();
    assert_eq!(board.title, "My board");
    assert_eq!(board.description, "All my tasks");
    assert_eq!(board.author, "Me");
}

#[test]
fn missing_title_is_reported() {
    let text = "description = \"d\"\nauthor = \"a\"\n";
    assert_eq!(Board::from_toml(text).unwrap_err(), ConfigError::MissingTitle);
}

#[test]
fn missing_description_is_reported() {
    let text = "title = \"t\"\nauthor = \"a\"\n";
    assert_eq!(Board::from_toml(text).unwrap_err(), ConfigError::MissingDescription);
}

#[test]
fn missing_author_is_reported() {
    let text = "title = \"t\"\ndescription = \"d\"\n";
    assert_eq!(Board::from_toml(text).unwrap_err(), ConfigError::MissingAuthor);
}

#[test]
fn invalid_syntax_is_reported() {
    assert_eq!(Board::from_toml("title = ").unwrap_err(), ConfigError::Syntax);
}

#[test]
fn unknown_keys_are_ignored() {
    let text = "title = \"t\"\ndescription = \"d\"\nauthor = \"a\"\ncolors = [\"red\"]\n";
    let board = Board::from_toml(text).unwrap();
    assert_eq!(board.title, "t");
}

#[test]
fn non_string_required_value_is_missing() {
    let text = "title = 3\ndescription = \"d\"\nauthor = \"a\"\n";
    assert_eq!(Board::from_toml(text).unwrap_err(), ConfigError::MissingTitle);
}

#[test]
fn template_fields() {
    let board = Board::template();
    assert_eq!(board.title, "My cool project");
    assert_eq!(board.description, "Insert description here");
    assert_eq!(board.author, "Anonymous");
}
