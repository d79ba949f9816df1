//! Planning a fresh board directory: the guard that keeps an initializer
//! from touching a non-empty directory, and the exact contents of the files
//! a new board starts from. The caller counts the directory's entries
//! beforehand and writes the planned files afterwards.

use vstd::prelude::*;
use vstd::string::StringExecFns;

verus! {

/// The target directory already holds entries and force was not requested.
#[derive(Clone, Copy, Debug, PartialEq, Eq, Structural)]
pub enum InitError {
    NotEmpty,
}

/// The contents of the files a fresh board directory receives.
#[derive(Debug)]
pub struct InitFiles {
    pub config_toml: String,
    pub board_csv: String,
    pub kanban_css: String,
    pub reset_css: String,
}

/// Whether initialization may write: only into a directory without entries,
/// unless force is requested.
pub open spec fn init_allowed(entry_count: nat, force: bool) -> bool {
    entry_count == 0 || force
}

/// The default config document; it describes [`crate::board::Board::template`].
pub open spec fn default_config_text() -> Seq<char> {
    "title = \"My cool project\"\ndescription = \"Insert description here\"\nauthor = \"Anonymous\"\n"@
}

/// The default tabular data: the example columns and one example record.
pub open spec fn default_board_text() -> Seq<char> {
    "TODO,In-progress,Backburner,Done\nImplement feature,Rewrite in Rust,Fix bug,Host repo\n"@
}

/// The board style sheet, copied verbatim beside every rendered page.
pub open spec fn kanban_css_text() -> Seq<char> {
    "body {\n  font-family: sans-serif;\n  margin: 2rem auto;\n  max-width: 60rem;\n}\nheader h1 {\n  margin-bottom: 0.25rem;\n}\nheader h2 {\n  color: #555;\n  font-size: 1rem;\n  font-weight: normal;\n}\nheader time {\n  color: #888;\n  font-size: 0.8rem;\n}\nbody > ul {\n  display: flex;\n  gap: 1rem;\n  list-style: none;\n  padding: 0;\n}\nbody > ul > li {\n  background: #f0f0f0;\n  border-radius: 0.5rem;\n  flex: 1;\n  padding: 0.5rem;\n}\nbody > ul > li > ul {\n  list-style: none;\n  padding: 0;\n}\nbody > ul > li > ul > li {\n  background: #fff;\n  border-radius: 0.25rem;\n  margin: 0.5rem 0;\n  padding: 0.5rem;\n}\nbody > ul > li > ul > li:first-child {\n  background: none;\n  font-weight: bold;\n}\nfooter {\n  color: #888;\n  font-size: 0.8rem;\n}\n"@
}

/// The style reset, copied verbatim beside every rendered page.
pub open spec fn reset_css_text() -> Seq<char> {
    "*,\n*::before,\n*::after {\n  box-sizing: border-box;\n}\nbody,\nh1,\nh2,\np,\nul,\nli {\n  margin: 0;\n  padding: 0;\n}\nimg {\n  display: block;\n  max-width: 100%;\n}\n"@
}

/// The board style sheet as text.
pub fn kanban_css() -> (r: &'static str)
    ensures
        r@ == kanban_css_text(),
{
    "body {\n  font-family: sans-serif;\n  margin: 2rem auto;\n  max-width: 60rem;\n}\nheader h1 {\n  margin-bottom: 0.25rem;\n}\nheader h2 {\n  color: #555;\n  font-size: 1rem;\n  font-weight: normal;\n}\nheader time {\n  color: #888;\n  font-size: 0.8rem;\n}\nbody > ul {\n  display: flex;\n  gap: 1rem;\n  list-style: none;\n  padding: 0;\n}\nbody > ul > li {\n  background: #f0f0f0;\n  border-radius: 0.5rem;\n  flex: 1;\n  padding: 0.5rem;\n}\nbody > ul > li > ul {\n  list-style: none;\n  padding: 0;\n}\nbody > ul > li > ul > li {\n  background: #fff;\n  border-radius: 0.25rem;\n  margin: 0.5rem 0;\n  padding: 0.5rem;\n}\nbody > ul > li > ul > li:first-child {\n  background: none;\n  font-weight: bold;\n}\nfooter {\n  color: #888;\n  font-size: 0.8rem;\n}\n"
}

/// The style reset as text.
pub fn reset_css() -> (r: &'static str)
    ensures
        r@ == reset_css_text(),
{
    "*,\n*::before,\n*::after {\n  box-sizing: border-box;\n}\nbody,\nh1,\nh2,\np,\nul,\nli {\n  margin: 0;\n  padding: 0;\n}\nimg {\n  display: block;\n  max-width: 100%;\n}\n"
}

/// Law: initializing the same non-empty directory twice without force fails
/// both times with the same error. Any two outcomes that meet
/// [`init_plan`]'s contract for a non-zero entry count without force are the
/// same refusal, and a refusal plans no files to write.
pub proof fn lemma_init_guard_stable(
    entry_count: nat,
    force: bool,
    first: Result<InitFiles, InitError>,
    second: Result<InitFiles, InitError>,
)
    requires
        entry_count > 0,
        !force,
        first is Ok <==> init_allowed(entry_count, force),
        first matches Err(e) ==> e == InitError::NotEmpty,
        second is Ok <==> init_allowed(entry_count, force),
        second matches Err(e) ==> e == InitError::NotEmpty,
    ensures
        first == Err::<InitFiles, InitError>(InitError::NotEmpty),
        first == second,
{
}

/// Plan a fresh board directory holding `entry_count` entries: the files to
/// write, or the refusal when the directory is non-empty and `force` is not
/// set. Planning writes nothing itself, so a refused plan leaves every
/// existing file untouched.
pub fn init_plan(entry_count: usize, force: bool) -> (r: Result<InitFiles, InitError>)
    ensures
        r is Ok <==> init_allowed(entry_count as nat, force),
        r matches Err(e) ==> e == InitError::NotEmpty,
        r matches Ok(files) ==> {
            &&& files.config_toml@ == default_config_text()
            &&& files.board_csv@ == default_board_text()
            &&& files.kanban_css@ == kanban_css_text()
            &&& files.reset_css@ == reset_css_text()
        },
{
    if entry_count == 0 || force {
        Ok(
            InitFiles {
                config_toml: String::from_str(
                    "title = \"My cool project\"\ndescription = \"Insert description here\"\nauthor = \"Anonymous\"\n",
                ),
                board_csv: String::from_str(
                    "TODO,In-progress,Backburner,Done\nImplement feature,Rewrite in Rust,Fix bug,Host repo\n",
                ),
                kanban_css: String::from_str(kanban_css()),
                reset_css: String::from_str(reset_css()),
            },
        )
    } else {
        Err(InitError::NotEmpty)
    }
}

} // verus!
