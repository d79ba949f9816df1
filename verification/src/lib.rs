//! A small project-management board kept in two flat files: a key-value
//! config (title, description, author) and a tabular task file whose first
//! record names the columns. The library parses both, regroups the table's
//! cells by column into per-column lists, and renders the result as a single
//! static page; it also plans the files that a fresh board directory needs.
//!
//! All file handling stays with the caller: every function here goes from
//! plain values to plain values.

pub mod bindings;
pub mod board;
pub mod export;
pub mod group;
pub mod init;
pub mod render;
