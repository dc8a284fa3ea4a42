//! Registry of named template sources for a source code generator.
//!
//! The registry maps a source name to the URL its templates are fetched from
//! and is kept as an INI document. This crate holds the rules of the tool:
//! where the document lives, how it is read and rendered, and what each
//! subcommand decides. Reading and writing files, prompting and printing are
//! left to the program that drives it.

pub mod dispatch;
pub mod laws;
pub mod locate;
pub mod registry;
pub mod report;
pub mod sources;
pub mod store;
pub mod url;
