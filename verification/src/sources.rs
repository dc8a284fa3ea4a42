//! The source registry: where it is stored, how it is read and rendered.

use crate::locate::config_local_dir;
use crate::locate::join;
use crate::locate::joined;
use crate::locate::local_config;
use crate::locate::project_dirs;
use crate::registry::Document;
use crate::registry::Registry;
use crate::store::append;
use crate::store::empty;
use crate::store::document_of;
use crate::store::parse;
use crate::store::parsed;
use crate::store::render;
use crate::store::rendered;
use crate::store::Newline;
use directories::ProjectDirs;
use ini::Ini;
use std::path::PathBuf;
use vstd::prelude::*;
use vstd::slice::slice_subrange;
use vstd::utf8::decode_utf8;
use vstd::utf8::valid_utf8;

verus! {

/// The name the platform's configuration directory is looked up under.
pub const APPLICATION: &'static str = "sourcegen";

/// The name of the registry's file in the configuration directory.
pub const SOURCES_FILE: &'static str = "sources.ini";

/// The reserved name of the local source.
pub const LOCAL_NAME: &'static str = "local";

/// The value stored for the local source in place of a URL.
pub const LOCAL_URL: &'static str = "LOCAL";

/// Why stored bytes are no registry.
#[derive(Clone, Copy, Debug, PartialEq, Eq, Structural)]
pub enum LoadError {
    /// The bytes are not UTF-8 text.
    Encoding,
    /// The text is not an INI document.
    Syntax,
}

/// The registry that holds the local source and nothing else.
pub open spec fn fresh() -> Registry {
    seq![(LOCAL_NAME@, LOCAL_URL@)]
}

/// The document of a fresh registry: the general section with the local
/// source, and no section with a name.
pub open spec fn fresh_document() -> Document {
    Document { registry: fresh(), sections: Seq::empty() }
}

/// Whether stored bytes start with the UTF-8 byte order mark.
pub open spec fn has_mark(stored: Seq<u8>) -> bool {
    stored.len() >= 3 && stored[0] == 0xEF && stored[1] == 0xBB && stored[2] == 0xBF
}

/// The stored bytes without a leading byte order mark.
pub open spec fn unmarked(stored: Seq<u8>) -> Seq<u8> {
    if has_mark(stored) {
        stored.skip(3)
    } else {
        stored
    }
}

/// What stored bytes hold: the document they spell, or the reason they
/// spell none.
pub open spec fn loaded(stored: Seq<u8>) -> Result<Document, LoadError> {
    if !valid_utf8(unmarked(stored)) {
        Err(LoadError::Encoding)
    } else {
        match parsed(decode_utf8(unmarked(stored))) {
            Some(document) => Ok(document),
            None => Err(LoadError::Syntax),
        }
    }
}

/// `std::str::from_utf8`: the text that bytes encode, or `None` where they
/// are not valid UTF-8.
#[verifier::external_body]
fn text_of(bytes: &[u8]) -> (text: Option<&str>)
    ensures
        text is Some <==> valid_utf8(bytes@),
        text matches Some(t) ==> t@ == decode_utf8(bytes@),
{
    std::str::from_utf8(bytes).ok()
}

/// Reads a registry from the bytes of its file. A leading byte order mark is
/// skipped; the rest has to be UTF-8 text that spells an INI document.
pub fn init(stored: &[u8]) -> (outcome: Result<Ini, LoadError>)
    ensures
        match outcome {
            Ok(doc) => loaded(stored@) == Ok::<Document, LoadError>(document_of(doc)),
            Err(error) => loaded(stored@) == Err::<Document, LoadError>(error),
        },
{
    let marked = stored.len() >= 3 && stored[0] == 0xEF && stored[1] == 0xBB && stored[2] == 0xBF;
    let body = if marked {
        slice_subrange(stored, 3, stored.len())
    } else {
        stored
    };
    assert(body@ =~= unmarked(stored@));
    match text_of(body) {
        None => Err(LoadError::Encoding),
        Some(text) => match parse(text) {
            Ok(doc) => Ok(doc),
            Err(_) => Err(LoadError::Syntax),
        },
    }
}

/// A registry that holds the local source and nothing else.
pub fn new() -> (doc: Ini)
    ensures
        document_of(doc) == fresh_document(),
{
    let mut doc = empty();
    append(&mut doc, LOCAL_NAME, LOCAL_URL);
    assert(document_of(doc).registry =~= fresh());
    doc
}

/// The bytes to store for a registry: its INI document, each line ended as
/// `newline` says.
pub fn write(doc: &Ini, newline: Newline) -> (bytes: Vec<u8>)
    ensures
        bytes@ == rendered(*doc, newline),
{
    render(doc, newline)
}

/// The registry's file in a configuration directory.
pub fn sources_file(directory: &PathBuf) -> (file: PathBuf)
    ensures
        file == joined(*directory, SOURCES_FILE@),
{
    join(directory, SOURCES_FILE)
}

/// The directory that holds this application's local configuration, or `None`
/// where the platform names no home directory to put it under. Whether the
/// platform finds project directories for the application, and which, depends
/// on the platform and the environment; a directory that comes back is the
/// local configuration directory of project directories.
pub fn dir_path() -> (directory: Option<PathBuf>)
    ensures
        directory matches Some(d) ==> exists|dirs: ProjectDirs| d == #[trigger] local_config(dirs),
{
    local_directory(project_dirs(APPLICATION))
}

/// The registry's file: `sources.ini` in the directory [`dir_path`] finds, or
/// `None` where it finds none.
pub fn path() -> (file: Option<PathBuf>)
    ensures
        file matches Some(f) ==> exists|dirs: ProjectDirs|
            f == joined(#[trigger] local_config(dirs), SOURCES_FILE@),
{
    match dir_path() {
        Some(directory) => Some(sources_file(&directory)),
        None => None,
    }
}

/// The local configuration directory among project directories, if there
/// are any.
pub open spec fn directory_of(found: Option<ProjectDirs>) -> Option<PathBuf> {
    match found {
        Some(dirs) => Some(local_config(dirs)),
        None => None,
    }
}

/// The local configuration directory of the project directories that the
/// platform found, or `None` where it found none.
pub fn local_directory(found: Option<ProjectDirs>) -> (directory: Option<PathBuf>)
    ensures
        directory == directory_of(found),
{
    match found {
        Some(dirs) => Some(config_local_dir(&dirs)),
        None => None,
    }
}

} // verus!
