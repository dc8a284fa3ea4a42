//! The INI document behind the registry, as the `ini` crate keeps it.
//!
//! Nothing in this module is proved: it states what the calls into `ini` do,
//! over the model [`entries`], and the rest of the crate is verified against
//! these statements.

use crate::registry::answers;
use crate::registry::lists;
use crate::registry::without;
use crate::registry::Document;
use crate::registry::Registry;
use ini::Ini;
use ini::LineSeparator;
use ini::ParseError;
use ini::WriteOption;
use vstd::prelude::*;

verus! {

#[verifier::external_type_specification]
#[verifier::external_body]
pub struct ExIni(Ini);

#[verifier::external_type_specification]
#[verifier::external_body]
pub struct ExParseError(ParseError);

/// How a rendered document ends its lines.
#[derive(Clone, Copy, Debug, PartialEq, Eq, Structural)]
pub enum Newline {
    /// A line feed.
    Lf,
    /// A carriage return and a line feed.
    CrLf,
}

/// The registry a document holds: the keys of its general section with their
/// values, in the order in which the document hands them out. A document
/// without a general section holds the empty registry.
pub uninterp spec fn entries(doc: Ini) -> Registry;

/// The sections of a document that have a name, each with its name and
/// its keys and values, in the order in which the document hands them out.
pub uninterp spec fn named_sections(doc: Ini) -> Seq<(Seq<char>, Registry)>;

/// What a document holds: its registry and its sections with a name.
pub open spec fn document_of(doc: Ini) -> Document {
    Document { registry: entries(doc), sections: named_sections(doc) }
}

/// What `Ini::load_from_str` makes of a text: what the document it reads
/// holds, or `None` where it reports a parse error.
pub uninterp spec fn parsed(text: Seq<char>) -> Option<Document>;

/// The bytes `Ini::write_to_opt` writes for a document, with the crate's
/// default escaping and separator and the given line ending.
pub uninterp spec fn rendered(doc: Ini, newline: Newline) -> Seq<u8>;

/// `Ini::new`: a document whose general section is there and empty, and
/// which has no other section.
#[verifier::external_body]
pub(crate) fn empty() -> (doc: Ini)
    ensures
        entries(doc) =~= Seq::empty(),
        named_sections(doc) =~= Seq::empty(),
{
    Ini::new()
}

/// `Ini::get_from` on the general section: the first value under `key`, or
/// `None` where the section has no such key.
#[verifier::external_body]
pub(crate) fn lookup(doc: &Ini, key: &str) -> (value: Option<String>)
    ensures
        match value {
            Some(found) => answers(entries(*doc), key@, found@),
            None => !lists(entries(*doc), key@),
        },
{
    doc.get_from(None::<String>, key).map(String::from)
}

/// `SectionSetter::add` on the general section: the pair goes behind all
/// that the section holds, whether or not the key is there already. The
/// sections with a name stay as they are.
#[verifier::external_body]
pub(crate) fn append(doc: &mut Ini, key: &str, value: &str)
    ensures
        entries(*final(doc)) == entries(*old(doc)).push((key@, value@)),
        named_sections(*final(doc)) == named_sections(*old(doc)),
{
    doc.with_general_section().add(key, value);
}

/// `SectionSetter::set` on the general section: every pair under `key`
/// leaves, the others keep their order, and the new pair goes behind them.
/// The sections with a name stay as they are.
#[verifier::external_body]
pub(crate) fn replace(doc: &mut Ini, key: &str, value: &str)
    ensures
        entries(*final(doc)) == without(entries(*old(doc)), key@).push((key@, value@)),
        named_sections(*final(doc)) == named_sections(*old(doc)),
{
    doc.with_general_section().set(key, value);
}

/// `Ini::load_from_str`: the document a text describes, or the parse error.
#[verifier::external_body]
pub(crate) fn parse(text: &str) -> (outcome: Result<Ini, ParseError>)
    ensures
        match outcome {
            Ok(doc) => parsed(text@) == Some(document_of(doc)),
            Err(_) => parsed(text@) is None,
        },
{
    Ini::load_from_str(text)
}

/// `Ini::write_to_opt` into a byte vector, which takes every write, with the
/// line ending set and the other options left at their defaults.
#[verifier::external_body]
pub(crate) fn render(doc: &Ini, newline: Newline) -> (bytes: Vec<u8>)
    ensures
        bytes@ == rendered(*doc, newline),
{
    let line_separator = match newline {
        Newline::Lf => LineSeparator::CR,
        Newline::CrLf => LineSeparator::CRLF,
    };
    let mut bytes = Vec::new();
    let _ = doc.write_to_opt(&mut bytes, WriteOption { line_separator, ..Default::default() });
    bytes
}

} // verus!
