//! The command dispatcher: what each subcommand decides.
//!
//! A run is a short exchange with the program that hosts it. [`start`] looks
//! at the command and says what it needs first; the host does that (reads the
//! sources file, asks the user, looks at the directory) and hands the answer
//! to [`step`], which says what comes next, until a [`Request::Finish`] ends
//! the run. The dispatcher touches no file itself, so every rule of the tool
//! can be stated over the requests it makes.

use crate::registry::lists;
use crate::registry::without;
use crate::registry::Document;
use crate::report::Report;
use crate::report::ReportView;
use crate::sources::fresh_document;
use crate::sources::init;
use crate::sources::loaded;
use crate::sources::new;
use crate::store::append;
use crate::store::document_of;
use crate::store::lookup;
use crate::store::replace;
use ini::Ini;
use std::path::PathBuf;
use vstd::prelude::*;
use vstd::string::StringExecFns;

verus! {

/// The question a reset asks before it removes anything.
pub const RESET_PROMPT: &'static str = "Perform a reset operation?";

/// A subcommand with its arguments.
#[derive(Debug, PartialEq, Eq)]
#[allow(inconsistent_fields)]
pub enum Command {
    /// Generate source code using a template.
    Generate { template: String, output: Option<String> },
    /// Sync other sources to latest changes.
    Sync,
    /// List all templates from sources.
    List { local: bool },
    /// Import local template from file.
    Import { file: PathBuf },
    /// Export template from local source to file.
    Export { template: String, output: PathBuf },
    /// Remove existing template from local source.
    Remove { template: String },
    /// Add a new source.
    SourceAdd { source: String, url: String },
    /// Edit an existing source.
    SourceEdit { source: String, new_url: String },
    /// Remove an existing source.
    SourceRemove { source: String },
    /// Remove all sources and delete everything.
    Reset { force: bool },
}

/// What the dispatcher reads of a [`Command`], with texts as sequences of
/// characters. The commands that are declared and not yet provided keep
/// their names and lose their arguments.
pub enum CommandView {
    Generate,
    Sync,
    List,
    Import,
    Export,
    Remove,
    SourceAdd { source: Seq<char>, url: Seq<char> },
    SourceEdit { source: Seq<char>, new_url: Seq<char> },
    SourceRemove,
    Reset { force: bool },
}

impl View for Command {
    type V = CommandView;

    open spec fn view(&self) -> CommandView {
        match *self {
            Command::Generate { .. } => CommandView::Generate,
            Command::Sync => CommandView::Sync,
            Command::List { .. } => CommandView::List,
            Command::Import { .. } => CommandView::Import,
            Command::Export { .. } => CommandView::Export,
            Command::Remove { .. } => CommandView::Remove,
            Command::SourceAdd { source, url } => CommandView::SourceAdd {
                source: source@,
                url: url@,
            },
            Command::SourceEdit { source, new_url } => CommandView::SourceEdit {
                source: source@,
                new_url: new_url@,
            },
            Command::SourceRemove { .. } => CommandView::SourceRemove,
            Command::Reset { force } => CommandView::Reset { force },
        }
    }
}

/// Whether a change adds a source or edits one.
#[derive(Clone, Copy, Debug, PartialEq, Eq, Structural)]
pub enum Kind {
    Add,
    Edit,
}

/// A change to the registry that has passed its URL check: `source` is to
/// get `url`.
#[derive(Clone, Debug, PartialEq, Eq)]
pub struct Change {
    pub kind: Kind,
    pub source: String,
    pub url: String,
}

/// A [`Change`] with its texts as sequences of characters.
pub struct ChangeView {
    pub kind: Kind,
    pub source: Seq<char>,
    pub url: Seq<char>,
}

impl View for Change {
    type V = ChangeView;

    open spec fn view(&self) -> ChangeView {
        ChangeView { kind: self.kind, source: self.source@, url: self.url@ }
    }
}

/// Where a run stands: what it has asked for and not yet been told.
#[derive(Clone, Debug, PartialEq, Eq)]
pub enum State {
    /// Waiting for the stored registry, to make a change to it.
    Loading(Change),
    /// Waiting to hear whether the changed registry was stored.
    Saving(Change),
    /// Waiting for the user's answer to the reset prompt.
    Confirming,
    /// Waiting to hear whether the configuration directory is there.
    Probing,
    /// Waiting to hear how removing the named directory went.
    Removing(String),
    /// The run is over.
    Finished,
}

/// A [`State`] with its texts as sequences of characters.
pub enum StateView {
    Loading(ChangeView),
    Saving(ChangeView),
    Confirming,
    Probing,
    Removing(Seq<char>),
    Finished,
}

impl View for State {
    type V = StateView;

    open spec fn view(&self) -> StateView {
        match *self {
            State::Loading(change) => StateView::Loading(change@),
            State::Saving(change) => StateView::Saving(change@),
            State::Confirming => StateView::Confirming,
            State::Probing => StateView::Probing,
            State::Removing(directory) => StateView::Removing(directory@),
            State::Finished => StateView::Finished,
        }
    }
}

/// What the dispatcher asks of its host.
pub enum Request {
    /// Read the sources file and answer with [`Reply::Sources`].
    ReadSources,
    /// Store this registry as the sources file, making its directory where it
    /// is missing, and answer with [`Reply::Written`].
    WriteSources(Ini),
    /// Put this question to the user and answer with [`Reply::Confirmed`].
    Confirm(String),
    /// Look whether the configuration directory is there and answer with
    /// [`Reply::Probed`].
    ProbeDirectory,
    /// Remove the configuration directory with all it holds and answer with
    /// [`Reply::Removed`].
    RemoveDirectory,
    /// Print the report, if there is one, and stop.
    Finish(Option<Report>),
}

/// A [`Request`] over what a document holds and the views of texts.
pub enum RequestView {
    ReadSources,
    WriteSources(Document),
    Confirm(Seq<char>),
    ProbeDirectory,
    RemoveDirectory,
    Finish(Option<ReportView>),
}

impl View for Request {
    type V = RequestView;

    open spec fn view(&self) -> RequestView {
        match *self {
            Request::ReadSources => RequestView::ReadSources,
            Request::WriteSources(doc) => RequestView::WriteSources(document_of(doc)),
            Request::Confirm(prompt) => RequestView::Confirm(prompt@),
            Request::ProbeDirectory => RequestView::ProbeDirectory,
            Request::RemoveDirectory => RequestView::RemoveDirectory,
            Request::Finish(None) => RequestView::Finish(None),
            Request::Finish(Some(report)) => RequestView::Finish(Some(report@)),
        }
    }
}

/// What the host answers.
#[derive(Clone, Debug, PartialEq, Eq)]
pub enum Reply {
    /// The bytes of the sources file, or `None` where it could not be read.
    Sources(Option<Vec<u8>>),
    /// `None` where the registry was stored, else the reason it was not.
    Written(Option<String>),
    /// Whether the user said yes.
    Confirmed(bool),
    /// The configuration directory as it is shown to the user, and whether
    /// it is there.
    Probed { directory: String, present: bool },
    /// `None` where the directory was removed, else the reason it was not.
    Removed(Option<String>),
}

/// A [`Reply`] with its bytes and texts as sequences.
pub enum ReplyView {
    Sources(Option<Seq<u8>>),
    Written(Option<Seq<char>>),
    Confirmed(bool),
    Probed { directory: Seq<char>, present: bool },
    Removed(Option<Seq<char>>),
}

impl View for Reply {
    type V = ReplyView;

    open spec fn view(&self) -> ReplyView {
        match *self {
            Reply::Sources(stored) => ReplyView::Sources(bytes_view(stored)),
            Reply::Written(failure) => ReplyView::Written(text_view(failure)),
            Reply::Confirmed(yes) => ReplyView::Confirmed(yes),
            Reply::Probed { directory, present } => ReplyView::Probed {
                directory: directory@,
                present,
            },
            Reply::Removed(failure) => ReplyView::Removed(text_view(failure)),
        }
    }
}

/// The view of a text that may be missing.
pub open spec fn text_view(text: Option<String>) -> Option<Seq<char>> {
    match text {
        Some(text) => Some(text@),
        None => None,
    }
}

/// The view of bytes that may be missing.
pub open spec fn bytes_view(stored: Option<Vec<u8>>) -> Option<Seq<u8>> {
    match stored {
        Some(bytes) => Some(bytes@),
        None => None,
    }
}

/// The view of a command that may be missing.
pub open spec fn command_view(command: Option<Command>) -> Option<CommandView> {
    match command {
        Some(command) => Some(command@),
        None => None,
    }
}

/// The end of a run with this report.
pub open spec fn ended(report: ReportView) -> (StateView, RequestView) {
    (StateView::Finished, RequestView::Finish(Some(report)))
}

/// The end of a run with nothing to say.
pub open spec fn ended_silently() -> (StateView, RequestView) {
    (StateView::Finished, RequestView::Finish(None))
}

/// How a run begins. `valid` says whether the URL of a source to add or edit
/// is a URL; it plays no part for the other commands.
///
/// A source with a malformed URL is turned down before the registry is even
/// read. A reset asks first unless it is forced. The commands that are
/// declared and not yet provided end at once, in silence, as does a run
/// without a command.
pub open spec fn begun(command: Option<CommandView>, valid: bool) -> (StateView, RequestView) {
    match command {
        Some(CommandView::SourceAdd { source, url }) => if valid {
            (
                StateView::Loading(ChangeView { kind: Kind::Add, source, url }),
                RequestView::ReadSources,
            )
        } else {
            ended(ReportView::AddMalformed { source })
        },
        Some(CommandView::SourceEdit { source, new_url }) => if valid {
            (
                StateView::Loading(ChangeView { kind: Kind::Edit, source, url: new_url }),
                RequestView::ReadSources,
            )
        } else {
            ended(ReportView::EditMalformed { source })
        },
        Some(CommandView::Reset { force }) => if force {
            (StateView::Probing, RequestView::ProbeDirectory)
        } else {
            (StateView::Confirming, RequestView::Confirm(RESET_PROMPT@))
        },
        _ => ended_silently(),
    }
}

/// The URL check a command calls for: that of the URL it brings, if any.
pub open spec fn checked(command: Option<CommandView>) -> bool {
    match command {
        Some(CommandView::SourceAdd { url, .. }) => crate::url::well_formed(url),
        Some(CommandView::SourceEdit { new_url, .. }) => crate::url::well_formed(new_url),
        _ => true,
    }
}

/// The document a change starts from: the stored one, or a fresh one where
/// nothing could be read or what was read is no document.
pub open spec fn starting_document(stored: Option<Seq<u8>>) -> Document {
    match stored {
        Some(bytes) => match loaded(bytes) {
            Ok(document) => document,
            Err(_) => fresh_document(),
        },
        None => fresh_document(),
    }
}

/// What a change makes of a document. A source is added only under a name
/// that is free, and goes behind the entries that are there. A source is
/// edited only where it is there; then every entry under its name makes way
/// for one with the new URL, behind the others. Either way the document so
/// changed is to be stored, its sections with a name as they were.
/// Otherwise the run ends with the reason, and nothing is stored.
pub open spec fn applied(change: ChangeView, document: Document) -> (StateView, RequestView) {
    let known = lists(document.registry, change.source);
    let entry = (change.source, change.url);
    match change.kind {
        Kind::Add => if known {
            ended(ReportView::AddDuplicate { source: change.source })
        } else {
            (
                StateView::Saving(change),
                RequestView::WriteSources(
                    Document { registry: document.registry.push(entry), ..document },
                ),
            )
        },
        Kind::Edit => if known {
            (
                StateView::Saving(change),
                RequestView::WriteSources(
                    Document {
                        registry: without(document.registry, change.source).push(entry),
                        ..document
                    },
                ),
            )
        } else {
            ended(ReportView::EditMissing { source: change.source })
        },
    }
}

/// The report on a change whose registry the host has tried to store:
/// `failure` is `None` where it was stored, else the reason it was not.
pub open spec fn settled(change: ChangeView, failure: Option<Seq<char>>) -> ReportView {
    match (change.kind, failure) {
        (Kind::Add, None) => ReportView::Added { source: change.source, url: change.url },
        (Kind::Add, Some(error)) => ReportView::AddFailed { error },
        (Kind::Edit, None) => ReportView::Edited { source: change.source, url: change.url },
        (Kind::Edit, Some(error)) => ReportView::EditFailed { error },
    }
}

/// What follows a reply. A reply that does not answer what the state waits
/// for ends the run in silence, and so does any reply once it is over.
pub open spec fn stepped(state: StateView, reply: ReplyView) -> (StateView, RequestView) {
    match (state, reply) {
        (StateView::Loading(change), ReplyView::Sources(stored)) => applied(
            change,
            starting_document(stored),
        ),
        (StateView::Saving(change), ReplyView::Written(failure)) => ended(
            settled(change, failure),
        ),
        (StateView::Confirming, ReplyView::Confirmed(yes)) => if yes {
            (StateView::Probing, RequestView::ProbeDirectory)
        } else {
            ended_silently()
        },
        (StateView::Probing, ReplyView::Probed { directory, present }) => if present {
            (StateView::Removing(directory), RequestView::RemoveDirectory)
        } else {
            ended(ReportView::Skipped { directory })
        },
        (StateView::Removing(directory), ReplyView::Removed(failure)) => match failure {
            None => ended(ReportView::Wiped { directory }),
            Some(error) => ended(ReportView::WipeFailed { directory, error }),
        },
        _ => ended_silently(),
    }
}

/// Ends a run with a report.
fn end(report: Report) -> (next: (State, Request))
    ensures
        (next.0@, next.1@) == ended(report@),
{
    (State::Finished, Request::Finish(Some(report)))
}

/// Ends a run with nothing to say.
fn end_silently() -> (next: (State, Request))
    ensures
        (next.0@, next.1@) == ended_silently(),
{
    (State::Finished, Request::Finish(None))
}

/// Begins a run on a command whose URL, if it brings one, has been checked:
/// `valid` is the verdict.
pub fn begin(command: Option<Command>, valid: bool) -> (next: (State, Request))
    ensures
        (next.0@, next.1@) == begun(command_view(command), valid),
{
    match command {
        Some(Command::SourceAdd { source, url }) => {
            if valid {
                (State::Loading(Change { kind: Kind::Add, source, url }), Request::ReadSources)
            } else {
                end(Report::AddMalformed { source })
            }
        },
        Some(Command::SourceEdit { source, new_url }) => {
            if valid {
                (
                    State::Loading(Change { kind: Kind::Edit, source, url: new_url }),
                    Request::ReadSources,
                )
            } else {
                end(Report::EditMalformed { source })
            }
        },
        Some(Command::Reset { force }) => {
            if force {
                (State::Probing, Request::ProbeDirectory)
            } else {
                (State::Confirming, Request::Confirm(String::from_str(RESET_PROMPT)))
            }
        },
        _ => end_silently(),
    }
}

/// Begins a run: checks the URL that the command brings, if any, and says
/// what the run needs first.
pub fn start(command: Option<Command>) -> (next: (State, Request))
    ensures
        (next.0@, next.1@) == begun(command_view(command), checked(command_view(command))),
{
    let valid = match &command {
        Some(Command::SourceAdd { url, .. }) => is_url::is_url(url.as_str()),
        Some(Command::SourceEdit { new_url, .. }) => is_url::is_url(new_url.as_str()),
        _ => true,
    };
    begin(command, valid)
}

/// The document a change starts from: the stored one, or a fresh one where
/// nothing could be read or what was read is no document.
pub fn load(stored: Option<Vec<u8>>) -> (doc: Ini)
    ensures
        document_of(doc) == starting_document(bytes_view(stored)),
{
    match stored {
        Some(bytes) => match init(bytes.as_slice()) {
            Ok(doc) => doc,
            Err(_) => new(),
        },
        None => new(),
    }
}

/// Makes a change to a registry, or turns it down.
pub fn apply(change: Change, doc: Ini) -> (next: (State, Request))
    ensures
        (next.0@, next.1@) == applied(change@, document_of(doc)),
{
    let mut doc = doc;
    let known = lookup(&doc, change.source.as_str()).is_some();
    match change.kind {
        Kind::Add => {
            if known {
                end(Report::AddDuplicate { source: change.source })
            } else {
                append(&mut doc, change.source.as_str(), change.url.as_str());
                (State::Saving(change), Request::WriteSources(doc))
            }
        },
        Kind::Edit => {
            if known {
                replace(&mut doc, change.source.as_str(), change.url.as_str());
                (State::Saving(change), Request::WriteSources(doc))
            } else {
                end(Report::EditMissing { source: change.source })
            }
        },
    }
}

/// The report on a change whose registry the host has tried to store:
/// `failure` is `None` where it was stored, else the reason it was not.
pub fn settle(change: Change, failure: Option<String>) -> (report: Report)
    ensures
        report@ == settled(change@, text_view(failure)),
{
    match change.kind {
        Kind::Add => match failure {
            None => Report::Added { source: change.source, url: change.url },
            Some(error) => Report::AddFailed { error },
        },
        Kind::Edit => match failure {
            None => Report::Edited { source: change.source, url: change.url },
            Some(error) => Report::EditFailed { error },
        },
    }
}

/// Takes the host's reply and says what comes next.
pub fn step(state: State, reply: Reply) -> (next: (State, Request))
    ensures
        (next.0@, next.1@) == stepped(state@, reply@),
{
    match state {
        State::Loading(change) => match reply {
            Reply::Sources(stored) => apply(change, load(stored)),
            _ => end_silently(),
        },
        State::Saving(change) => match reply {
            Reply::Written(failure) => end(settle(change, failure)),
            _ => end_silently(),
        },
        State::Confirming => match reply {
            Reply::Confirmed(yes) => {
                if yes {
                    (State::Probing, Request::ProbeDirectory)
                } else {
                    end_silently()
                }
            },
            _ => end_silently(),
        },
        State::Probing => match reply {
            Reply::Probed { directory, present } => {
                if present {
                    (State::Removing(directory), Request::RemoveDirectory)
                } else {
                    end(Report::Skipped { directory })
                }
            },
            _ => end_silently(),
        },
        State::Removing(directory) => match reply {
            Reply::Removed(None) => end(Report::Wiped { directory }),
            Reply::Removed(Some(error)) => end(Report::WipeFailed { directory, error }),
            _ => end_silently(),
        },
        State::Finished => end_silently(),
    }
}

} // verus!
