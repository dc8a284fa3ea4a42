//! The one line a run may end with, and the stream it goes to.

use vstd::prelude::*;
use vstd::string::StringExecFns;

verus! {

/// How a run ended, with what its line names.
#[derive(Clone, Debug, PartialEq, Eq)]
pub enum Report {
    /// The URL of a source to add is no URL.
    AddMalformed { source: String },
    /// The source to add is in the registry already.
    AddDuplicate { source: String },
    /// The registry with the added source could not be stored, for the reason
    /// given.
    AddFailed { error: String },
    /// The source was added and the registry stored.
    Added { source: String, url: String },
    /// The new URL of a source to edit is no URL.
    EditMalformed { source: String },
    /// The source to edit is not in the registry.
    EditMissing { source: String },
    /// The registry with the edited source could not be stored, for the
    /// reason given.
    EditFailed { error: String },
    /// The source has its new URL and the registry was stored.
    Edited { source: String, url: String },
    /// The directory to wipe was not there.
    Skipped { directory: String },
    /// The directory could not be removed, for the reason given.
    WipeFailed { directory: String, error: String },
    /// The directory was removed.
    Wiped { directory: String },
}

/// A [`Report`] with its texts as sequences of characters.
pub enum ReportView {
    AddMalformed { source: Seq<char> },
    AddDuplicate { source: Seq<char> },
    AddFailed { error: Seq<char> },
    Added { source: Seq<char>, url: Seq<char> },
    EditMalformed { source: Seq<char> },
    EditMissing { source: Seq<char> },
    EditFailed { error: Seq<char> },
    Edited { source: Seq<char>, url: Seq<char> },
    Skipped { directory: Seq<char> },
    WipeFailed { directory: Seq<char>, error: Seq<char> },
    Wiped { directory: Seq<char> },
}

impl View for Report {
    type V = ReportView;

    open spec fn view(&self) -> ReportView {
        match *self {
            Report::AddMalformed { source } => ReportView::AddMalformed { source: source@ },
            Report::AddDuplicate { source } => ReportView::AddDuplicate { source: source@ },
            Report::AddFailed { error } => ReportView::AddFailed { error: error@ },
            Report::Added { source, url } => ReportView::Added { source: source@, url: url@ },
            Report::EditMalformed { source } => ReportView::EditMalformed { source: source@ },
            Report::EditMissing { source } => ReportView::EditMissing { source: source@ },
            Report::EditFailed { error } => ReportView::EditFailed { error: error@ },
            Report::Edited { source, url } => ReportView::Edited { source: source@, url: url@ },
            Report::Skipped { directory } => ReportView::Skipped { directory: directory@ },
            Report::WipeFailed { directory, error } => ReportView::WipeFailed {
                directory: directory@,
                error: error@,
            },
            Report::Wiped { directory } => ReportView::Wiped { directory: directory@ },
        }
    }
}

impl ReportView {
    /// Whether the line reports a failure and so goes to standard error.
    pub open spec fn is_error(self) -> bool {
        match self {
            ReportView::Added { .. } => false,
            ReportView::Edited { .. } => false,
            ReportView::Skipped { .. } => false,
            ReportView::Wiped { .. } => false,
            _ => true,
        }
    }

    /// The line, without its line ending.
    pub open spec fn text(self) -> Seq<char> {
        match self {
            ReportView::AddMalformed { source } => "Failed to add new source: \""@ + source
                + "\" (URL malformed or invalid)"@,
            ReportView::AddDuplicate { source } => "Failed to add new source: \""@ + source
                + "\" (Already exists)"@,
            ReportView::AddFailed { error } => "An error occurred while trying to add a source ("@
                + error + ")"@,
            ReportView::Added { source, url } => "Added new source: \""@ + source + "\" = \""@ + url
                + "\""@,
            ReportView::EditMalformed { source } => "Failed to edit existing source: \""@ + source
                + "\" (New URL malformed or invalid)"@,
            ReportView::EditMissing { source } => "Failed to edit existing source: \""@ + source
                + "\" (Does not exist)"@,
            ReportView::EditFailed { error } =>
                "An error occurred while trying to edit a source ("@ + error + ")"@,
            ReportView::Edited { source, url } => "Changed existing source: \""@ + source
                + "\" = \""@ + url + "\""@,
            ReportView::Skipped { directory } => "Skipped: \""@ + directory
                + "\" (already wiped)"@,
            ReportView::WipeFailed { directory, error } => "Wipe failed: \""@ + directory
                + "\" ("@ + error + ")"@,
            ReportView::Wiped { directory } => "Wiped: \""@ + directory + "\""@,
        }
    }
}

/// `head`, then `name`, then `tail`.
fn framed(head: &str, name: &str, tail: &str) -> (line: String)
    ensures
        line@ == head@ + name@ + tail@,
{
    let mut line = String::from_str(head);
    line.append(name);
    line.append(tail);
    line
}

/// `head`, `first`, `middle`, `second` and `tail`, in that order.
fn framed_pair(head: &str, first: &str, middle: &str, second: &str, tail: &str) -> (line: String)
    ensures
        line@ == head@ + first@ + middle@ + second@ + tail@,
{
    let mut line = framed(head, first, middle);
    line.append(second);
    line.append(tail);
    line
}

impl Report {
    /// Whether the line reports a failure and so goes to standard error.
    pub fn is_error(&self) -> (error: bool)
        ensures
            error == self@.is_error(),
    {
        match self {
            Report::Added { .. } => false,
            Report::Edited { .. } => false,
            Report::Skipped { .. } => false,
            Report::Wiped { .. } => false,
            _ => true,
        }
    }

    /// The line to print, without its line ending.
    pub fn line(&self) -> (line: String)
        ensures
            line@ == self@.text(),
    {
        match self {
            Report::AddMalformed { source } => framed(
                "Failed to add new source: \"",
                source.as_str(),
                "\" (URL malformed or invalid)",
            ),
            Report::AddDuplicate { source } => framed(
                "Failed to add new source: \"",
                source.as_str(),
                "\" (Already exists)",
            ),
            Report::AddFailed { error } => framed(
                "An error occurred while trying to add a source (",
                error.as_str(),
                ")",
            ),
            Report::Added { source, url } => framed_pair(
                "Added new source: \"",
                source.as_str(),
                "\" = \"",
                url.as_str(),
                "\"",
            ),
            Report::EditMalformed { source } => framed(
                "Failed to edit existing source: \"",
                source.as_str(),
                "\" (New URL malformed or invalid)",
            ),
            Report::EditMissing { source } => framed(
                "Failed to edit existing source: \"",
                source.as_str(),
                "\" (Does not exist)",
            ),
            Report::EditFailed { error } => framed(
                "An error occurred while trying to edit a source (",
                error.as_str(),
                ")",
            ),
            Report::Edited { source, url } => framed_pair(
                "Changed existing source: \"",
                source.as_str(),
                "\" = \"",
                url.as_str(),
                "\"",
            ),
            Report::Skipped { directory } => framed(
                "Skipped: \"",
                directory.as_str(),
                "\" (already wiped)",
            ),
            Report::WipeFailed { directory, error } => framed_pair(
                "Wipe failed: \"",
                directory.as_str(),
                "\" (",
                error.as_str(),
                ")",
            ),
            Report::Wiped { directory } => framed("Wiped: \"", directory.as_str(), "\""),
        }
    }
}

} // verus!
