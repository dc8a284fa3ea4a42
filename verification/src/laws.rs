//! What holds of every run of the dispatcher.

use crate::dispatch::begun;
use crate::dispatch::ended;
use crate::dispatch::ended_silently;
use crate::dispatch::settled;
use crate::dispatch::starting_document;
use crate::dispatch::stepped;
use crate::dispatch::ChangeView;
use crate::dispatch::CommandView;
use crate::dispatch::Kind;
use crate::dispatch::ReplyView;
use crate::dispatch::RequestView;
use crate::dispatch::StateView;
use crate::dispatch::RESET_PROMPT;
use crate::registry::answers;
use crate::registry::first_at;
use crate::registry::lemma_push;
use crate::registry::lemma_push_unique;
use crate::registry::lemma_without;
use crate::registry::lemma_without_absent;
use crate::registry::lemma_without_unique;
use crate::registry::lists;
use crate::registry::unique_names;
use crate::registry::without;
use crate::registry::Document;
use crate::report::ReportView;
use crate::sources::fresh;
use crate::sources::fresh_document;
use crate::sources::LOCAL_NAME;
use crate::sources::LOCAL_URL;
use vstd::prelude::*;

verus! {

/// A fresh registry holds one entry, the local source under its reserved
/// name, and so lists no other name; its document has no section with a
/// name.
pub proof fn fresh_holds_local_only(name: Seq<char>)
    ensures
        fresh_document().registry == fresh(),
        fresh_document().sections.len() == 0,
        fresh().len() == 1,
        fresh()[0] == (LOCAL_NAME@, LOCAL_URL@),
        answers(fresh(), LOCAL_NAME@, LOCAL_URL@),
        lists(fresh(), name) <==> name == LOCAL_NAME@,
        unique_names(fresh()),
{
    assert(fresh()[0].0 == LOCAL_NAME@);
    assert(first_at(fresh(), LOCAL_NAME@, 0));
}

/// Adding a source with a well-formed URL under a name that is free reads
/// the registry and then asks to store it with the source put behind its
/// entries, and with the sections that have a name as they were. The
/// registry to store answers the new URL under the new name and answers
/// under any other name as the one that was read; where that one had unique
/// names, so has this. Once it is stored the run reports the addition.
pub proof fn add_stores_new_source(
    source: Seq<char>,
    url: Seq<char>,
    stored: Option<Seq<u8>>,
    other: Seq<char>,
    answer: Seq<char>,
)
    requires
        !lists(starting_document(stored).registry, source),
        other != source,
    ensures
        ({
            let before = starting_document(stored);
            let after = before.registry.push((source, url));
            let first = begun(Some(CommandView::SourceAdd { source, url }), true);
            let second = stepped(first.0, ReplyView::Sources(stored));
            let last = stepped(second.0, ReplyView::Written(None));
            &&& first.1 == RequestView::ReadSources
            &&& second.1 == RequestView::WriteSources(
                Document { registry: after, sections: before.sections },
            )
            &&& answers(after, source, url)
            &&& answers(after, other, answer) <==> answers(before.registry, other, answer)
            &&& unique_names(before.registry) ==> unique_names(after)
            &&& last == ended(ReportView::Added { source, url })
        }),
{
    let before = starting_document(stored).registry;
    lemma_push(before, (source, url), source, url);
    lemma_push(before, (source, url), other, answer);
    lemma_push_unique(before, (source, url));
}

/// Adding a source whose URL is malformed ends the run before the registry
/// is read; adding one whose name is taken ends it once the registry is
/// read. Either way nothing is asked to be stored.
pub proof fn add_refused_stores_nothing(
    source: Seq<char>,
    url: Seq<char>,
    valid: bool,
    stored: Option<Seq<u8>>,
)
    requires
        !valid || lists(starting_document(stored).registry, source),
    ensures
        ({
            let first = begun(Some(CommandView::SourceAdd { source, url }), valid);
            &&& !valid ==> first == ended(ReportView::AddMalformed { source })
            &&& valid ==> first.1 == RequestView::ReadSources && stepped(
                first.0,
                ReplyView::Sources(stored),
            ) == ended(ReportView::AddDuplicate { source })
        }),
{
}

/// An edit with a well-formed URL asks to store the registry exactly when
/// the source is in it. The registry to store then holds one entry under
/// the source's name, with the new URL, and the other entries as they were
/// and in their order; it answers under any other name as the one that was
/// read, and has unique names where that one had. The sections that have a
/// name are stored as they were. Once all is stored the run reports the
/// change.
pub proof fn edit_stores_known_source(
    source: Seq<char>,
    new_url: Seq<char>,
    stored: Option<Seq<u8>>,
    other: Seq<char>,
    answer: Seq<char>,
)
    requires
        other != source,
    ensures
        ({
            let before = starting_document(stored);
            let after = without(before.registry, source).push((source, new_url));
            let first = begun(Some(CommandView::SourceEdit { source, new_url }), true);
            let second = stepped(first.0, ReplyView::Sources(stored));
            let last = stepped(second.0, ReplyView::Written(None));
            &&& first.1 == RequestView::ReadSources
            &&& second.1 is WriteSources <==> lists(before.registry, source)
            &&& lists(before.registry, source) ==> {
                &&& second.1 == RequestView::WriteSources(
                    Document { registry: after, sections: before.sections },
                )
                &&& answers(after, source, new_url)
                &&& without(after, source) == without(before.registry, source)
                &&& after.len() == without(after, source).len() + 1
                &&& answers(after, other, answer) <==> answers(before.registry, other, answer)
                &&& unique_names(before.registry) ==> unique_names(after)
                &&& last == ended(ReportView::Edited { source, url: new_url })
            }
        }),
{
    let before = starting_document(stored).registry;
    let rest = without(before, source);
    let after = rest.push((source, new_url));
    lemma_without(before, source, other, answer);
    lemma_push(rest, (source, new_url), source, new_url);
    lemma_push(rest, (source, new_url), other, answer);
    lemma_without_absent(rest, source);
    assert(after.drop_last() =~= rest);
    assert(without(after, source) == rest);
    if unique_names(before) {
        lemma_without_unique(before, source);
        lemma_push_unique(rest, (source, new_url));
    }
}

/// An edit whose new URL is malformed ends the run before the registry is
/// read; an edit of a source that is not there ends it once the registry is
/// read. Either way nothing is asked to be stored.
pub proof fn edit_refused_stores_nothing(
    source: Seq<char>,
    new_url: Seq<char>,
    valid: bool,
    stored: Option<Seq<u8>>,
)
    requires
        !valid || !lists(starting_document(stored).registry, source),
    ensures
        ({
            let first = begun(Some(CommandView::SourceEdit { source, new_url }), valid);
            &&& !valid ==> first == ended(ReportView::EditMalformed { source })
            &&& valid ==> first.1 == RequestView::ReadSources && stepped(
                first.0,
                ReplyView::Sources(stored),
            ) == ended(ReportView::EditMissing { source })
        }),
{
}

/// A registry that could not be stored is reported as a failure, with the
/// reason the host gave and the name of what was tried, the addition or the
/// edit; nothing is reported as done.
pub proof fn failed_write_is_reported(change: ChangeView, error: Seq<char>)
    ensures
        ({
            let next = stepped(StateView::Saving(change), ReplyView::Written(Some(error)));
            let report = settled(change, Some(error));
            &&& next == ended(report)
            &&& report.is_error()
            &&& change.kind == Kind::Add ==> report == ReportView::AddFailed { error }
                && report.text() == "An error occurred while trying to add a source ("@ + error
                + ")"@
            &&& change.kind == Kind::Edit ==> report == ReportView::EditFailed { error }
                && report.text() == "An error occurred while trying to edit a source ("@ + error
                + ")"@
        }),
{
}

/// A forced reset asks nobody. Where the directory is there it is removed
/// and the run reports how that went; where it is not, as after a reset
/// that removed it, the run removes nothing and reports the directory as
/// already wiped, which is no error.
pub proof fn forced_reset_wipes_once(directory: Seq<char>, failure: Option<Seq<char>>)
    ensures
        ({
            let first = begun(Some(CommandView::Reset { force: true }), true);
            let present = stepped(first.0, ReplyView::Probed { directory, present: true });
            let absent = stepped(first.0, ReplyView::Probed { directory, present: false });
            let removed = stepped(present.0, ReplyView::Removed(failure));
            &&& first.1 == RequestView::ProbeDirectory
            &&& present.1 == RequestView::RemoveDirectory
            &&& failure is None ==> removed == ended(ReportView::Wiped { directory })
            &&& failure matches Some(error) ==> removed == ended(
                ReportView::WipeFailed { directory, error },
            )
            &&& absent == ended(ReportView::Skipped { directory })
            &&& !(ReportView::Skipped { directory }).is_error()
        }),
{
}

/// A reset that is not forced asks first, and one that is declined ends at
/// once: it looks at no directory, removes none and reports nothing.
pub proof fn declined_reset_does_nothing()
    ensures
        ({
            let first = begun(Some(CommandView::Reset { force: false }), true);
            &&& first == (StateView::Confirming, RequestView::Confirm(RESET_PROMPT@))
            &&& stepped(first.0, ReplyView::Confirmed(false)) == ended_silently()
        }),
{
}

/// Nothing is stored or removed but on the path that leads there: a registry
/// is asked to be stored only in answer to the stored one, by a change that
/// was not turned down; the directory is looked at only after a yes, and
/// removed only after it was found.
pub proof fn effects_are_earned(state: StateView, reply: ReplyView)
    ensures
        ({
            let next = stepped(state, reply);
            &&& next.1 is WriteSources ==> {
                &&& state matches StateView::Loading(change)
                &&& reply matches ReplyView::Sources(stored)
                &&& next.0 == StateView::Saving(change)
                &&& (change.kind == Kind::Edit <==> lists(
                    starting_document(stored).registry,
                    change.source,
                ))
            }
            &&& next.1 is ProbeDirectory ==> state is Confirming && reply == ReplyView::Confirmed(
                true,
            )
            &&& next.1 is RemoveDirectory ==> {
                &&& state is Probing
                &&& reply matches ReplyView::Probed { present, .. }
                &&& present
            }
            &&& next.1 !is ReadSources
            &&& next.1 !is Confirm
        }),
{
}

/// A run ends after three replies at the latest, and once it has ended it
/// stays so: every later reply is answered with a silent finish.
pub proof fn runs_end(state: StateView, first: ReplyView, second: ReplyView, third: ReplyView)
    ensures
        stepped(stepped(stepped(state, first).0, second).0, third).0 is Finished,
        stepped(StateView::Finished, first) == ended_silently(),
{
}

/// A run on a change or a reset that gets the answers it asks for ends with
/// a line, but for a reset that was declined. So such a run prints one line,
/// and the line says how it ended.
pub proof fn answered_runs_end_with_a_line(state: StateView, reply: ReplyView)
    requires
        state matches StateView::Loading(_) ==> reply is Sources,
        state matches StateView::Saving(_) ==> reply is Written,
        state is Probing ==> reply is Probed,
        state matches StateView::Removing(_) ==> reply is Removed,
        state is Confirming ==> reply == ReplyView::Confirmed(true),
        state !is Finished,
    ensures
        stepped(state, reply).1 matches RequestView::Finish(report) ==> report is Some,
        stepped(state, reply).0 is Finished <==> stepped(state, reply).1 is Finish,
{
}

/// The commands that are declared and not yet provided, and a run without a
/// command, end at once with nothing asked of the host and nothing said.
pub proof fn unprovided_commands_are_silent(command: Option<CommandView>, valid: bool)
    requires
        !(command matches Some(CommandView::SourceAdd { .. })),
        !(command matches Some(CommandView::SourceEdit { .. })),
        !(command matches Some(CommandView::Reset { .. })),
    ensures
        begun(command, valid) == ended_silently(),
{
}

} // verus!
