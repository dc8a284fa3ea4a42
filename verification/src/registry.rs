//! The registry as mathematics: the entries of the general section, in the
//! order the document keeps them.
//!
//! A document may hold several entries under one name, and then answers with
//! the first. The tool never makes such a registry, which is what
//! [`unique_names`] says and the lemmas here help to show. A document may
//! also hold sections with a name; the tool makes none and leaves those it
//! finds as they are.

use vstd::prelude::*;

verus! {

/// The entries of a registry, each a source name with its URL.
pub type Registry = Seq<(Seq<char>, Seq<char>)>;

/// What an INI document holds: the registry in its general section, and the
/// sections that have a name, each with its name and its entries, in the
/// order the document keeps them.
pub struct Document {
    pub registry: Registry,
    pub sections: Seq<(Seq<char>, Registry)>,
}

/// Whether a registry has an entry under `name`.
pub open spec fn lists(registry: Registry, name: Seq<char>) -> bool {
    exists|i: int| 0 <= i < registry.len() && (#[trigger] registry[i]).0 == name
}

/// Whether the first entry under `name` stands at index `i`.
pub open spec fn first_at(registry: Registry, name: Seq<char>, i: int) -> bool {
    &&& 0 <= i < registry.len()
    &&& registry[i].0 == name
    &&& forall|j: int| 0 <= j < i ==> (#[trigger] registry[j]).0 != name
}

/// Whether a registry, asked for `name`, answers `url`: its first entry
/// under that name holds it.
pub open spec fn answers(registry: Registry, name: Seq<char>, url: Seq<char>) -> bool {
    exists|i: int| #[trigger] first_at(registry, name, i) && registry[i].1 == url
}

/// Whether no two entries share a name.
pub open spec fn unique_names(registry: Registry) -> bool {
    forall|i: int, j: int|
        0 <= i < j < registry.len() ==> (#[trigger] registry[i]).0 != (#[trigger] registry[j]).0
}

/// The entries that are not under `name`, in their order.
pub open spec fn without(registry: Registry, name: Seq<char>) -> Registry
    decreases registry.len(),
{
    if registry.len() == 0 {
        registry
    } else if registry.last().0 == name {
        without(registry.drop_last(), name)
    } else {
        without(registry.drop_last(), name).push(registry.last())
    }
}

/// An entry put behind the others is found under its own name, and answers
/// for it where no earlier entry does; under every other name the registry
/// answers as before.
pub proof fn lemma_push(
    registry: Registry,
    entry: (Seq<char>, Seq<char>),
    name: Seq<char>,
    url: Seq<char>,
)
    ensures
        lists(registry.push(entry), name) <==> lists(registry, name) || entry.0 == name,
        answers(registry.push(entry), name, url) <==> answers(registry, name, url) || (!lists(
            registry,
            name,
        ) && entry == (name, url)),
{
    let longer = registry.push(entry);
    let end = registry.len() as int;
    assert(longer[end] == entry);
    assert forall|i: int| 0 <= i < end implies #[trigger] longer[i] == registry[i] by {}
    if lists(longer, name) {
        let i = choose|i: int| 0 <= i < longer.len() && (#[trigger] longer[i]).0 == name;
        if i < end {
            assert(registry[i].0 == name);
        }
    }
    if lists(registry, name) {
        let i = choose|i: int| 0 <= i < registry.len() && (#[trigger] registry[i]).0 == name;
        assert(longer[i].0 == name);
    }
    if answers(longer, name, url) {
        let i = choose|i: int| #[trigger] first_at(longer, name, i) && longer[i].1 == url;
        if i < end {
            assert forall|j: int| 0 <= j < i implies (#[trigger] registry[j]).0 != name by {
                assert(longer[j].0 != name);
            }
            assert(first_at(registry, name, i));
        } else {
            assert forall|j: int| 0 <= j < end implies (#[trigger] registry[j]).0 != name by {
                assert(longer[j].0 != name);
            }
            assert(entry.0 == name && entry.1 == url);
        }
    }
    if answers(registry, name, url) {
        let i = choose|i: int| #[trigger] first_at(registry, name, i) && registry[i].1 == url;
        assert forall|j: int| 0 <= j < i implies (#[trigger] longer[j]).0 != name by {
            assert(registry[j].0 != name);
        }
        assert(first_at(longer, name, i));
    }
    if !lists(registry, name) && entry == (name, url) {
        assert forall|j: int| 0 <= j < end implies (#[trigger] longer[j]).0 != name by {
            assert(registry[j].0 != name);
        }
        assert(first_at(longer, name, end));
    }
}

/// Names stay unique where an entry is put behind the others under a name
/// that was free, and only there.
pub proof fn lemma_push_unique(registry: Registry, entry: (Seq<char>, Seq<char>))
    ensures
        unique_names(registry.push(entry)) <==> unique_names(registry) && !lists(registry, entry.0),
{
    let longer = registry.push(entry);
    let end = registry.len() as int;
    assert(longer[end] == entry);
    assert forall|i: int| 0 <= i < end implies #[trigger] longer[i] == registry[i] by {}
    if unique_names(longer) {
        assert forall|i: int, j: int| 0 <= i < j < registry.len() implies (
        #[trigger] registry[i]).0 != (#[trigger] registry[j]).0 by {
            assert(longer[i].0 != longer[j].0);
        }
        if lists(registry, entry.0) {
            let i = choose|i: int| 0 <= i < registry.len() && (#[trigger] registry[i]).0 == entry.0;
            assert(longer[i].0 != longer[end].0);
        }
    }
    if unique_names(registry) && !lists(registry, entry.0) {
        assert forall|i: int, j: int| 0 <= i < j < longer.len() implies (#[trigger] longer[i]).0
            != (#[trigger] longer[j]).0 by {
            if j < end {
                assert(registry[i].0 != registry[j].0);
            } else {
                assert(registry[i].0 != entry.0);
            }
        }
    }
}

/// Taking a name out leaves no entry under it, and leaves the registry to
/// answer under every other name as before.
pub proof fn lemma_without(registry: Registry, name: Seq<char>, other: Seq<char>, url: Seq<char>)
    ensures
        !lists(without(registry, name), name),
        other != name ==> (lists(without(registry, name), other) <==> lists(registry, other)),
        other != name ==> (answers(without(registry, name), other, url) <==> answers(
            registry,
            other,
            url,
        )),
    decreases registry.len(),
{
    if registry.len() > 0 {
        let front = registry.drop_last();
        let last = registry.last();
        assert(registry =~= front.push(last));
        lemma_without(front, name, other, url);
        lemma_without(front, name, name, url);
        lemma_push(front, last, other, url);
        lemma_push(front, last, name, url);
        if last.0 != name {
            lemma_push(without(front, name), last, other, url);
            lemma_push(without(front, name), last, name, url);
        }
    }
}

/// Taking a name out keeps names unique.
pub proof fn lemma_without_unique(registry: Registry, name: Seq<char>)
    requires
        unique_names(registry),
    ensures
        unique_names(without(registry, name)),
    decreases registry.len(),
{
    if registry.len() > 0 {
        let front = registry.drop_last();
        let last = registry.last();
        assert(registry =~= front.push(last));
        lemma_push_unique(front, last);
        lemma_without_unique(front, name);
        if last.0 != name {
            lemma_without(front, name, last.0, last.1);
            lemma_push_unique(without(front, name), last);
        }
    }
}

/// Taking out a name that is not there changes nothing.
pub proof fn lemma_without_absent(registry: Registry, name: Seq<char>)
    requires
        !lists(registry, name),
    ensures
        without(registry, name) == registry,
    decreases registry.len(),
{
    if registry.len() > 0 {
        let front = registry.drop_last();
        let last = registry.last();
        assert(registry =~= front.push(last));
        lemma_push(front, last, name, last.1);
        lemma_without_absent(front, name);
    }
}

} // verus!
