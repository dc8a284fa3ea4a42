//! URL validation, as the `is_url` crate decides it.

use vstd::prelude::*;

verus! {

/// Whether `is_url::is_url` takes a text for a URL. The crate searches the
/// text for its URL pattern, so the answer depends on the text alone.
pub uninterp spec fn well_formed(url: Seq<char>) -> bool;

/// `is_url::is_url`: `true` exactly on the texts that hold a URL.
pub assume_specification[ is_url::is_url ](url: &str) -> (ok: bool)
    ensures
        ok == well_formed(url@),
;

} // verus!
