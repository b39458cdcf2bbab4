//! Normalization of the artifact-removal subcommand's narrowing flags.

use vstd::prelude::*;

verus! {

/// Which artifact groups a clean request covers, after normalization.
///
/// On the command line each flag narrows the clean to one artifact group;
/// giving no narrowing flag at all means "clean everything". The `doc` flag
/// is special: it does not select a group of its own but alters what the
/// selected groups do.
pub struct NormalizedClean {
    pub html: bool,
    pub elm: bool,
    pub rust: bool,
    pub doc: bool,
}

impl NormalizedClean {
    /// Normalize from narrowing form: no group selected means every group.
    pub fn new(html: bool, elm: bool, rust: bool, doc: bool) -> (r: Self)
        ensures
            !html && !elm && !rust ==> r.html && r.elm && r.rust,
            html || elm || rust ==> r.html == html && r.elm == elm && r.rust == rust,
            r.doc == doc,
    {
        match (html, elm, rust) {
            (false, false, false) => Self { html: true, elm: true, rust: true, doc },
            (html, elm, rust) => Self { html, elm, rust, doc },
        }
    }
}

} // verus!
