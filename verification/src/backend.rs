//! The backend's sole API route.
//!
//! The backend process itself — launched once and supervised on its own
//! thread — is outside the library; the answer its one route serves is
//! fixed here.

use vstd::prelude::*;

verus! {

/// The fixed answer of the backend's one API route.
pub fn hello() -> (r: &'static str)
    ensures
        r@ == "Hello, world!"@,
{
    "Hello, world!"
}

} // verus!
