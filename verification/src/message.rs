//! The values that the rebuild machinery produces and broadcasts.

use vstd::prelude::*;

verus! {

/// An opaque 64-bit value identifying one successful rebuild.
///
/// A fresh one is drawn at random for each successful rebuild; clients keep
/// the last token they saw and ignore a notification that repeats it, so
/// they never react twice to the same rebuild. The server itself only ever
/// hands tokens out, it never compares them.
#[derive(Clone, Copy, PartialEq, Eq, Structural, Debug)]
pub struct ReloadToken(pub u64);

/// The build-error state owned by the Build Trigger: either the last
/// frontend rebuild succeeded, or it failed with the captured process
/// output.
pub enum BuildState {
    Clean,
    Failed(String),
}

/// The payload written into the Broadcast Cell and sent to every live
/// session: either "reload the page" with the token of the rebuild that
/// prompted it, or "display this build error".
pub enum BroadcastValue {
    RefreshPage(ReloadToken),
    DisplayError(String),
}

impl Clone for BuildState {
    fn clone(&self) -> (r: Self)
        ensures
            r == *self,
    {
        match self {
            BuildState::Clean => BuildState::Clean,
            BuildState::Failed(t) => BuildState::Failed(t.clone()),
        }
    }
}

impl Clone for BroadcastValue {
    fn clone(&self) -> (r: Self)
        ensures
            r == *self,
    {
        match self {
            BroadcastValue::RefreshPage(t) => BroadcastValue::RefreshPage(*t),
            BroadcastValue::DisplayError(t) => BroadcastValue::DisplayError(t.clone()),
        }
    }
}

} // verus!
