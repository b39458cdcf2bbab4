//! The Build Trigger: owner of the build-error state.
//!
//! On each relevant filesystem change the surrounding loop performs the
//! external work — the best-effort asset copy and, when frontend sources
//! changed, the compiler run with its output captured — and hands the
//! outcome back here. The trigger updates its `BuildState` and constructs
//! the value to broadcast; publishing it into the Broadcast Cell is the
//! only way the result becomes visible to sessions.

use vstd::prelude::*;

use crate::cell::BroadcastCell;
use crate::classify::ClassificationResult;
use crate::message::{BroadcastValue, BuildState, ReloadToken};

verus! {

/// What one frontend compiler run came to: success, or failure with the
/// combined output that the run printed.
pub enum CompileOutcome {
    Success,
    Failure(String),
}

/// The component that owns the current build-error state.
pub struct BuildTrigger {
    pub state: BuildState,
}

/// The build-error state after a rebuild step: a compiler run rewrites it
/// with its outcome; a step that ran no compiler leaves it alone.
pub open spec fn spec_next_state(
    state: BuildState,
    c: ClassificationResult,
    outcome: Option<CompileOutcome>,
) -> BuildState {
    if c.affects_build {
        match outcome {
            Some(CompileOutcome::Success) => BuildState::Clean,
            Some(CompileOutcome::Failure(t)) => BuildState::Failed(t),
            None => state,
        }
    } else {
        state
    }
}

/// The value broadcast right after a compiler run, read off the new
/// build-error state: a clean build asks clients to reload under the given
/// token, a failed one hands them the captured error text.
pub open spec fn spec_broadcast_of(state: BuildState, token: ReloadToken) -> BroadcastValue {
    match state {
        BuildState::Clean => BroadcastValue::RefreshPage(token),
        BuildState::Failed(t) => BroadcastValue::DisplayError(t),
    }
}

/// The value a rebuild step broadcasts, given the build-error state after
/// it: a step that ran the compiler reports that run's result; a pure
/// asset change asks for a reload under a fresh token — whatever error is
/// stored — so browsers pick up the updated static files.
pub open spec fn spec_rebuild_value(
    state: BuildState,
    c: ClassificationResult,
    token: ReloadToken,
) -> BroadcastValue {
    if c.affects_build {
        spec_broadcast_of(state, token)
    } else {
        BroadcastValue::RefreshPage(token)
    }
}

/// Draws the random 64-bit value behind a fresh reload token.
///
/// Relies on rand::random: nothing can be promised of the result beyond
/// its type — to the verified caller two draws may or may not coincide.
#[verifier::external_body]
fn random_u64() -> u64 {
    rand::random()
}

/// A reload token for one successful rebuild, drawn at random. With
/// overwhelming probability it differs from every token drawn before, so
/// clients that remember their last token react to each rebuild once;
/// nothing is (or could be) promised of the draw itself.
pub fn fresh_token() -> ReloadToken {
    ReloadToken(random_u64())
}

impl BuildTrigger {
    /// Startup: before the watch loop begins, one synchronous build runs.
    /// Its success yields the running trigger in the clean state; its
    /// failure aborts the whole startup, surfacing the captured output —
    /// the only case in which a build failure is fatal.
    pub fn startup(outcome: CompileOutcome) -> (r: Result<BuildTrigger, String>)
        ensures
            outcome is Success ==> r == Ok::<BuildTrigger, String>(
                BuildTrigger { state: BuildState::Clean },
            ),
            outcome matches CompileOutcome::Failure(t) ==> r == Err::<BuildTrigger, String>(t),
    {
        match outcome {
            CompileOutcome::Success => Ok(BuildTrigger { state: BuildState::Clean }),
            CompileOutcome::Failure(t) => Err(t),
        }
    }

    /// One rebuild step, without the publish: update the build-error state
    /// from the compiler outcome (when a compiler run was owed) and
    /// construct the value to broadcast, if any change at all was
    /// relevant. A pure asset change asks for a reload under the given
    /// token, leaving the stored build-error state untouched, so browsers
    /// still reload to see updated static files.
    pub fn rebuild(
        &mut self,
        c: ClassificationResult,
        outcome: Option<CompileOutcome>,
        token: ReloadToken,
    ) -> (r: Option<BroadcastValue>)
        requires
            outcome is Some <==> c.affects_build,
        ensures
            final(self).state == spec_next_state(old(self).state, c, outcome),
            c.affects_copy || c.affects_build ==> r == Some(
                spec_rebuild_value(final(self).state, c, token),
            ),
            !(c.affects_copy || c.affects_build) ==> r is None,
    {
        if c.affects_build {
            match outcome {
                Some(CompileOutcome::Success) => {
                    self.state = BuildState::Clean;
                },
                Some(CompileOutcome::Failure(t)) => {
                    self.state = BuildState::Failed(t);
                },
                None => {
                    proof {
                        assert(false);
                    }
                },
            }
            match &self.state {
                BuildState::Clean => Some(BroadcastValue::RefreshPage(token)),
                BuildState::Failed(t) => Some(BroadcastValue::DisplayError(t.clone())),
            }
        } else if c.affects_copy {
            Some(BroadcastValue::RefreshPage(token))
        } else {
            None
        }
    }

    /// One whole rebuild cycle: update the state, draw a fresh token, and
    /// publish the resulting value into the cell — unless the change
    /// turned out to be irrelevant, in which case nothing at all happens.
    pub fn rebuild_cycle(
        &mut self,
        cell: &mut BroadcastCell,
        c: ClassificationResult,
        outcome: Option<CompileOutcome>,
    ) -> (r: Option<BroadcastValue>)
        requires
            outcome is Some <==> c.affects_build,
            old(cell).wf(),
            !old(cell).closed,
            old(cell).version < u64::MAX,
        ensures
            final(self).state == spec_next_state(old(self).state, c, outcome),
            final(cell).wf(),
            !(c.affects_copy || c.affects_build) ==> r is None && *final(cell) == *old(cell),
            c.affects_copy || c.affects_build ==> {
                &&& (r matches Some(v) && *final(cell) == old(cell).spec_publish(v))
                &&& (c.affects_build ==> (final(self).state matches BuildState::Failed(t) ==> r
                    == Some(BroadcastValue::DisplayError(t))))
                &&& (!c.affects_build || final(self).state is Clean ==> (r matches Some(v)
                    && v is RefreshPage))
            },
    {
        let token = fresh_token();
        let r = self.rebuild(c, outcome, token);
        match &r {
            Some(v) => {
                cell.publish(v.clone());
            },
            None => {},
        }
        r
    }
}

/// After a failed rebuild the broadcast value is the captured output as an
/// error; a subsequent successful rebuild replaces it in the cell with a
/// fresh refresh request, whatever classification prompted either step.
pub proof fn lemma_failure_then_success(
    cell: BroadcastCell,
    state0: BuildState,
    c1: ClassificationResult,
    c2: ClassificationResult,
    t: String,
    tok1: ReloadToken,
    tok2: ReloadToken,
)
    requires
        cell.wf(),
        !cell.closed,
        cell.version + 2 <= u64::MAX,
        c1.affects_build,
        c2.affects_build,
    ensures
        ({
            let s1 = spec_next_state(state0, c1, Some(CompileOutcome::Failure(t)));
            let cell1 = cell.spec_publish(spec_rebuild_value(s1, c1, tok1));
            let s2 = spec_next_state(s1, c2, Some(CompileOutcome::Success));
            let cell2 = cell1.spec_publish(spec_rebuild_value(s2, c2, tok2));
            &&& cell1.current == Some(BroadcastValue::DisplayError(t))
            &&& cell2.current == Some(BroadcastValue::RefreshPage(tok2))
        }),
{
}

/// After a successful rebuild the cell holds a refresh request carrying
/// exactly the token drawn for that rebuild — the error state, whatever it
/// was, is gone.
pub proof fn lemma_success_publishes_refresh(
    cell: BroadcastCell,
    state0: BuildState,
    c: ClassificationResult,
    tok: ReloadToken,
)
    requires
        cell.wf(),
        !cell.closed,
        cell.version < u64::MAX,
        c.affects_build,
    ensures
        ({
            let s = spec_next_state(state0, c, Some(CompileOutcome::Success));
            cell.spec_publish(spec_rebuild_value(s, c, tok)).current == Some(
                BroadcastValue::RefreshPage(tok),
            )
        }),
{
}

} // verus!
