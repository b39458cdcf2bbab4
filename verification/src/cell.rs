//! The Broadcast Cell: a single-slot, last-writer-wins notification
//! primitive with one writer and any number of independent readers.
//!
//! The writer `publish`es a value, overwriting whatever was there; each
//! reader holds a cursor (the version it last observed) and `poll`s the
//! cell against it. A reader never observes a value older than its cursor,
//! and when several publishes happened since it last looked it observes
//! only the most recent one — intermediate values are lost by design.
//! Closing the cell turns every later poll into a terminal signal, so all
//! delivery loops wind down instead of hanging forever.

use vstd::prelude::*;

use crate::message::BroadcastValue;

verus! {

/// What one `poll` of the cell tells a reader.
pub enum PollResult {
    /// Nothing newer than the reader's cursor: wait for the next publish.
    Pending,
    /// A strictly newer value, together with the cursor that now covers it.
    Ready(BroadcastValue, u64),
    /// The cell was closed: stop serving and release the connection.
    Closed,
}

/// The cell itself. `version` counts publishes; `history` records every
/// value ever published, latest last, and exists only for specification.
pub struct BroadcastCell {
    pub current: Option<BroadcastValue>,
    pub version: u64,
    pub closed: bool,
    pub history: Ghost<Seq<BroadcastValue>>,
}

impl BroadcastCell {
    /// The cell's internal consistency: the version counts the recorded
    /// publishes, and the slot holds the latest of them, if any.
    pub open spec fn wf(self) -> bool {
        &&& self.history@.len() == self.version
        &&& (self.version > 0 ==> self.current == Some(self.history@.last()))
        &&& (self.version == 0 ==> self.current is None)
    }

    /// What a publish does to the cell, as a value.
    pub open spec fn spec_publish(self, v: BroadcastValue) -> BroadcastCell {
        BroadcastCell {
            current: Some(v),
            version: (self.version + 1) as u64,
            closed: self.closed,
            history: Ghost(self.history@.push(v)),
        }
    }

    /// What a poll against a cursor observes, as a value.
    pub open spec fn spec_poll(self, cursor: u64) -> PollResult {
        if self.closed {
            PollResult::Closed
        } else if cursor >= self.version {
            PollResult::Pending
        } else {
            PollResult::Ready(self.history@.last(), self.version)
        }
    }

    /// An empty, open cell holding nothing yet.
    pub fn new() -> (r: Self)
        ensures
            r.wf(),
            r.version == 0,
            !r.closed,
            r.current is None,
            r.history@ == Seq::<BroadcastValue>::empty(),
    {
        BroadcastCell {
            current: None,
            version: 0,
            closed: false,
            history: Ghost(Seq::empty()),
        }
    }

    /// Replace the held value and make it observable to every reader.
    /// Never blocks, and never waits on any reader.
    pub fn publish(&mut self, v: BroadcastValue)
        requires
            old(self).wf(),
            !old(self).closed,
            old(self).version < u64::MAX,
        ensures
            final(self).wf(),
            *final(self) == old(self).spec_publish(v),
    {
        let ghost extended = self.history@.push(v);
        self.current = Some(v);
        self.version = self.version + 1;
        self.history = Ghost(extended);
    }

    /// Close the cell: every blocked and future poll observes the terminal
    /// signal. The held value and the version stay as they are.
    pub fn close(&mut self)
        requires
            old(self).wf(),
        ensures
            final(self).wf(),
            final(self).closed,
            final(self).current == old(self).current,
            final(self).version == old(self).version,
            final(self).history == old(self).history,
    {
        self.closed = true;
    }

    /// Observe the cell against a reader's cursor.
    pub fn poll(&self, cursor: u64) -> (r: PollResult)
        requires
            self.wf(),
            cursor <= self.version,
        ensures
            r == self.spec_poll(cursor),
    {
        if self.closed {
            PollResult::Closed
        } else if cursor >= self.version {
            PollResult::Pending
        } else {
            match &self.current {
                Some(v) => PollResult::Ready(v.clone(), self.version),
                None => {
                    proof {
                        assert(false);
                    }
                    PollResult::Pending
                },
            }
        }
    }
}

/// A reader that observed the current version and looks again before any
/// further publish stays pending: there are no spurious wakeups. And when
/// two publishes happen back to back, a reader that was behind observes
/// only the second value, with a cursor that then stays pending until the
/// next publish.
pub proof fn lemma_latest_value_only(
    cell: BroadcastCell,
    v1: BroadcastValue,
    v2: BroadcastValue,
    cursor: u64,
)
    requires
        cell.wf(),
        !cell.closed,
        cursor <= cell.version,
        cell.version + 2 <= u64::MAX,
    ensures
        cell.spec_poll(cell.version) is Pending,
        ({
            let after = cell.spec_publish(v1).spec_publish(v2);
            &&& after.spec_poll(cursor) == PollResult::Ready(v2, after.version)
            &&& after.spec_poll(after.version) is Pending
        }),
{
}

/// Every reader that is behind the cell observes the same, latest value:
/// delivery does not depend on which reader asks. A reader whose cursor is
/// the current version — one that connected after the last publish —
/// observes nothing until a further publish: history is not replayed.
pub proof fn lemma_broadcast_consistency(cell: BroadcastCell, c1: u64, c2: u64)
    requires
        cell.wf(),
        !cell.closed,
        c1 < cell.version,
        c2 < cell.version,
    ensures
        cell.spec_poll(c1) == cell.spec_poll(c2),
        cell.spec_poll(cell.version) is Pending,
{
}

} // verus!
