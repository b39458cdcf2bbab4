//! One live client session's view of the Broadcast Cell.
//!
//! Each session holds an independent read cursor into the cell and a local
//! delivery counter for diagnostics. The socket, the TLS handshake and the
//! actual writes live outside the library; here is everything the delivery
//! loop decides: what to observe next and how the session advances.
//! Sessions share nothing but read access to the cell, so no session can
//! delay or disturb another's delivery.

use vstd::prelude::*;

use crate::cell::{BroadcastCell, PollResult};
use crate::message::BroadcastValue;

verus! {

/// One connected client's delivery state.
pub struct Session {
    /// The cell version this session has observed up to.
    pub cursor: u64,
    /// How many values were handed to this session's socket so far.
    pub delivered: u64,
}

/// What one turn of a session's delivery loop tells the caller to do.
pub enum SessionStep {
    /// A new value to serialize and write to this session's socket.
    Deliver(BroadcastValue),
    /// Nothing new: suspend until the next publish.
    Wait,
    /// The cell was closed: stop serving and close the socket.
    Stop,
}

impl Session {
    /// A session's consistency with the cell it reads.
    pub open spec fn wf(self, cell: BroadcastCell) -> bool {
        &&& self.cursor <= cell.version
        &&& self.delivered <= self.cursor
    }

    /// A session created on connection accept starts at the cell's current
    /// version: it observes only values published after it connected,
    /// never a replay of history.
    pub fn connect(cell: &BroadcastCell) -> (s: Session)
        ensures
            s.wf(*cell),
            s.cursor == cell.version,
            s.delivered == 0,
    {
        Session { cursor: cell.version, delivered: 0 }
    }

    /// One turn of the delivery loop: observe the cell, and if a strictly
    /// newer value exists, take it and advance the cursor over it.
    pub fn step(&mut self, cell: &BroadcastCell) -> (r: SessionStep)
        requires
            cell.wf(),
            old(self).wf(*cell),
        ensures
            final(self).wf(*cell),
            cell.spec_poll(old(self).cursor) is Pending ==> r is Wait && *final(self) == *old(
                self,
            ),
            cell.spec_poll(old(self).cursor) is Closed ==> r is Stop && *final(self) == *old(
                self,
            ),
            cell.spec_poll(old(self).cursor) matches PollResult::Ready(v, c) ==> ({
                &&& r == SessionStep::Deliver(v)
                &&& final(self).cursor == c
                &&& final(self).delivered == old(self).delivered + 1
            }),
    {
        match cell.poll(self.cursor) {
            PollResult::Pending => SessionStep::Wait,
            PollResult::Closed => SessionStep::Stop,
            PollResult::Ready(v, c) => {
                self.cursor = c;
                self.delivered = self.delivered + 1;
                SessionStep::Deliver(v)
            },
        }
    }
}

} // verus!
