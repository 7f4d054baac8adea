//! The position query as a resumable state machine: one seek of zero bytes
//! from the current position, whose reported offset is the position.
use vstd::prelude::*;

use crate::seek::SeekFrom;

verus! {

/// The steps of a position query.
#[derive(Clone, Copy, Debug, PartialEq, Eq, Structural)]
pub enum PositionState {
    /// Waiting for the seek of zero bytes from the current position.
    AwaitingPosition,
    /// The query has finished, with a position or with an error.
    Done,
}

impl PositionState {
    /// The seek that this step waits for, if any.
    pub open spec fn request(self) -> Option<SeekFrom> {
        match self {
            PositionState::AwaitingPosition => Some(SeekFrom::Current(0)),
            PositionState::Done => None,
        }
    }

    /// Runs the query from this step on a stream whose cursor is at `pos` and
    /// whose end is at `len`, where every seek to an offset in range
    /// succeeds. Gives the final step, the cursor's final position and the
    /// position reported, if the query finished.
    pub open spec fn run(self, pos: u64, len: u64) -> (PositionState, u64, Option<u64>) {
        match self.request() {
            None => (self, pos, None),
            Some(from) => {
                let t = from.target(pos as int, len as int);
                if t < 0 || t > u64::MAX {
                    (self, pos, None)
                } else {
                    (PositionState::Done, t as u64, Some(t as u64))
                }
            },
        }
    }
}

/// An in-flight position query.
#[derive(Debug)]
pub struct StreamPosition {
    state: PositionState,
}

impl View for StreamPosition {
    type V = PositionState;

    closed spec fn view(&self) -> PositionState {
        self.state
    }
}

impl StreamPosition {
    /// Starts a query.
    pub fn new() -> (r: StreamPosition)
        ensures
            r@ == PositionState::AwaitingPosition,
    {
        StreamPosition { state: PositionState::AwaitingPosition }
    }

    /// The seek to issue now, or `None` once the query has finished.
    ///
    /// Asking again before the outcome is handed in gives the same request.
    pub fn next_seek(&self) -> (r: Option<SeekFrom>)
        ensures
            r == self@.request(),
    {
        match self.state {
            PositionState::AwaitingPosition => Some(SeekFrom::Current(0)),
            PositionState::Done => None,
        }
    }

    /// Hands in the outcome of the seek that `next_seek` asked for and
    /// returns it unchanged as the query's result.
    pub fn resume<E>(&mut self, outcome: Result<u64, E>) -> (r: Result<u64, E>)
        requires
            old(self)@ == PositionState::AwaitingPosition,
        ensures
            final(self)@ == PositionState::Done,
            r == outcome,
    {
        self.state = PositionState::Done;
        outcome
    }
}

/// Two position queries in a row, with no seek between them, report the same
/// offset, the cursor's position, and leave the cursor where it was.
pub proof fn lemma_position_query_idempotent(pos: u64, len: u64)
    ensures
        ({
            let (s1, p1, r1) = PositionState::AwaitingPosition.run(pos, len);
            let (s2, p2, r2) = PositionState::AwaitingPosition.run(p1, len);
            &&& s1 == PositionState::Done && s2 == PositionState::Done
            &&& r1 == Some(pos) && r2 == r1
            &&& p1 == pos && p2 == pos
        }),
{
}

} // verus!
