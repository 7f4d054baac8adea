//! The length query as a resumable state machine.
//!
//! The query makes up to three seeks: it reads the current position, seeks to
//! the end (whose offset is the length), and seeks back to the old position
//! unless the cursor was already at the end. The machine says which seek to
//! issue next and takes the outcome of each seek as it completes, so a driver
//! that has to wait for a seek simply asks again later and the query resumes
//! where it stood.
use vstd::prelude::*;

use crate::seek::SeekFrom;

verus! {

/// The steps of a length query.
#[derive(Clone, Copy, Debug, PartialEq, Eq, Structural)]
pub enum LenState {
    /// Waiting for the current position.
    AwaitingPosition,
    /// Waiting for the seek to the end; `old_pos` is where the cursor stood.
    AwaitingEndSeek { old_pos: u64 },
    /// Waiting for the seek back to `old_pos`; `len` is the stream's length.
    AwaitingRestoreSeek { old_pos: u64, len: u64 },
    /// The query has finished, with a length or with an error.
    Done,
}

impl LenState {
    /// The seek that this step waits for, if any.
    pub open spec fn request(self) -> Option<SeekFrom> {
        match self {
            LenState::AwaitingPosition => Some(SeekFrom::Current(0)),
            LenState::AwaitingEndSeek { .. } => Some(SeekFrom::End(0)),
            LenState::AwaitingRestoreSeek { old_pos, .. } => Some(SeekFrom::Start(old_pos)),
            LenState::Done => None,
        }
    }

    /// The next step, and the length if the query is then finished, once the
    /// pending seek has reported the offset `pos`.
    pub open spec fn after(self, pos: u64) -> (LenState, Option<u64>) {
        match self {
            LenState::AwaitingPosition => (LenState::AwaitingEndSeek { old_pos: pos }, None),
            LenState::AwaitingEndSeek { old_pos } => {
                if old_pos == pos {
                    (LenState::Done, Some(pos))
                } else {
                    (LenState::AwaitingRestoreSeek { old_pos, len: pos }, None)
                }
            },
            LenState::AwaitingRestoreSeek { len, .. } => (LenState::Done, Some(len)),
            LenState::Done => (LenState::Done, None),
        }
    }

    /// How many seeks this step may still issue.
    pub open spec fn seeks_left(self) -> nat {
        match self {
            LenState::AwaitingPosition => 3,
            LenState::AwaitingEndSeek { .. } => 2,
            LenState::AwaitingRestoreSeek { .. } => 1,
            LenState::Done => 0,
        }
    }

    /// Runs the query from this step on a stream whose cursor is at `pos` and
    /// whose end is at `len`, where every seek to an offset in range succeeds,
    /// issuing at most `fuel` seeks. Gives the final step, the cursor's final
    /// position, the length if the query finished, and the number of seeks
    /// issued.
    pub open spec fn run(self, pos: u64, len: u64, fuel: nat) -> (LenState, u64, Option<u64>, nat)
        decreases fuel,
    {
        match self.request() {
            None => (self, pos, None, 0),
            Some(from) => {
                let t = from.target(pos as int, len as int);
                if fuel == 0 || t < 0 || t > u64::MAX {
                    (self, pos, None, 0)
                } else {
                    let p = t as u64;
                    let (next, out) = self.after(p);
                    if out is Some {
                        (next, p, out, 1)
                    } else {
                        let (s, q, o, n) = next.run(p, len, (fuel - 1) as nat);
                        (s, q, o, n + 1)
                    }
                }
            },
        }
    }
}

/// An in-flight length query.
#[derive(Debug)]
pub struct StreamLen {
    state: LenState,
}

impl View for StreamLen {
    type V = LenState;

    closed spec fn view(&self) -> LenState {
        self.state
    }
}

impl StreamLen {
    /// Starts a query; its first seek reads the current position.
    pub fn new() -> (r: StreamLen)
        ensures
            r@ == LenState::AwaitingPosition,
    {
        StreamLen { state: LenState::AwaitingPosition }
    }

    /// The seek to issue now, or `None` once the query has finished.
    ///
    /// Asking again before the outcome is handed in gives the same request.
    pub fn next_seek(&self) -> (r: Option<SeekFrom>)
        ensures
            r == self@.request(),
    {
        match self.state {
            LenState::AwaitingPosition => Some(SeekFrom::Current(0)),
            LenState::AwaitingEndSeek { .. } => Some(SeekFrom::End(0)),
            LenState::AwaitingRestoreSeek { old_pos, .. } => Some(SeekFrom::Start(old_pos)),
            LenState::Done => None,
        }
    }

    /// Hands in the outcome of the seek that `next_seek` asked for.
    ///
    /// Returns the query's result once it has finished: the length, or the
    /// seek's error exactly as it came. A failed seek ends the query at once.
    pub fn resume<E>(&mut self, outcome: Result<u64, E>) -> (r: Option<Result<u64, E>>)
        requires
            old(self)@ != LenState::Done,
        ensures
            match outcome {
                Ok(pos) => {
                    &&& final(self)@ == old(self)@.after(pos).0
                    &&& r == match old(self)@.after(pos).1 {
                        Some(len) => Some(Ok::<u64, E>(len)),
                        None => None,
                    }
                },
                Err(e) => final(self)@ == LenState::Done && r == Some(Err::<u64, E>(e)),
            },
    {
        match outcome {
            Err(e) => {
                self.state = LenState::Done;
                Some(Err(e))
            },
            Ok(pos) => match self.state {
                LenState::AwaitingPosition => {
                    self.state = LenState::AwaitingEndSeek { old_pos: pos };
                    None
                },
                LenState::AwaitingEndSeek { old_pos } => {
                    if old_pos == pos {
                        self.state = LenState::Done;
                        Some(Ok(pos))
                    } else {
                        self.state = LenState::AwaitingRestoreSeek { old_pos, len: pos };
                        None
                    }
                },
                LenState::AwaitingRestoreSeek { len, .. } => {
                    self.state = LenState::Done;
                    Some(Ok(len))
                },
                LenState::Done => None,
            },
        }
    }
}

/// A length query on a stream whose seeks succeed returns the stream's length
/// and leaves the cursor where it found it, wherever that was. It issues
/// three seeks, or two when the cursor already stood at the end, in which
/// case the seek back is skipped.
pub proof fn lemma_len_query_restores_position(pos: u64, len: u64)
    ensures
        LenState::AwaitingPosition.run(pos, len, 3) == (
            LenState::Done,
            pos,
            Some(len),
            if pos == len { 2nat } else { 3nat },
        ),
{
    reveal_with_fuel(LenState::run, 4);
}

} // verus!
