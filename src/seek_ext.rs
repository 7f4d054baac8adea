//! Position and length queries for every seekable stream, run to completion.
use vstd::prelude::*;

use crate::seek::Seek;
use crate::stream_len::{LenState, StreamLen};
use crate::stream_position::StreamPosition;

verus! {

/// What a length query in progress knows of a stream that stood at `pos0`
/// with its end at `len0` when the query began, given that every seek so far
/// succeeded and the cursor now stands at `pos`.
spec fn len_query_tracks(state: LenState, pos0: int, len0: int, pos: int) -> bool {
    match state {
        LenState::AwaitingPosition => pos == pos0,
        LenState::AwaitingEndSeek { old_pos } => old_pos == pos0,
        LenState::AwaitingRestoreSeek { old_pos, len } => old_pos == pos0 && len == len0,
        LenState::Done => false,
    }
}

/// Position and length queries, available on every `Seek` stream.
pub trait SeekExt: Seek {
    /// Returns the length of the stream in bytes.
    ///
    /// It reads the position, seeks to the end, and seeks back unless the
    /// cursor already stood at the end. On success the position is as it was
    /// before the call; after an error it is whatever the failing seek left.
    fn stream_len(&mut self) -> (r: Result<u64, Self::Error>)
        ensures
            old(self).dependable() && 0 <= old(self).position() <= u64::MAX && 0
                <= old(self).length() <= u64::MAX ==> r is Ok,
            r is Ok ==> {
                &&& r->Ok_0 as int == old(self).length()
                &&& final(self).position() == old(self).position()
                &&& final(self).length() == old(self).length()
                &&& final(self).dependable() == old(self).dependable()
            },
    {
        let ghost pos0 = self.position();
        let ghost len0 = self.length();
        let mut query = StreamLen::new();
        loop
            invariant
                pos0 == old(self).position(),
                len0 == old(self).length(),
                len_query_tracks(query@, pos0, len0, self.position()),
                self.length() == len0,
                self.dependable() == old(self).dependable(),
            decreases query@.seeks_left(),
        {
            let from = query.next_seek().unwrap();
            let outcome = self.seek(from);
            match query.resume(outcome) {
                Some(result) => {
                    return result;
                },
                None => {},
            }
        }
    }

    /// Returns the cursor's offset from the start of the stream, found by a
    /// seek of zero bytes from the current position.
    fn stream_position(&mut self) -> (r: Result<u64, Self::Error>)
        ensures
            old(self).dependable() && 0 <= old(self).position() <= u64::MAX ==> r is Ok,
            r is Ok ==> {
                &&& r->Ok_0 as int == old(self).position()
                &&& final(self).position() == old(self).position()
                &&& final(self).length() == old(self).length()
                &&& final(self).dependable() == old(self).dependable()
            },
    {
        let mut query = StreamPosition::new();
        let from = query.next_seek().unwrap();
        let outcome = self.seek(from);
        query.resume(outcome)
    }
}

impl<T: Seek> SeekExt for T {}

} // verus!
