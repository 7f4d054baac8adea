//! An in-memory stream over a byte vector.
use vstd::prelude::*;

use crate::seek::{Seek, SeekFrom};

verus! {

/// The error of a seek to a negative offset or one past `u64::MAX`.
#[derive(Clone, Copy, Debug, PartialEq, Eq, Structural)]
pub struct InvalidSeek;

/// A byte vector with a cursor. The cursor may stand past the end.
#[derive(Debug)]
pub struct Cursor {
    inner: Vec<u8>,
    pos: u64,
}

impl Cursor {
    /// A cursor at the start of `inner`.
    pub fn new(inner: Vec<u8>) -> (r: Cursor)
        ensures
            r.position() == 0,
            r.length() == inner@.len(),
            r.length() <= u64::MAX,
            r.dependable(),
    {
        let n = inner.len();
        assert(n as int <= u64::MAX);
        Cursor { inner, pos: 0 }
    }

    /// Whether a seek to `from` succeeds on this cursor: it does exactly when
    /// the offset it names lies between zero and `u64::MAX`.
    pub open spec fn accepts(&self, from: SeekFrom) -> bool {
        0 <= from.target(self.position(), self.length()) <= u64::MAX
    }

    /// Moves the cursor; this is the stream's seek, with its error stated.
    pub fn seek_to(&mut self, from: SeekFrom) -> (r: Result<u64, InvalidSeek>)
        ensures
            r is Ok <==> old(self).accepts(from),
            r is Ok ==> {
                &&& r->Ok_0 as int == from.target(old(self).position(), old(self).length())
                &&& final(self).position() == r->Ok_0 as int
                &&& final(self).length() == old(self).length()
            },
            r is Err ==> *final(self) == *old(self),
    {
        let target: i128 = match from {
            SeekFrom::Start(n) => n as i128,
            SeekFrom::End(d) => self.inner.len() as i128 + d as i128,
            SeekFrom::Current(d) => self.pos as i128 + d as i128,
        };
        if target < 0 || target > u64::MAX as i128 {
            Err(InvalidSeek)
        } else {
            self.pos = target as u64;
            Ok(self.pos)
        }
    }
}

impl Seek for Cursor {
    type Error = InvalidSeek;

    closed spec fn position(&self) -> int {
        self.pos as int
    }

    closed spec fn length(&self) -> int {
        self.inner@.len() as int
    }

    closed spec fn dependable(&self) -> bool {
        true
    }

    fn seek(&mut self, from: SeekFrom) -> (r: Result<u64, InvalidSeek>) {
        self.seek_to(from)
    }
}

} // verus!
