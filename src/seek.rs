//! The seek capability that every query is built on.
use vstd::prelude::*;

verus! {

/// A reference point in a stream together with a signed byte delta.
#[derive(Clone, Copy, Debug, PartialEq, Eq, Structural)]
pub enum SeekFrom {
    /// An absolute offset from the start of the stream.
    Start(u64),
    /// A delta from the end of the stream.
    End(i64),
    /// A delta from the current position.
    Current(i64),
}

impl SeekFrom {
    /// The absolute offset this request names, for a stream whose cursor is
    /// at `pos` and whose end is at `len`.
    pub open spec fn target(self, pos: int, len: int) -> int {
        match self {
            SeekFrom::Start(n) => n as int,
            SeekFrom::End(d) => len + d,
            SeekFrom::Current(d) => pos + d,
        }
    }
}

/// A byte stream whose logical cursor can be moved.
///
/// The stream is modelled by its cursor position and its length. A seek that
/// succeeds moves the cursor to the offset that the request names and reports
/// that offset; it leaves the length alone. A seek that fails leaves the
/// cursor wherever the stream put it. A stream may declare itself dependable:
/// then every seek to an offset between zero and `u64::MAX` succeeds.
pub trait Seek {
    type Error;

    /// The cursor's offset from the start of the stream.
    spec fn position(&self) -> int;

    /// The offset of the end of the stream.
    spec fn length(&self) -> int;

    /// Whether every seek to an offset between zero and `u64::MAX` succeeds.
    /// A stream whose seeks may fail for other reasons (a device error) is not
    /// dependable.
    spec fn dependable(&self) -> bool;

    /// Moves the cursor and returns its new absolute offset.
    fn seek(&mut self, from: SeekFrom) -> (r: Result<u64, Self::Error>)
        ensures
            ({
                let t = from.target(old(self).position(), old(self).length());
                old(self).dependable() && 0 <= t <= u64::MAX ==> r is Ok
            }),
            r is Ok ==> final(self).dependable() == old(self).dependable(),
            r is Ok ==> {
                &&& r->Ok_0 as int == from.target(old(self).position(), old(self).length())
                &&& final(self).position() == r->Ok_0 as int
                &&& final(self).length() == old(self).length()
            },
    ;
}

} // verus!
