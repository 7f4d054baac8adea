//! Position and length queries over any seekable byte stream, in a blocking
//! form and as resumable state machines for cooperative schedulers.

mod cursor;
mod seek;
mod seek_ext;
mod stream_len;
mod stream_position;

pub use crate::cursor::{Cursor, InvalidSeek};
pub use crate::seek::{Seek, SeekFrom};
pub use crate::seek_ext::SeekExt;
pub use crate::stream_len::{lemma_len_query_restores_position, LenState, StreamLen};
pub use crate::stream_position::{lemma_position_query_idempotent, PositionState, StreamPosition};
