//! One-shot zlib compression of byte buffers.
//!
//! [`compress`] turns a byte sequence into a zlib stream at a level from 0 to 9;
//! [`uncompress`] turns such a stream back, given the length the caller expects.
//! The DEFLATE work itself is done by the `zlib-rs` crate. What this crate adds,
//! and proves, is everything around it: the validation of the level, the size of the
//! buffer handed to the codec, the reading of its status, and the trimming of
//! the buffer to the length the codec reports.

pub mod buffer;
pub mod codec;
pub mod deflate;
pub mod error;
pub mod inflate;
pub mod laws;

pub use crate::buffer::ByteBuffer;
pub use crate::codec::{STATUS_OK, STATUS_OUT_OF_MEMORY};
pub use crate::deflate::{
    compress, compress_with_capacity, estimate_max_compressed_size, finish_compress,
    is_valid_level, MAX_LEVEL, MIN_LEVEL,
};
pub use crate::error::Error;
pub use crate::inflate::{finish_uncompress, uncompress};
