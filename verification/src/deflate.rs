//! The forward direction: from bytes to a zlib stream.

use crate::buffer::{zeroed, ByteBuffer};
use crate::codec::{
    codec_bound, codec_compress, deflated, has_portable_bound, max_compressed_size, STATUS_OK,
    STATUS_OUT_OF_MEMORY,
};
use crate::error::{bytes_of, Error};
use vstd::prelude::*;

verus! {

/// The lowest compression level: no compression, the source is stored.
pub const MIN_LEVEL: isize = 0;

/// The highest compression level: the smallest output, at the most work.
pub const MAX_LEVEL: isize = 9;

/// The levels that `compress` accepts: those from `MIN_LEVEL` to `MAX_LEVEL`.
pub open spec fn valid_level(level: int) -> bool {
    MIN_LEVEL <= level <= MAX_LEVEL
}

/// What may come back as the estimate for a source of `source_len` bytes:
/// the codec's worst case wherever that is the same on every target, and
/// whatever the codec answers elsewhere.
pub open spec fn is_estimate(source_len: nat, bound: nat) -> bool {
    has_portable_bound(source_len) ==> bound == max_compressed_size(source_len)
}

/// What a compression comes to once the codec has ended with `status` and
/// has written `bytes`: the bytes on success, else the status as an error.
pub open spec fn compress_outcome(status: i32, bytes: Seq<u8>) -> Result<Seq<u8>, Error> {
    if status == STATUS_OK {
        Ok(bytes)
    } else {
        Err(Error::CompressionError { code: status })
    }
}

/// `result` is what compressing `src` at `level` into a buffer of `capacity`
/// bytes may give.
///
/// A level out of range gives `InvalidArgument`. Otherwise the result is what
/// the codec makes of the source, the level and the capacity, read by
/// `compress_outcome`; or, since the codec needs memory of its own, the
/// error that carries its out-of-memory status. Bytes that come back are
/// never more than the capacity.
pub open spec fn compressed_into(
    src: Seq<u8>,
    level: int,
    capacity: nat,
    result: Result<Seq<u8>, Error>,
) -> bool {
    if !valid_level(level) {
        result == Err::<Seq<u8>, Error>(Error::InvalidArgument)
    } else {
        let (status, bytes) = deflated(src, level as i32, capacity);
        &&& result == compress_outcome(status, bytes) || result == Err::<Seq<u8>, Error>(
            Error::CompressionError { code: STATUS_OUT_OF_MEMORY },
        )
        &&& result matches Ok(out) ==> out.len() <= capacity
    }
}

/// `result` is what compressing `src` at `level` may give: what compressing
/// it into a buffer of the estimated size may give.
pub open spec fn compressed(src: Seq<u8>, level: int, result: Result<Seq<u8>, Error>) -> bool {
    exists|capacity: nat|
        is_estimate(src.len(), capacity) && #[trigger] compressed_into(src, level, capacity, result)
}

/// Whether `level` is one that `compress` accepts.
pub fn is_valid_level(level: isize) -> (valid: bool)
    ensures
        valid == valid_level(level as int),
{
    MIN_LEVEL <= level && level <= MAX_LEVEL
}

/// Asks the codec how large the compressed form of `source_len` bytes can
/// get at most.
pub fn estimate_max_compressed_size(source_len: usize) -> (bound: usize)
    ensures
        is_estimate(source_len as nat, bound as nat),
{
    codec_bound(source_len)
}

/// Reads the status with which the codec's forward transform ended: on
/// success the bytes it wrote, trimmed of the unused rest of the buffer; on
/// any other status an error that carries it, and no bytes.
pub fn finish_compress(buffer: ByteBuffer, status: i32) -> (result: Result<Vec<u8>, Error>)
    ensures
        bytes_of(result) == compress_outcome(status, buffer@),
{
    if status != STATUS_OK {
        return Err(Error::CompressionError { code: status });
    }
    Ok(buffer.into_used())
}

/// Allocates `capacity` bytes, has the codec compress `src` into them at
/// `level`, and reads its status.
fn compress_at_valid_level(src: &[u8], level: isize, capacity: usize) -> (result: Result<
    Vec<u8>,
    Error,
>)
    requires
        valid_level(level as int),
    ensures
        compressed_into(src@, level as int, capacity as nat, bytes_of(result)),
{
    let mut storage: Vec<u8> = zeroed(capacity);
    let (status, written): (i32, usize) = codec_compress(&mut storage, src, level as i32);
    finish_compress(ByteBuffer::new(storage, written), status)
}

/// Compresses `src` at `level` into a fresh buffer of `capacity` bytes, and
/// gives back the bytes that the codec wrote.
///
/// The level is looked at first: with one out of range the result is
/// `InvalidArgument`, and the codec is not called. A capacity too small for
/// the stream is for the codec to refuse, and comes back as the
/// `CompressionError` that carries its status.
pub fn compress_with_capacity(src: &[u8], level: isize, capacity: usize) -> (result: Result<
    Vec<u8>,
    Error,
>)
    ensures
        compressed_into(src@, level as int, capacity as nat, bytes_of(result)),
{
    if !is_valid_level(level) {
        return Err(Error::InvalidArgument);
    }
    compress_at_valid_level(src, level, capacity)
}

/// Compresses `src` into a zlib stream at `level`, which runs from 0, for no
/// compression, to 9, for the smallest output.
///
/// The level is looked at first: with one out of range the result is
/// `InvalidArgument`, and the codec is not called, not even for the
/// estimate. Otherwise the codec writes to a fresh buffer of the size that
/// `estimate_max_compressed_size` gives for the length of `src`. If it ends
/// with success, what comes back is that buffer trimmed to the bytes
/// actually written; if it ends with any other status, a `CompressionError`
/// that carries the status.
pub fn compress(src: &[u8], level: isize) -> (result: Result<Vec<u8>, Error>)
    ensures
        compressed(src@, level as int, bytes_of(result)),
        !valid_level(level as int) <==> result == Err::<Vec<u8>, Error>(Error::InvalidArgument),
        has_portable_bound(src@.len()) ==> compressed_into(
            src@,
            level as int,
            max_compressed_size(src@.len()),
            bytes_of(result),
        ),
{
    if !is_valid_level(level) {
        assert(compressed_into(
            src@,
            level as int,
            max_compressed_size(src@.len()),
            Err::<Seq<u8>, Error>(Error::InvalidArgument),
        ));
        return Err(Error::InvalidArgument);
    }
    let capacity: usize = estimate_max_compressed_size(src.len());
    compress_at_valid_level(src, level, capacity)
}

} // verus!
