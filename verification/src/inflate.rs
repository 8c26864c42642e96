//! The way back: from a zlib stream to bytes.

use crate::buffer::{zeroed, ByteBuffer};
use crate::codec::{codec_decompress, inflated, STATUS_OK, STATUS_OUT_OF_MEMORY};
use crate::error::{bytes_of, Error};
use vstd::prelude::*;

verus! {

/// What a decompression comes to once the codec has ended with `status` and
/// has written `bytes`: the bytes on success, else the status as an error.
pub open spec fn uncompress_outcome(status: i32, bytes: Seq<u8>) -> Result<Seq<u8>, Error> {
    if status == STATUS_OK {
        Ok(bytes)
    } else {
        Err(Error::DecompressionError { code: status })
    }
}

/// `result` is what decompressing `src` into a buffer of `expected_len`
/// bytes may give: what the codec makes of the source and that capacity,
/// read by `uncompress_outcome`; or, since the codec needs memory of its
/// own, the error that carries its out-of-memory status. Bytes that come
/// back are never more than `expected_len`.
pub open spec fn uncompressed(
    src: Seq<u8>,
    expected_len: nat,
    result: Result<Seq<u8>, Error>,
) -> bool {
    let (status, bytes) = inflated(src, expected_len);
    &&& result == uncompress_outcome(status, bytes) || result == Err::<Seq<u8>, Error>(
        Error::DecompressionError { code: STATUS_OUT_OF_MEMORY },
    )
    &&& result matches Ok(out) ==> out.len() <= expected_len
}

/// Reads the status with which the codec's inverse transform ended: on
/// success the bytes it wrote, trimmed of the unused rest of the buffer; on
/// any other status an error that carries it, and no bytes.
pub fn finish_uncompress(buffer: ByteBuffer, status: i32) -> (result: Result<Vec<u8>, Error>)
    ensures
        bytes_of(result) == uncompress_outcome(status, buffer@),
{
    if status != STATUS_OK {
        return Err(Error::DecompressionError { code: status });
    }
    Ok(buffer.into_used())
}

/// Decompresses the zlib stream `src` into a fresh buffer of `expected_len`
/// bytes. If the codec ends with success, what comes back is that buffer
/// trimmed to the bytes actually written; if it ends with any other status,
/// a `DecompressionError` that carries the status.
///
/// The stream does not say how long its content is: `expected_len` is the
/// caller's word for it, and is not checked here. A larger one does no harm.
/// A smaller one is for the codec to refuse, and `zlib-rs` does, with one
/// exception: given no room at all, it ends with success on a stream whose
/// content is a single byte, and what comes back is empty.
///
/// The buffer is allocated in one piece, so `expected_len` has to be a
/// length that the machine can address.
pub fn uncompress(src: &[u8], expected_len: u64) -> (result: Result<Vec<u8>, Error>)
    requires
        expected_len <= usize::MAX,
    ensures
        uncompressed(src@, expected_len as nat, bytes_of(result)),
{
    let mut storage: Vec<u8> = zeroed(expected_len as usize);
    let (status, written): (i32, usize) = codec_decompress(&mut storage, src);
    finish_uncompress(ByteBuffer::new(storage, written), status)
}

} // verus!
