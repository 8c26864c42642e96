//! What holds between the operations, proved from their contracts.
//!
//! The operations are stated as relations between their arguments and their
//! result: `compressed` for `compress`, `uncompressed` for `uncompress`. A
//! law here takes results as parameters and asks of them that they stand in
//! those relations. What the codec does with the bytes is not known here:
//! the one law that depends on it names what it needs as a premise.

use crate::codec::{
    deflated, has_portable_bound, inflated, max_compressed_size, STATUS_OK, STATUS_OUT_OF_MEMORY,
};
use crate::deflate::{compressed, compressed_into, is_estimate, valid_level};
use crate::error::Error;
use crate::inflate::uncompressed;
use vstd::prelude::*;

verus! {

/// `compress` refuses a level with `InvalidArgument` exactly when the level
/// is out of range, whatever the source.
pub proof fn level_out_of_range_is_refused(
    src: Seq<u8>,
    level: int,
    result: Result<Seq<u8>, Error>,
)
    requires
        compressed(src, level, result),
    ensures
        !valid_level(level) <==> result == Err::<Seq<u8>, Error>(Error::InvalidArgument),
{
}

/// What `compress` gives back is never longer than the estimate for the
/// length of its source: than the codec's worst case where that is portable,
/// and than what the estimate may be in any case.
pub proof fn compressed_fits_the_estimate(
    src: Seq<u8>,
    level: int,
    result: Result<Seq<u8>, Error>,
    out: Seq<u8>,
)
    requires
        compressed(src, level, result),
        result == Ok::<Seq<u8>, Error>(out),
    ensures
        exists|bound: nat| #[trigger] is_estimate(src.len(), bound) && out.len() <= bound,
        has_portable_bound(src.len()) ==> out.len() <= max_compressed_size(src.len()),
{
    let capacity: nat = choose|capacity: nat|
        is_estimate(src.len(), capacity) && #[trigger] compressed_into(
            src,
            level,
            capacity,
            result,
        );
    assert(is_estimate(src.len(), capacity) && out.len() <= capacity);
}

/// Whatever `compress` gives back for a level in range is the codec's doing:
/// bytes are the bytes that the codec wrote on ending with success, and an
/// error carries the status that the codec ended with.
pub proof fn compress_reports_the_codec(
    src: Seq<u8>,
    level: int,
    capacity: nat,
    result: Result<Seq<u8>, Error>,
)
    requires
        valid_level(level),
        compressed_into(src, level, capacity, result),
    ensures
        result matches Ok(out) ==> deflated(src, level as i32, capacity) == (STATUS_OK, out),
        result matches Err(error) ==> error == (Error::CompressionError {
            code: STATUS_OUT_OF_MEMORY,
        }) || error == (Error::CompressionError { code: deflated(src, level as i32, capacity).0 }),
        deflated(src, level as i32, capacity).0 != STATUS_OK ==> result is Err,
{
}

/// Whatever `uncompress` gives back is the codec's doing: bytes are the bytes
/// that the codec wrote on ending with success, neither cut short nor added
/// to; and where the codec ends with another status, on a buffer too small
/// for the content or on a stream that is none, the result is a
/// `DecompressionError`.
pub proof fn uncompress_reports_the_codec(
    src: Seq<u8>,
    expected_len: nat,
    result: Result<Seq<u8>, Error>,
)
    requires
        uncompressed(src, expected_len, result),
    ensures
        result matches Ok(out) ==> inflated(src, expected_len) == (STATUS_OK, out),
        result matches Err(error) ==> error == (Error::DecompressionError {
            code: STATUS_OUT_OF_MEMORY,
        }) || error == (Error::DecompressionError { code: inflated(src, expected_len).0 }),
        inflated(src, expected_len).0 != STATUS_OK ==> result is Err,
{
}

/// The codec gives `d` back: where it has compressed `d` at `level` into
/// `capacity` bytes with success, it decompresses what it wrote, given room
/// for as many bytes as `d` has, into `d` again.
///
/// This is a statement about the codec. The crate does not prove it and does
/// not take it on trust; `round_trip_through_codec` names it as its premise.
pub open spec fn codec_restores(d: Seq<u8>, level: int, capacity: nat) -> bool {
    let (status, stream) = deflated(d, level as i32, capacity);
    status == STATUS_OK ==> inflated(stream, d.len()) == (STATUS_OK, d)
}

/// The round trip, as far as it is this crate's to keep: if the codec gives
/// `d` back from a buffer of the estimated size, then so do `compress` and
/// `uncompress`. Where `compress` has given a stream for `d`, `uncompress` of
/// that stream with the length of `d` gives `d`, unless the codec runs out of
/// memory on the way back.
pub proof fn round_trip_through_codec(
    d: Seq<u8>,
    level: int,
    stream: Seq<u8>,
    result: Result<Seq<u8>, Error>,
)
    requires
        forall|capacity: nat|
            is_estimate(d.len(), capacity) ==> #[trigger] codec_restores(d, level, capacity),
        compressed(d, level, Ok::<Seq<u8>, Error>(stream)),
        uncompressed(stream, d.len(), result),
    ensures
        result == Ok::<Seq<u8>, Error>(d) || result == Err::<Seq<u8>, Error>(
            Error::DecompressionError { code: STATUS_OUT_OF_MEMORY },
        ),
{
    let capacity: nat = choose|capacity: nat|
        is_estimate(d.len(), capacity) && #[trigger] compressed_into(
            d,
            level,
            capacity,
            Ok::<Seq<u8>, Error>(stream),
        );
    assert(codec_restores(d, level, capacity));
}

} // verus!
