//! The boundary to the codec: the three calls into `zlib-rs`, and what is
//! taken on trust of them. Nothing in this file is proved. Everything else in
//! the crate is proved from what is stated here.

use vstd::prelude::*;

verus! {

/// The status with which the codec reports success.
pub const STATUS_OK: i32 = 0;

/// The status with which the codec reports that it could not get the memory
/// for its own working state (`ReturnCode::MemError`).
pub const STATUS_OUT_OF_MEMORY: i32 = -4;

/// Bytes that the codec allows for the framing of one DEFLATE block.
pub const BLOCK_OVERHEAD: usize = 3;

/// Bytes of the zlib wrapper: two of header, four of checksum.
pub const WRAPPER_OVERHEAD: usize = 6;

/// The codec's worst case for the compressed size of `source_len` bytes: the
/// bytes themselves, one more bit for each of them rounded up to whole bytes,
/// one byte for an empty source and one for a source shorter than nine bytes,
/// the block framing and the zlib wrapper.
pub open spec fn max_compressed_size(source_len: nat) -> nat {
    source_len + (if source_len == 0 {
        1nat
    } else {
        0nat
    }) + (if source_len < 9 {
        1nat
    } else {
        0nat
    }) + (source_len + 7) / 8 + BLOCK_OVERHEAD as nat + WRAPPER_OVERHEAD as nat
}

/// The source lengths for which the worst case fits in 32 bits. The codec
/// computes with wrapping machine words, some of them as narrow as that on
/// some targets; up to here its arithmetic is the same everywhere.
pub open spec fn has_portable_bound(source_len: nat) -> bool {
    max_compressed_size(source_len) <= u32::MAX
}

/// What `zlib_rs::compress_slice` makes of `input` at `level`, with the other
/// settings at their defaults, when it is given `capacity` bytes to write to
/// and gets the memory for its own state: the status it ends with, and the
/// bytes it has written.
pub uninterp spec fn deflated(input: Seq<u8>, level: i32, capacity: nat) -> (i32, Seq<u8>);

/// What `zlib_rs::decompress_slice` makes of `input`, with the default
/// settings, when it is given `capacity` bytes to write to and gets the
/// memory for its own state: the status it ends with, and the bytes it has
/// written.
pub uninterp spec fn inflated(input: Seq<u8>, capacity: nat) -> (i32, Seq<u8>);

/// Calls `zlib_rs::compress_bound`.
///
/// Taken on trust: for a source length with a portable bound, the answer is
/// `max_compressed_size`. That is the sum which the codec's source computes;
/// the condition keeps away from the lengths where its wrapping additions, or
/// its passage through a C `unsigned long`, could make a difference. Of
/// longer sources nothing is claimed.
#[verifier::external_body]
pub(crate) fn codec_bound(source_len: usize) -> (bound: usize)
    ensures
        has_portable_bound(source_len as nat) ==> bound == max_compressed_size(source_len as nat),
{
    zlib_rs::compress_bound(source_len)
}

/// Calls `zlib_rs::compress_slice` on the whole of `dest`, with
/// `DeflateConfig::new(level)`, and hands back its status as a number together
/// with the length of the slice it returns.
///
/// Taken on trust: `dest` keeps its length; the codec has written no more
/// than that; and unless it reports that it is out of memory, its status and
/// the bytes it has written, which are the first `written` bytes of `dest`,
/// are `deflated` of the source, the level and the length of `dest`: they
/// depend on nothing else, in particular not on what `dest` held before.
#[verifier::external_body]
pub(crate) fn codec_compress(dest: &mut Vec<u8>, src: &[u8], level: i32) -> (r: (i32, usize))
    ensures
        final(dest)@.len() == old(dest)@.len(),
        r.1 <= old(dest)@.len(),
        r.0 != STATUS_OUT_OF_MEMORY ==> (r.0, final(dest)@.take(r.1 as int)) == deflated(
            src@,
            level,
            old(dest)@.len(),
        ),
{
    let (written, status) = zlib_rs::compress_slice(
        dest.as_mut_slice(),
        src,
        zlib_rs::DeflateConfig::new(level),
    );
    (status as i32, written.len())
}

/// Calls `zlib_rs::decompress_slice` on the whole of `dest`, with
/// `InflateConfig::default()`, and hands back its status as a number together
/// with the length of the slice it returns.
///
/// Taken on trust: `dest` keeps its length; the codec has written no more
/// than that; and unless it reports that it is out of memory, its status and
/// the bytes it has written, which are the first `written` bytes of `dest`,
/// are `inflated` of the source and the length of `dest`.
#[verifier::external_body]
pub(crate) fn codec_decompress(dest: &mut Vec<u8>, src: &[u8]) -> (r: (i32, usize))
    ensures
        final(dest)@.len() == old(dest)@.len(),
        r.1 <= old(dest)@.len(),
        r.0 != STATUS_OUT_OF_MEMORY ==> (r.0, final(dest)@.take(r.1 as int)) == inflated(
            src@,
            old(dest)@.len(),
        ),
{
    let (written, status) = zlib_rs::decompress_slice(
        dest.as_mut_slice(),
        src,
        zlib_rs::InflateConfig::default(),
    );
    (status as i32, written.len())
}

} // verus!
