//! zstd compression of record bytes.

use vstd::prelude::*;

verus! {

/// The zstd frame that `zstd::bulk::compress` produces for `data` at
/// compression level `level`.
pub uninterp spec fn zstd_bulk_compress(data: Seq<u8>, level: i32) -> Seq<u8>;

/// Compresses `data` into a single zstd frame with `zstd::bulk::compress`.
///
/// Trusted: on success the result is the frame that the zstd library
/// produces for these bytes and this level, named `zstd_bulk_compress`;
/// nothing is stated of when the library reports an error, whose message
/// is returned as text.
#[verifier::external_body]
pub(crate) fn zstd_compress(data: &[u8], level: i32) -> (r: Result<Vec<u8>, String>)
    ensures
        r matches Ok(c) ==> c@ == zstd_bulk_compress(data@, level),
{
    match zstd::bulk::compress(data, level) {
        Ok(c) => Ok(c),
        Err(e) => Err(format!("{e}")),
    }
}

} // verus!
