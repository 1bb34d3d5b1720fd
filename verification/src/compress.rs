//! Compression module: LZ4 block compression with a little-endian `u32`
//! size prefix, applied to per-channel payloads above the record layer.

use vstd::prelude::*;

verus! {

/// Errors of the decompression path.
#[derive(Clone, Copy, Debug, PartialEq, Eq, Structural)]
pub enum QshDecompressError {
    /// The compressed block was rejected by the LZ4 decoder.
    Lz4FlexError,
}

/// What LZ4 block compression with a prepended size produces for a payload:
/// a deterministic function of the bytes alone.
pub uninterp spec fn lz4_block_of(payload: Seq<u8>) -> Seq<u8>;

/// What LZ4 block decompression with a prepended size yields: the original
/// payload for a well-formed block, nothing otherwise.
pub uninterp spec fn lz4_unblock_of(block: Seq<u8>) -> Option<Seq<u8>>;

/// Relies on `lz4_flex::block::compress_prepend_size`: compresses the
/// payload with its length prepended as a little-endian `u32` (hence the
/// length bound), and `decompress_size_prepended` restores the payload.
#[verifier::external_body]
fn lz4_compress(payload: &[u8]) -> (r: Vec<u8>)
    requires
        payload@.len() <= u32::MAX,
    ensures
        r@ == lz4_block_of(payload@),
        lz4_unblock_of(r@) == Some(payload@),
{
    lz4_flex::block::compress_prepend_size(payload)
}

/// Relies on `lz4_flex::block::decompress_size_prepended`: the deterministic
/// decompression verdict for a size-prefixed block.
#[verifier::external_body]
fn lz4_decompress(block: &[u8]) -> (r: Result<Vec<u8>, QshDecompressError>)
    ensures
        r is Ok <==> lz4_unblock_of(block@) is Some,
        r matches Ok(p) ==> lz4_unblock_of(block@) == Some(p@),
        r matches Err(e) ==> e == QshDecompressError::Lz4FlexError,
{
    match lz4_flex::block::decompress_size_prepended(block) {
        Ok(p) => Ok(p),
        Err(_) => Err(QshDecompressError::Lz4FlexError),
    }
}

/// The default compression method: LZ4 blocks with a size prefix.
pub struct Lz4FlexCompressor;

impl Lz4FlexCompressor {
    /// Builds the (stateless) compressor.
    pub fn new() -> Self {
        Lz4FlexCompressor {  }
    }

    /// Compresses `payload` into a size-prefixed LZ4 block.
    pub fn compress(&self, payload: &[u8]) -> (r: Vec<u8>)
        requires
            payload@.len() <= u32::MAX,
        ensures
            r@ == lz4_block_of(payload@),
            lz4_unblock_of(r@) == Some(payload@),
    {
        lz4_compress(payload)
    }

    /// Decompresses a size-prefixed LZ4 block; rejects exactly the blocks
    /// the decoder rejects.
    pub fn decompress(&self, payload: &[u8]) -> (r: Result<Vec<u8>, QshDecompressError>)
        ensures
            r is Ok <==> lz4_unblock_of(payload@) is Some,
            r matches Ok(p) ==> lz4_unblock_of(payload@) == Some(p@),
    {
        lz4_decompress(payload)
    }
}

/// Compression round trip: decompressing a block the compressor produced
/// yields the original payload.
pub fn compress_round_trip(payload: Vec<u8>) -> (r: Vec<u8>)
    requires
        payload@.len() <= u32::MAX,
    ensures
        r@ == payload@,
{
    let compressor = Lz4FlexCompressor::new();
    let block = compressor.compress(payload.as_slice());
    match compressor.decompress(block.as_slice()) {
        Ok(p) => p,
        Err(_) => unreached(),
    }
}

} // verus!
