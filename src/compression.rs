//! Decompression backends for mapping payloads.
use vstd::prelude::*;

verus! {

/// What a Brotli decoder yields for `src` when `size` bytes are asked of it:
/// `None` when the stream is invalid or ends before `size` bytes.
pub uninterp spec fn brotli_output(src: Seq<u8>, size: nat) -> Option<Seq<u8>>;

/// What a Zstandard decoder writes into a zeroed buffer of `size` bytes for
/// `src`: `None` when the frame is invalid or does not fit.
pub uninterp spec fn zstd_output(src: Seq<u8>, size: nat) -> Option<Seq<u8>>;

/// Relies on `brotli::Decompressor` (read through `std::io::Read::read_exact`):
/// the first `size` decoded bytes of `src`, or a failure.
#[verifier::external_body]
pub(crate) fn brotli_decompress(src: &[u8], size: usize) -> (r: Option<Vec<u8>>)
    ensures
        match r {
            Some(v) => v@.len() == size && brotli_output(src@, size as nat) == Some(v@),
            None => brotli_output(src@, size as nat) is None,
        },
{
    let mut out = vec![0u8; size];
    let mut stream = brotli::Decompressor::new(src, 4096);
    match std::io::Read::read_exact(&mut stream, &mut out) {
        Ok(()) => Some(out),
        Err(_) => None,
    }
}

/// Relies on `zstd::bulk::decompress_to_buffer`: decodes `src` into a zeroed
/// buffer of `size` bytes, or fails.
#[verifier::external_body]
pub(crate) fn zstd_decompress(src: &[u8], size: usize) -> (r: Option<Vec<u8>>)
    ensures
        match r {
            Some(v) => v@.len() == size && zstd_output(src@, size as nat) == Some(v@),
            None => zstd_output(src@, size as nat) is None,
        },
{
    let mut out = vec![0u8; size];
    match zstd::bulk::decompress_to_buffer(src, &mut out) {
        Ok(_) => Some(out),
        Err(_) => None,
    }
}

} // verus!
