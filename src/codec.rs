//! The payload codec: zlib streams with a stored-as-is fallback.
//!
//! A payload is kept compressed only where compressing made it strictly
//! shorter, so a stored length equal to the original size says that the
//! bytes were stored as they are.
use vstd::prelude::*;

verus! {

/// The zlib stream (header, deflate data, checksum) that the compressor
/// makes of `input` at compression level `level`.
pub uninterp spec fn deflated(input: Seq<u8>, level: u8) -> Seq<u8>;

/// What inflating the zlib stream `input` gives: `None` where the stream is
/// malformed.
pub uninterp spec fn inflated(input: Seq<u8>) -> Option<Seq<u8>>;

/// The compression level handed to the compressor (zlib's default).
pub const LEVEL: u8 = 6;

#[verifier::external_type_specification]
#[verifier::external_body]
pub struct ExDecompressError(miniz_oxide::inflate::DecompressError);

/// Relies on `miniz_oxide::deflate::compress_to_vec_zlib`: it returns a zlib
/// stream of `input`, which inflates back to `input` (lossless compression).
#[verifier::external_body]
fn zlib_compress(input: &Vec<u8>, level: u8) -> (r: Vec<u8>)
    ensures
        r@ == deflated(input@, level),
        inflated(r@) == Some(input@),
{
    miniz_oxide::deflate::compress_to_vec_zlib(input.as_slice(), level)
}

/// Relies on `miniz_oxide::inflate::decompress_to_vec_zlib`: it returns the
/// inflated bytes of a well-formed zlib stream and an error otherwise.
#[verifier::external_body]
fn zlib_decompress(input: &Vec<u8>) -> (r: Result<Vec<u8>, miniz_oxide::inflate::DecompressError>)
    ensures
        match r {
            Ok(v) => inflated(input@) == Some(v@),
            Err(_) => inflated(input@) is None,
        },
{
    miniz_oxide::inflate::decompress_to_vec_zlib(input.as_slice())
}

/// The error of decoding a stored payload.
#[derive(Debug, Clone, Copy, PartialEq, Eq, Structural)]
pub enum CodecError {
    /// The stored bytes were taken for a zlib stream and are not a valid one.
    Corrupt,
}

/// The bytes that are stored for a payload `blob`: its zlib stream where that
/// is strictly shorter, else `blob` itself.
pub open spec fn stored_form(blob: Seq<u8>) -> Seq<u8> {
    if deflated(blob, LEVEL).len() < blob.len() {
        deflated(blob, LEVEL)
    } else {
        blob
    }
}

/// What decoding the stored bytes `stored` of a payload of `original_size`
/// bytes gives: the stored bytes themselves where the size is not positive or
/// equals their length, else their inflated form (`None` if malformed).
pub open spec fn decoded(stored: Seq<u8>, original_size: int) -> Option<Seq<u8>> {
    if original_size <= 0 || stored.len() == original_size {
        Some(stored)
    } else {
        inflated(stored)
    }
}

/// Compresses a payload for storage, keeping it as it is unless compression
/// makes it strictly shorter. Decoding the result with the payload's length
/// gives back the payload.
pub fn compress(blob: &Vec<u8>) -> (r: Vec<u8>)
    ensures
        r@ == stored_form(blob@),
        r@.len() <= blob@.len(),
        decoded(r@, blob@.len() as int) == Some(blob@),
{
    let packed = zlib_compress(blob, LEVEL);
    if packed.len() < blob.len() {
        packed
    } else {
        blob.clone()
    }
}

/// Decodes the stored bytes of a payload whose original size is
/// `original_size`. Bytes whose length equals that size, or any bytes where the
/// size is not positive, were stored as they are and come back unchanged;
/// others are inflated, and a malformed stream is an error.
pub fn decompress(stored: &Vec<u8>, original_size: i64) -> (r: Result<Vec<u8>, CodecError>)
    ensures
        match r {
            Ok(v) => decoded(stored@, original_size as int) == Some(v@),
            Err(_) => decoded(stored@, original_size as int) is None,
        },
{
    if original_size <= 0 || stored.len() as i128 == original_size as i128 {
        return Ok(stored.clone());
    }
    match zlib_decompress(stored) {
        Ok(v) => Ok(v),
        Err(_) => Err(CodecError::Corrupt),
    }
}

/// A payload is stored shorter than it is exactly when its zlib stream is
/// strictly shorter; otherwise it is stored as it is, and decoding it returns
/// it without inflating anything.
pub proof fn lemma_compression_fallback(blob: Seq<u8>)
    ensures
        deflated(blob, LEVEL).len() < blob.len() ==> stored_form(blob).len() < blob.len(),
        !(deflated(blob, LEVEL).len() < blob.len()) ==> {
            &&& stored_form(blob) == blob
            &&& stored_form(blob).len() == blob.len()
            &&& decoded(stored_form(blob), blob.len() as int) == Some(blob)
        },
{
}

} // verus!
