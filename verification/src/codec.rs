//! The byte-level capabilities the driver relies on without proving them:
//! zstd compression and the decoding of UTF-8 text.

use vstd::prelude::*;
use vstd::utf8::{decode_utf8, valid_utf8};

verus! {

/// The level at which payloads are compressed.
pub const DEFAULT_COMPRESSION_LEVEL: i32 = 3;

/// What `zstd::stream::encode_all` returns for `data` at `level`: the zstd
/// frames, or the text of the error.
pub uninterp spec fn zstd_encoded(data: Seq<u8>, level: i32) -> Result<Seq<u8>, Seq<char>>;

/// What `zstd::stream::decode_all` returns for `frames`: the content of the
/// frames, or the text of the error.
pub uninterp spec fn zstd_decoded(frames: Seq<u8>) -> Result<Seq<u8>, Seq<char>>;

/// The text with which `String::from_utf8` describes why `bytes` are not
/// UTF-8.
pub uninterp spec fn utf8_fault_text(bytes: Seq<u8>) -> Seq<char>;

/// The model of the outcome of a codec call.
pub open spec fn bytes_outcome(r: Result<Vec<u8>, String>) -> Result<Seq<u8>, Seq<char>> {
    match r {
        Ok(bytes) => Ok(bytes@),
        Err(text) => Err(text@),
    }
}

/// The model of the outcome of decoding text.
pub open spec fn text_outcome(r: Result<String, String>) -> Result<Seq<char>, Seq<char>> {
    match r {
        Ok(text) => Ok(text@),
        Err(why) => Err(why@),
    }
}

/// What decoding `bytes` as UTF-8 gives: the text they encode, or the
/// decoder's description of the fault.
pub open spec fn utf8_decoded(bytes: Seq<u8>) -> Result<Seq<char>, Seq<char>> {
    if valid_utf8(bytes) {
        Ok(decode_utf8(bytes))
    } else {
        Err(utf8_fault_text(bytes))
    }
}

/// Calls `zstd::stream::encode_all` on `data`. Trusted: the result is the
/// named outcome of that call, an error being given by its text. The call is
/// taken to return the same for the same data and level.
#[verifier::external_body]
pub(crate) fn compress(data: &[u8], level: i32) -> (r: Result<Vec<u8>, String>)
    ensures
        bytes_outcome(r) == zstd_encoded(data@, level),
{
    match zstd::stream::encode_all(data, level) {
        Ok(frames) => Ok(frames),
        Err(err) => Err(err.to_string()),
    }
}

/// Calls `zstd::stream::decode_all` on `frames`. Trusted: the result is the
/// named outcome of that call, an error being given by its text. The call is
/// taken to return the same for the same bytes.
#[verifier::external_body]
pub(crate) fn decompress(frames: &[u8]) -> (r: Result<Vec<u8>, String>)
    ensures
        bytes_outcome(r) == zstd_decoded(frames@),
{
    match zstd::stream::decode_all(frames) {
        Ok(content) => Ok(content),
        Err(err) => Err(err.to_string()),
    }
}

/// Calls `String::from_utf8` on `bytes`. Trusted: it succeeds exactly on
/// valid UTF-8 and then returns the text that the bytes encode; otherwise the
/// result is the text of its error, which is named and not stated.
#[verifier::external_body]
pub(crate) fn decode_text(bytes: Vec<u8>) -> (r: Result<String, String>)
    ensures
        match r {
            Ok(text) => valid_utf8(bytes@) && text@ == decode_utf8(bytes@),
            Err(why) => !valid_utf8(bytes@) && why@ == utf8_fault_text(bytes@),
        },
{
    match String::from_utf8(bytes) {
        Ok(text) => Ok(text),
        Err(err) => Err(err.to_string()),
    }
}

} // verus!
