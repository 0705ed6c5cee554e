//! The driver's payload policy: what is written for an upload, and what is
//! made of the store's answer to a fetch or an upload.
//!
//! The functions here neither send nor receive. The caller performs the
//! request at the derived key and hands the store's answer back.

use crate::codec::{
    compress, decode_text, decompress, utf8_decoded, zstd_decoded, zstd_encoded,
    DEFAULT_COMPRESSION_LEVEL,
};
use crate::error::{normalize, normalized, outcome_view, Error, ErrorKind, ErrorView, Fault, FaultView};
use vstd::prelude::*;
use vstd::slice::slice_to_vec;
use vstd::string::StringExecFns;
use vstd::utf8::encode_utf8;

verus! {

/// A payload ready to be written, with the size to report once it is.
#[derive(Clone, Debug, PartialEq, Eq)]
pub struct Upload {
    /// The bytes to write at the derived key.
    pub body: Vec<u8>,
    /// The number of bytes written.
    pub size: usize,
}

/// The model of an [`Upload`].
pub struct UploadView {
    pub body: Seq<u8>,
    pub size: nat,
}

impl View for Upload {
    type V = UploadView;

    open spec fn view(&self) -> UploadView {
        UploadView { body: self.body@, size: self.size as nat }
    }
}

/// The start of the message of a fetch that the store failed.
pub open spec fn fetch_context() -> Seq<char> {
    "Failed to get json file: "@
}

/// The start of the message of an upload that the store failed.
pub open spec fn upload_context() -> Seq<char> {
    "Failed to save json file: "@
}

/// The start of the message of a fetched payload that is not text.
pub open spec fn parse_context() -> Seq<char> {
    "Failed to parse json: "@
}

/// The upload that writes `body` as it is.
pub open spec fn verbatim(body: Seq<u8>) -> UploadView {
    UploadView { body, size: body.len() }
}

/// The upload of a text: its UTF-8 bytes, unchanged.
pub open spec fn plain_upload(contents: Seq<char>) -> UploadView {
    verbatim(encode_utf8(contents))
}

/// What a codec's failure is reported as: a corrupt payload, described by the
/// codec's own text.
pub open spec fn codec_failure(text: Seq<char>) -> ErrorView {
    ErrorView { kind: ErrorKind::Corrupt, message: text }
}

/// What a plain fetch makes of the decoding of its payload.
pub open spec fn parsed_text(decoded: Result<Seq<char>, Seq<char>>) -> Result<
    Seq<char>,
    ErrorView,
> {
    match decoded {
        Ok(text) => Ok(text),
        Err(why) => Err(ErrorView { kind: ErrorKind::Corrupt, message: parse_context() + why }),
    }
}

/// What a plain fetch returns for the store's answer.
pub open spec fn fetched_text(response: Result<Seq<u8>, FaultView>) -> Result<
    Seq<char>,
    ErrorView,
> {
    match response {
        Ok(payload) => parsed_text(utf8_decoded(payload)),
        Err(fault) => Err(normalized(fetch_context(), fault)),
    }
}

/// What a compressed fetch makes of the decompression of a payload of
/// `wire_size` bytes: the content with the size of the payload, not of the
/// content.
pub open spec fn inflated(wire_size: nat, decoded: Result<Seq<u8>, Seq<char>>) -> Result<
    (Seq<u8>, nat),
    ErrorView,
> {
    match decoded {
        Ok(content) => Ok((content, wire_size)),
        Err(text) => Err(codec_failure(text)),
    }
}

/// What a compressed fetch returns for the store's answer.
pub open spec fn fetched_content(response: Result<Seq<u8>, FaultView>) -> Result<
    (Seq<u8>, nat),
    ErrorView,
> {
    match response {
        Ok(payload) => inflated(payload.len(), zstd_decoded(payload)),
        Err(fault) => Err(normalized(fetch_context(), fault)),
    }
}

/// What a compressed upload makes of the compression of its contents.
pub open spec fn deflated(encoded: Result<Seq<u8>, Seq<char>>) -> Result<UploadView, ErrorView> {
    match encoded {
        Ok(frames) => Ok(verbatim(frames)),
        Err(text) => Err(codec_failure(text)),
    }
}

/// The upload of compressed contents.
pub open spec fn compressed_upload(contents: Seq<u8>) -> Result<UploadView, ErrorView> {
    deflated(zstd_encoded(contents, DEFAULT_COMPRESSION_LEVEL))
}

/// What an upload reports for the store's answer: the size written, or the
/// store's fault.
pub open spec fn upload_report(size: nat, response: Result<(), FaultView>) -> Result<
    nat,
    ErrorView,
> {
    match response {
        Ok(_) => Ok(size),
        Err(fault) => Err(normalized(upload_context(), fault)),
    }
}

/// The model of a reported size.
pub open spec fn size_outcome(r: Result<usize, Error>) -> Result<nat, ErrorView> {
    match r {
        Ok(size) => Ok(size as nat),
        Err(error) => Err(error@),
    }
}

/// The model of fetched content with its wire size.
pub open spec fn content_outcome(r: Result<(Vec<u8>, usize), Error>) -> Result<
    (Seq<u8>, nat),
    ErrorView,
> {
    match r {
        Ok((content, size)) => Ok((content@, size as nat)),
        Err(error) => Err(error@),
    }
}

/// Prepares the upload of `contents` as they are.
pub fn upload_object(contents: &str) -> (upload: Upload)
    ensures
        upload@ == plain_upload(contents@),
{
    let body = slice_to_vec(contents.as_bytes());
    let size = body.len();
    Upload { body, size }
}

/// Compresses `contents` at the default level and prepares their upload.
pub fn upload_compressed_object(contents: &Vec<u8>) -> (r: Result<Upload, Error>)
    ensures
        outcome_view(r) == compressed_upload(contents@),
{
    prepare_compressed(compress(contents.as_slice(), DEFAULT_COMPRESSION_LEVEL))
}

/// Turns the outcome of compressing a payload into its upload.
pub fn prepare_compressed(encoded: Result<Vec<u8>, String>) -> (r: Result<Upload, Error>)
    ensures
        outcome_view(r) == deflated(crate::codec::bytes_outcome(encoded)),
{
    match encoded {
        Ok(frames) => {
            let size = frames.len();
            Ok(Upload { body: frames, size })
        },
        Err(text) => Err(Error { kind: ErrorKind::Corrupt, message: text }),
    }
}

/// Reports an upload of `size` bytes for which the store answered `response`.
pub fn uploaded(size: usize, response: Result<(), Fault>) -> (r: Result<usize, Error>)
    ensures
        size_outcome(r) == upload_report(size as nat, outcome_view(response)),
{
    match response {
        Ok(_) => Ok(size),
        Err(fault) => Err(normalize("Failed to save json file: ", &fault)),
    }
}

/// Turns the store's answer to a get into the text stored at the key.
pub fn fetch_object(response: Result<Vec<u8>, Fault>) -> (r: Result<String, Error>)
    ensures
        outcome_view(r) == fetched_text(outcome_view(response)),
{
    match response {
        Ok(payload) => parse_text(decode_text(payload)),
        Err(fault) => Err(normalize("Failed to get json file: ", &fault)),
    }
}

/// Turns the outcome of decoding a fetched payload into the fetch's result.
pub fn parse_text(decoded: Result<String, String>) -> (r: Result<String, Error>)
    ensures
        outcome_view(r) == parsed_text(crate::codec::text_outcome(decoded)),
{
    match decoded {
        Ok(text) => Ok(text),
        Err(why) => {
            let mut message = String::from_str("Failed to parse json: ");
            message.append(why.as_str());
            Err(Error { kind: ErrorKind::Corrupt, message })
        },
    }
}

/// Turns the store's answer to a get into the content that was compressed
/// into the payload, with the payload's size.
pub fn fetch_compressed_object(response: Result<Vec<u8>, Fault>) -> (r: Result<
    (Vec<u8>, usize),
    Error,
>)
    ensures
        content_outcome(r) == fetched_content(outcome_view(response)),
{
    match response {
        Ok(payload) => {
            let size = payload.len();
            unpack(size, decompress(payload.as_slice()))
        },
        Err(fault) => Err(normalize("Failed to get json file: ", &fault)),
    }
}

/// Turns the outcome of decompressing a payload of `wire_size` bytes into the
/// fetch's result.
pub fn unpack(wire_size: usize, decoded: Result<Vec<u8>, String>) -> (r: Result<
    (Vec<u8>, usize),
    Error,
>)
    ensures
        content_outcome(r) == inflated(wire_size as nat, crate::codec::bytes_outcome(decoded)),
{
    match decoded {
        Ok(content) => Ok((content, wire_size)),
        Err(text) => Err(Error { kind: ErrorKind::Corrupt, message: text }),
    }
}

} // verus!
