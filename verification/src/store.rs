//! What the driver expects of the object store, as a model, and what follows
//! for a driver that speaks to such a store: what is uploaded is fetched
//! again, what is missing is reported as missing, and a listing holds the
//! keys under its path.

use crate::codec::{zstd_decoded, zstd_encoded, DEFAULT_COMPRESSION_LEVEL};
use crate::driver::{
    compressed_upload, fetched_content, fetched_text, plain_upload, upload_report, verbatim,
    UploadView,
};
use crate::error::{fault_kind, missing_key_code, ErrorKind, ErrorView, FaultOrigin, FaultView};
use crate::key::{
    derived_key, in_scope, lemma_key_in_own_scope, lemma_scope_of_other_path, lies_under,
    listing_prefix,
};
use crate::listing::{delivered, lemma_pagination_is_transparent, listed};
use vstd::prelude::*;
use vstd::utf8::{encode_utf8, valid_utf8};

verus! {

/// The objects of one bucket: the payload at each key that holds one.
pub type Objects = Map<Seq<char>, Seq<u8>>;

/// The bucket after `body` was written at `key`. What the key held before is
/// gone.
pub open spec fn after_put(objects: Objects, key: Seq<char>, body: Seq<u8>) -> Objects {
    objects.insert(key, body)
}

/// Whether `response` is what a store that holds `objects`, and that can be
/// reached, answers to a get at `key`: the payload, or a fault of its own
/// with the code for a missing key.
pub open spec fn answers_get(
    objects: Objects,
    key: Seq<char>,
    response: Result<Seq<u8>, FaultView>,
) -> bool {
    if objects.dom().contains(key) {
        response == Ok::<Seq<u8>, FaultView>(objects[key])
    } else {
        response matches Err(fault) && fault.origin == FaultOrigin::Service && fault.code == Some(
            missing_key_code(),
        )
    }
}

/// Whether the codec compresses `contents` to `frames` at the default level
/// and restores them from `frames`.
pub open spec fn restores(contents: Seq<u8>, frames: Seq<u8>) -> bool {
    &&& zstd_encoded(contents, DEFAULT_COMPRESSION_LEVEL) == Ok::<Seq<u8>, Seq<char>>(frames)
    &&& zstd_decoded(frames) == Ok::<Seq<u8>, Seq<char>>(contents)
}

/// Whether `pages` is what a store that holds `objects`, and that can be
/// reached, answers to a listing by `prefix`: the keys in scope, each once,
/// in an order and in pages of its choosing.
pub open spec fn answers_list(objects: Objects, prefix: Seq<char>, pages: Seq<Seq<Seq<char>>>) -> bool {
    let keys = pages.flatten();
    &&& keys.no_duplicates()
    &&& forall|key: Seq<char>|
        keys.contains(key) <==> objects.dom().contains(key) && in_scope(key, prefix)
}

/// A text that was uploaded is fetched unchanged from its name and path, and
/// the upload reports the number of bytes of the text.
pub proof fn lemma_plain_round_trip(
    objects: Objects,
    path: Option<Seq<char>>,
    name: Seq<char>,
    contents: Seq<char>,
    response: Result<Seq<u8>, FaultView>,
)
    requires
        answers_get(
            after_put(objects, derived_key(path, name), plain_upload(contents).body),
            derived_key(path, name),
            response,
        ),
    ensures
        fetched_text(response) == Ok::<Seq<char>, ErrorView>(contents),
        upload_report(plain_upload(contents).size, Ok(())) == Ok::<nat, ErrorView>(
            encode_utf8(contents).len(),
        ),
{
    vstd::utf8::encode_utf8_valid_utf8(contents);
    vstd::utf8::encode_utf8_decode_utf8(contents);
}

/// Bytes that were uploaded compressed are fetched unchanged from their name
/// and path, together with the size of what was written, which is also what
/// the upload reports. This is stated of contents that the codec compresses
/// to `frames` and restores from them.
pub proof fn lemma_compressed_round_trip(
    objects: Objects,
    path: Option<Seq<char>>,
    name: Seq<char>,
    contents: Seq<u8>,
    frames: Seq<u8>,
    response: Result<Seq<u8>, FaultView>,
)
    requires
        answers_get(
            after_put(objects, derived_key(path, name), frames),
            derived_key(path, name),
            response,
        ),
    ensures
        restores(contents, frames) ==> {
            &&& compressed_upload(contents) == Ok::<UploadView, ErrorView>(verbatim(frames))
            &&& fetched_content(response) == Ok::<(Seq<u8>, nat), ErrorView>(
                (contents, frames.len()),
            )
            &&& upload_report(verbatim(frames).size, Ok(())) == Ok::<nat, ErrorView>(frames.len())
        },
{
}

/// A payload that is not text is reported as corrupt, and never as a text.
pub proof fn lemma_undecodable_text_is_corrupt(payload: Seq<u8>)
    requires
        !valid_utf8(payload),
    ensures
        fetched_text(Ok(payload)) matches Err(error) && error.kind == ErrorKind::Corrupt,
{
}

/// A payload that the codec cannot restore is reported as corrupt, and never
/// as content.
pub proof fn lemma_undecodable_content_is_corrupt(payload: Seq<u8>)
    ensures
        zstd_decoded(payload) is Err ==> (fetched_content(Ok(payload)) matches Err(error)
            && error.kind == ErrorKind::Corrupt),
        zstd_decoded(payload) is Ok ==> fetched_content(Ok(payload)) is Ok,
{
}

/// No fault of the store is reported as corrupt: a corrupt payload and a
/// failed request are told apart by their class.
pub proof fn lemma_faults_are_never_corrupt(fault: FaultView)
    ensures
        fault_kind(fault) != ErrorKind::Corrupt,
        fetched_text(Err(fault)) matches Err(error) && error.kind != ErrorKind::Corrupt,
        fetched_content(Err(fault)) matches Err(error) && error.kind != ErrorKind::Corrupt,
        upload_report(0, Err(fault)) matches Err(error) && error.kind != ErrorKind::Corrupt,
{
}

/// A fetch from a key that holds nothing fails as not found, whichever
/// encoding is asked for.
pub proof fn lemma_missing_key_is_not_found(
    objects: Objects,
    key: Seq<char>,
    response: Result<Seq<u8>, FaultView>,
)
    requires
        !objects.dom().contains(key),
        answers_get(objects, key, response),
    ensures
        fetched_text(response) matches Err(error) && error.kind == ErrorKind::NotFound,
        fetched_content(response) matches Err(error) && error.kind == ErrorKind::NotFound,
{
}

/// An object that was uploaded shows in the listing of the path it was
/// uploaded under, and of no path where none was given.
pub proof fn lemma_upload_is_listed(
    objects: Objects,
    path: Option<Seq<char>>,
    name: Seq<char>,
    body: Seq<u8>,
    pages: Seq<Seq<Seq<char>>>,
)
    requires
        answers_list(
            after_put(objects, derived_key(path, name), body),
            listing_prefix(path),
            pages,
        ),
    ensures
        listed(delivered(pages)) matches Ok(keys) && keys.contains(derived_key(path, name)),
{
    lemma_pagination_is_transparent(pages);
    lemma_key_in_own_scope(path, name);
}

/// An object stored under the path `x` does not show in the listing of the
/// path `y`, unless it lies under `y` as well.
pub proof fn lemma_other_path_is_not_listed(
    objects: Objects,
    x: Seq<char>,
    y: Seq<char>,
    name: Seq<char>,
    pages: Seq<Seq<Seq<char>>>,
)
    requires
        !lies_under(x, name, y),
        answers_list(objects, listing_prefix(Some(y)), pages),
    ensures
        listed(delivered(pages)) matches Ok(keys) && !keys.contains(derived_key(Some(x), name)),
{
    lemma_pagination_is_transparent(pages);
    lemma_scope_of_other_path(x, y, name);
}

} // verus!
