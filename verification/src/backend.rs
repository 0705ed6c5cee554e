//! The object-store backend: the settings that bind a driver to one bucket,
//! and the requests that its operations make of the store.

use crate::key::{derive_key, derived_key, list_prefix, listing_prefix, path_view};
use crate::listing::PAGE_SIZE;
use vstd::prelude::*;

verus! {

/// A backend bound to one bucket of an object store: the identity under
/// which it speaks to the store, the region, and the bucket.
pub struct AwsS3 {
    access_key: String,
    secret: String,
    region: String,
    bucket: String,
}

/// The model of an [`AwsS3`].
pub struct AwsS3View {
    pub access_key: Seq<char>,
    pub secret: Seq<char>,
    pub region: Seq<char>,
    pub bucket: Seq<char>,
}

impl View for AwsS3 {
    type V = AwsS3View;

    closed spec fn view(&self) -> AwsS3View {
        AwsS3View {
            access_key: self.access_key@,
            secret: self.secret@,
            region: self.region@,
            bucket: self.bucket@,
        }
    }
}

/// The request for the object at a key.
#[derive(Clone, Debug, PartialEq, Eq)]
pub struct GetRequest {
    pub bucket: String,
    pub key: String,
}

/// The request to write a body at a key.
#[derive(Clone, Debug, PartialEq, Eq)]
pub struct PutRequest {
    pub bucket: String,
    pub key: String,
    pub body: Vec<u8>,
}

/// The request for the keys under a prefix, in pages of at most `max_keys`.
#[derive(Clone, Debug, PartialEq, Eq)]
pub struct ListRequest {
    pub bucket: String,
    pub prefix: String,
    pub max_keys: i32,
}

/// The model of a setting that may be absent.
pub open spec fn setting_view(setting: Option<String>) -> Option<Seq<char>> {
    match setting {
        Some(value) => Some(value@),
        None => None,
    }
}

/// The backend that the four settings configure: none where one of them is
/// absent.
pub open spec fn configured(
    access_key: Option<Seq<char>>,
    secret: Option<Seq<char>>,
    region: Option<Seq<char>>,
    bucket: Option<Seq<char>>,
) -> Option<AwsS3View> {
    match (access_key, secret, region, bucket) {
        (Some(access_key), Some(secret), Some(region), Some(bucket)) => Some(
            AwsS3View { access_key, secret, region, bucket },
        ),
        _ => None,
    }
}

/// The model of a backend that may be unavailable.
pub open spec fn backend_view(backend: Option<AwsS3>) -> Option<AwsS3View> {
    match backend {
        Some(backend) => Some(backend@),
        None => None,
    }
}

impl AwsS3 {
    /// Binds a backend to the bucket that the settings name. Where a setting
    /// is absent the backend is unavailable, which is no error: the caller
    /// goes on to the next kind of backend.
    pub fn new(
        access_key: Option<String>,
        secret: Option<String>,
        region: Option<String>,
        bucket: Option<String>,
    ) -> (backend: Option<AwsS3>)
        ensures
            backend_view(backend) == configured(
                setting_view(access_key),
                setting_view(secret),
                setting_view(region),
                setting_view(bucket),
            ),
    {
        match (access_key, secret, region, bucket) {
            (Some(access_key), Some(secret), Some(region), Some(bucket)) => Some(
                AwsS3 { access_key, secret, region, bucket },
            ),
            _ => None,
        }
    }

    /// The access key under which the backend speaks to the store.
    pub fn access_key(&self) -> (value: &str)
        ensures
            value@ == self@.access_key,
    {
        self.access_key.as_str()
    }

    /// The secret that belongs to the access key.
    pub fn secret(&self) -> (value: &str)
        ensures
            value@ == self@.secret,
    {
        self.secret.as_str()
    }

    /// The region of the store.
    pub fn region(&self) -> (value: &str)
        ensures
            value@ == self@.region,
    {
        self.region.as_str()
    }

    /// The bucket that holds the objects.
    pub fn bucket(&self) -> (value: &str)
        ensures
            value@ == self@.bucket,
    {
        self.bucket.as_str()
    }

    /// The request for the object `name` under `path`.
    pub fn get_request(&self, name: &str, path: Option<&str>) -> (request: GetRequest)
        ensures
            request.bucket@ == self@.bucket,
            request.key@ == derived_key(path_view(path), name@),
    {
        GetRequest { bucket: self.bucket.clone(), key: derive_key(path, name) }
    }

    /// The request to write `body` as the object `name` under `path`. What
    /// the key held before is overwritten.
    pub fn put_request(&self, name: &str, body: Vec<u8>, path: Option<&str>) -> (request:
        PutRequest)
        ensures
            request.bucket@ == self@.bucket,
            request.key@ == derived_key(path_view(path), name@),
            request.body@ == body@,
    {
        PutRequest { bucket: self.bucket.clone(), key: derive_key(path, name), body }
    }

    /// The request for the keys of the objects under `path`, a page at a
    /// time.
    pub fn list_request(&self, path: Option<&str>) -> (request: ListRequest)
        ensures
            request.bucket@ == self@.bucket,
            request.prefix@ == listing_prefix(path_view(path)),
            request.max_keys == PAGE_SIZE,
    {
        ListRequest { bucket: self.bucket.clone(), prefix: list_prefix(path), max_keys: PAGE_SIZE }
    }
}

} // verus!
