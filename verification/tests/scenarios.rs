use data_store::backend::AwsS3;
use data_store::driver::{
    fetch_compressed_object, fetch_object, upload_compressed_object, upload_object, uploaded,
};
use data_store::error::{ErrorKind, Fault, FaultOrigin};
use data_store::listing::{ListStep, Listing, PageEvent};
use data_store::transfer::{BodyEvent, Download, DownloadStep};
use std::collections::BTreeMap;

/// A store in memory that answers requests as the object store does: get and
/// put by key, and listing by prefix in pages.
struct Bucket {
    objects: BTreeMap<String, Vec<u8>>,
}

impl Bucket {
    fn new() -> Bucket {
        Bucket { objects: BTreeMap::new() }
    }

    fn put(&mut self, key: &str, body: Vec<u8>) -> Result<(), Fault> {
        self.objects.insert(key.to_string(), body);
        Ok(())
    }

    fn get(&self, key: &str) -> Result<Vec<u8>, Fault> {
        let body = match self.objects.get(key) {
            Some(body) => body,
            None => {
                return Err(Fault {
                    origin: FaultOrigin::Service,
                    code: Some("NoSuchKey".to_string()),
                    message: "service error".to_string(),
                })
            }
        };
        // the body comes in chunks of three bytes
        let mut download = Download::new();
        for chunk in body.chunks(3) {
            download = match download.step(&BodyEvent::Chunk(chunk.to_vec())) {
                DownloadStep::NextChunk(download) => download,
                DownloadStep::Finished(result) => return result,
            };
        }
        match download.step(&BodyEvent::End) {
            DownloadStep::Finished(result) => result,
            DownloadStep::NextChunk(_) => panic!("a complete body has no next chunk"),
        }
    }

    fn pages(&self, prefix: &str, max_keys: i32) -> Vec<Vec<Option<String>>> {
        let keys: Vec<Option<String>> =
            self.objects.keys().filter(|k| k.starts_with(prefix)).map(|k| Some(k.clone())).collect();
        keys.chunks(max_keys as usize).map(|page| page.to_vec()).collect()
    }
}

fn backend() -> AwsS3 {
    AwsS3::new(
        Some("id".to_string()),
        Some("secret".to_string()),
        Some("region".to_string()),
        Some("bucket".to_string()),
    )
    .unwrap()
}

fn upload_text(bucket: &mut Bucket, name: &str, contents: &str, path: Option<&str>) -> usize {
    let upload = upload_object(contents);
    let request = backend().put_request(name, upload.body, path);
    let answer = bucket.put(&request.key, request.body);
    uploaded(upload.size, answer).unwrap()
}

fn list(bucket: &Bucket, path: Option<&str>) -> Vec<String> {
    let request = backend().list_request(path);
    let mut listing = Listing::new();
    for page in bucket.pages(&request.prefix, request.max_keys) {
        assert!(page.len() <= 50);
        listing = match listing.step(&PageEvent::Page(page)) {
            ListStep::NextPage(listing) => listing,
            ListStep::Finished(_) => panic!("a page ends no listing"),
        };
    }
    match listing.step(&PageEvent::Exhausted) {
        ListStep::Finished(result) => result.unwrap(),
        ListStep::NextPage(_) => panic!("an exhausted store has no next page"),
    }
}

#[test]
fn text_round_trip_through_a_store() {
    let mut bucket = Bucket::new();
    let text = "{\"peg_in\": [\"a\", \"b\"], \"note\": \"ünïcode\"}";
    let size = upload_text(&mut bucket, "graph.json", text, Some("p"));
    assert_eq!(size, text.len());
    let request = backend().get_request("graph.json", Some("p"));
    assert_eq!(fetch_object(bucket.get(&request.key)), Ok(text.to_string()));
}

#[test]
fn upload_overwrites() {
    let mut bucket = Bucket::new();
    upload_text(&mut bucket, "n", "first", None);
    upload_text(&mut bucket, "n", "second", None);
    let request = backend().get_request("n", None);
    assert_eq!(fetch_object(bucket.get(&request.key)), Ok("second".to_string()));
    assert_eq!(list(&bucket, None), vec!["n".to_string()]);
}

#[test]
fn compressed_round_trip_through_a_store() {
    let mut bucket = Bucket::new();
    let contents: Vec<u8> = (0..20_000u32).map(|i| (i % 7) as u8).collect();
    let upload = upload_compressed_object(&contents).unwrap();
    let written = upload.body.len();
    let request = backend().put_request("blob.zst", upload.body, Some("blobs"));
    let answer = bucket.put(&request.key, request.body);
    assert_eq!(uploaded(upload.size, answer), Ok(written));
    assert!(written < contents.len());
    let request = backend().get_request("blob.zst", Some("blobs"));
    assert_eq!(fetch_compressed_object(bucket.get(&request.key)), Ok((contents, written)));
}

#[test]
fn unknown_key_is_not_found() {
    let bucket = Bucket::new();
    let request = backend().get_request("nothing", Some("p"));
    assert_eq!(fetch_object(bucket.get(&request.key)).unwrap_err().kind, ErrorKind::NotFound);
    assert_eq!(
        fetch_compressed_object(bucket.get(&request.key)).unwrap_err().kind,
        ErrorKind::NotFound
    );
}

#[test]
fn text_fetched_as_compressed_is_corrupt() {
    let mut bucket = Bucket::new();
    upload_text(&mut bucket, "n", "plain text", None);
    let request = backend().get_request("n", None);
    assert_eq!(
        fetch_compressed_object(bucket.get(&request.key)).unwrap_err().kind,
        ErrorKind::Corrupt
    );
}

#[test]
fn compressed_fetched_as_text_is_corrupt() {
    let mut bucket = Bucket::new();
    let upload = upload_compressed_object(&vec![1, 2, 3]).unwrap();
    let request = backend().put_request("n", upload.body, None);
    bucket.put(&request.key, request.body).unwrap();
    let request = backend().get_request("n", None);
    assert_eq!(fetch_object(bucket.get(&request.key)).unwrap_err().kind, ErrorKind::Corrupt);
}

#[test]
fn listing_is_scoped_by_path() {
    let mut bucket = Bucket::new();
    upload_text(&mut bucket, "a", "1", Some("x"));
    upload_text(&mut bucket, "b", "2", Some("x"));
    upload_text(&mut bucket, "c", "3", Some("y"));
    upload_text(&mut bucket, "d", "4", None);
    assert_eq!(list(&bucket, Some("x")), vec!["x/a".to_string(), "x/b".to_string()]);
    assert_eq!(list(&bucket, Some("y")), vec!["y/c".to_string()]);
    assert_eq!(
        list(&bucket, None),
        vec!["d".to_string(), "x/a".to_string(), "x/b".to_string(), "y/c".to_string()]
    );
    assert_eq!(list(&bucket, Some("z")), Vec::<String>::new());
}

#[test]
fn path_that_starts_like_another_is_not_in_its_scope() {
    let mut bucket = Bucket::new();
    upload_text(&mut bucket, "a", "1", Some("xy"));
    assert_eq!(list(&bucket, Some("x")), Vec::<String>::new());
    assert_eq!(list(&bucket, Some("xy")), vec!["xy/a".to_string()]);
}

#[test]
fn path_below_another_is_in_its_scope() {
    let mut bucket = Bucket::new();
    upload_text(&mut bucket, "a", "1", Some("x/sub"));
    assert_eq!(list(&bucket, Some("x")), vec!["x/sub/a".to_string()]);
}

#[test]
fn colliding_keys_are_one_object() {
    let mut bucket = Bucket::new();
    upload_text(&mut bucket, "b/c", "first", Some("a"));
    upload_text(&mut bucket, "c", "second", Some("a/b"));
    assert_eq!(list(&bucket, None), vec!["a/b/c".to_string()]);
    let request = backend().get_request("b/c", Some("a"));
    assert_eq!(fetch_object(bucket.get(&request.key)), Ok("second".to_string()));
}

#[test]
fn hundred_and_twenty_uploads_are_listed() {
    let mut bucket = Bucket::new();
    for i in 0..120 {
        upload_text(&mut bucket, &format!("object-{i:03}"), "{}", Some("many"));
    }
    upload_text(&mut bucket, "other", "{}", Some("few"));
    let request = backend().list_request(Some("many"));
    let pages = bucket.pages(&request.prefix, request.max_keys);
    assert_eq!(pages.iter().map(|p| p.len()).collect::<Vec<usize>>(), vec![50, 50, 20]);
    let listed = list(&bucket, Some("many"));
    assert_eq!(listed.len(), 120);
    let expected: Vec<String> = (0..120).map(|i| format!("many/object-{i:03}")).collect();
    assert_eq!(listed, expected);
}
