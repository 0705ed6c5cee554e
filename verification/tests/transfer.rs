use data_store::error::{Fault, FaultOrigin};
use data_store::transfer::{copy_fault, get_object, BodyEvent, Download, DownloadStep};

fn broken() -> Fault {
    Fault { origin: FaultOrigin::Body, code: None, message: "connection reset".to_string() }
}

#[test]
fn chunks_are_joined_in_order() {
    let chunks = vec![Ok(vec![1, 2, 3]), Ok(vec![]), Ok(vec![4]), Ok(vec![5, 6])];
    assert_eq!(get_object(&chunks), Ok(vec![1, 2, 3, 4, 5, 6]));
}

#[test]
fn body_without_chunks_is_empty() {
    assert_eq!(get_object(&vec![]), Ok(vec![]));
}

#[test]
fn a_broken_body_gives_no_bytes() {
    let chunks = vec![Ok(vec![1, 2, 3]), Err(broken()), Ok(vec![4])];
    assert_eq!(get_object(&chunks), Err(broken()));
}

#[test]
fn the_first_fault_is_reported() {
    let other = Fault {
        origin: FaultOrigin::Timeout,
        code: Some("c".to_string()),
        message: "late".to_string(),
    };
    let chunks = vec![Err(other.clone()), Err(broken())];
    assert_eq!(get_object(&chunks), Err(other));
}

#[test]
fn copy_of_a_fault_is_equal() {
    let with_code = Fault {
        origin: FaultOrigin::Service,
        code: Some("NoSuchKey".to_string()),
        message: "gone".to_string(),
    };
    assert_eq!(copy_fault(&with_code), with_code);
    assert_eq!(copy_fault(&broken()), broken());
}

#[test]
fn receive_appends() {
    let mut download = Download::new();
    download.receive(&[1, 2]);
    download.receive(&[]);
    download.receive(&[3]);
    assert_eq!(download.finish(), vec![1, 2, 3]);
}

#[test]
fn new_download_holds_nothing() {
    assert_eq!(Download::new().finish(), Vec::<u8>::new());
}

#[test]
fn download_steps_follow_the_events() {
    let download = match Download::new().step(&BodyEvent::Chunk(vec![10, 20])) {
        DownloadStep::NextChunk(download) => download,
        DownloadStep::Finished(_) => panic!("a chunk ends no download"),
    };
    let download = match download.step(&BodyEvent::Chunk(vec![30])) {
        DownloadStep::NextChunk(download) => download,
        DownloadStep::Finished(_) => panic!("a chunk ends no download"),
    };
    match download.step(&BodyEvent::End) {
        DownloadStep::Finished(result) => assert_eq!(result, Ok(vec![10, 20, 30])),
        DownloadStep::NextChunk(_) => panic!("a complete body has no next chunk"),
    }
}

#[test]
fn download_step_on_failure_finishes_with_the_fault() {
    let download = match Download::new().step(&BodyEvent::Chunk(vec![10, 20])) {
        DownloadStep::NextChunk(download) => download,
        DownloadStep::Finished(_) => panic!("a chunk ends no download"),
    };
    match download.step(&BodyEvent::Failed(broken())) {
        DownloadStep::Finished(result) => assert_eq!(result, Err(broken())),
        DownloadStep::NextChunk(_) => panic!("a failure ends the download"),
    }
}
