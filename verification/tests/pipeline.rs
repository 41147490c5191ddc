use drive_lib::errors::AppError;
use drive_lib::file::FileStatus;
use drive_lib::lifecycle::Stores;
use drive_lib::lifecycle::UploadEvent;
use drive_lib::pipeline::Part;

const OWNER: u128 = 3;

fn file_part(filename: &str, events: Vec<UploadEvent>) -> Part {
    Part {
        name: "file".to_string(),
        filename: Some(filename.to_string()),
        events,
    }
}

#[test]
fn upload_part_commits_the_concatenated_chunks() {
    let mut stores = Stores::new();
    let events = vec![
        UploadEvent::Chunk(vec![1, 2, 3]),
        UploadEvent::Chunk(vec![4, 5]),
    ];
    let f = stores
        .upload_part(
            OWNER,
            50,
            Some("data.bin".to_string()),
            &events,
            100,
            true,
            true,
            true,
        )
        .unwrap();
    assert_eq!(f.reference_uuid, 50);
    assert_eq!(f.size, 5);
    assert_eq!(f.status, FileStatus::Committed);
    assert_eq!(stores.download(50, OWNER).unwrap().1, vec![1, 2, 3, 4, 5]);
}

#[test]
fn upload_part_rejects_missing_or_bad_filenames() {
    let mut stores = Stores::new();
    let events = vec![UploadEvent::Chunk(vec![1])];
    assert!(matches!(
        stores.upload_part(OWNER, 51, None, &events, 100, true, true, true),
        Err(AppError::Validation)
    ));
    assert!(matches!(
        stores.upload_part(
            OWNER,
            51,
            Some("../up.txt".to_string()),
            &events,
            100,
            true,
            true,
            true
        ),
        Err(AppError::Validation)
    ));
    assert!(matches!(stores.fetch(51, OWNER), Err(AppError::NotFound)));
}

#[test]
fn truncated_body_leaves_no_trace() {
    let mut stores = Stores::new();
    let events = vec![UploadEvent::Chunk(vec![1, 2]), UploadEvent::Truncated];
    let r = stores.upload_part(
        OWNER,
        52,
        Some("cut.txt".to_string()),
        &events,
        100,
        true,
        true,
        true,
    );
    assert!(matches!(r, Err(AppError::Validation)));
    assert!(matches!(stores.fetch(52, OWNER), Err(AppError::NotFound)));
    assert!(stores.download(52, OWNER).is_err());
}

#[test]
fn failed_chunk_write_leaves_no_trace() {
    let mut stores = Stores::new();
    let events = vec![UploadEvent::Chunk(vec![1, 2]), UploadEvent::WriteFailed];
    let r = stores.upload_part(
        OWNER,
        53,
        Some("bad.txt".to_string()),
        &events,
        100,
        true,
        true,
        true,
    );
    assert!(matches!(r, Err(AppError::Storage)));
    assert!(matches!(stores.fetch(53, OWNER), Err(AppError::NotFound)));
}

#[test]
fn failed_compensating_blob_delete_leaves_an_orphaned_pending_row() {
    let mut stores = Stores::new();
    let events = vec![UploadEvent::Chunk(vec![1, 2]), UploadEvent::WriteFailed];
    let r = stores.upload_part(
        OWNER,
        54,
        Some("stuck.txt".to_string()),
        &events,
        100,
        true,
        false,
        true,
    );
    assert!(matches!(r, Err(AppError::Storage)));
    // the row survives for the sweep, but was never committed
    let f = stores.fetch(54, OWNER).unwrap();
    assert_eq!(f.status, FileStatus::Pending);
    assert!(stores.download(54, OWNER).is_err());
}

#[test]
fn parts_not_named_file_are_skipped_without_error() {
    let mut stores = Stores::new();
    let parts = vec![Part {
        name: "avatar".to_string(),
        filename: Some("me.png".to_string()),
        events: vec![UploadEvent::Chunk(vec![1])],
    }];
    let ids = vec![60];
    let r = stores.upload_request(OWNER, &parts, &ids, 100).unwrap();
    assert!(r.is_empty());
    assert!(matches!(stores.fetch(60, OWNER), Err(AppError::NotFound)));
}

#[test]
fn the_file_field_name_is_matched_without_regard_to_case() {
    let mut stores = Stores::new();
    let parts = vec![Part {
        name: "FILE".to_string(),
        filename: Some("caps.txt".to_string()),
        events: vec![UploadEvent::Chunk(vec![7, 7])],
    }];
    let ids = vec![61];
    let r = stores.upload_request(OWNER, &parts, &ids, 100).unwrap();
    assert_eq!(r.len(), 1);
    assert_eq!(r[0].reference_uuid, 61);
    assert_eq!(r[0].filename, "caps.txt");
    assert_eq!(stores.download(61, OWNER).unwrap().1, vec![7, 7]);
}

#[test]
fn a_failing_part_aborts_the_request_but_keeps_prior_parts() {
    let mut stores = Stores::new();
    let parts = vec![
        file_part("good.txt", vec![UploadEvent::Chunk(b"hello".to_vec())]),
        file_part(
            "broken.txt",
            vec![UploadEvent::Chunk(b"wor".to_vec()), UploadEvent::Truncated],
        ),
    ];
    let ids = vec![70, 71];
    let r = stores.upload_request(OWNER, &parts, &ids, 100);
    assert!(r.is_err());
    // the first file ended up committed and fetchable ...
    let f = stores.fetch(70, OWNER).unwrap();
    assert_eq!(f.filename, "good.txt");
    assert_eq!(f.status, FileStatus::Committed);
    assert_eq!(stores.download(70, OWNER).unwrap().1, b"hello".to_vec());
    // ... while the second exists in no form at all
    assert!(matches!(stores.fetch(71, OWNER), Err(AppError::NotFound)));
    assert!(stores.download(71, OWNER).is_err());
}

#[test]
fn stream_upload_draws_fresh_ids_and_answers_per_file() {
    let mut stores = Stores::new();
    let parts = vec![
        file_part("one.txt", vec![UploadEvent::Chunk(vec![1])]),
        file_part("two.txt", vec![UploadEvent::Chunk(vec![2, 2])]),
    ];
    let r = stores.stream_upload(OWNER, &parts).unwrap();
    assert_eq!(r.len(), 2);
    assert_eq!(r[0].filename, "one.txt");
    assert_eq!(r[1].filename, "two.txt");
    assert_ne!(r[0].reference_uuid, r[1].reference_uuid);
    assert_eq!(
        stores.download(r[0].reference_uuid, OWNER).unwrap().1,
        vec![1]
    );
    assert_eq!(
        stores.download(r[1].reference_uuid, OWNER).unwrap().1,
        vec![2, 2]
    );
}
