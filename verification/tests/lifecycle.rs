use drive_lib::errors::AppError;
use drive_lib::file::FileStatus;
use drive_lib::file::MAX_FILE_SIZE;
use drive_lib::lifecycle::Stores;

const OWNER: u128 = 7;
const OTHER: u128 = 8;

#[test]
fn create_write_whole_fetch_round_trip() {
    let mut stores = Stores::new();
    let bytes: Vec<u8> = vec![1, 2, 3, 4, 5, 6, 7, 8, 9, 10];
    let file = stores
        .create(OWNER, 42, "note.txt".to_string(), 0, 100, true)
        .unwrap();
    assert_eq!(file.reference_uuid, 42);
    assert_eq!(file.status, FileStatus::Pending);
    stores.write_whole(42, OWNER, &bytes, true, true).unwrap();
    let fetched = stores.fetch(42, OWNER).unwrap();
    assert_eq!(fetched.filename, "note.txt");
    assert_eq!(fetched.size, 10);
    assert_eq!(fetched.status, FileStatus::Committed);
    let (f, data) = stores.download(42, OWNER).unwrap();
    assert_eq!(f.filename, "note.txt");
    assert_eq!(data, bytes);
}

#[test]
fn fetch_under_wrong_owner_is_not_found() {
    let mut stores = Stores::new();
    let bytes: Vec<u8> = vec![9; 4];
    stores
        .create(OWNER, 1, "mine.bin".to_string(), 0, 100, true)
        .unwrap();
    stores.write_whole(1, OWNER, &bytes, true, true).unwrap();
    assert!(matches!(stores.fetch(1, OTHER), Err(AppError::NotFound)));
    assert!(stores.download(1, OTHER).is_err());
    assert_eq!(AppError::NotFound.status_code(), 404);
    assert!(stores.fetch(1, OWNER).is_ok());
}

#[test]
fn delete_then_fetch_is_not_found() {
    let mut stores = Stores::new();
    let bytes: Vec<u8> = vec![1, 2, 3];
    stores
        .create(OWNER, 5, "gone.txt".to_string(), 0, 100, true)
        .unwrap();
    stores.write_whole(5, OWNER, &bytes, true, true).unwrap();
    stores.delete(5, OWNER, true).unwrap();
    assert!(matches!(stores.fetch(5, OWNER), Err(AppError::NotFound)));
    assert!(stores.download(5, OWNER).is_err());
}

#[test]
fn delete_with_failed_blob_delete_still_removes_the_row() {
    let mut stores = Stores::new();
    let bytes: Vec<u8> = vec![1, 2, 3];
    stores
        .create(OWNER, 6, "orphan.txt".to_string(), 0, 100, true)
        .unwrap();
    stores.write_whole(6, OWNER, &bytes, true, true).unwrap();
    // the blob store refuses: the blob stays behind as a reclaimable orphan
    stores.delete(6, OWNER, false).unwrap();
    assert!(matches!(stores.fetch(6, OWNER), Err(AppError::NotFound)));
}

#[test]
fn delete_of_unknown_or_foreign_id_is_not_found() {
    let mut stores = Stores::new();
    let bytes: Vec<u8> = vec![1];
    stores
        .create(OWNER, 9, "kept.txt".to_string(), 0, 100, true)
        .unwrap();
    stores.write_whole(9, OWNER, &bytes, true, true).unwrap();
    assert_eq!(stores.delete(77, OWNER, true), Err(AppError::NotFound));
    assert_eq!(stores.delete(9, OTHER, true), Err(AppError::NotFound));
    assert!(stores.fetch(9, OWNER).is_ok());
}

#[test]
fn failed_write_deletes_the_pending_row() {
    let mut stores = Stores::new();
    let bytes: Vec<u8> = vec![1, 2, 3];
    stores
        .create(OWNER, 11, "lost.txt".to_string(), 0, 100, true)
        .unwrap();
    let r = stores.write_whole(11, OWNER, &bytes, false, true);
    assert_eq!(r, Err(AppError::Storage));
    assert_eq!(AppError::Storage.status_code(), 500);
    assert!(matches!(stores.fetch(11, OWNER), Err(AppError::NotFound)));
    // retrying under a fresh id proceeds independently
    stores
        .create(OWNER, 12, "lost.txt".to_string(), 0, 100, true)
        .unwrap();
    stores.write_whole(12, OWNER, &bytes, true, true).unwrap();
    assert_eq!(stores.download(12, OWNER).unwrap().1, bytes);
}

#[test]
fn failed_write_and_failed_compensation_is_a_consistency_fault() {
    let mut stores = Stores::new();
    let bytes: Vec<u8> = vec![1, 2, 3];
    stores
        .create(OWNER, 13, "stuck.txt".to_string(), 0, 100, true)
        .unwrap();
    let r = stores.write_whole(13, OWNER, &bytes, false, false);
    assert_eq!(r, Err(AppError::Consistency));
    assert_eq!(AppError::Consistency.status_code(), 500);
    // the orphaned row is still Pending, never Committed
    let f = stores.fetch(13, OWNER).unwrap();
    assert_eq!(f.status, FileStatus::Pending);
}

#[test]
fn create_rejects_bad_names_and_oversize_hints() {
    let mut stores = Stores::new();
    assert!(matches!(
        stores.create(OWNER, 20, "a/b.txt".to_string(), 0, 100, true),
        Err(AppError::Validation)
    ));
    assert!(matches!(
        stores.create(OWNER, 21, "big.bin".to_string(), MAX_FILE_SIZE + 1, 100, true),
        Err(AppError::Validation)
    ));
    assert_eq!(AppError::Validation.status_code(), 400);
}

#[test]
fn create_refuses_duplicate_ids_and_store_failures() {
    let mut stores = Stores::new();
    stores
        .create(OWNER, 30, "one.txt".to_string(), 0, 100, true)
        .unwrap();
    assert!(matches!(
        stores.create(OWNER, 30, "two.txt".to_string(), 0, 100, true),
        Err(AppError::Internal)
    ));
    assert!(matches!(
        stores.create(OWNER, 31, "two.txt".to_string(), 0, 100, false),
        Err(AppError::Internal)
    ));
    assert_eq!(AppError::Internal.status_code(), 500);
}

#[test]
fn oversize_whole_write_is_rejected_and_compensated() {
    let mut stores = Stores::new();
    let big: Vec<u8> = vec![0; (MAX_FILE_SIZE + 1) as usize];
    stores
        .create(OWNER, 40, "big.bin".to_string(), 0, 100, true)
        .unwrap();
    assert_eq!(
        stores.write_whole(40, OWNER, &big, true, true),
        Err(AppError::Validation)
    );
    assert!(matches!(stores.fetch(40, OWNER), Err(AppError::NotFound)));
}

#[test]
fn the_sweep_reclaims_stale_pending_rows_and_keeps_the_rest() {
    let mut stores = Stores::new();
    let bytes: Vec<u8> = vec![1, 2, 3];
    // a committed object, a fresh pending row, and a stale pending row
    stores
        .create(OWNER, 50, "done.txt".to_string(), 0, 100, true)
        .unwrap();
    stores.write_whole(50, OWNER, &bytes, true, true).unwrap();
    stores
        .create(OWNER, 51, "fresh.txt".to_string(), 0, 9_990, true)
        .unwrap();
    stores
        .create(OWNER, 52, "stale.txt".to_string(), 0, 100, true)
        .unwrap();

    stores.sweep(10_000, 1_000);

    assert!(stores.fetch(50, OWNER).is_ok());
    assert!(stores.fetch(51, OWNER).is_ok());
    assert!(matches!(stores.fetch(52, OWNER), Err(AppError::NotFound)));
    assert_eq!(stores.download(50, OWNER).unwrap().1, bytes);
}

#[test]
fn the_sweep_reclaims_the_orphaned_row_of_a_failed_compensation() {
    let mut stores = Stores::new();
    stores
        .create(OWNER, 60, "stuck.txt".to_string(), 0, 100, true)
        .unwrap();
    let bytes: Vec<u8> = vec![1, 2, 3];
    // the write fails and so does the compensating row delete
    assert_eq!(
        stores.write_whole(60, OWNER, &bytes, false, false),
        Err(AppError::Consistency)
    );
    assert!(stores.fetch(60, OWNER).is_ok());
    // the sweep cleans the orphaned Pending row up later
    stores.sweep(10_000, 1_000);
    assert!(matches!(stores.fetch(60, OWNER), Err(AppError::NotFound)));
}
