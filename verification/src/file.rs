use crate::sys::current_time;
use crate::sys::fresh_uuid;
use crate::validation::filename_ok;
use crate::validation::filename_valid;
use vstd::prelude::*;

verus! {

/// Largest allowed file size in bytes (100 MB).
pub const MAX_FILE_SIZE: u64 = 100000000;

/// Where a file object stands in its lifecycle: the metadata row exists
/// before the blob is complete (`Pending`), and is marked `Committed` only
/// once the blob has been fully written with a verified length.
#[derive(Clone, Copy, Debug, PartialEq, Eq, Structural)]
pub enum FileStatus {
    Pending,
    Committed,
}

/// A file's metadata row. The blob it describes is addressed by
/// `(owner_uuid, reference_uuid)` alone — never by `filename`, which is kept
/// for presentation only, so no user input can shape a storage path.
pub struct File {
    pub reference_uuid: u128,
    pub owner_uuid: u128,
    pub filename: String,
    pub size: u64,
    pub timestamp: u64,
    pub status: FileStatus,
}

/// The mathematical image of a metadata row.
pub struct FileView {
    pub reference_uuid: u128,
    pub owner_uuid: u128,
    pub filename: Seq<char>,
    pub size: u64,
    pub timestamp: u64,
    pub status: FileStatus,
}

impl View for File {
    type V = FileView;

    open spec fn view(&self) -> FileView {
        FileView {
            reference_uuid: self.reference_uuid,
            owner_uuid: self.owner_uuid,
            filename: self.filename@,
            size: self.size,
            timestamp: self.timestamp,
            status: self.status,
        }
    }
}

impl Clone for File {
    fn clone(&self) -> (r: Self)
        ensures
            r@ == self@,
    {
        File {
            reference_uuid: self.reference_uuid,
            owner_uuid: self.owner_uuid,
            filename: self.filename.clone(),
            size: self.size,
            timestamp: self.timestamp,
            status: self.status,
        }
    }
}

/// A row fit to enter the store: a display name fit for storage and a size
/// within the configured ceiling.
pub open spec fn file_valid(f: FileView) -> bool {
    filename_ok(f.filename) && f.size <= MAX_FILE_SIZE
}

impl File {
    /// Returns a metadata row without validation; a new row starts `Pending`.
    pub fn new(
        reference_uuid: u128,
        owner_uuid: u128,
        filename: String,
        size: u64,
        timestamp: u64,
    ) -> (f: File)
        ensures
            f@ == (FileView {
                reference_uuid,
                owner_uuid,
                filename: filename@,
                size,
                timestamp,
                status: FileStatus::Pending,
            }),
    {
        File { reference_uuid, owner_uuid, filename, size, timestamp, status: FileStatus::Pending }
    }

    /// Bare-bones validation: the display name fit for storage and the size
    /// within bounds.
    pub fn is_valid(&self) -> (r: bool)
        ensures
            r == file_valid(self@),
    {
        filename_valid(&self.filename) && self.size <= MAX_FILE_SIZE
    }

    /// If the fields are valid, returns `Some(file)`, else `None`. Draws a
    /// fresh identifier when none is supplied, and stamps the current time.
    pub fn construct(reference_uuid: Option<u128>, filename: String, owner_uuid: u128, size: u64) -> (r:
        Option<File>)
        ensures
            match r {
                Some(f) => {
                    &&& file_valid(f@)
                    &&& f@.filename == filename@
                    &&& f@.owner_uuid == owner_uuid
                    &&& f@.size == size
                    &&& f@.status == FileStatus::Pending
                    &&& reference_uuid matches Some(id) ==> f@.reference_uuid == id
                },
                None => !(filename_ok(filename@) && size <= MAX_FILE_SIZE),
            },
    {
        let id = match reference_uuid {
            Some(i) => i,
            None => fresh_uuid(),
        };
        let ts = current_time();
        let f = File::new(id, owner_uuid, filename, size, ts);
        if f.is_valid() {
            Some(f)
        } else {
            None
        }
    }
}

} // verus!
