use crate::errors::AppError;
use crate::file::file_valid;
use crate::file::File;
use crate::file::FileStatus;
use crate::file::FileView;
use crate::file::MAX_FILE_SIZE;
use crate::validation::filename_ok;
use crate::validation::filename_valid;
use std::collections::HashMap;
use vstd::prelude::*;
use vstd::std_specs::iter::IteratorSpec;

verus! {

broadcast use vstd::std_specs::hash::group_hash_axioms;

/// A stored blob: raw bytes at the storage path derived from the owning
/// user and the file id.
pub struct Blob {
    pub owner_uuid: u128,
    pub data: Vec<u8>,
}

/// The mathematical image of a blob.
pub struct BlobView {
    pub owner_uuid: u128,
    pub data: Seq<u8>,
}

impl View for Blob {
    type V = BlobView;

    open spec fn view(&self) -> BlobView {
        BlobView { owner_uuid: self.owner_uuid, data: self.data@ }
    }
}

/// The two stores the lifecycle manager keeps consistent: the metadata table
/// keyed by file id, and the blob store, whose key stands for the storage
/// path `root/owner_uuid/reference_uuid`.
pub struct StoresView {
    pub rows: Map<u128, FileView>,
    pub blobs: Map<u128, BlobView>,
}

impl StoresView {
    /// What must hold of one metadata row: its key is its id, its fields are
    /// valid, and — if it is `Committed` — its blob exists, belongs to the
    /// row's owner, and has exactly the recorded length.
    pub open spec fn row_consistent(self, id: u128) -> bool {
        let f = self.rows[id];
        &&& f.reference_uuid == id
        &&& file_valid(f)
        &&& (f.status is Committed ==> {
            &&& self.blobs.dom().contains(id)
            &&& self.blobs[id].owner_uuid == f.owner_uuid
            &&& self.blobs[id].data.len() == f.size
        })
    }

    /// Crash-consistency invariant over the pair of stores. A `Pending`
    /// row's blob may be partial or absent. A blob without a row is an
    /// orphan: safe, reclaimable, never an error.
    pub open spec fn consistent(self) -> bool {
        forall|id: u128| #[trigger] self.rows.dom().contains(id) ==> self.row_consistent(id)
    }
}

/// In-memory model of the metadata table and the blob filesystem, the state
/// the lifecycle operations are verified against. Each operation takes the
/// outside stores' verdicts (did an insert, write or delete go through) as
/// arguments and is proved to leave the pair consistent for every verdict.
pub struct Stores {
    rows: HashMap<u128, File>,
    blobs: HashMap<u128, Blob>,
}

impl View for Stores {
    type V = StoresView;

    closed spec fn view(&self) -> StoresView {
        StoresView {
            rows: self.rows@.map_values(|f: File| f@),
            blobs: self.blobs@.map_values(|b: Blob| b@),
        }
    }
}

pub open spec fn file_res_view(r: Result<File, AppError>) -> Result<FileView, AppError> {
    match r {
        Ok(f) => Ok(f@),
        Err(e) => Err(e),
    }
}

/// What `Create` does to the stores: reject an invalid display name or size
/// hint, refuse a duplicate id or a store failure, otherwise insert a
/// `Pending` row.
pub open spec fn spec_create(
    s: StoresView,
    owner_uuid: u128,
    id: u128,
    filename: Seq<char>,
    size_hint: u64,
    now: u64,
    insert_ok: bool,
) -> (StoresView, Result<FileView, AppError>) {
    if !(filename_ok(filename) && size_hint <= MAX_FILE_SIZE) {
        (s, Err(AppError::Validation))
    } else if s.rows.dom().contains(id) || !insert_ok {
        (s, Err(AppError::Internal))
    } else {
        let f = FileView {
            reference_uuid: id,
            owner_uuid,
            filename,
            size: size_hint,
            timestamp: now,
            status: FileStatus::Pending,
        };
        (StoresView { rows: s.rows.insert(id, f), blobs: s.blobs }, Ok(f))
    }
}

/// What `Fetch` returns: the row, only when it exists and belongs to the
/// asking owner. A valid id owned by someone else yields `NotFound`, never a
/// permission error, so existence does not leak across tenants.
pub open spec fn spec_fetch(s: StoresView, id: u128, owner_uuid: u128) -> Result<
    FileView,
    AppError,
> {
    if s.rows.dom().contains(id) && s.rows[id].owner_uuid == owner_uuid {
        Ok(s.rows[id])
    } else {
        Err(AppError::NotFound)
    }
}

/// What `Download` returns: the bytes of an owned, `Committed` object whose
/// blob is present.
pub open spec fn spec_download(s: StoresView, id: u128, owner_uuid: u128) -> Result<
    Seq<u8>,
    AppError,
> {
    match spec_fetch(s, id, owner_uuid) {
        Ok(f) => {
            if f.status is Committed && s.blobs.dom().contains(id) {
                Ok(s.blobs[id].data)
            } else {
                Err(AppError::NotFound)
            }
        },
        Err(e) => Err(e),
    }
}

/// What `WriteWhole` does: write the blob and mark the row `Committed` with
/// the verified size; on a refused or failed write, delete the row again
/// (the compensating action), and if even that fails, report the orphaned
/// `Pending` row as a consistency fault and leave the stores as they are.
pub open spec fn spec_write_whole(
    s: StoresView,
    id: u128,
    owner_uuid: u128,
    bytes: Seq<u8>,
    write_ok: bool,
    comp_ok: bool,
) -> (StoresView, Result<(), AppError>) {
    if !(s.rows.dom().contains(id) && s.rows[id].owner_uuid == owner_uuid
        && s.rows[id].status is Pending) {
        (s, Err(AppError::NotFound))
    } else if bytes.len() > MAX_FILE_SIZE || !write_ok {
        let e = if bytes.len() > MAX_FILE_SIZE {
            AppError::Validation
        } else {
            AppError::Storage
        };
        if comp_ok {
            (StoresView { rows: s.rows.remove(id), blobs: s.blobs }, Err(e))
        } else {
            (s, Err(AppError::Consistency))
        }
    } else {
        let f2 = FileView {
            size: bytes.len() as u64,
            status: FileStatus::Committed,
            ..s.rows[id]
        };
        (
            StoresView {
                rows: s.rows.insert(id, f2),
                blobs: s.blobs.insert(id, BlobView { owner_uuid, data: bytes }),
            },
            Ok(()),
        )
    }
}

/// What `Delete` does, metadata first: remove the row (conditioned on the
/// owner match; `NotFound` otherwise), and only then the blob. A failed blob
/// delete leaves an orphaned blob — safe and reclaimable — never a dangling
/// row.
pub open spec fn spec_delete(s: StoresView, id: u128, owner_uuid: u128, blob_ok: bool) -> (
    StoresView,
    Result<(), AppError>,
) {
    if s.rows.dom().contains(id) && s.rows[id].owner_uuid == owner_uuid {
        let blobs2 = if blob_ok {
            s.blobs.remove(id)
        } else {
            s.blobs
        };
        (StoresView { rows: s.rows.remove(id), blobs: blobs2 }, Ok(()))
    } else {
        (s, Err(AppError::NotFound))
    }
}

/// A metadata row that the sweep reclaims: still `Pending` past the grace
/// window, the leftover of a crash before its upload completed.
pub open spec fn stale_row(f: FileView, now: u64, grace: u64) -> bool {
    f.status is Pending && f.timestamp + grace < now
}

/// Membership in one more element of a prefix: the items of `s.take(i + 1)`
/// are those of `s.take(i)` and `s[i]`.
proof fn lemma_take_push_contains<A>(s: Seq<A>, i: int)
    requires
        0 <= i < s.len(),
    ensures
        forall|x: A| #[trigger] s.take(i + 1).contains(x) <==> s.take(i).contains(x) || x == s[i],
{
    assert(s.take(i + 1) =~= s.take(i).push(s[i]));
    assert forall|x: A| #[trigger] s.take(i + 1).contains(x) implies s.take(i).contains(x) || x
        == s[i] by {
        let j = choose|j: int| 0 <= j < s.take(i + 1).len() && #[trigger] s.take(i + 1)[j] == x;
        if j < i {
            assert(s.take(i)[j] == x);
        }
    }
    assert forall|x: A| s.take(i).contains(x) || x == s[i] implies #[trigger] s.take(i + 1).contains(
        x,
    ) by {
        if s.take(i).contains(x) {
            let j = choose|j: int| 0 <= j < s.take(i).len() && #[trigger] s.take(i)[j] == x;
            assert(s.take(i + 1)[j] == x);
        } else {
            assert(s.take(i + 1)[i] == x);
        }
    }
}

/// Membership after an append: the items of `s.push(x)` are those of `s`
/// and `x`.
proof fn lemma_push_contains<A>(s: Seq<A>, x: A)
    ensures
        forall|y: A| #[trigger] s.push(x).contains(y) <==> s.contains(y) || y == x,
{
    assert(s.push(x)[s.len() as int] == x);
    assert forall|y: A| #[trigger] s.push(x).contains(y) implies s.contains(y) || y == x by {
        let j = choose|j: int| 0 <= j < s.push(x).len() && #[trigger] s.push(x)[j] == y;
        if j < s.len() {
            assert(s[j] == y);
        }
    }
    assert forall|y: A| s.contains(y) || y == x implies #[trigger] s.push(x).contains(y) by {
        if s.contains(y) {
            let j = choose|j: int| 0 <= j < s.len() && #[trigger] s[j] == y;
            assert(s.push(x)[j] == y);
        }
    }
}

/// What the periodic sweep does: reclaim every `Pending` row older than the
/// grace window, and then every blob that no surviving row references —
/// both the swept rows' partial blobs and the orphans left behind by failed
/// blob deletes.
pub open spec fn spec_sweep(s: StoresView, now: u64, grace: u64) -> StoresView {
    let rows2 = Map::<u128, FileView>::new(
        |id: u128| s.rows.dom().contains(id) && !stale_row(s.rows[id], now, grace),
        |id: u128| s.rows[id],
    );
    let blobs2 = Map::<u128, BlobView>::new(
        |id: u128| s.blobs.dom().contains(id) && rows2.dom().contains(id),
        |id: u128| s.blobs[id],
    );
    StoresView { rows: rows2, blobs: blobs2 }
}

/// Round trip: creating an object and writing its bytes whole succeeds for
/// every valid input, makes the object fetchable by its owner, and a
/// download returns exactly the bytes that were written.
pub proof fn lemma_create_write_whole_round_trip(
    s: StoresView,
    owner_uuid: u128,
    id: u128,
    filename: Seq<char>,
    size_hint: u64,
    now: u64,
    bytes: Seq<u8>,
)
    requires
        filename_ok(filename),
        size_hint <= MAX_FILE_SIZE,
        !s.rows.dom().contains(id),
        bytes.len() <= MAX_FILE_SIZE,
    ensures
        ({
            let (s1, r1) = spec_create(s, owner_uuid, id, filename, size_hint, now, true);
            let (s2, r2) = spec_write_whole(s1, id, owner_uuid, bytes, true, true);
            &&& r1 is Ok
            &&& r2 is Ok
            &&& spec_download(s2, id, owner_uuid) == Ok::<Seq<u8>, AppError>(bytes)
            &&& spec_fetch(s2, id, owner_uuid) matches Ok(f) && f.filename == filename && f.size
                == bytes.len() && f.status is Committed
        }),
{
}

/// After a successful `Delete`, a `Fetch` of the same id by the same owner
/// returns `NotFound`; the blob is gone when its delete went through, and
/// otherwise stays behind only as an orphan that no row references.
pub proof fn lemma_delete_then_fetch_not_found(
    s: StoresView,
    id: u128,
    owner_uuid: u128,
    blob_ok: bool,
)
    requires
        spec_delete(s, id, owner_uuid, blob_ok).1 is Ok,
    ensures
        ({
            let (s2, r) = spec_delete(s, id, owner_uuid, blob_ok);
            &&& spec_fetch(s2, id, owner_uuid) == Err::<FileView, AppError>(AppError::NotFound)
            &&& !s2.rows.dom().contains(id)
            &&& (blob_ok ==> !s2.blobs.dom().contains(id))
        }),
{
}

/// Tenant isolation: a `Fetch` under any owner other than the object's true
/// owner returns `NotFound`, even when the id is valid.
pub proof fn lemma_fetch_tenant_isolation(s: StoresView, id: u128, owner_uuid: u128)
    requires
        s.rows.dom().contains(id) ==> s.rows[id].owner_uuid != owner_uuid,
    ensures
        spec_fetch(s, id, owner_uuid) == Err::<FileView, AppError>(AppError::NotFound),
{
}

/// A failed blob write during `WriteWhole` never leaves a `Committed` row
/// for the id. When the compensating delete goes through, the stores return
/// exactly to their prior state, so retrying the upload under a fresh id
/// proceeds independently; when even the compensation fails, the row stays
/// `Pending`.
pub proof fn lemma_write_whole_failure_no_commit(
    s: StoresView,
    owner_uuid: u128,
    id: u128,
    filename: Seq<char>,
    size_hint: u64,
    now: u64,
    bytes: Seq<u8>,
    comp_ok: bool,
)
    requires
        !s.rows.dom().contains(id),
    ensures
        ({
            let (s1, r1) = spec_create(s, owner_uuid, id, filename, size_hint, now, true);
            let (s2, r2) = spec_write_whole(s1, id, owner_uuid, bytes, false, comp_ok);
            &&& r2 is Err
            &&& !(s2.rows.dom().contains(id) && s2.rows[id].status is Committed)
            &&& (r1 is Ok && comp_ok ==> s2.rows =~= s.rows && s2.blobs =~= s.blobs)
        }),
{
}

/// Byte-for-byte copy of a buffer.
fn clone_bytes(v: &Vec<u8>) -> (r: Vec<u8>)
    ensures
        r@ == v@,
{
    let mut out: Vec<u8> = Vec::new();
    let n = v.len();
    let mut k: usize = 0;
    while k < n
        invariant
            n == v@.len(),
            k <= n,
            out@ =~= v@.take(k as int),
        decreases n - k,
    {
        out.push(v[k]);
        k += 1;
    }
    proof {
        assert(out@ =~= v@);
    }
    out
}

impl Stores {
    /// The stores' own consistency, as the operations preserve it.
    pub open spec fn inv(self) -> bool {
        self@.consistent()
    }

    /// Empty stores.
    pub fn new() -> (s: Stores)
        ensures
            s@.rows =~= Map::<u128, FileView>::empty(),
            s@.blobs =~= Map::<u128, BlobView>::empty(),
            s.inv(),
    {
        let s = Stores { rows: HashMap::new(), blobs: HashMap::new() };
        proof {
            assert(s@.rows =~= Map::<u128, FileView>::empty());
            assert(s@.blobs =~= Map::<u128, BlobView>::empty());
        }
        s
    }

    /// `Create`: validate the display name and size hint, then insert a
    /// `Pending` metadata row for the caller to fill bytes into.
    /// `insert_ok` carries the metadata store's verdict on the insert.
    pub fn create(
        &mut self,
        owner_uuid: u128,
        id: u128,
        filename: String,
        size_hint: u64,
        now: u64,
        insert_ok: bool,
    ) -> (r: Result<File, AppError>)
        requires
            old(self).inv(),
        ensures
            final(self).inv(),
            (final(self)@, file_res_view(r)) == spec_create(
                old(self)@,
                owner_uuid,
                id,
                filename@,
                size_hint,
                now,
                insert_ok,
            ),
    {
        if !(filename_valid(&filename) && size_hint <= MAX_FILE_SIZE) {
            return Err(AppError::Validation);
        }
        if self.rows.contains_key(&id) || !insert_ok {
            return Err(AppError::Internal);
        }
        let f = File::new(id, owner_uuid, filename, size_hint, now);
        let stored = f.clone();
        self.rows.insert(id, stored);
        proof {
            assert(self@.rows =~= old(self)@.rows.insert(id, f@));
            assert(self@.blobs =~= old(self)@.blobs);
        }
        Ok(f)
    }

    /// `Fetch`: metadata lookup filtered by the owner.
    pub fn fetch(&self, id: u128, owner_uuid: u128) -> (r: Result<File, AppError>)
        ensures
            file_res_view(r) == spec_fetch(self@, id, owner_uuid),
    {
        match self.rows.get(&id) {
            Some(f) => {
                if f.owner_uuid == owner_uuid {
                    Ok(f.clone())
                } else {
                    Err(AppError::NotFound)
                }
            },
            None => Err(AppError::NotFound),
        }
    }

    /// `Download`: fetch the row, then the blob itself — its existence is
    /// checked again rather than assumed. Only `Committed` objects are
    /// served.
    pub fn download(&self, id: u128, owner_uuid: u128) -> (r: Result<(File, Vec<u8>), AppError>)
        ensures
            match r {
                Ok(p) => spec_fetch(self@, id, owner_uuid) == Ok::<FileView, AppError>(p.0@)
                    && spec_download(self@, id, owner_uuid) == Ok::<Seq<u8>, AppError>(p.1@),
                Err(e) => spec_download(self@, id, owner_uuid) == Err::<Seq<u8>, AppError>(e),
            },
    {
        let f = match self.fetch(id, owner_uuid) {
            Ok(f) => f,
            Err(e) => {
                return Err(e);
            },
        };
        if f.status != FileStatus::Committed {
            return Err(AppError::NotFound);
        }
        match self.blobs.get(&id) {
            Some(b) => Ok((f, clone_bytes(&b.data))),
            None => Err(AppError::NotFound),
        }
    }

    /// `WriteWhole`: write `bytes` at the object's storage path, then mark
    /// the row `Committed` with the final size. `write_ok` carries the blob
    /// store's verdict, `comp_ok` the metadata store's verdict on the
    /// compensating row delete after a failed write.
    pub fn write_whole(
        &mut self,
        id: u128,
        owner_uuid: u128,
        bytes: &Vec<u8>,
        write_ok: bool,
        comp_ok: bool,
    ) -> (r: Result<(), AppError>)
        requires
            old(self).inv(),
        ensures
            final(self).inv(),
            (final(self)@, r) == spec_write_whole(old(self)@, id, owner_uuid, bytes@, write_ok, comp_ok),
    {
        let row_ok = match self.rows.get(&id) {
            Some(f) => f.owner_uuid == owner_uuid && f.status == FileStatus::Pending,
            None => false,
        };
        if !row_ok {
            return Err(AppError::NotFound);
        }
        let oversize = bytes.len() as u64 > MAX_FILE_SIZE;
        if oversize || !write_ok {
            if comp_ok {
                self.rows.remove(&id);
                proof {
                    assert(self@.rows =~= old(self)@.rows.remove(id));
                    assert(self@.blobs =~= old(self)@.blobs);
                }
                if oversize {
                    return Err(AppError::Validation);
                } else {
                    return Err(AppError::Storage);
                }
            } else {
                return Err(AppError::Consistency);
            }
        }
        let f2 = match self.rows.get(&id) {
            Some(f) => File {
                reference_uuid: f.reference_uuid,
                owner_uuid: f.owner_uuid,
                filename: f.filename.clone(),
                size: bytes.len() as u64,
                timestamp: f.timestamp,
                status: FileStatus::Committed,
            },
            None => {
                return Err(AppError::Internal);
            },
        };
        self.blobs.insert(id, Blob { owner_uuid, data: clone_bytes(bytes) });
        self.rows.insert(id, f2);
        proof {
            assert(self@.rows =~= old(self)@.rows.insert(
                id,
                FileView {
                    size: bytes@.len() as u64,
                    status: FileStatus::Committed,
                    ..old(self)@.rows[id]
                },
            ));
            assert(self@.blobs =~= old(self)@.blobs.insert(
                id,
                BlobView { owner_uuid, data: bytes@ },
            ));
            assert forall|k: u128| #[trigger] self@.rows.dom().contains(k) implies self@
                .row_consistent(k) by {
                if k != id {
                    assert(old(self)@.rows.dom().contains(k));
                    assert(old(self)@.row_consistent(k));
                    assert(self@.rows[k] == old(self)@.rows[k]);
                    assert(old(self)@.rows[k].status is Committed ==> self@.blobs[k] == old(
                        self,
                    )@.blobs[k]);
                } else {
                    assert(old(self)@.rows.dom().contains(id));
                    assert(old(self)@.row_consistent(id));
                    assert(self@.rows[id].filename == old(self)@.rows[id].filename);
                    assert(self@.blobs[id] == (BlobView { owner_uuid, data: bytes@ }));
                    assert(self@.rows[id].size == bytes@.len());
                }
            }
        }
        Ok(())
    }

    /// `Delete`: the two-step compensating protocol, metadata first. If no
    /// owned row matches, `NotFound`; otherwise the row goes, and then the
    /// blob. `blob_ok` carries the blob store's verdict; when it is false
    /// the blob stays behind as a reclaimable orphan and the call still
    /// succeeds.
    pub fn delete(&mut self, id: u128, owner_uuid: u128, blob_ok: bool) -> (r: Result<
        (),
        AppError,
    >)
        requires
            old(self).inv(),
        ensures
            final(self).inv(),
            (final(self)@, r) == spec_delete(old(self)@, id, owner_uuid, blob_ok),
    {
        let row_ok = match self.rows.get(&id) {
            Some(f) => f.owner_uuid == owner_uuid,
            None => false,
        };
        if !row_ok {
            return Err(AppError::NotFound);
        }
        self.rows.remove(&id);
        if blob_ok {
            self.blobs.remove(&id);
            proof {
                assert(self@.rows =~= old(self)@.rows.remove(id));
                assert(self@.blobs =~= old(self)@.blobs.remove(id));
            }
        } else {
            proof {
                assert(self@.rows =~= old(self)@.rows.remove(id));
                assert(self@.blobs =~= old(self)@.blobs);
            }
        }
        Ok(())
    }

    /// The periodic sweep: reclaim every `Pending` row older than the grace
    /// window — the leftovers of uploads that crashed before committing —
    /// and then every blob that no surviving row references, the swept
    /// rows' partial blobs and the orphans of failed blob deletes alike.
    pub fn sweep(&mut self, now: u64, grace: u64)
        requires
            old(self).inv(),
        ensures
            final(self).inv(),
            final(self)@ == spec_sweep(old(self)@, now, grace),
    {
        let ghost rows0 = self.rows@;
        // find the stale Pending rows
        let mut stale: Vec<u128> = Vec::new();
        for kv in it: self.rows.iter()
            invariant
                self.rows@ == rows0,
                it.seq() == vstd::std_specs::hash::spec_hash_map_iter(&self.rows).remaining(),
                forall|x: u128| #[trigger] stale@.contains(x) ==> self.rows@.contains_key(x)
                    && stale_row((self.rows@[x])@, now, grace),
                forall|j: int|
                    0 <= j < it.index() ==> (stale_row((*(#[trigger] it.seq()[j]).1)@, now, grace)
                        ==> stale@.contains(*it.seq()[j].0)),
        {
            let ghost pos = it.index();
            let is_stale = kv.1.status == FileStatus::Pending && now > grace && kv.1.timestamp
                < now - grace;
            proof {
                assert(kv == it.seq()[pos]);
                assert(self.rows@.contains_key(*it.seq()[pos].0));
                assert(self.rows@[*it.seq()[pos].0] == *it.seq()[pos].1);
                assert(is_stale == stale_row((*it.seq()[pos].1)@, now, grace));
            }
            if is_stale {
                let ghost st0 = stale@;
                stale.push(*kv.0);
                proof {
                    lemma_push_contains(st0, *kv.0);
                }
            }
        }
        proof {
            let v = vstd::std_specs::hash::spec_hash_map_iter(&self.rows).remaining();
            assert forall|x: u128|
                self.rows@.contains_key(x) && stale_row((self.rows@[x])@, now, grace) implies #[trigger] stale@
                .contains(x) by {
                assert(v.contains((&x, &self.rows@[x])));
                let j = choose|j: int| 0 <= j < v.len() && v[j] == (&x, &self.rows@[x]);
                assert(stale_row((*v[j].1)@, now, grace));
            }
        }
        // remove them, metadata first: the row goes, then its blob
        let mut i: usize = 0;
        while i < stale.len()
            invariant
                i <= stale@.len(),
                forall|x: u128| #[trigger] stale@.contains(x) ==> rows0.contains_key(x)
                    && stale_row((rows0[x])@, now, grace),
                forall|x: u128|
                    rows0.contains_key(x) && stale_row((rows0[x])@, now, grace)
                        ==> #[trigger] stale@.contains(x),
                forall|k: u128| #[trigger] self.rows@.contains_key(k) <==> (rows0.contains_key(k)
                    && !stale@.take(i as int).contains(k)),
                forall|k: u128| #[trigger] self.rows@.contains_key(k) ==> self.rows@[k] == rows0[k],
                self.blobs@ == old(self).blobs@,
            decreases stale@.len() - i,
        {
            proof {
                lemma_take_push_contains(stale@, i as int);
            }
            self.rows.remove(&stale[i]);
            i += 1;
        }
        proof {
            assert(stale@.take(stale@.len() as int) =~= stale@);
        }
        // reclaim every blob that no surviving row references
        let ghost rows1 = self.rows@;
        let ghost blobs0 = self.blobs@;
        let mut orphans: Vec<u128> = Vec::new();
        for kv in it2: self.blobs.iter()
            invariant
                self.rows@ == rows1,
                self.blobs@ == blobs0,
                it2.seq() == vstd::std_specs::hash::spec_hash_map_iter(&self.blobs).remaining(),
                forall|x: u128| #[trigger] orphans@.contains(x) ==> self.blobs@.contains_key(x)
                    && !rows1.contains_key(x),
                forall|j: int|
                    0 <= j < it2.index() ==> (!rows1.contains_key(*(#[trigger] it2.seq()[j]).0)
                        ==> orphans@.contains(*it2.seq()[j].0)),
        {
            let ghost pos = it2.index();
            proof {
                assert(kv == it2.seq()[pos]);
                assert(self.blobs@.contains_key(*it2.seq()[pos].0));
            }
            if !self.rows.contains_key(kv.0) {
                let ghost or0 = orphans@;
                orphans.push(*kv.0);
                proof {
                    lemma_push_contains(or0, *kv.0);
                }
            }
        }
        proof {
            let v = vstd::std_specs::hash::spec_hash_map_iter(&self.blobs).remaining();
            assert forall|x: u128|
                self.blobs@.contains_key(x) && !rows1.contains_key(x) implies #[trigger] orphans@
                .contains(x) by {
                assert(v.contains((&x, &self.blobs@[x])));
                let j = choose|j: int| 0 <= j < v.len() && v[j] == (&x, &self.blobs@[x]);
                assert(!rows1.contains_key(*v[j].0));
            }
        }
        let mut i: usize = 0;
        while i < orphans.len()
            invariant
                i <= orphans@.len(),
                self.rows@ == rows1,
                forall|x: u128| #[trigger] orphans@.contains(x) ==> blobs0.contains_key(x)
                    && !rows1.contains_key(x),
                forall|x: u128|
                    blobs0.contains_key(x) && !rows1.contains_key(x) ==> #[trigger] orphans@
                        .contains(x),
                forall|k: u128| #[trigger] self.blobs@.contains_key(k) <==> (blobs0.contains_key(k)
                    && !orphans@.take(i as int).contains(k)),
                forall|k: u128| #[trigger] self.blobs@.contains_key(k) ==> self.blobs@[k]
                    == blobs0[k],
            decreases orphans@.len() - i,
        {
            proof {
                lemma_take_push_contains(orphans@, i as int);
            }
            self.blobs.remove(&orphans[i]);
            i += 1;
        }
        proof {
            assert(orphans@.take(orphans@.len() as int) =~= orphans@);
            assert(self@.rows =~= spec_sweep(old(self)@, now, grace).rows);
            assert(self@.blobs =~= spec_sweep(old(self)@, now, grace).blobs);
            assert forall|k: u128| #[trigger] self@.rows.dom().contains(k) implies self@
                .row_consistent(k) by {
                assert(old(self)@.rows.dom().contains(k));
                assert(old(self)@.row_consistent(k));
            }
        }
    }
}


/// Even when the blob delete behind a `Delete` fails, the orphan it leaves
/// is reclaimed by the next sweep: afterwards no blob stands at the path.
pub proof fn lemma_sweep_reclaims_orphans(
    s: StoresView,
    id: u128,
    owner_uuid: u128,
    now: u64,
    grace: u64,
)
    requires
        spec_delete(s, id, owner_uuid, false).1 is Ok,
    ensures
        !spec_sweep(spec_delete(s, id, owner_uuid, false).0, now, grace).blobs.dom().contains(id),
{
}

/// One observed step of a multipart file part: a chunk arrived and was
/// appended to the blob, a chunk append was refused by the blob store, or
/// the request body broke off before its end.
pub enum UploadEvent {
    Chunk(Vec<u8>),
    WriteFailed,
    Truncated,
}

/// The mathematical image of an upload step.
pub enum UploadEventView {
    Chunk(Seq<u8>),
    WriteFailed,
    Truncated,
}

impl View for UploadEvent {
    type V = UploadEventView;

    open spec fn view(&self) -> UploadEventView {
        match self {
            UploadEvent::Chunk(d) => UploadEventView::Chunk(d@),
            UploadEvent::WriteFailed => UploadEventView::WriteFailed,
            UploadEvent::Truncated => UploadEventView::Truncated,
        }
    }
}

impl DeepView for UploadEvent {
    type V = UploadEventView;

    open spec fn deep_view(&self) -> UploadEventView {
        self@
    }
}

/// Outcome of feeding a part's steps into the blob, starting from `acc`
/// bytes already appended: either every chunk arrived within the size
/// ceiling (`Ok` with the final bytes), or the error of the step that
/// failed. The second component is what had been appended by the stop.
pub open spec fn spec_consume(events: Seq<UploadEventView>, acc: Seq<u8>) -> (
    Result<Seq<u8>, AppError>,
    Seq<u8>,
)
    decreases events.len(),
{
    if events.len() == 0 {
        (Ok(acc), acc)
    } else {
        match events[0] {
            UploadEventView::Chunk(d) => {
                if acc.len() + d.len() > MAX_FILE_SIZE {
                    (Err(AppError::Validation), acc)
                } else {
                    spec_consume(events.skip(1), acc + d)
                }
            },
            UploadEventView::WriteFailed => (Err(AppError::Storage), acc),
            UploadEventView::Truncated => (Err(AppError::Validation), acc),
        }
    }
}

pub open spec fn opt_name_view(o: Option<String>) -> Option<Seq<char>> {
    match o {
        Some(n) => Some(n@),
        None => None,
    }
}

/// What one file part does to the stores: an absent or
/// invalid display name is rejected before anything is written; then a
/// `Pending` row is inserted, the chunks are appended, and the row is
/// committed with the verified size — or, at the first failure, the partial
/// blob and then the row are deleted again. When the blob delete fails, the
/// row stays `Pending` beside the partial blob; when only the row delete
/// fails, the row stays `Pending` alone. No failure path leaves a
/// `Committed` row.
pub open spec fn spec_upload_part(
    s: StoresView,
    owner_uuid: u128,
    id: u128,
    filename: Option<Seq<char>>,
    events: Seq<UploadEventView>,
    now: u64,
    insert_ok: bool,
    comp_blob_ok: bool,
    comp_row_ok: bool,
) -> (StoresView, Result<FileView, AppError>) {
    if !(filename matches Some(n) && filename_ok(n)) {
        (s, Err(AppError::Validation))
    } else if s.rows.dom().contains(id) || !insert_ok {
        (s, Err(AppError::Internal))
    } else {
        let pending = FileView {
            reference_uuid: id,
            owner_uuid,
            filename: filename.unwrap(),
            size: 0,
            timestamp: now,
            status: FileStatus::Pending,
        };
        let (outcome, written) = spec_consume(events, Seq::<u8>::empty());
        match outcome {
            Ok(data) => {
                let committed = FileView {
                    size: data.len() as u64,
                    status: FileStatus::Committed,
                    ..pending
                };
                (
                    StoresView {
                        rows: s.rows.insert(id, committed),
                        blobs: s.blobs.insert(id, BlobView { owner_uuid, data }),
                    },
                    Ok(committed),
                )
            },
            Err(e) => {
                let rows2 = if comp_blob_ok && comp_row_ok {
                    s.rows.remove(id)
                } else {
                    s.rows.insert(id, pending)
                };
                let blobs2 = if comp_blob_ok {
                    s.blobs.remove(id)
                } else {
                    s.blobs.insert(id, BlobView { owner_uuid, data: written })
                };
                (StoresView { rows: rows2, blobs: blobs2 }, Err(e))
            },
        }
    }
}

/// A failure anywhere in a part's chunk sequence — a refused append, a
/// truncated body, or a size past the ceiling — never leaves a `Committed`
/// row for a fresh id, and when both compensating deletes go through the
/// stores hold no trace of the part at all.
pub proof fn lemma_upload_part_failure_no_commit(
    s: StoresView,
    owner_uuid: u128,
    id: u128,
    filename: Option<Seq<char>>,
    events: Seq<UploadEventView>,
    now: u64,
    insert_ok: bool,
    comp_blob_ok: bool,
    comp_row_ok: bool,
)
    requires
        !s.rows.dom().contains(id),
        !s.blobs.dom().contains(id),
    ensures
        ({
            let (s2, r) = spec_upload_part(
                s,
                owner_uuid,
                id,
                filename,
                events,
                now,
                insert_ok,
                comp_blob_ok,
                comp_row_ok,
            );
            &&& r is Err ==> !(s2.rows.dom().contains(id) && s2.rows[id].status is Committed)
            &&& (r is Err && comp_blob_ok && comp_row_ok) ==> s2.rows =~= s.rows && s2.blobs
                =~= s.blobs
        }),
{
}

/// Decides whether appending one more chunk would carry the blob past the
/// size ceiling. Public so the boundary takes the very same decision as
/// the verified ingestion loop.
pub fn chunk_would_overflow(written: u64, chunk_len: u64) -> (r: bool)
    requires
        written <= MAX_FILE_SIZE,
    ensures
        r == (written + chunk_len > MAX_FILE_SIZE),
{
    chunk_len > MAX_FILE_SIZE - written
}

/// Feed a part's steps into a local buffer, stopping at the first failed
/// step or as soon as the accumulated size would pass the ceiling.
fn consume_events(events: &Vec<UploadEvent>) -> (r: (Option<AppError>, Vec<u8>))
    ensures
        ({
            let (outcome, written) = spec_consume(events.deep_view(), Seq::<u8>::empty());
            &&& r.1@ == written
            &&& r.1@.len() <= MAX_FILE_SIZE
            &&& match r.0 {
                None => outcome == Ok::<Seq<u8>, AppError>(written),
                Some(e) => outcome == Err::<Seq<u8>, AppError>(e),
            }
        }),
{
    let ghost evs = events.deep_view();
    let mut acc: Vec<u8> = Vec::new();
    let n = events.len();
    let mut i: usize = 0;
    proof {
        assert(evs =~= evs.skip(0));
    }
    while i < n
        invariant
            i <= n,
            n == evs.len(),
            evs == events.deep_view(),
            acc@.len() <= MAX_FILE_SIZE,
            spec_consume(evs.skip(i as int), acc@) == spec_consume(evs, Seq::<u8>::empty()),
        decreases n - i,
    {
        proof {
            assert(evs.skip(i as int)[0] == evs[i as int]);
            assert(evs.skip(i as int).skip(1) =~= evs.skip(i as int + 1));
        }
        match &events[i] {
            UploadEvent::Chunk(d) => {
                if chunk_would_overflow(acc.len() as u64, d.len() as u64) {
                    return (Some(AppError::Validation), acc);
                }
                let ghost acc0 = acc@;
                let m = d.len();
                let mut k: usize = 0;
                while k < m
                    invariant
                        k <= m,
                        m == d@.len(),
                        acc@ =~= acc0 + d@.take(k as int),
                    decreases m - k,
                {
                    acc.push(d[k]);
                    k += 1;
                }
                proof {
                    assert(acc@ =~= acc0 + d@);
                }
            },
            UploadEvent::WriteFailed => {
                return (Some(AppError::Storage), acc);
            },
            UploadEvent::Truncated => {
                return (Some(AppError::Validation), acc);
            },
        }
        i += 1;
    }
    proof {
        assert(evs.skip(n as int) =~= Seq::<UploadEventView>::empty());
    }
    (None, acc)
}

impl Stores {
    /// Streaming ingestion of one multipart file part:
    /// validate the declared filename, create a `Pending` row, append the
    /// chunks while the size stays within the ceiling, and either mark the
    /// row `Committed` with the final size or compensate — partial blob
    /// first, then the row. `insert_ok` is the metadata store's verdict on
    /// the create; `comp_blob_ok` and `comp_row_ok` are the stores' verdicts
    /// on the two compensating deletes.
    pub fn upload_part(
        &mut self,
        owner_uuid: u128,
        id: u128,
        filename: Option<String>,
        events: &Vec<UploadEvent>,
        now: u64,
        insert_ok: bool,
        comp_blob_ok: bool,
        comp_row_ok: bool,
    ) -> (r: Result<File, AppError>)
        requires
            old(self).inv(),
        ensures
            final(self).inv(),
            (final(self)@, file_res_view(r)) == spec_upload_part(
                old(self)@,
                owner_uuid,
                id,
                opt_name_view(filename),
                events.deep_view(),
                now,
                insert_ok,
                comp_blob_ok,
                comp_row_ok,
            ),
    {
        let name = match filename {
            Some(n) => n,
            None => {
                return Err(AppError::Validation);
            },
        };
        if !filename_valid(&name) {
            return Err(AppError::Validation);
        }
        if self.rows.contains_key(&id) || !insert_ok {
            return Err(AppError::Internal);
        }
        let (fail, data) = consume_events(events);
        match fail {
            None => {
                let ghost dview = data@;
                let f = File {
                    reference_uuid: id,
                    owner_uuid,
                    filename: name,
                    size: data.len() as u64,
                    timestamp: now,
                    status: FileStatus::Committed,
                };
                let stored = f.clone();
                self.blobs.insert(id, Blob { owner_uuid, data });
                self.rows.insert(id, stored);
                proof {
                    assert(self@.rows =~= old(self)@.rows.insert(id, f@));
                    assert(self@.blobs =~= old(self)@.blobs.insert(
                        id,
                        BlobView { owner_uuid, data: dview },
                    ));
                    assert forall|k: u128| #[trigger] self@.rows.dom().contains(k) implies self@
                        .row_consistent(k) by {
                        if k != id {
                            assert(old(self)@.rows.dom().contains(k));
                            assert(old(self)@.row_consistent(k));
                            assert(self@.rows[k] == old(self)@.rows[k]);
                            assert(old(self)@.rows[k].status is Committed ==> self@.blobs[k]
                                == old(self)@.blobs[k]);
                        }
                    }
                }
                Ok(f)
            },
            Some(e) => {
                let pending = File::new(id, owner_uuid, name, 0, now);
                if comp_blob_ok {
                    self.blobs.remove(&id);
                    if comp_row_ok {
                        self.rows.remove(&id);
                        proof {
                            assert(self@.rows =~= old(self)@.rows.remove(id));
                            assert(self@.blobs =~= old(self)@.blobs.remove(id));
                            assert forall|k: u128| #[trigger] self@.rows.dom().contains(k) implies
                                self@.row_consistent(k) by {
                                assert(old(self)@.rows.dom().contains(k));
                                assert(old(self)@.row_consistent(k));
                            }
                        }
                    } else {
                        self.rows.insert(id, pending);
                        proof {
                            assert(self@.rows =~= old(self)@.rows.insert(
                                id,
                                FileView {
                                    reference_uuid: id,
                                    owner_uuid,
                                    filename: opt_name_view(filename).unwrap(),
                                    size: 0,
                                    timestamp: now,
                                    status: FileStatus::Pending,
                                },
                            ));
                            assert(self@.blobs =~= old(self)@.blobs.remove(id));
                            assert forall|k: u128| #[trigger] self@.rows.dom().contains(k) implies
                                self@.row_consistent(k) by {
                                if k != id {
                                    assert(old(self)@.rows.dom().contains(k));
                                    assert(old(self)@.row_consistent(k));
                                }
                            }
                        }
                    }
                } else {
                    self.blobs.insert(id, Blob { owner_uuid, data });
                    self.rows.insert(id, pending);
                    proof {
                        assert(self@.rows =~= old(self)@.rows.insert(
                            id,
                            FileView {
                                reference_uuid: id,
                                owner_uuid,
                                filename: opt_name_view(filename).unwrap(),
                                size: 0,
                                timestamp: now,
                                status: FileStatus::Pending,
                            },
                        ));
                        assert(self@.blobs =~= old(self)@.blobs.insert(
                            id,
                            BlobView {
                                owner_uuid,
                                data: spec_consume(events.deep_view(), Seq::<u8>::empty()).1,
                            },
                        ));
                        assert forall|k: u128| #[trigger] self@.rows.dom().contains(k) implies
                            self@.row_consistent(k) by {
                            if k != id {
                                assert(old(self)@.rows.dom().contains(k));
                                assert(old(self)@.row_consistent(k));
                            }
                        }
                    }
                }
                Err(e)
            },
        }
    }
}

} // verus!
