use vstd::prelude::*;

use crate::blossom::{compute_digest, descriptor_of, sha256_hex, BlobDescriptor, DescriptorRecord};
use crate::mime::{classify, classify_spec, is_mime_type_allowed, list_admits};
use crate::token::unix_now;
use crate::store::{
    has_hash, index_of, lemma_lookup_at, lookup, owned_rows, remove_hash, row_consistent, rows_consistent,
    unique_hashes, BlobRecord,
    BlobStore, DbBlob, GetBlob,
};

verus! {

/// Why an upload was refused.
#[derive(PartialEq, Eq, Structural, Clone, Copy, Debug)]
pub enum UploadError {
    MimeTypeNotAllowed,
    /// The payload's digest already names different content.
    StorageError,
}

/// The reason reported with an upload error.
pub open spec fn upload_message(e: UploadError) -> Seq<char> {
    match e {
        UploadError::MimeTypeNotAllowed => "mime type not allowed"@,
        UploadError::StorageError => "failed to insert blob into DB"@,
    }
}

impl UploadError {
    /// The HTTP status that reports this error.
    pub fn status_code(&self) -> (r: u16)
        ensures
            r == match self {
                UploadError::MimeTypeNotAllowed => 400u16,
                UploadError::StorageError => 500u16,
            },
    {
        match self {
            UploadError::MimeTypeNotAllowed => 400,
            UploadError::StorageError => 500,
        }
    }

    /// The reason reported with this error.
    pub fn message(&self) -> (r: String)
        ensures
            r@ == upload_message(*self),
    {
        match self {
            UploadError::MimeTypeNotAllowed => "mime type not allowed".to_owned(),
            UploadError::StorageError => "failed to insert blob into DB".to_owned(),
        }
    }
}

/// Why a fetch found nothing.
#[derive(PartialEq, Eq, Structural, Clone, Copy, Debug)]
pub enum GetBlobError {
    NotFoundError,
}

impl GetBlobError {
    pub fn status_code(&self) -> (r: u16)
        ensures
            r == 404,
    {
        404
    }
}

/// Why an existence check found nothing.
#[derive(PartialEq, Eq, Structural, Clone, Copy, Debug)]
pub enum HasBlobError {
    NotFoundError,
}

impl HasBlobError {
    pub fn status_code(&self) -> (r: u16)
        ensures
            r == 404,
    {
        404
    }
}

/// Why a delete was refused.
#[derive(PartialEq, Eq, Structural, Clone, Copy, Debug)]
pub enum DeleteError {
    NotFoundError,
    /// The caller is not the blob's owner.
    Forbidden,
}

impl DeleteError {
    pub fn status_code(&self) -> (r: u16)
        ensures
            r == match self {
                DeleteError::NotFoundError => 404u16,
                DeleteError::Forbidden => 403u16,
            },
    {
        match self {
            DeleteError::NotFoundError => 404,
            DeleteError::Forbidden => 403,
        }
    }
}

/// The row that a first upload of `payload` by `pubkey` at time `now` creates.
pub open spec fn new_record(pubkey: Seq<char>, payload: Seq<u8>, now: int) -> BlobRecord {
    BlobRecord {
        pubkey,
        hash: sha256_hex(payload),
        mime_type: classify_spec(payload),
        size: payload.len() as int,
        created: now,
        blob: payload,
    }
}

/// The table and the answer after `pubkey` uploads `payload` at time `now`:
/// classify, check the type, digest, then answer with the row already stored
/// under that digest, or store a new one. A stored row whose payload differs
/// under the same digest is a storage conflict.
pub open spec fn upload_spec(
    rows: Seq<BlobRecord>,
    pubkey: Seq<char>,
    payload: Seq<u8>,
    allowed: Seq<Seq<char>>,
    base: Seq<char>,
    now: int,
) -> (Seq<BlobRecord>, Result<DescriptorRecord, UploadError>) {
    if !list_admits(allowed, classify_spec(payload)) {
        (rows, Err(UploadError::MimeTypeNotAllowed))
    } else {
        match lookup(rows, sha256_hex(payload)) {
            Some(existing) => if existing.blob == payload {
                (rows, Ok(descriptor_of(existing, base)))
            } else {
                (rows, Err(UploadError::StorageError))
            },
            None => {
                let r = new_record(pubkey, payload, now);
                (rows.push(r), Ok(descriptor_of(r, base)))
            },
        }
    }
}

/// A descriptor result as values.
pub open spec fn descriptor_result<E>(r: Result<BlobDescriptor, E>) -> Result<DescriptorRecord, E> {
    match r {
        Ok(d) => Ok(d@),
        Err(e) => Err(e),
    }
}


/// Whether two byte strings are equal.
fn same_bytes(a: &Vec<u8>, b: &Vec<u8>) -> (r: bool)
    ensures
        r == (a@ == b@),
{
    if a.len() != b.len() {
        return false;
    }
    let mut i: usize = 0;
    while i < a.len()
        invariant
            i <= a.len(),
            a.len() == b.len(),
            forall|j: int| 0 <= j < i ==> a@[j] == b@[j],
        decreases a.len() - i,
    {
        if a[i] != b[i] {
            return false;
        }
        i = i + 1;
    }
    assert(a@ =~= b@);
    true
}

/// Uploads `payload` for `pubkey` at time `now`.
pub fn upload_at(
    store: &mut BlobStore,
    pubkey: &str,
    payload: &Vec<u8>,
    allowed_mime_types: &Vec<String>,
    base_url: &str,
    now: i64,
) -> (r: Result<BlobDescriptor, UploadError>)
    requires
        old(store).wf(),
    ensures
        final(store).wf(),
        (final(store)@, descriptor_result(r)) == upload_spec(
            old(store)@,
            pubkey@,
            payload@,
            allowed_mime_types.deep_view(),
            base_url@,
            now as int,
        ),
{
    let mime_type = classify(payload.as_slice());
    if !is_mime_type_allowed(allowed_mime_types, mime_type.as_str()) {
        return Err(UploadError::MimeTypeNotAllowed);
    }
    let hash = compute_digest(payload.as_slice());
    match store.get(hash.as_str()) {
        Some(existing) => {
            if same_bytes(&existing.blob, payload) {
                Ok(BlobDescriptor::from_row(&existing, base_url))
            } else {
                Err(UploadError::StorageError)
            }
        },
        None => {
            let row = GetBlob {
                pubkey: pubkey.to_owned(),
                hash,
                mime_type,
                size: payload.len() as u64,
                created: now,
                blob: payload.clone(),
            };
            assert(row@ == new_record(pubkey@, payload@, now as int));
            let stored = store.insert_if_absent(row);
            Ok(BlobDescriptor::from_row(&stored, base_url))
        },
    }
}

/// Uploads `payload` for `pubkey`, stamping a new row with the current time.
pub fn upload(
    store: &mut BlobStore,
    pubkey: &str,
    payload: &Vec<u8>,
    allowed_mime_types: &Vec<String>,
    base_url: &str,
) -> (r: Result<BlobDescriptor, UploadError>)
    requires
        old(store).wf(),
    ensures
        final(store).wf(),
        exists|now: i64|
            (final(store)@, descriptor_result(r)) == #[trigger] upload_spec(
                old(store)@,
                pubkey@,
                payload@,
                allowed_mime_types.deep_view(),
                base_url@,
                now as int,
            ),
{
    let secs = unix_now();
    let now: i64 = if secs > i64::MAX as u64 {
        i64::MAX
    } else {
        secs as i64
    };
    upload_at(store, pubkey, payload, allowed_mime_types, base_url, now)
}

/// The blob stored under `hash`.
pub fn get(store: &BlobStore, hash: &str) -> (r: Result<GetBlob, GetBlobError>)
    requires
        store.wf(),
    ensures
        match lookup(store@, hash@) {
            Some(b) => r matches Ok(found) && found@ == b,
            None => r == Err::<GetBlob, GetBlobError>(GetBlobError::NotFoundError),
        },
{
    match store.get(hash) {
        Some(b) => Ok(b),
        None => Err(GetBlobError::NotFoundError),
    }
}

/// The blob stored under `hash`, requested with a file extension, which plays
/// no part in the lookup.
pub fn get_with_ext(store: &BlobStore, hash: &str, _ext: &str) -> (r: Result<GetBlob, GetBlobError>)
    requires
        store.wf(),
    ensures
        match lookup(store@, hash@) {
            Some(b) => r matches Ok(found) && found@ == b,
            None => r == Err::<GetBlob, GetBlobError>(GetBlobError::NotFoundError),
        },
{
    get(store, hash)
}

/// Whether a blob is stored under `hash`.
pub fn has(store: &BlobStore, hash: &str) -> (r: Result<(), HasBlobError>)
    requires
        store.wf(),
    ensures
        r == if has_hash(store@, hash@) {
            Ok::<(), HasBlobError>(())
        } else {
            Err(HasBlobError::NotFoundError)
        },
{
    match store.get(hash) {
        Some(_) => Ok(()),
        None => Err(HasBlobError::NotFoundError),
    }
}

/// Whether a blob is stored under `hash`, requested with a file extension.
pub fn has_with_ext(store: &BlobStore, hash: &str, _ext: &str) -> (r: Result<(), HasBlobError>)
    requires
        store.wf(),
    ensures
        r == if has_hash(store@, hash@) {
            Ok::<(), HasBlobError>(())
        } else {
            Err(HasBlobError::NotFoundError)
        },
{
    has(store, hash)
}

/// The outcome of `pubkey` deleting the blob stored under `hash`: only its
/// owner may.
pub open spec fn delete_spec(rows: Seq<BlobRecord>, hash: Seq<char>, pubkey: Seq<char>) -> (
    Seq<BlobRecord>,
    Result<(), DeleteError>,
) {
    match lookup(rows, hash) {
        None => (rows, Err(DeleteError::NotFoundError)),
        Some(b) => if b.pubkey != pubkey {
            (rows, Err(DeleteError::Forbidden))
        } else {
            (remove_hash(rows, hash), Ok(()))
        },
    }
}

/// Deletes the blob stored under `hash` on behalf of `pubkey`.
pub fn delete(store: &mut BlobStore, hash: &str, pubkey: &str) -> (r: Result<(), DeleteError>)
    requires
        old(store).wf(),
    ensures
        final(store).wf(),
        (final(store)@, r) == delete_spec(old(store)@, hash@, pubkey@),
{
    match store.get(hash) {
        None => Err(DeleteError::NotFoundError),
        Some(b) => {
            if b.pubkey != pubkey.to_owned() {
                Err(DeleteError::Forbidden)
            } else {
                store.delete(hash);
                Ok(())
            }
        },
    }
}

/// The descriptors of the blobs that `pubkey` owns, in upload order; empty
/// when there are none.
pub fn list(store: &BlobStore, pubkey: &str, base_url: &str) -> (r: Vec<BlobDescriptor>)
    ensures
        r@.map_values(|d: BlobDescriptor| d@) == owned_rows(store@, pubkey@).map_values(
            |b: BlobRecord| descriptor_of(b, base_url@),
        ),
{
    let blobs = store.list_by_owner(pubkey);
    let ghost rows = blobs@.map_values(|d: DbBlob| d@);
    let mut out: Vec<BlobDescriptor> = Vec::new();
    let mut i: usize = 0;
    while i < blobs.len()
        invariant
            i <= blobs.len(),
            rows == blobs@.map_values(|d: DbBlob| d@),
            out@.map_values(|d: BlobDescriptor| d@) == rows.take(i as int).map_values(
                |b: BlobRecord| descriptor_of(b, base_url@),
            ),
        decreases blobs.len() - i,
    {
        let d = BlobDescriptor::from_listed(&blobs[i], base_url);
        let ghost prev = out@;
        out.push(d);
        assert(rows.take(i + 1) =~= rows.take(i as int).push(blobs@[i as int]@));
        assert(out@ =~= prev.push(d));
        assert(out@.map_values(|d: BlobDescriptor| d@) =~= prev.map_values(
            |d: BlobDescriptor| d@,
        ).push(d@));
        assert(out@.map_values(|d: BlobDescriptor| d@) =~= rows.take(i + 1).map_values(
            |b: BlobRecord| descriptor_of(b, base_url@),
        ));
        i = i + 1;
    }
    assert(rows.take(blobs.len() as int) =~= rows);
    out
}

/// Uploading the same bytes twice, by the same signer or another, gives the
/// same answer both times: same digest, same owner, same creation time. The
/// second upload leaves the table as the first left it, with exactly one row
/// for that digest, owned by whoever stored the bytes first.
pub proof fn lemma_upload_dedup(
    rows: Seq<BlobRecord>,
    first_pubkey: Seq<char>,
    second_pubkey: Seq<char>,
    payload: Seq<u8>,
    allowed: Seq<Seq<char>>,
    base: Seq<char>,
    first_now: int,
    second_now: int,
)
    requires
        unique_hashes(rows),
        rows_consistent(rows),
        upload_spec(rows, first_pubkey, payload, allowed, base, first_now).1 is Ok,
    ensures
        ({
            let (after_first, first) = upload_spec(
                rows,
                first_pubkey,
                payload,
                allowed,
                base,
                first_now,
            );
            let (after_second, second) = upload_spec(
                after_first,
                second_pubkey,
                payload,
                allowed,
                base,
                second_now,
            );
            let h = sha256_hex(payload);
            &&& unique_hashes(after_first)
            &&& after_second == after_first
            &&& second == first
            &&& first matches Ok(d) && d.hash == h
            &&& has_hash(after_second, h)
            &&& forall|i: int, j: int|
                0 <= i < after_second.len() && 0 <= j < after_second.len()
                    && #[trigger] after_second[i].hash == h && #[trigger] after_second[j].hash == h
                    ==> i == j
            &&& lookup(after_second, h) matches Some(b) && (has_hash(rows, h) ==> lookup(rows, h)
                == Some(b)) && (!has_hash(rows, h) ==> b.pubkey == first_pubkey)
        }),
{
    let h = sha256_hex(payload);
    let after_first = upload_spec(rows, first_pubkey, payload, allowed, base, first_now).0;
    if has_hash(rows, h) {
        let i = index_of(rows, h);
        lemma_lookup_at(rows, i);
    } else {
        let r = new_record(first_pubkey, payload, first_now);
        assert(after_first == rows.push(r));
        assert forall|i: int, j: int|
            0 <= i < after_first.len() && 0 <= j < after_first.len() && #[trigger] after_first[i].hash
                == #[trigger] after_first[j].hash implies i == j by {
            if i < rows.len() && j == rows.len() {
                assert(rows[i].hash == h);
            }
            if j < rows.len() && i == rows.len() {
                assert(rows[j].hash == h);
            }
        }
        lemma_lookup_at(after_first, rows.len() as int);
    }
}

/// A successful upload describes the uploaded payload itself: its digest, its
/// sniffed type (the generic binary type when no signature matches) and its
/// length, whether the bytes were new or already stored.
pub proof fn lemma_upload_describes_payload(
    rows: Seq<BlobRecord>,
    pubkey: Seq<char>,
    payload: Seq<u8>,
    allowed: Seq<Seq<char>>,
    base: Seq<char>,
    now: int,
)
    requires
        rows_consistent(rows),
    ensures
        upload_spec(rows, pubkey, payload, allowed, base, now).1 matches Ok(d) ==> {
            &&& d.hash == sha256_hex(payload)
            &&& d.mime_type == classify_spec(payload)
            &&& d.size == payload.len()
        },
{
    let h = sha256_hex(payload);
    if has_hash(rows, h) {
        let i = index_of(rows, h);
        assert(row_consistent(rows[i]));
    }
}

} // verus!
