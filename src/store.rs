use vstd::prelude::*;

use crate::blossom::sha256_hex;
use crate::mime::classify_spec;

verus! {

/// What a stored blob is, as values.
pub struct BlobRecord {
    pub pubkey: Seq<char>,
    pub hash: Seq<char>,
    pub mime_type: Seq<char>,
    pub size: int,
    pub created: int,
    pub blob: Seq<u8>,
}

/// A stored blob: one row of the content-addressed table.
pub struct GetBlob {
    /// Public key of the first uploader, hex.
    pub pubkey: String,
    /// SHA-256 of the payload, lower-case hex; the row's key.
    pub hash: String,
    pub mime_type: String,
    pub size: u64,
    /// UNIX seconds of the first successful insertion.
    pub created: i64,
    pub blob: Vec<u8>,
}

/// A stored blob without its payload, as listings give it.
pub struct DbBlob {
    pub pubkey: String,
    pub hash: String,
    pub mime_type: String,
    pub size: u64,
    pub created: i64,
}

impl View for GetBlob {
    type V = BlobRecord;

    open spec fn view(&self) -> BlobRecord {
        BlobRecord {
            pubkey: self.pubkey@,
            hash: self.hash@,
            mime_type: self.mime_type@,
            size: self.size as int,
            created: self.created as int,
            blob: self.blob@,
        }
    }
}

/// The payload-free part of a record.
pub open spec fn summary(r: BlobRecord) -> BlobRecord {
    BlobRecord { blob: Seq::empty(), ..r }
}

impl View for DbBlob {
    type V = BlobRecord;

    open spec fn view(&self) -> BlobRecord {
        BlobRecord {
            pubkey: self.pubkey@,
            hash: self.hash@,
            mime_type: self.mime_type@,
            size: self.size as int,
            created: self.created as int,
            blob: Seq::empty(),
        }
    }
}

impl GetBlob {
    /// A copy of this row.
    pub fn duplicate(&self) -> (r: GetBlob)
        ensures
            r@ == self@,
    {
        GetBlob {
            pubkey: self.pubkey.clone(),
            hash: self.hash.clone(),
            mime_type: self.mime_type.clone(),
            size: self.size,
            created: self.created,
            blob: self.blob.clone(),
        }
    }
}

/// Some row of `rows` has digest `h`.
pub open spec fn has_hash(rows: Seq<BlobRecord>, h: Seq<char>) -> bool {
    exists|i: int| 0 <= i < rows.len() && #[trigger] rows[i].hash == h
}

/// The position of the row with digest `h`.
pub open spec fn index_of(rows: Seq<BlobRecord>, h: Seq<char>) -> int {
    choose|i: int| 0 <= i < rows.len() && #[trigger] rows[i].hash == h
}

/// The row with digest `h`, if there is one.
pub open spec fn lookup(rows: Seq<BlobRecord>, h: Seq<char>) -> Option<BlobRecord> {
    if has_hash(rows, h) {
        Some(rows[index_of(rows, h)])
    } else {
        None
    }
}

/// A row's digest, type and size are those of its payload.
pub open spec fn row_consistent(r: BlobRecord) -> bool {
    &&& r.hash == sha256_hex(r.blob)
    &&& r.mime_type == classify_spec(r.blob)
    &&& r.size == r.blob.len()
}

/// Every row is consistent with its payload.
pub open spec fn rows_consistent(rows: Seq<BlobRecord>) -> bool {
    forall|i: int| 0 <= i < rows.len() ==> row_consistent(#[trigger] rows[i])
}

/// No two rows share a digest.
pub open spec fn unique_hashes(rows: Seq<BlobRecord>) -> bool {
    forall|i: int, j: int|
        0 <= i < rows.len() && 0 <= j < rows.len() && #[trigger] rows[i].hash
            == #[trigger] rows[j].hash ==> i == j
}

/// The table after inserting `r` unless a row with its digest is present.
pub open spec fn insert_if_absent_spec(rows: Seq<BlobRecord>, r: BlobRecord) -> Seq<BlobRecord> {
    if has_hash(rows, r.hash) {
        rows
    } else {
        rows.push(r)
    }
}

/// The table without the row with digest `h`.
pub open spec fn remove_hash(rows: Seq<BlobRecord>, h: Seq<char>) -> Seq<BlobRecord> {
    if has_hash(rows, h) {
        rows.remove(index_of(rows, h))
    } else {
        rows
    }
}

/// The rows that `pubkey` owns, without payloads, in insertion order.
pub open spec fn owned_rows(rows: Seq<BlobRecord>, pubkey: Seq<char>) -> Seq<BlobRecord>
    decreases rows.len(),
{
    if rows.len() == 0 {
        Seq::empty()
    } else {
        let rest = owned_rows(rows.drop_last(), pubkey);
        if rows.last().pubkey == pubkey {
            rest.push(summary(rows.last()))
        } else {
            rest
        }
    }
}

/// With unique digests, the row found at `i` is the one `lookup` gives.
pub proof fn lemma_lookup_at(rows: Seq<BlobRecord>, i: int)
    requires
        unique_hashes(rows),
        0 <= i < rows.len(),
    ensures
        has_hash(rows, rows[i].hash),
        index_of(rows, rows[i].hash) == i,
        lookup(rows, rows[i].hash) == Some(rows[i]),
{
    let h = rows[i].hash;
    assert(has_hash(rows, h));
    let k = index_of(rows, h);
    assert(rows[k].hash == rows[i].hash);
}

/// The content-addressed table: rows in insertion order, at most one per digest.
pub struct BlobStore {
    rows: Vec<GetBlob>,
}

impl View for BlobStore {
    type V = Seq<BlobRecord>;

    closed spec fn view(&self) -> Seq<BlobRecord> {
        self.rows@.map_values(|r: GetBlob| r@)
    }
}

impl BlobStore {
    /// No two rows share a digest, and each row's digest, type and size are
    /// those of its payload.
    pub open spec fn wf(&self) -> bool {
        unique_hashes(self@) && rows_consistent(self@)
    }

    /// An empty table.
    pub fn new() -> (s: BlobStore)
        ensures
            s.wf(),
            s@ == Seq::<BlobRecord>::empty(),
    {
        let s = BlobStore { rows: Vec::new() };
        assert(s@ =~= Seq::<BlobRecord>::empty());
        s
    }

    /// Number of rows.
    pub fn len(&self) -> (n: usize)
        ensures
            n == self@.len(),
    {
        self.rows.len()
    }

    fn find(&self, hash: &str) -> (r: Option<usize>)
        ensures
            match r {
                Some(i) => i < self@.len() && self@[i as int].hash == hash@,
                None => !has_hash(self@, hash@),
            },
    {
        let key = hash.to_owned();
        let mut i: usize = 0;
        while i < self.rows.len()
            invariant
                i <= self.rows.len(),
                key@ == hash@,
                forall|j: int| 0 <= j < i ==> (#[trigger] self@[j]).hash != hash@,
            decreases self.rows.len() - i,
        {
            if self.rows[i].hash == key {
                return Some(i);
            }
            i = i + 1;
        }
        None
    }

    /// The row with digest `hash`.
    pub fn get(&self, hash: &str) -> (r: Option<GetBlob>)
        requires
            self.wf(),
        ensures
            match r {
                Some(b) => lookup(self@, hash@) == Some(b@),
                None => lookup(self@, hash@) is None,
            },
    {
        match self.find(hash) {
            Some(i) => {
                proof {
                    lemma_lookup_at(self@, i as int);
                }
                Some(self.rows[i].duplicate())
            },
            None => None,
        }
    }

    /// Stores `row` unless a row with its digest is present, and gives the row
    /// that the table then holds for that digest.
    pub fn insert_if_absent(&mut self, row: GetBlob) -> (r: GetBlob)
        requires
            old(self).wf(),
            row_consistent(row@),
        ensures
            final(self).wf(),
            final(self)@ == insert_if_absent_spec(old(self)@, row@),
            r@ == match lookup(old(self)@, row@.hash) {
                Some(existing) => existing,
                None => row@,
            },
    {
        match self.find(row.hash.as_str()) {
            Some(i) => {
                proof {
                    lemma_lookup_at(self@, i as int);
                }
                self.rows[i].duplicate()
            },
            None => {
                let ghost before = self@;
                let copy = row.duplicate();
                self.rows.push(copy);
                assert(self@ =~= before.push(row@));
                assert forall|i: int, j: int|
                    0 <= i < self@.len() && 0 <= j < self@.len() && #[trigger] self@[i].hash
                        == #[trigger] self@[j].hash implies i == j by {
                    if i < before.len() && j == before.len() {
                        assert(before[i].hash == row@.hash);
                    }
                    if j < before.len() && i == before.len() {
                        assert(before[j].hash == row@.hash);
                    }
                }
                row
            },
        }
    }

    /// Removes the row with digest `hash`; tells whether there was one.
    pub fn delete(&mut self, hash: &str) -> (r: bool)
        requires
            old(self).wf(),
        ensures
            final(self).wf(),
            r == has_hash(old(self)@, hash@),
            final(self)@ == remove_hash(old(self)@, hash@),
    {
        match self.find(hash) {
            Some(i) => {
                proof {
                    lemma_lookup_at(self@, i as int);
                }
                let ghost before = self@;
                self.rows.remove(i);
                assert(self@ =~= before.remove(i as int));
                assert forall|a: int, b: int|
                    0 <= a < self@.len() && 0 <= b < self@.len() && #[trigger] self@[a].hash
                        == #[trigger] self@[b].hash implies a == b by {
                    let a0 = if a < i { a } else { a + 1 };
                    let b0 = if b < i { b } else { b + 1 };
                    assert(before[a0].hash == before[b0].hash);
                }
                true
            },
            None => false,
        }
    }

    /// The rows that `pubkey` owns, without payloads, in insertion order.
    pub fn list_by_owner(&self, pubkey: &str) -> (r: Vec<DbBlob>)
        ensures
            r@.map_values(|d: DbBlob| d@) == owned_rows(self@, pubkey@),
    {
        let key = pubkey.to_owned();
        let mut out: Vec<DbBlob> = Vec::new();
        let mut i: usize = 0;
        while i < self.rows.len()
            invariant
                i <= self.rows.len(),
                key@ == pubkey@,
                out@.map_values(|d: DbBlob| d@) == owned_rows(self@.take(i as int), pubkey@),
            decreases self.rows.len() - i,
        {
            let row = &self.rows[i];
            let ghost prev = out@;
            assert(self@.take(i + 1).drop_last() =~= self@.take(i as int));
            assert(self@.take(i + 1).last() == row@);
            if row.pubkey == key {
                let d = DbBlob {
                    pubkey: row.pubkey.clone(),
                    hash: row.hash.clone(),
                    mime_type: row.mime_type.clone(),
                    size: row.size,
                    created: row.created,
                };
                out.push(d);
                assert(out@.map_values(|d: DbBlob| d@) =~= prev.map_values(|d: DbBlob| d@).push(
                    summary(row@),
                ));
            }
            i = i + 1;
        }
        assert(self@.take(self.rows.len() as int) =~= self@);
        out
    }
}

} // verus!
