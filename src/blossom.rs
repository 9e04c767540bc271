use vstd::prelude::*;

use crate::store::{BlobRecord, DbBlob, GetBlob};

verus! {

/// The digest of a payload: lower-case hex of its SHA-256.
pub uninterp spec fn sha256_hex(bytes: Seq<u8>) -> Seq<char>;

/// Relies on `sha256::digest`, which hex-encodes the SHA-256 of the bytes: the
/// result depends on the bytes alone.
#[verifier::external_body]
fn sha256_digest(bytes: &[u8]) -> (r: String)
    ensures
        r@ == sha256_hex(bytes@),
{
    sha256::digest(bytes)
}

/// The content digest of `bytes`, the key under which they are stored.
pub fn compute_digest(bytes: &[u8]) -> (r: String)
    ensures
        r@ == sha256_hex(bytes@),
{
    sha256_digest(bytes)
}

/// What a descriptor says, as values.
pub struct DescriptorRecord {
    pub pubkey: Seq<char>,
    pub hash: Seq<char>,
    pub url: Seq<char>,
    pub mime_type: Seq<char>,
    pub size: int,
    pub created: int,
}

/// The public description of a stored blob.
pub struct BlobDescriptor {
    pub pubkey: String,
    pub hash: String,
    /// Where the blob can be fetched: the base address, a slash, the digest.
    pub url: String,
    pub mime_type: String,
    pub size: u64,
    pub created: i64,
}

impl View for BlobDescriptor {
    type V = DescriptorRecord;

    open spec fn view(&self) -> DescriptorRecord {
        DescriptorRecord {
            pubkey: self.pubkey@,
            hash: self.hash@,
            url: self.url@,
            mime_type: self.mime_type@,
            size: self.size as int,
            created: self.created as int,
        }
    }
}

/// The address of the blob with digest `hash` under `base`.
pub open spec fn url_of(base: Seq<char>, hash: Seq<char>) -> Seq<char> {
    base + "/"@ + hash
}

/// The descriptor of the stored blob `r`, its address under `base`.
pub open spec fn descriptor_of(r: BlobRecord, base: Seq<char>) -> DescriptorRecord {
    DescriptorRecord {
        pubkey: r.pubkey,
        hash: r.hash,
        url: url_of(base, r.hash),
        mime_type: r.mime_type,
        size: r.size,
        created: r.created,
    }
}

/// The address of the blob with digest `hash` under `base_url`.
pub fn blob_url(base_url: &str, hash: &str) -> (r: String)
    ensures
        r@ == url_of(base_url@, hash@),
{
    let mut url = base_url.to_owned();
    url.append("/");
    url.append(hash);
    url
}

impl BlobDescriptor {
    /// The descriptor of a stored row.
    pub fn from_row(row: &GetBlob, base_url: &str) -> (r: BlobDescriptor)
        ensures
            r@ == descriptor_of(row@, base_url@),
    {
        BlobDescriptor {
            pubkey: row.pubkey.clone(),
            hash: row.hash.clone(),
            url: blob_url(base_url, row.hash.as_str()),
            mime_type: row.mime_type.clone(),
            size: row.size,
            created: row.created,
        }
    }

    /// The descriptor of a listed row.
    pub fn from_listed(row: &DbBlob, base_url: &str) -> (r: BlobDescriptor)
        ensures
            r@ == descriptor_of(row@, base_url@),
    {
        BlobDescriptor {
            pubkey: row.pubkey.clone(),
            hash: row.hash.clone(),
            url: blob_url(base_url, row.hash.as_str()),
            mime_type: row.mime_type.clone(),
            size: row.size,
            created: row.created,
        }
    }
}

/// The digest is a function of the bytes: equal payloads get equal digests.
pub proof fn lemma_digest_deterministic(a: Seq<u8>, b: Seq<u8>)
    requires
        a == b,
    ensures
        sha256_hex(a) == sha256_hex(b),
{
}

} // verus!
