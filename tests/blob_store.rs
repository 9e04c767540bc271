use base64::Engine;
use nostr::event::{Event, EventBuilder, FinalizeEvent, Kind, Tag};
use nostr::key::Keys;
use nostr::types::Timestamp;
use rust_blossom_server::api::{
    delete, get, get_with_ext, has, has_with_ext, list, upload, upload_at, DeleteError,
    GetBlobError, HasBlobError, UploadError,
};
use rust_blossom_server::auth::AuthError;
use rust_blossom_server::blossom::{blob_url, compute_digest};
use rust_blossom_server::config::CdnConfig;
use rust_blossom_server::mime::classify;
use rust_blossom_server::handlers::{handle_delete, handle_upload, DeleteRejection, UploadRejection};
use rust_blossom_server::store::{BlobStore, GetBlob};
use rust_blossom_server::whitelist::PubkeyWhitelistMiddleware;

const BASE: &str = "https://cdn.example.com";

fn jpeg(len: usize) -> Vec<u8> {
    let mut bytes = vec![0u8; len];
    bytes[0] = 0xFF;
    bytes[1] = 0xD8;
    bytes[2] = 0xFF;
    bytes
}

fn signed(keys: &Keys, tags: Vec<Tag>) -> Event {
    EventBuilder::new(Kind::Custom(24242), "auth event")
        .tags(tags)
        .finalize(keys)
        .unwrap()
}

fn header(keys: &Keys, action: &str, extra: Tag) -> String {
    let expiration = Timestamp::from_secs(Timestamp::now().as_secs() + 1000);
    let event = signed(keys, vec![Tag::hashtag(action), extra, Tag::expiration(expiration)]);
    let json = serde_json::to_string(&event).unwrap();
    format!("Nostr {}", base64::engine::general_purpose::STANDARD.encode(json))
}

fn upload_header(keys: &Keys, size: usize) -> String {
    header(keys, "upload", Tag::parse(["size", &size.to_string()]).unwrap())
}

fn cdn(allowed_mime_types: Vec<String>) -> CdnConfig {
    CdnConfig {
        base_url: BASE.to_string(),
        whitelisted_pubkeys: Vec::new(),
        max_upload_size_bytes: 2_097_152,
        min_upload_size_bytes: 1,
        allowed_mime_types,
    }
}

fn open_whitelist() -> PubkeyWhitelistMiddleware {
    PubkeyWhitelistMiddleware::new(Vec::new())
}

#[test]
fn upload_jpeg_with_valid_token() {
    let keys = Keys::generate();
    let mut store = BlobStore::new();
    let payload = jpeg(36194);
    let auth = upload_header(&keys, 36194);
    let d = handle_upload(&mut store, Some(&auth), &payload, &open_whitelist(), &cdn(Vec::new()))
        .unwrap();
    assert_eq!(d.size, 36194);
    assert_eq!(d.mime_type, "image/jpeg");
    assert_eq!(d.pubkey, keys.public_key().to_hex());
    assert_eq!(d.hash, compute_digest(&payload));
    assert_eq!(d.url, format!("{}/{}", BASE, d.hash));
    assert!(d.created > 0);
    assert_eq!(store.len(), 1);
}

#[test]
fn repeated_upload_is_deduplicated() {
    let mut store = BlobStore::new();
    let payload = jpeg(36194);
    let first_keys = Keys::generate();
    let first_auth = upload_header(&first_keys, 36194);
    let first =
        handle_upload(&mut store, Some(&first_auth), &payload, &open_whitelist(), &cdn(Vec::new()))
            .unwrap();
    let second_keys = Keys::generate();
    let second_auth = upload_header(&second_keys, 36194);
    let second =
        handle_upload(&mut store, Some(&second_auth), &payload, &open_whitelist(), &cdn(Vec::new()))
            .unwrap();
    assert_eq!(second.hash, first.hash);
    assert_eq!(second.created, first.created);
    assert_eq!(second.pubkey, first_keys.public_key().to_hex());
    assert_eq!(store.len(), 1);
}

#[test]
fn size_tag_mismatch_writes_nothing() {
    let keys = Keys::generate();
    let mut store = BlobStore::new();
    let payload = jpeg(36194);
    let auth = upload_header(&keys, 36193);
    let r = handle_upload(&mut store, Some(&auth), &payload, &open_whitelist(), &cdn(Vec::new()));
    assert_eq!(r.err(), Some(UploadRejection::Unauthorized(AuthError::SizeMismatch)));
    assert_eq!(store.len(), 0);
}

#[test]
fn payload_outside_bounds_is_refused() {
    let keys = Keys::generate();
    let mut store = BlobStore::new();
    let mut small = cdn(Vec::new());
    small.max_upload_size_bytes = 8;
    let payload = jpeg(9);
    let auth = upload_header(&keys, 9);
    let r = handle_upload(&mut store, Some(&auth), &payload, &open_whitelist(), &small);
    let e = r.err().unwrap();
    assert_eq!(e, UploadRejection::PayloadOutOfRange);
    assert_eq!(e.status_code(), 401);
    let r = handle_upload(&mut store, Some(&auth), &Vec::new(), &open_whitelist(), &small);
    assert_eq!(r.err(), Some(UploadRejection::PayloadOutOfRange));
    assert_eq!(store.len(), 0);
}

#[test]
fn missing_header_is_unauthorized() {
    let mut store = BlobStore::new();
    let r = handle_upload(&mut store, None, &jpeg(10), &open_whitelist(), &cdn(Vec::new()));
    let e = r.err().unwrap();
    assert_eq!(e, UploadRejection::Unauthorized(AuthError::MissingAuthorizationHeader));
    assert_eq!(e.status_code(), 401);
    assert_eq!(store.len(), 0);
}

#[test]
fn signer_off_the_whitelist_is_forbidden() {
    let keys = Keys::generate();
    let other = Keys::generate();
    let mut store = BlobStore::new();
    let payload = jpeg(64);
    let auth = upload_header(&keys, 64);
    let whitelist = PubkeyWhitelistMiddleware::new(vec![other.public_key().to_hex()]);
    let r = handle_upload(&mut store, Some(&auth), &payload, &whitelist, &cdn(Vec::new()));
    let e = r.err().unwrap();
    assert_eq!(e, UploadRejection::Forbidden);
    assert_eq!(e.status_code(), 403);
    assert_eq!(store.len(), 0);
    let whitelist = PubkeyWhitelistMiddleware::new(vec![keys.public_key().to_hex()]);
    let r = handle_upload(&mut store, Some(&auth), &payload, &whitelist, &cdn(Vec::new()));
    assert!(r.is_ok());
}

#[test]
fn disallowed_mime_type_is_rejected() {
    let keys = Keys::generate();
    let mut store = BlobStore::new();
    let payload = vec![1u8, 2, 3, 4];
    let auth = upload_header(&keys, 4);
    let allowed = vec!["image/jpeg".to_string()];
    let r = handle_upload(&mut store, Some(&auth), &payload, &open_whitelist(), &cdn(allowed));
    let e = r.err().unwrap();
    assert_eq!(e, UploadRejection::Rejected(UploadError::MimeTypeNotAllowed));
    assert_eq!(e.status_code(), 400);
    assert_eq!(store.len(), 0);
}

#[test]
fn upload_records_octet_stream_for_unknown_content() {
    let mut store = BlobStore::new();
    let d = upload_at(&mut store, "ab", &vec![1u8, 2, 3], &Vec::new(), BASE, 77).unwrap();
    assert_eq!(d.mime_type, "application/octet-stream");
    assert_eq!(d.created, 77);
    assert_eq!(d.size, 3);
    assert_eq!(d.pubkey, "ab");
    assert_eq!(
        d.hash,
        "039058c6f2c0cb492c533b0a4d14ef77cc0f78abccced5287d84a1a2011cfb81"
    );
}

#[test]
fn upload_stamps_current_time() {
    let mut store = BlobStore::new();
    let before = Timestamp::now().as_secs() as i64;
    let d = upload(&mut store, "ab", &vec![9u8; 5], &Vec::new(), BASE).unwrap();
    assert!(d.created >= before);
}

#[test]
fn fetch_unknown_digest_is_not_found() {
    let mut store = BlobStore::new();
    upload_at(&mut store, "ab", &vec![1u8], &Vec::new(), BASE, 1).unwrap();
    let r = get(&store, "0000");
    let e = r.err().unwrap();
    assert_eq!(e, GetBlobError::NotFoundError);
    assert_eq!(e.status_code(), 404);
    assert_eq!(has(&store, "0000"), Err(HasBlobError::NotFoundError));
    assert_eq!(store.len(), 1);
}

#[test]
fn fetch_and_has_find_stored_blob() {
    let mut store = BlobStore::new();
    let payload = jpeg(16);
    let d = upload_at(&mut store, "ab", &payload, &Vec::new(), BASE, 5).unwrap();
    let b: GetBlob = get(&store, &d.hash).unwrap();
    assert_eq!(b.blob, payload);
    assert_eq!(b.mime_type, "image/jpeg");
    let b = get_with_ext(&store, &d.hash, "jpg").unwrap();
    assert_eq!(b.size, 16);
    assert_eq!(has(&store, &d.hash), Ok(()));
    assert_eq!(has_with_ext(&store, &d.hash, "jpg"), Ok(()));
}

#[test]
fn delete_by_owner_only() {
    let mut store = BlobStore::new();
    let d = upload_at(&mut store, "owner", &vec![4u8, 5], &Vec::new(), BASE, 5).unwrap();
    let e = delete(&mut store, &d.hash, "someone").err().unwrap();
    assert_eq!(e, DeleteError::Forbidden);
    assert_eq!(e.status_code(), 403);
    assert_eq!(store.len(), 1);
    assert_eq!(delete(&mut store, &d.hash, "owner"), Ok(()));
    assert_eq!(store.len(), 0);
    let e = delete(&mut store, &d.hash, "owner").err().unwrap();
    assert_eq!(e, DeleteError::NotFoundError);
    assert_eq!(e.status_code(), 404);
}

#[test]
fn handle_delete_checks_token_and_owner() {
    let keys = Keys::generate();
    let mut store = BlobStore::new();
    let payload = jpeg(20);
    let d = upload_at(&mut store, &keys.public_key().to_hex(), &payload, &Vec::new(), BASE, 5)
        .unwrap();
    let target = Tag::parse(["x", d.hash.as_str()]).unwrap();
    let wrong = header(&keys, "upload", target.clone());
    assert_eq!(
        handle_delete(&mut store, Some(&wrong), &d.hash),
        Err(DeleteRejection::Unauthorized(AuthError::ActionMismatch))
    );
    let stranger = Keys::generate();
    let foreign = header(&stranger, "delete", target.clone());
    let r = handle_delete(&mut store, Some(&foreign), &d.hash);
    assert_eq!(r, Err(DeleteRejection::Rejected(DeleteError::Forbidden)));
    assert_eq!(r.err().unwrap().status_code(), 403);
    let elsewhere = Tag::parse(["x", "0000"]).unwrap();
    let unbound = header(&keys, "delete", elsewhere);
    assert_eq!(
        handle_delete(&mut store, Some(&unbound), &d.hash),
        Err(DeleteRejection::Unauthorized(AuthError::TargetMismatch))
    );
    assert_eq!(store.len(), 1);
    let own = header(&keys, "delete", target);
    assert_eq!(handle_delete(&mut store, Some(&own), &d.hash), Ok(()));
    assert_eq!(store.len(), 0);
    assert_eq!(
        handle_delete(&mut store, None, &d.hash).err().unwrap().status_code(),
        401
    );
}

#[test]
fn list_gives_owned_blobs_in_upload_order() {
    let mut store = BlobStore::new();
    let a = upload_at(&mut store, "alice", &vec![1u8], &Vec::new(), BASE, 1).unwrap();
    upload_at(&mut store, "bob", &vec![2u8], &Vec::new(), BASE, 2).unwrap();
    let c = upload_at(&mut store, "alice", &vec![3u8], &Vec::new(), BASE, 3).unwrap();
    let listed = list(&store, "alice", BASE);
    assert_eq!(listed.len(), 2);
    assert_eq!(listed[0].hash, a.hash);
    assert_eq!(listed[1].hash, c.hash);
    assert_eq!(listed[1].url, format!("{}/{}", BASE, c.hash));
    assert_eq!(listed[1].created, 3);
    assert!(list(&store, "carol", BASE).is_empty());
}

#[test]
fn store_insert_if_absent_keeps_first_row() {
    let mut store = BlobStore::new();
    let blob = vec![1u8];
    let hash = compute_digest(&blob);
    let row = |owner: &str, created: i64| GetBlob {
        pubkey: owner.to_string(),
        hash: hash.clone(),
        mime_type: classify(&blob),
        size: 1,
        created,
        blob: blob.clone(),
    };
    let first = store.insert_if_absent(row("a", 1));
    let second = store.insert_if_absent(row("b", 2));
    assert_eq!(first.pubkey, "a");
    assert_eq!(second.pubkey, "a");
    assert_eq!(second.created, 1);
    assert_eq!(store.len(), 1);
    assert_eq!(store.list_by_owner("b").len(), 0);
    assert!(store.delete(&hash));
    assert!(!store.delete(&hash));
}

#[test]
fn digest_is_deterministic() {
    let a = compute_digest(b"hello");
    let b = compute_digest(b"hello");
    assert_eq!(a, b);
    assert_eq!(a, "2cf24dba5fb0a30e26e83b2ac5b9e29e1b161e5c1fa7425e73043362938b9824");
    assert_ne!(compute_digest(b"hello!"), a);
    assert_ne!(compute_digest(&jpeg(36194)), compute_digest(&jpeg(36193)));
}

#[test]
fn upload_error_messages_and_statuses() {
    assert_eq!(UploadError::MimeTypeNotAllowed.message(), "mime type not allowed");
    assert_eq!(UploadError::MimeTypeNotAllowed.status_code(), 400);
    assert_eq!(UploadError::StorageError.message(), "failed to insert blob into DB");
    assert_eq!(UploadError::StorageError.status_code(), 500);
}

#[test]
fn dedup_answer_describes_the_payload() {
    let mut store = BlobStore::new();
    let payload = vec![7u8, 7, 7];
    let first = upload_at(&mut store, "a", &payload, &Vec::new(), BASE, 1).unwrap();
    let second = upload_at(&mut store, "b", &payload, &Vec::new(), BASE, 2).unwrap();
    assert_eq!(second.mime_type, "application/octet-stream");
    assert_eq!(second.size, 3);
    assert_eq!(second.created, first.created);
    assert_eq!(second.pubkey, "a");
}

#[test]
fn blob_url_joins_base_and_digest() {
    assert_eq!(blob_url("http://h", "abc"), "http://h/abc");
}
