use vstd::prelude::*;

use crate::action::Action;
use crate::api::{delete, delete_spec, upload, upload_spec, DeleteError, UploadError};
use crate::api::descriptor_result;
use crate::auth::{find_tag_value, size_of, tag_value, AuthError};
use crate::blossom::{BlobDescriptor, DescriptorRecord};
use crate::config::CdnConfig;
use crate::mime::list_admits;
use crate::store::{has_hash, BlobRecord, BlobStore};
use crate::api::new_record;
use crate::blossom::{descriptor_of, sha256_hex};
use crate::mime::classify_spec;
use crate::token::{header_event, parts_verdict};
use crate::token::{authorize_event, authorize_event_spec, authorize_spec, header_of, verify_upload};
use crate::whitelist::{PubkeyWhitelistMiddleware, WhitelistDecision};

verus! {

/// Why an upload request was turned away.
#[derive(PartialEq, Eq, Structural, Clone, Copy, Debug)]
pub enum UploadRejection {
    /// The payload is shorter or longer than the configured bounds.
    PayloadOutOfRange,
    Unauthorized(AuthError),
    /// The signer is not on the whitelist.
    Forbidden,
    Rejected(UploadError),
}

/// Why a delete request was turned away.
#[derive(PartialEq, Eq, Structural, Clone, Copy, Debug)]
pub enum DeleteRejection {
    Unauthorized(AuthError),
    Rejected(DeleteError),
}

impl UploadRejection {
    /// The HTTP status that reports this rejection.
    pub fn status_code(&self) -> (r: u16)
        ensures
            r == match self {
                UploadRejection::PayloadOutOfRange => 401u16,
                UploadRejection::Unauthorized(_) => 401u16,
                UploadRejection::Forbidden => 403u16,
                UploadRejection::Rejected(e) => if e == UploadError::MimeTypeNotAllowed {
                    400u16
                } else {
                    500u16
                },
            },
    {
        match self {
            UploadRejection::PayloadOutOfRange => 401,
            UploadRejection::Unauthorized(_) => 401,
            UploadRejection::Forbidden => 403,
            UploadRejection::Rejected(e) => e.status_code(),
        }
    }
}

impl DeleteRejection {
    /// The HTTP status that reports this rejection.
    pub fn status_code(&self) -> (r: u16)
        ensures
            r == match self {
                DeleteRejection::Unauthorized(_) => 401u16,
                DeleteRejection::Rejected(e) => if e == DeleteError::NotFoundError {
                    404u16
                } else {
                    403u16
                },
            },
    {
        match self {
            DeleteRejection::Unauthorized(_) => 401,
            DeleteRejection::Rejected(e) => e.status_code(),
        }
    }
}

/// The table and the answer after an upload request with `header` and
/// `payload`, the token checked at time `at` and a new row stamped `now`: the
/// payload's length against the bounds, the token against that length, the
/// signer against the whitelist, and only then the store.
pub open spec fn upload_request_spec(
    rows: Seq<BlobRecord>,
    header: Option<Seq<char>>,
    payload: Seq<u8>,
    whitelist: Seq<Seq<char>>,
    cdn: CdnConfig,
    at: int,
    now: int,
) -> (Seq<BlobRecord>, Result<DescriptorRecord, UploadRejection>) {
    if !(cdn.min_upload_size_bytes <= payload.len() <= cdn.max_upload_size_bytes) {
        (rows, Err(UploadRejection::PayloadOutOfRange))
    } else {
        match authorize_spec(header, Action::Upload, payload.len() as int, at) {
            Err(e) => (rows, Err(UploadRejection::Unauthorized(e))),
            Ok(pk) => if !list_admits(whitelist, pk) {
                (rows, Err(UploadRejection::Forbidden))
            } else {
                let (after, answer) = upload_spec(
                    rows,
                    pk,
                    payload,
                    cdn.allowed_mime_types.deep_view(),
                    cdn.base_url@,
                    now,
                );
                (
                    after,
                    match answer {
                        Ok(d) => Ok(d),
                        Err(e) => Err(UploadRejection::Rejected(e)),
                    },
                )
            },
        }
    }
}

/// The table and the answer after a request with `header` to delete the blob
/// stored under `hash`, the token checked at time `now`: the token must
/// authorize a delete of exactly that digest, and its signer must own the blob.
pub open spec fn delete_request_spec(
    rows: Seq<BlobRecord>,
    header: Option<Seq<char>>,
    hash: Seq<char>,
    now: int,
) -> (Seq<BlobRecord>, Result<(), DeleteRejection>) {
    match authorize_event_spec(header, Action::Delete, 0, now) {
        Err(e) => (rows, Err(DeleteRejection::Unauthorized(e))),
        Ok(p) => if tag_value(p.4, "x"@) != Some(Some(hash)) {
            (rows, Err(DeleteRejection::Unauthorized(AuthError::TargetMismatch)))
        } else {
            let (after, answer) = delete_spec(rows, hash, p.1);
            (
                after,
                match answer {
                    Ok(()) => Ok(()),
                    Err(d) => Err(DeleteRejection::Rejected(d)),
                },
            )
        },
    }
}

/// Serves an upload: the payload's length is checked against the configured
/// bounds, the token against that length, then the signer against the
/// whitelist, and only then is the store touched.
pub fn handle_upload(
    store: &mut BlobStore,
    authorization: Option<&str>,
    payload: &Vec<u8>,
    whitelist: &PubkeyWhitelistMiddleware,
    cdn: &CdnConfig,
) -> (r: Result<BlobDescriptor, UploadRejection>)
    requires
        old(store).wf(),
    ensures
        final(store).wf(),
        exists|at: u64, now: i64|
            (final(store)@, descriptor_result(r)) == #[trigger] upload_request_spec(
                old(store)@,
                header_of(authorization),
                payload@,
                whitelist.whitelisted_pubkeys.deep_view(),
                *cdn,
                at as int,
                now as int,
            ),
{
    if !cdn.fits_upload_size(payload.len()) {
        assert((store@, descriptor_result(Err(UploadRejection::PayloadOutOfRange)))
            == upload_request_spec(
            store@,
            header_of(authorization),
            payload@,
            whitelist.whitelisted_pubkeys.deep_view(),
            *cdn,
            0,
            0,
        ));
        return Err(UploadRejection::PayloadOutOfRange);
    }
    let verdict = verify_upload(authorization, payload.len());
    let ghost at = choose|at: u64|
        #[trigger] authorize_spec(
            header_of(authorization),
            Action::Upload,
            payload@.len() as int,
            at as int,
        ) == crate::token::key_result(verdict);
    let pubkey = match verdict {
        Err(e) => {
            assert((store@, descriptor_result(Err(UploadRejection::Unauthorized(e))))
                == upload_request_spec(
                store@,
                header_of(authorization),
                payload@,
                whitelist.whitelisted_pubkeys.deep_view(),
                *cdn,
                at as int,
                0,
            ));
            return Err(UploadRejection::Unauthorized(e));
        },
        Ok(pk) => pk,
    };
    match whitelist.call(Some(pubkey.as_str())) {
        WhitelistDecision::Forward => {},
        _ => {
            assert((store@, descriptor_result(Err(UploadRejection::Forbidden)))
                == upload_request_spec(
                store@,
                header_of(authorization),
                payload@,
                whitelist.whitelisted_pubkeys.deep_view(),
                *cdn,
                at as int,
                0,
            ));
            return Err(UploadRejection::Forbidden);
        },
    }
    let ghost before = store@;
    let answer = upload(store, pubkey.as_str(), payload, &cdn.allowed_mime_types, cdn.base_url.as_str());
    let ghost now = choose|now: i64|
        (store@, descriptor_result(answer)) == #[trigger] upload_spec(
            before,
            pubkey@,
            payload@,
            cdn.allowed_mime_types.deep_view(),
            cdn.base_url@,
            now as int,
        );
    let r = match answer {
        Ok(d) => Ok(d),
        Err(e) => Err(UploadRejection::Rejected(e)),
    };
    assert((store@, descriptor_result(r)) == upload_request_spec(
        before,
        header_of(authorization),
        payload@,
        whitelist.whitelisted_pubkeys.deep_view(),
        *cdn,
        at as int,
        now as int,
    ));
    r
}

/// Serves a delete: the token must authorize a delete of exactly this digest,
/// and its signer must own the blob.
pub fn handle_delete(store: &mut BlobStore, authorization: Option<&str>, hash: &str) -> (r: Result<
    (),
    DeleteRejection,
>)
    requires
        old(store).wf(),
    ensures
        final(store).wf(),
        exists|now: u64|
            (final(store)@, r) == #[trigger] delete_request_spec(
                old(store)@,
                header_of(authorization),
                hash@,
                now as int,
            ),
{
    let verdict = authorize_event(authorization, Action::Delete, 0);
    let ghost now = choose|now: u64|
        #[trigger] authorize_event_spec(header_of(authorization), Action::Delete, 0, now as int)
            == crate::token::event_result(verdict);
    let event = match verdict {
        Err(e) => {
            assert((store@, Err::<(), DeleteRejection>(DeleteRejection::Unauthorized(e)))
                == delete_request_spec(store@, header_of(authorization), hash@, now as int));
            return Err(DeleteRejection::Unauthorized(e));
        },
        Ok(event) => event,
    };
    let bound = match find_tag_value(&event.tags, "x") {
        Some(Some(target)) => target == hash.to_owned(),
        _ => false,
    };
    if !bound {
        let r = Err(DeleteRejection::Unauthorized(AuthError::TargetMismatch));
        assert((store@, r) == delete_request_spec(store@, header_of(authorization), hash@, now as int));
        return r;
    }
    let ghost before = store@;
    let r = match delete(store, hash, event.pubkey.as_str()) {
        Ok(()) => Ok(()),
        Err(e) => Err(DeleteRejection::Rejected(e)),
    };
    assert((store@, r) == delete_request_spec(before, header_of(authorization), hash@, now as int));
    r
}

/// An upload of new bytes within the bounds, whose token is accepted at the
/// time it is checked, whose signer is on the whitelist and whose sniffed type
/// is allowed, succeeds: the table gains exactly one row, made from the payload,
/// and the answer describes it, with the payload's length and sniffed type.
pub proof fn lemma_accepted_upload_stores_payload(
    rows: Seq<BlobRecord>,
    header: Option<Seq<char>>,
    pk: Seq<char>,
    payload: Seq<u8>,
    whitelist: Seq<Seq<char>>,
    cdn: CdnConfig,
    at: int,
    now: int,
)
    requires
        cdn.min_upload_size_bytes <= payload.len() <= cdn.max_upload_size_bytes,
        authorize_spec(header, Action::Upload, payload.len() as int, at) == Ok::<
            Seq<char>,
            AuthError,
        >(pk),
        list_admits(whitelist, pk),
        list_admits(cdn.allowed_mime_types.deep_view(), classify_spec(payload)),
        !has_hash(rows, sha256_hex(payload)),
    ensures
        ({
            let (after, answer) = upload_request_spec(rows, header, payload, whitelist, cdn, at, now);
            &&& after == rows.push(new_record(pk, payload, now))
            &&& answer == Ok::<DescriptorRecord, UploadRejection>(
                descriptor_of(new_record(pk, payload, now), cdn.base_url@),
            )
            &&& answer matches Ok(d) && d.size == payload.len() && d.mime_type == classify_spec(
                payload,
            ) && d.hash == sha256_hex(payload) && d.pubkey == pk
        }),
{
}

/// A header whose token declares a size other than the payload's length never
/// authorizes the upload, at any time: the table is left as it was, and when
/// the token is otherwise valid at that time the refusal is for its size.
pub proof fn lemma_size_mismatch_refused(
    rows: Seq<BlobRecord>,
    h: Seq<char>,
    p: crate::token::EventParts,
    n: int,
    payload: Seq<u8>,
    whitelist: Seq<Seq<char>>,
    cdn: CdnConfig,
    at: int,
    now: int,
)
    requires
        header_event(h) == Ok::<crate::token::EventParts, AuthError>(p),
        size_of(p.4) == Some(n),
        n != payload.len(),
    ensures
        authorize_spec(Some(h), Action::Upload, payload.len() as int, at) is Err,
        parts_verdict(p, Action::Upload, n, at) is Ok ==> authorize_spec(Some(h), Action::Upload, payload.len() as int, at) == Err::<
            Seq<char>,
            AuthError,
        >(AuthError::SizeMismatch),
        upload_request_spec(rows, Some(h), payload, whitelist, cdn, at, now).0 == rows,
        upload_request_spec(rows, Some(h), payload, whitelist, cdn, at, now).1 is Err,
{
}

} // verus!
