use vstd::prelude::*;

use base64::Engine;
use nostr::event::{Event, EventId, Kind, Signature, Tag};
use nostr::key::PublicKey;
use nostr::types::Timestamp;

use crate::action::Action;
use crate::auth::{auth_verdict, check_auth_event, claims_verdict, AuthError, AuthEvent};

verus! {

/// Whether nostr accepts the event made of these values: its id is the hash of
/// its content and its signature verifies against its public key.
pub uninterp spec fn nostr_signature_valid(
    id: Seq<char>,
    pubkey: Seq<char>,
    created_at: u64,
    kind: u16,
    tags: Seq<Seq<Seq<char>>>,
    content: Seq<char>,
    sig: Seq<char>,
) -> bool;

/// The parts of a nostr event, as values: id, public key, creation time, kind,
/// tags, content and signature, the keys and signature in lower-case hex.
pub type EventParts = (Seq<char>, Seq<char>, u64, u16, Seq<Seq<Seq<char>>>, Seq<char>, Seq<char>);

/// The event that nostr reads from these JSON bytes, if it reads one.
pub uninterp spec fn nostr_event_of(json: Seq<u8>) -> Option<
    (Seq<char>, Seq<char>, u64, u16, Seq<Seq<Seq<char>>>, Seq<char>, Seq<char>),
>;

/// The bytes that standard, padded base64 text decodes to, if it is valid.
pub uninterp spec fn base64_decoded(s: Seq<char>) -> Option<Seq<u8>>;

/// Whether the signature of `e` verifies.
pub open spec fn signature_valid(e: AuthEvent) -> bool {
    nostr_signature_valid(
        e.id@,
        e.pubkey@,
        e.created_at,
        e.kind,
        e.tags.deep_view(),
        e.content@,
        e.sig@,
    )
}

/// The parts of `e`.
pub open spec fn event_parts(e: AuthEvent) -> EventParts {
    (e.id@, e.pubkey@, e.created_at, e.kind, e.tags.deep_view(), e.content@, e.sig@)
}

/// The outcome of validating the event `p` for `action` on a payload of
/// `payload_size` bytes at time `now`.
pub open spec fn parts_verdict(p: EventParts, action: Action, payload_size: int, now: int) -> Result<
    (),
    AuthError,
> {
    claims_verdict(
        p.3,
        p.2,
        p.4,
        nostr_signature_valid(p.0, p.1, p.2, p.3, p.4, p.5, p.6),
        action,
        payload_size,
        now,
    )
}

/// Relies on `nostr::event::Event::verify`, on the event rebuilt from its parts: the
/// outcome depends on those parts alone. A part that nostr cannot read fails.
#[verifier::external_body]
fn verify_signature(e: &AuthEvent) -> (r: bool)
    ensures
        r == nostr_signature_valid(
            e.id@,
            e.pubkey@,
            e.created_at,
            e.kind,
            e.tags.deep_view(),
            e.content@,
            e.sig@,
        ),
{
    let tags: Result<Vec<Tag>, _> = e.tags.iter().map(|t| Tag::parse(t.clone())).collect();
    match (EventId::from_hex(&e.id), PublicKey::from_hex(&e.pubkey), Signature::from_hex(&e.sig), tags) {
        (Ok(id), Ok(pk), Ok(sig), Ok(tags)) => {
            let at = Timestamp::from_secs(e.created_at);
            Event::new(id, pk, at, Kind::from(e.kind), tags, e.content.clone(), sig).verify().is_ok()
        },
        _ => false,
    }
}

/// Relies on `nostr::types::Timestamp::now`: the current UNIX time in seconds.
#[verifier::external_body]
pub(crate) fn unix_now() -> u64 {
    Timestamp::now().as_secs()
}

/// Relies on `nostr::event::Event::from_json`, whose outcome depends on the bytes
/// alone; the event's parts are copied out as text and numbers.
#[verifier::external_body]
fn event_from_json(json: &[u8]) -> (r: Option<AuthEvent>)
    ensures
        match r {
            Some(e) => nostr_event_of(json@) == Some(event_parts(e)),
            None => nostr_event_of(json@) is None,
        },
{
    match Event::from_json(json) {
        Ok(ev) => Some(AuthEvent {
            id: ev.id.to_hex(),
            pubkey: ev.pubkey.to_hex(),
            created_at: ev.created_at.as_secs(),
            kind: ev.kind.as_u16(),
            tags: ev.tags.iter().map(|t| t.as_slice().to_vec()).collect(),
            content: ev.content,
            sig: ev.sig.to_hex(),
        }),
        Err(_) => None,
    }
}

/// Relies on `base64::Engine::decode` with the standard, padded alphabet.
#[verifier::external_body]
fn decode_base64(s: &str) -> (r: Option<Vec<u8>>)
    ensures
        match r {
            Some(b) => base64_decoded(s@) == Some(b@),
            None => base64_decoded(s@) is None,
        },
{
    base64::engine::general_purpose::STANDARD.decode(s).ok()
}

/// Validates `event` for `action` on a payload of `payload_size` bytes, now.
pub fn is_auth_event_valid(event: &AuthEvent, action: Action, payload_size: usize) -> (r: Result<
    (),
    AuthError,
>)
    ensures
        exists|now: u64|
            r == auth_verdict(
                *event,
                signature_valid(*event),
                action,
                payload_size as int,
                now as int,
            ),
{
    let signature_ok = verify_signature(event);
    let now = unix_now();
    assert(signature_ok == signature_valid(*event));
    check_auth_event(event, signature_ok, action, payload_size, now)
}

/// The base64 text of an `Authorization` header of the form `Nostr <base64>`.
pub open spec fn header_token(h: Seq<char>) -> Option<Seq<char>> {
    if h.len() >= 6 && h.subrange(0, 6) == "Nostr "@ {
        Some(h.subrange(6, h.len() as int))
    } else {
        None
    }
}

/// The JSON bytes that an `Authorization` header carries, or why it carries none.
pub open spec fn header_json(h: Seq<char>) -> Result<Seq<u8>, AuthError> {
    match header_token(h) {
        None => Err(AuthError::InvalidAuthorizationHeader),
        Some(t) => match base64_decoded(t) {
            None => Err(AuthError::Base64DecodeFailed),
            Some(json) => Ok(json),
        },
    }
}

/// The event that an `Authorization` header carries, or why it carries none.
pub open spec fn header_event(h: Seq<char>) -> Result<EventParts, AuthError> {
    match header_json(h) {
        Err(e) => Err(e),
        Ok(json) => match nostr_event_of(json) {
            None => Err(AuthError::JsonDecodeFailed),
            Some(p) => Ok(p),
        },
    }
}

/// The text of an optional header.
pub open spec fn header_of(a: Option<&str>) -> Option<Seq<char>> {
    match a {
        Some(h) => Some(h@),
        None => None,
    }
}

/// The event that authorizes a request for `action` on a payload of
/// `payload_size` bytes at time `now`, from its `Authorization` header, or why
/// there is none.
pub open spec fn authorize_event_spec(
    header: Option<Seq<char>>,
    action: Action,
    payload_size: int,
    now: int,
) -> Result<EventParts, AuthError> {
    match header {
        None => Err(AuthError::MissingAuthorizationHeader),
        Some(h) => match header_event(h) {
            Err(e) => Err(e),
            Ok(p) => match parts_verdict(p, action, payload_size, now) {
                Err(e) => Err(e),
                Ok(()) => Ok(p),
            },
        },
    }
}

/// The public key that authorizes the request, or why there is none.
pub open spec fn authorize_spec(
    header: Option<Seq<char>>,
    action: Action,
    payload_size: int,
    now: int,
) -> Result<Seq<char>, AuthError> {
    match authorize_event_spec(header, action, payload_size, now) {
        Ok(p) => Ok(p.1),
        Err(e) => Err(e),
    }
}

/// An event result as values.
pub open spec fn event_result(r: Result<AuthEvent, AuthError>) -> Result<EventParts, AuthError> {
    match r {
        Ok(e) => Ok(event_parts(e)),
        Err(e) => Err(e),
    }
}

/// A key result as values.
pub open spec fn key_result(r: Result<String, AuthError>) -> Result<Seq<char>, AuthError> {
    match r {
        Ok(k) => Ok(k@),
        Err(e) => Err(e),
    }
}

/// Reads the event that an `Authorization` header carries.
pub fn parse_auth_header(value: &str) -> (r: Result<AuthEvent, AuthError>)
    ensures
        event_result(r) == header_event(value@),
{
    let n = value.unicode_len();
    if n < 6 {
        return Err(AuthError::InvalidAuthorizationHeader);
    }
    let scheme = value.substring_char(0, 6).to_owned();
    if scheme != "Nostr ".to_owned() {
        return Err(AuthError::InvalidAuthorizationHeader);
    }
    let token = value.substring_char(6, n);
    match decode_base64(token) {
        None => Err(AuthError::Base64DecodeFailed),
        Some(json) => match event_from_json(json.as_slice()) {
            Some(event) => Ok(event),
            None => Err(AuthError::JsonDecodeFailed),
        },
    }
}

/// Checks the `Authorization` header of a request for `action` on a payload of
/// `payload_size` bytes, and gives the event that authorizes it.
pub fn authorize_event(authorization: Option<&str>, action: Action, payload_size: usize) -> (r:
    Result<AuthEvent, AuthError>)
    ensures
        exists|now: u64|
            #[trigger] authorize_event_spec(
                header_of(authorization),
                action,
                payload_size as int,
                now as int,
            ) == event_result(r),
{
    let h = match authorization {
        None => {
            assert(authorize_event_spec(header_of(authorization), action, payload_size as int, 0)
                == event_result(Err(AuthError::MissingAuthorizationHeader)));
            return Err(AuthError::MissingAuthorizationHeader);
        },
        Some(h) => h,
    };
    let event = match parse_auth_header(h) {
        Err(e) => {
            assert(authorize_event_spec(header_of(authorization), action, payload_size as int, 0)
                == event_result(Err(e)));
            return Err(e);
        },
        Ok(event) => event,
    };
    let r = is_auth_event_valid(&event, action, payload_size);
    let ghost now = choose|now: u64|
        r == auth_verdict(event, signature_valid(event), action, payload_size as int, now as int);
    match r {
        Err(e) => {
            assert(authorize_event_spec(
                header_of(authorization),
                action,
                payload_size as int,
                now as int,
            ) == event_result(Err(e)));
            Err(e)
        },
        Ok(()) => {
            assert(authorize_event_spec(
                header_of(authorization),
                action,
                payload_size as int,
                now as int,
            ) == event_result(Ok(event)));
            Ok(event)
        },
    }
}

/// Checks the `Authorization` header of a request for `action` on a payload of
/// `payload_size` bytes, and gives the public key that signed it.
pub fn authorize(authorization: Option<&str>, action: Action, payload_size: usize) -> (r: Result<
    String,
    AuthError,
>)
    ensures
        exists|now: u64|
            #[trigger] authorize_spec(header_of(authorization), action, payload_size as int, now as int)
                == key_result(r),
{
    let verdict = authorize_event(authorization, action, payload_size);
    let ghost now = choose|now: u64|
        #[trigger] authorize_event_spec(header_of(authorization), action, payload_size as int, now as int)
            == event_result(verdict);
    let r = match verdict {
        Err(e) => Err(e),
        Ok(event) => Ok(event.pubkey),
    };
    assert(authorize_spec(header_of(authorization), action, payload_size as int, now as int)
        == key_result(r));
    r
}

/// Checks the `Authorization` header of an upload of `payload_size` bytes.
pub fn verify_upload(authorization: Option<&str>, payload_size: usize) -> (r: Result<
    String,
    AuthError,
>)
    ensures
        exists|now: u64|
            #[trigger] authorize_spec(
                header_of(authorization),
                Action::Upload,
                payload_size as int,
                now as int,
            ) == key_result(r),
{
    authorize(authorization, Action::Upload, payload_size)
}

/// Checks the `Authorization` header of a delete.
pub fn verify_delete(authorization: Option<&str>) -> (r: Result<String, AuthError>)
    ensures
        exists|now: u64|
            #[trigger] authorize_spec(header_of(authorization), Action::Delete, 0, now as int)
                == key_result(r),
{
    authorize(authorization, Action::Delete, 0)
}

} // verus!
