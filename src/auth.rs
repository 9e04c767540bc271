use vstd::prelude::*;

use crate::action::{action_named, Action};
use crate::text::{parse_unsigned, unsigned_value};

verus! {

/// The nostr kind that marks an event as a blob-storage authorization.
pub const AUTH_EVENT_KIND: u16 = 24242;

/// A signed nostr event, held as the plain values it is made of.
pub struct AuthEvent {
    /// Event id, lower-case hex.
    pub id: String,
    /// Public key of the signer, lower-case hex.
    pub pubkey: String,
    /// Creation time, UNIX seconds.
    pub created_at: u64,
    pub kind: u16,
    /// Each tag is its name followed by its values.
    pub tags: Vec<Vec<String>>,
    pub content: String,
    /// Schnorr signature over the id, hex.
    pub sig: String,
}

/// Why a request's authorization was refused.
#[derive(PartialEq, Eq, Structural, Clone, Copy, Debug)]
pub enum AuthError {
    MissingAuthorizationHeader,
    InvalidAuthorizationHeader,
    Base64DecodeFailed,
    JsonDecodeFailed,
    SignatureInvalid,
    WrongTokenKind,
    NotYetValid,
    ActionTagMissing,
    ActionMismatch,
    ExpirationTagMissing,
    ExpirationInvalid,
    TokenExpired,
    SizeTagMissing,
    SizeInvalid,
    SizeMismatch,
    TargetTagMissing,
    /// A delete token's target tag names another digest than the one deleted.
    TargetMismatch,
}

/// The machine-readable reason that reports `e`.
pub open spec fn auth_message(e: AuthError) -> Seq<char> {
    match e {
        AuthError::MissingAuthorizationHeader => "missing Authorization header"@,
        AuthError::InvalidAuthorizationHeader => "invalid Authorization header"@,
        AuthError::Base64DecodeFailed => "invalid Auth event: failed base64 decoding"@,
        AuthError::JsonDecodeFailed => "invalid Auth event: failed json decoding"@,
        AuthError::SignatureInvalid => "event signature verification failed"@,
        AuthError::WrongTokenKind => "kind must be 24242"@,
        AuthError::NotYetValid => "created_at must be in the past"@,
        AuthError::ActionTagMissing => "t tag must be set"@,
        AuthError::ActionMismatch => "action doesn't match"@,
        AuthError::ExpirationTagMissing => "expiration tag must be set"@,
        AuthError::ExpirationInvalid => "invalid expiration"@,
        AuthError::TokenExpired => "expiration must be in the future"@,
        AuthError::SizeTagMissing => "size tag must be set"@,
        AuthError::SizeInvalid => "invalid size"@,
        AuthError::SizeMismatch => "payload size does not match size tag"@,
        AuthError::TargetTagMissing => "x tag must be set"@,
        AuthError::TargetMismatch => "x tag does not match the deleted blob"@,
    }
}

impl AuthError {
    /// The machine-readable reason handed back to the caller.
    pub fn message(&self) -> (r: String)
        ensures
            r@ == auth_message(*self),
    {
        match self {
            AuthError::MissingAuthorizationHeader => "missing Authorization header".to_owned(),
            AuthError::InvalidAuthorizationHeader => "invalid Authorization header".to_owned(),
            AuthError::Base64DecodeFailed => "invalid Auth event: failed base64 decoding".to_owned(),
            AuthError::JsonDecodeFailed => "invalid Auth event: failed json decoding".to_owned(),
            AuthError::SignatureInvalid => "event signature verification failed".to_owned(),
            AuthError::WrongTokenKind => "kind must be 24242".to_owned(),
            AuthError::NotYetValid => "created_at must be in the past".to_owned(),
            AuthError::ActionTagMissing => "t tag must be set".to_owned(),
            AuthError::ActionMismatch => "action doesn't match".to_owned(),
            AuthError::ExpirationTagMissing => "expiration tag must be set".to_owned(),
            AuthError::ExpirationInvalid => "invalid expiration".to_owned(),
            AuthError::TokenExpired => "expiration must be in the future".to_owned(),
            AuthError::SizeTagMissing => "size tag must be set".to_owned(),
            AuthError::SizeInvalid => "invalid size".to_owned(),
            AuthError::SizeMismatch => "payload size does not match size tag".to_owned(),
            AuthError::TargetTagMissing => "x tag must be set".to_owned(),
            AuthError::TargetMismatch => "x tag does not match the deleted blob".to_owned(),
        }
    }
}

/// A tag whose name is `name`.
pub open spec fn tag_named(tag: Seq<Seq<char>>, name: Seq<char>) -> bool {
    tag.len() > 0 && tag[0] == name
}

/// `i` is the position of the first tag named `name`.
pub open spec fn is_first_tag(tags: Seq<Seq<Seq<char>>>, name: Seq<char>, i: int) -> bool {
    &&& 0 <= i < tags.len()
    &&& tag_named(tags[i], name)
    &&& forall|j: int| 0 <= j < i ==> !#[trigger] tag_named(tags[j], name)
}

/// The first tag named `name`: `None` when there is none, `Some(None)` when it
/// carries no value, else `Some(Some(v))` with its first value.
pub open spec fn tag_value(tags: Seq<Seq<Seq<char>>>, name: Seq<char>) -> Option<
    Option<Seq<char>>,
> {
    if exists|i: int| is_first_tag(tags, name, i) {
        let i = choose|i: int| is_first_tag(tags, name, i);
        if tags[i].len() > 1 {
            Some(Some(tags[i][1]))
        } else {
            Some(None)
        }
    } else {
        None
    }
}

/// The expiration time that the tags declare, when it is a readable number.
pub open spec fn expiration_of(tags: Seq<Seq<Seq<char>>>) -> Option<int> {
    match tag_value(tags, "expiration"@) {
        Some(Some(v)) => unsigned_value(v, u64::MAX as int),
        _ => None,
    }
}

/// The payload size that the tags declare, when it is a readable number.
pub open spec fn size_of(tags: Seq<Seq<Seq<char>>>) -> Option<int> {
    match tag_value(tags, "size"@) {
        Some(Some(v)) => unsigned_value(v, usize::MAX as int),
        _ => None,
    }
}

/// The action tag names `action`.
pub open spec fn action_verdict(tags: Seq<Seq<Seq<char>>>, action: Action) -> Result<(), AuthError> {
    match tag_value(tags, "t"@) {
        Some(Some(v)) => if action_named(v) == Some(action) {
            Ok(())
        } else {
            Err(AuthError::ActionMismatch)
        },
        _ => Err(AuthError::ActionTagMissing),
    }
}

/// The expiration tag is present, readable and strictly later than `now`.
pub open spec fn expiration_verdict(tags: Seq<Seq<Seq<char>>>, now: int) -> Result<(), AuthError> {
    match tag_value(tags, "expiration"@) {
        None => Err(AuthError::ExpirationTagMissing),
        Some(_) => match expiration_of(tags) {
            None => Err(AuthError::ExpirationInvalid),
            Some(exp) => if exp <= now {
                Err(AuthError::TokenExpired)
            } else {
                Ok(())
            },
        },
    }
}

/// For an upload, the size tag gives exactly the payload's length; for a
/// delete, a target tag is present.
pub open spec fn payload_verdict(
    tags: Seq<Seq<Seq<char>>>,
    action: Action,
    payload_size: int,
) -> Result<(), AuthError> {
    if action == Action::Upload {
        match tag_value(tags, "size"@) {
            None => Err(AuthError::SizeTagMissing),
            Some(_) => match size_of(tags) {
                None => Err(AuthError::SizeInvalid),
                Some(n) => if n != payload_size {
                    Err(AuthError::SizeMismatch)
                } else {
                    Ok(())
                },
            },
        }
    } else if action == Action::Delete {
        match tag_value(tags, "x"@) {
            None => Err(AuthError::TargetTagMissing),
            Some(_) => Ok(()),
        }
    } else {
        Ok(())
    }
}

/// The outcome of validating a token with this kind, creation time and tags
/// for `action` on a payload of `payload_size` bytes at time `now`, the checks
/// taken in order and the first failure kept.
pub open spec fn claims_verdict(
    kind: u16,
    created_at: u64,
    tags: Seq<Seq<Seq<char>>>,
    signature_valid: bool,
    action: Action,
    payload_size: int,
    now: int,
) -> Result<(), AuthError> {
    if !signature_valid {
        Err(AuthError::SignatureInvalid)
    } else if kind != AUTH_EVENT_KIND {
        Err(AuthError::WrongTokenKind)
    } else if created_at > now {
        Err(AuthError::NotYetValid)
    } else if action_verdict(tags, action) is Err {
        action_verdict(tags, action)
    } else if expiration_verdict(tags, now) is Err {
        expiration_verdict(tags, now)
    } else {
        payload_verdict(tags, action, payload_size)
    }
}

/// The outcome of validating `e` for `action` on a payload of `payload_size`
/// bytes at time `now`.
pub open spec fn auth_verdict(
    e: AuthEvent,
    signature_valid: bool,
    action: Action,
    payload_size: int,
    now: int,
) -> Result<(), AuthError> {
    claims_verdict(e.kind, e.created_at, e.tags.deep_view(), signature_valid, action, payload_size, now)
}

proof fn lemma_first_tag_unique(tags: Seq<Seq<Seq<char>>>, name: Seq<char>, i: int)
    requires
        is_first_tag(tags, name, i),
    ensures
        (choose|k: int| is_first_tag(tags, name, k)) == i,
{
    let k = choose|k: int| is_first_tag(tags, name, k);
    assert(is_first_tag(tags, name, k));
    if k < i {
        assert(!tag_named(tags[k], name));
    }
    if i < k {
        assert(!tag_named(tags[i], name));
    }
}

/// The value of the first tag named `name`, with the same three outcomes as
/// `tag_value`.
pub fn find_tag_value(tags: &Vec<Vec<String>>, name: &str) -> (r: Option<Option<String>>)
    ensures
        match r {
            None => tag_value(tags.deep_view(), name@) is None,
            Some(None) => tag_value(tags.deep_view(), name@) == Some(None::<Seq<char>>),
            Some(Some(v)) => tag_value(tags.deep_view(), name@) == Some(Some(v@)),
        },
{
    let ghost view = tags.deep_view();
    let key = name.to_owned();
    let mut i: usize = 0;
    while i < tags.len()
        invariant
            i <= tags.len(),
            view == tags.deep_view(),
            key@ == name@,
            forall|j: int| 0 <= j < i ==> !#[trigger] tag_named(view[j], name@),
        decreases tags.len() - i,
    {
        let tag = &tags[i];
        assert(view[i as int] == tag.deep_view());
        if tag.len() > 0 && tag[0] == key {
            assert(is_first_tag(view, name@, i as int));
            proof {
                lemma_first_tag_unique(view, name@, i as int);
            }
            if tag.len() > 1 {
                return Some(Some(tag[1].clone()));
            } else {
                return Some(None);
            }
        }
        i = i + 1;
    }
    assert(!exists|k: int| is_first_tag(view, name@, k));
    None
}

fn check_action(tags: &Vec<Vec<String>>, action: Action) -> (r: Result<(), AuthError>)
    ensures
        r == action_verdict(tags.deep_view(), action),
{
    match find_tag_value(tags, "t") {
        Some(Some(v)) => {
            match Action::parse(v.as_str()) {
                Some(a) if a == action => Ok(()),
                _ => Err(AuthError::ActionMismatch),
            }
        },
        _ => Err(AuthError::ActionTagMissing),
    }
}

fn check_expiration(tags: &Vec<Vec<String>>, now: u64) -> (r: Result<(), AuthError>)
    ensures
        r == expiration_verdict(tags.deep_view(), now as int),
{
    match find_tag_value(tags, "expiration") {
        None => Err(AuthError::ExpirationTagMissing),
        Some(None) => Err(AuthError::ExpirationInvalid),
        Some(Some(v)) => match parse_unsigned(v.as_str(), u64::MAX) {
            None => Err(AuthError::ExpirationInvalid),
            Some(exp) => {
                if exp <= now {
                    Err(AuthError::TokenExpired)
                } else {
                    Ok(())
                }
            },
        },
    }
}

fn check_payload(tags: &Vec<Vec<String>>, action: Action, payload_size: usize) -> (r: Result<
    (),
    AuthError,
>)
    ensures
        r == payload_verdict(tags.deep_view(), action, payload_size as int),
{
    if action == Action::Upload {
        match find_tag_value(tags, "size") {
            None => Err(AuthError::SizeTagMissing),
            Some(None) => Err(AuthError::SizeInvalid),
            Some(Some(v)) => match parse_unsigned(v.as_str(), usize::MAX as u64) {
                None => Err(AuthError::SizeInvalid),
                Some(n) => {
                    if n != payload_size as u64 {
                        Err(AuthError::SizeMismatch)
                    } else {
                        Ok(())
                    }
                },
            },
        }
    } else if action == Action::Delete {
        match find_tag_value(tags, "x") {
            None => Err(AuthError::TargetTagMissing),
            Some(_) => Ok(()),
        }
    } else {
        Ok(())
    }
}

/// Validates `event` for `action` on a payload of `payload_size` bytes at time
/// `now`, given whether its signature verified.
pub fn check_auth_event(
    event: &AuthEvent,
    signature_valid: bool,
    action: Action,
    payload_size: usize,
    now: u64,
) -> (r: Result<(), AuthError>)
    ensures
        r == auth_verdict(*event, signature_valid, action, payload_size as int, now as int),
{
    if !signature_valid {
        return Err(AuthError::SignatureInvalid);
    }
    if event.kind != AUTH_EVENT_KIND {
        return Err(AuthError::WrongTokenKind);
    }
    if event.created_at > now {
        return Err(AuthError::NotYetValid);
    }
    let a = check_action(&event.tags, action);
    if a.is_err() {
        return a;
    }
    let e = check_expiration(&event.tags, now);
    if e.is_err() {
        return e;
    }
    check_payload(&event.tags, action, payload_size)
}

/// A token that authorizes an upload of `n` bytes authorizes nothing else: an
/// upload of any other length is refused for its size, and every other action
/// is refused for its action tag.
pub proof fn lemma_upload_token_single_purpose(
    e: AuthEvent,
    signature_valid: bool,
    n: int,
    now: int,
    other_size: int,
    other_action: Action,
)
    requires
        auth_verdict(e, signature_valid, Action::Upload, n, now) is Ok,
    ensures
        other_size != n ==> auth_verdict(e, signature_valid, Action::Upload, other_size, now)
            == Err::<(), AuthError>(AuthError::SizeMismatch),
        other_action != Action::Upload ==> auth_verdict(
            e,
            signature_valid,
            other_action,
            other_size,
            now,
        ) == Err::<(), AuthError>(AuthError::ActionMismatch),
{
}

/// Expiry is exclusive: a token is accepted only while its expiration time is
/// strictly later than now, so one that expires exactly now, or earlier, is
/// refused, and refused as expired when every earlier check passes.
pub proof fn lemma_expiration_exclusive(
    e: AuthEvent,
    signature_valid: bool,
    action: Action,
    payload_size: int,
    now: int,
)
    ensures
        auth_verdict(e, signature_valid, action, payload_size, now) is Ok ==> (expiration_of(
            e.tags.deep_view(),
        ) is Some && expiration_of(e.tags.deep_view())->0 > now),
        (expiration_of(e.tags.deep_view()) is Some && expiration_of(e.tags.deep_view())->0 <= now)
            ==> auth_verdict(e, signature_valid, action, payload_size, now) is Err,
        (signature_valid && e.kind == AUTH_EVENT_KIND && e.created_at <= now && action_verdict(
            e.tags.deep_view(),
            action,
        ) is Ok && expiration_of(e.tags.deep_view()) is Some && expiration_of(
            e.tags.deep_view(),
        )->0 <= now) ==> auth_verdict(e, signature_valid, action, payload_size, now) == Err::<
            (),
            AuthError,
        >(AuthError::TokenExpired),
{
}

} // verus!
