use vstd::prelude::*;

use crate::mime::{is_pubkey_allowed, list_admits};

verus! {

/// What to do with a request once its signer is known.
#[derive(PartialEq, Eq, Structural, Clone, Copy, Debug)]
pub enum WhitelistDecision {
    /// Pass the request on.
    Forward,
    /// The signer is not on a non-empty whitelist.
    Forbidden,
    /// No authenticated signer came with the request.
    MissingPubkey,
}

/// Admits requests whose signer is on the configured whitelist; an empty
/// whitelist admits every signer.
pub struct PubkeyWhitelistMiddleware {
    pub whitelisted_pubkeys: Vec<String>,
}

impl PubkeyWhitelistMiddleware {
    pub fn new(whitelisted_pubkeys: Vec<String>) -> (r: PubkeyWhitelistMiddleware)
        ensures
            r.whitelisted_pubkeys@ == whitelisted_pubkeys@,
    {
        PubkeyWhitelistMiddleware { whitelisted_pubkeys }
    }

    /// Decides on a request whose authenticated signer is `authed_pubkey`.
    pub fn call(&self, authed_pubkey: Option<&str>) -> (r: WhitelistDecision)
        ensures
            r == match authed_pubkey {
                None => WhitelistDecision::MissingPubkey,
                Some(pk) => if list_admits(self.whitelisted_pubkeys.deep_view(), pk@) {
                    WhitelistDecision::Forward
                } else {
                    WhitelistDecision::Forbidden
                },
            },
    {
        match authed_pubkey {
            None => WhitelistDecision::MissingPubkey,
            Some(pk) => {
                if is_pubkey_allowed(&self.whitelisted_pubkeys, pk) {
                    WhitelistDecision::Forward
                } else {
                    WhitelistDecision::Forbidden
                }
            },
        }
    }
}

} // verus!
