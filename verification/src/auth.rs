//! Authority verification: who may act on a player's records.
//!
//! A request is authorized when the signer is the record owner itself, or
//! when it presents a delegation token that names the owner as its
//! authorizing principal, names the signer as its delegated signer, and has
//! not expired at the clock reading the operation runs under.

use vstd::prelude::*;

verus! {

/// An opaque principal identity, held as four plain 64-bit words (enough to
/// carry a 32-byte public key losslessly).
#[derive(Clone, Copy, PartialEq, Eq, Structural, Debug)]
pub struct Identity(pub u64, pub u64, pub u64, pub u64);

/// A delegation token: a time-bounded credential that lets `session_signer`
/// act on behalf of `authority`.
#[derive(Clone, Copy, PartialEq, Eq, Structural, Debug)]
pub struct SessionToken {
    /// The principal that issued the delegation; must match the record owner.
    pub authority: Identity,
    /// The delegated signer the token empowers.
    pub session_signer: Identity,
    /// Last clock reading at which the token is still valid.
    pub valid_until: i64,
}

/// When a signer may act on records owned by `owner`: it is the owner, or it
/// presents an unexpired token issued by `owner` for this signer.
pub open spec fn spec_authorized(
    signer: Identity,
    owner: Identity,
    token: Option<SessionToken>,
    now: i64,
) -> bool {
    signer == owner || match token {
        Some(t) => t.session_signer == signer && t.authority == owner && now <= t.valid_until,
        None => false,
    }
}

/// Executable authority check.
pub fn authorize(
    signer: Identity,
    owner: Identity,
    token: &Option<SessionToken>,
    now: i64,
) -> (r: bool)
    ensures
        r == spec_authorized(signer, owner, *token, now),
{
    if signer == owner {
        true
    } else {
        match token {
            Some(t) => t.session_signer == signer && t.authority == owner && now <= t.valid_until,
            None => false,
        }
    }
}

} // verus!
