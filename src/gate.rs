//! The request gate: turns the credential header of a request into an
//! authenticated principal or a reason for rejecting it.

use vstd::prelude::*;
use crate::token::{
    token_verdict, verify_access_token, AccessTokenError, AccessTokenResult, TokenKeys,
};

verus! {

#[derive(Debug, PartialEq, Eq, Structural, Clone, Copy)]
pub enum RejectReason {
    Missing,
    Malformed,
    Expired,
}

#[derive(Debug, Clone)]
pub enum AuthOutcome {
    Authenticated(AccessTokenResult),
    Rejected(RejectReason),
}

/// Length of the scheme marker `"Bearer "` that precedes the token.
pub const BEARER_PREFIX_LEN: usize = 7;

pub open spec fn has_bearer_prefix(header: Seq<char>) -> bool {
    header.len() >= BEARER_PREFIX_LEN && header.subrange(0, BEARER_PREFIX_LEN as int)
        == "Bearer "@
}

/// The token text after the scheme marker.
pub open spec fn bearer_token(header: Seq<char>) -> Seq<char> {
    header.subrange(BEARER_PREFIX_LEN as int, header.len() as int)
}

/// The decision on `header` at time `now`: a principal or a rejection.
pub open spec fn gate_verdict(secrets: Seq<Seq<u8>>, header: Option<Seq<char>>, now: u64) -> Result<
    (Seq<char>, u64),
    RejectReason,
> {
    match header {
        None => Err(RejectReason::Missing),
        Some(h) => if !has_bearer_prefix(h) {
            Err(RejectReason::Malformed)
        } else {
            match token_verdict(secrets, bearer_token(h), now) {
                Ok(p) => Ok(p),
                Err(AccessTokenError::TokenInvalid) => Err(RejectReason::Malformed),
                Err(AccessTokenError::ExpiredToken) => Err(RejectReason::Expired),
            }
        },
    }
}

pub open spec fn outcome_view(o: AuthOutcome) -> Result<(Seq<char>, u64), RejectReason> {
    match o {
        AuthOutcome::Authenticated(p) => Ok((p.username@, p.remaining_time)),
        AuthOutcome::Rejected(r) => Err(r),
    }
}

pub open spec fn opt_str_view(h: Option<&str>) -> Option<Seq<char>> {
    match h {
        Some(s) => Some(s@),
        None => None,
    }
}

/// A header made of the scheme marker followed by a token is judged by the
/// token alone: a token that verifies authenticates its subject, an invalid
/// one is `Malformed`, an expired one is `Expired`.
pub proof fn lemma_bearer_header(secrets: Seq<Seq<u8>>, token: Seq<char>, now: u64)
    ensures
        has_bearer_prefix("Bearer "@ + token),
        bearer_token("Bearer "@ + token) == token,
        gate_verdict(secrets, Some("Bearer "@ + token), now) == match token_verdict(
            secrets,
            token,
            now,
        ) {
            Ok(p) => Ok(p),
            Err(AccessTokenError::TokenInvalid) => Err(RejectReason::Malformed),
            Err(AccessTokenError::ExpiredToken) => Err(RejectReason::Expired),
        },
{
    reveal_strlit("Bearer ");
    let h = "Bearer "@ + token;
    assert(h.subrange(0, BEARER_PREFIX_LEN as int) =~= "Bearer "@);
    assert(bearer_token(h) =~= token);
}

/// Authenticates a request from its credential header at time `now`. No
/// header is `Missing`; a header that does not start with `"Bearer "`, or
/// whose token does not check, is `Malformed`; a token past its expiry is
/// `Expired`.
pub fn authenticate(keys: &TokenKeys, header: Option<&str>, now: u64) -> (r: AuthOutcome)
    ensures
        outcome_view(r) == gate_verdict(keys.secrets(), opt_str_view(header), now),
        header is None ==> r == AuthOutcome::Rejected(RejectReason::Missing),
        (header matches Some(h) && !has_bearer_prefix(h@)) ==> r == AuthOutcome::Rejected(
            RejectReason::Malformed,
        ),
{
    let h = match header {
        None => return AuthOutcome::Rejected(RejectReason::Missing),
        Some(h) => h,
    };
    let len = h.unicode_len();
    if len < BEARER_PREFIX_LEN {
        return AuthOutcome::Rejected(RejectReason::Malformed);
    }
    proof {
        reveal_strlit("Bearer ");
    }
    let scheme = String::from_str(h.substring_char(0, BEARER_PREFIX_LEN));
    if scheme != String::from_str("Bearer ") {
        return AuthOutcome::Rejected(RejectReason::Malformed);
    }
    let token = h.substring_char(BEARER_PREFIX_LEN, len);
    match verify_access_token(keys, token, now) {
        Ok(p) => AuthOutcome::Authenticated(p),
        Err(AccessTokenError::TokenInvalid) => AuthOutcome::Rejected(RejectReason::Malformed),
        Err(AccessTokenError::ExpiredToken) => AuthOutcome::Rejected(RejectReason::Expired),
    }
}

} // verus!
