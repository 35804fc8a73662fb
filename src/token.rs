//! Signed, time-bounded bearer tokens: a claim set of subject and expiry,
//! signed with HMAC-SHA256 under a shared secret and checked against the
//! current time.

use vstd::prelude::*;
use std::collections::BTreeMap;
use std::time::{SystemTime, UNIX_EPOCH};
use hmac::{Hmac, Mac};
use jwt::{SignWithKey, VerifyWithKey};
use sha2::Sha256;
use crate::decimal::{decimal, format_u64, is_digit, lemma_decimal_round_trip, parse_decimal, parse_u64};

verus! {

/// How long an access token stays valid, in seconds (five minutes).
pub const TOKEN_LIFE_TIME_SECS: u64 = 300;

/// A claim set: (key, value) pairs.
pub type ClaimsView = Seq<(Seq<char>, Seq<char>)>;

pub open spec fn claims_view(c: Seq<(String, String)>) -> ClaimsView {
    c.map_values(|p: (String, String)| (p.0@, p.1@))
}

pub open spec fn opt_claims_view(c: Option<Vec<(String, String)>>) -> Option<ClaimsView> {
    match c {
        Some(v) => Some(claims_view(v@)),
        None => None,
    }
}

/// The value of the first claim under `key`.
pub open spec fn claim_lookup(c: ClaimsView, key: Seq<char>) -> Option<Seq<char>>
    decreases c.len(),
{
    if c.len() == 0 {
        None
    } else if c[0].0 == key {
        Some(c[0].1)
    } else {
        claim_lookup(c.drop_first(), key)
    }
}

pub open spec fn distinct_keys(c: ClaimsView) -> bool {
    forall|i: int, j: int| 0 <= i < j < c.len() ==> c[i].0 != c[j].0
}

/// `token` checks under `key`, and its claims give every key the value
/// that `claims` gives it.
pub open spec fn reads_back(key: Seq<u8>, token: Seq<char>, claims: ClaimsView) -> bool {
    jwt_claims(key, token) matches Some(d) && forall|k: Seq<char>|
        #[trigger] claim_lookup(d, k) == claim_lookup(claims, k)
}

/// The compact token that jwt signs for `claims` under HMAC-SHA256 keyed by `key`.
pub uninterp spec fn jwt_signed(key: Seq<u8>, claims: ClaimsView) -> Seq<char>;

/// The string claims that jwt reads from `token` under HMAC-SHA256 keyed by
/// `key`; `None` where the token is malformed or its signature does not match.
pub uninterp spec fn jwt_claims(key: Seq<u8>, token: Seq<char>) -> Option<ClaimsView>;

/// Relies on jwt's SignWithKey for a BTreeMap of string claims, with hmac's
/// HMAC-SHA256 built from `key` (which takes keys of any length). The token
/// depends on the key and the claims alone; jwt's VerifyWithKey under the
/// same key reads back the map, so when no key repeats every key keeps its
/// value.
#[verifier::external_body]
fn jwt_sign(key: &[u8], claims: &Vec<(String, String)>) -> (r: String)
    ensures
        r@ == jwt_signed(key@, claims_view(claims@)),
        distinct_keys(claims_view(claims@)) ==> reads_back(key@, r@, claims_view(claims@)),
{
    let mac: Hmac<Sha256> = Hmac::new_from_slice(key).expect("HMAC takes keys of any length");
    let map: BTreeMap<&str, &str> = claims.iter().map(|p| (p.0.as_str(), p.1.as_str())).collect();
    map.sign_with_key(&mac).expect("a map of strings always serialises")
}

/// Relies on jwt's VerifyWithKey into a BTreeMap of string claims, with
/// hmac's HMAC-SHA256 built from `key`: it splits the token, checks the
/// header's algorithm and the signature, and decodes the claims; any failure
/// is an error. The map is handed out as its pairs, in key order.
#[verifier::external_body]
fn jwt_verify(key: &[u8], token: &str) -> (r: Option<Vec<(String, String)>>)
    ensures
        opt_claims_view(r) == jwt_claims(key@, token@),
{
    let mac: Hmac<Sha256> = Hmac::new_from_slice(key).expect("HMAC takes keys of any length");
    let claims: Result<BTreeMap<String, String>, jwt::Error> = token.verify_with_key(&mac);
    claims.ok().map(|m| m.into_iter().collect())
}

/// Relies on std's SystemTime: seconds since the unix epoch, read from the
/// system clock (0 for a clock set before the epoch). Nothing is known of
/// the value.
#[verifier::external_body]
pub fn get_time_sec() -> u64 {
    match SystemTime::now().duration_since(UNIX_EPOCH) {
        Ok(d) => d.as_secs(),
        Err(_) => 0,
    }
}

#[derive(Debug, PartialEq, Eq, Structural, Clone, Copy)]
pub enum AccessTokenError {
    TokenInvalid,
    ExpiredToken,
}

/// The principal of a verified token: its subject and the seconds left
/// until it expires.
#[derive(Debug, Clone)]
pub struct AccessTokenResult {
    pub username: String,
    pub remaining_time: u64,
}

/// Secrets for signing and checking tokens: tokens are signed with
/// `primary`; a token signed with any of `previous` is still accepted,
/// which lets the secret be rotated.
pub struct TokenKeys {
    pub primary: Vec<u8>,
    pub previous: Vec<Vec<u8>>,
}

impl TokenKeys {
    /// The secrets in the order they are tried.
    pub open spec fn secrets(&self) -> Seq<Seq<u8>> {
        seq![self.primary@] + self.previous@.map_values(|k: Vec<u8>| k@)
    }

    pub fn new(primary: Vec<u8>) -> (r: TokenKeys)
        ensures
            r.primary@ == primary@,
            r.previous@.len() == 0,
    {
        TokenKeys { primary, previous: Vec::new() }
    }
}

pub open spec fn subject_key() -> Seq<char> {
    "username"@
}

/// The claim that carries the expiry instant, in unix seconds.
pub open spec fn expiry_key() -> Seq<char> {
    "created_time"@
}

/// The claim set of a token for `subject` that expires at `expires_at`.
pub open spec fn issued_claims(subject: Seq<char>, expires_at: nat) -> ClaimsView {
    seq![(expiry_key(), decimal(expires_at)), (subject_key(), subject)]
}

/// What a claim set says at time `now`: the subject and the seconds left, or
/// why it is refused. A missing subject or an unreadable expiry makes it
/// invalid; a token is expired only strictly after its expiry instant.
pub open spec fn claims_verdict(c: ClaimsView, now: u64) -> Result<(Seq<char>, u64), AccessTokenError> {
    match (claim_lookup(c, subject_key()), claim_lookup(c, expiry_key())) {
        (Some(subject), Some(exp_text)) => match parse_decimal(exp_text) {
            Some(exp) => if now > exp {
                Err(AccessTokenError::ExpiredToken)
            } else {
                Ok((subject, (exp - now) as u64))
            },
            None => Err(AccessTokenError::TokenInvalid),
        },
        _ => Err(AccessTokenError::TokenInvalid),
    }
}

/// The claims read with the first secret under which the token checks.
pub open spec fn first_claims(secrets: Seq<Seq<u8>>, token: Seq<char>) -> Option<ClaimsView>
    decreases secrets.len(),
{
    if secrets.len() == 0 {
        None
    } else {
        match jwt_claims(secrets[0], token) {
            Some(c) => Some(c),
            None => first_claims(secrets.drop_first(), token),
        }
    }
}

/// What verifying `token` at time `now` gives.
pub open spec fn token_verdict(secrets: Seq<Seq<u8>>, token: Seq<char>, now: u64) -> Result<
    (Seq<char>, u64),
    AccessTokenError,
> {
    match first_claims(secrets, token) {
        None => Err(AccessTokenError::TokenInvalid),
        Some(c) => claims_verdict(c, now),
    }
}

/// The subject and remaining seconds of a verification, or its error.
pub open spec fn result_view(r: Result<AccessTokenResult, AccessTokenError>) -> Result<
    (Seq<char>, u64),
    AccessTokenError,
> {
    match r {
        Ok(p) => Ok((p.username@, p.remaining_time)),
        Err(e) => Err(e),
    }
}

/// Index of the first claim under `key`.
fn find_claim(claims: &Vec<(String, String)>, key: &String) -> (r: Option<usize>)
    ensures
        match r {
            Some(i) => i < claims@.len() && claim_lookup(claims_view(claims@), key@) == Some(
                claims@[i as int].1@,
            ),
            None => claim_lookup(claims_view(claims@), key@) is None,
        },
{
    let ghost all = claims_view(claims@);
    let mut i: usize = 0;
    assert(all.subrange(0, all.len() as int) =~= all);
    while i < claims.len()
        invariant
            i <= claims@.len(),
            all == claims_view(claims@),
            claim_lookup(all, key@) == claim_lookup(all.subrange(i as int, all.len() as int), key@),
        decreases claims@.len() - i,
    {
        let ghost rest = all.subrange(i as int, all.len() as int);
        assert(rest.drop_first() =~= all.subrange(i as int + 1, all.len() as int));
        if claims[i].0 == *key {
            return Some(i);
        }
        i = i + 1;
    }
    None
}

/// Reads the principal out of a claim set that checked, at time `now`.
pub fn verify_claims(claims: &Vec<(String, String)>, now: u64) -> (r: Result<
    AccessTokenResult,
    AccessTokenError,
>)
    ensures
        result_view(r) == claims_verdict(claims_view(claims@), now),
{
    proof {
        reveal_strlit("username");
        reveal_strlit("created_time");
    }
    let subject_name = String::from_str("username");
    let expiry_name = String::from_str("created_time");
    let si = match find_claim(claims, &subject_name) {
        Some(i) => i,
        None => return Err(AccessTokenError::TokenInvalid),
    };
    let ei = match find_claim(claims, &expiry_name) {
        Some(i) => i,
        None => return Err(AccessTokenError::TokenInvalid),
    };
    let exp = match parse_u64(claims[ei].1.as_str()) {
        Some(e) => e,
        None => return Err(AccessTokenError::TokenInvalid),
    };
    if now > exp {
        return Err(AccessTokenError::ExpiredToken);
    }
    Ok(AccessTokenResult { username: claims[si].1.clone(), remaining_time: exp - now })
}

/// Verifies `token` at time `now`: the first secret under which its
/// signature checks gives the claims; none gives `TokenInvalid`.
pub fn verify_access_token(keys: &TokenKeys, token: &str, now: u64) -> (r: Result<
    AccessTokenResult,
    AccessTokenError,
>)
    ensures
        result_view(r) == token_verdict(keys.secrets(), token@, now),
{
    let ghost secrets = keys.secrets();
    match jwt_verify(keys.primary.as_slice(), token) {
        Some(c) => {
            return verify_claims(&c, now);
        },
        None => {},
    }
    let mut i: usize = 0;
    while i < keys.previous.len()
        invariant
            i <= keys.previous@.len(),
            secrets == keys.secrets(),
            first_claims(secrets, token@) == first_claims(
                secrets.subrange(i as int + 1, secrets.len() as int),
                token@,
            ),
        decreases keys.previous@.len() - i,
    {
        let ghost rest = secrets.subrange(i as int + 1, secrets.len() as int);
        assert(rest.drop_first() =~= secrets.subrange(i as int + 2, secrets.len() as int));
        assert(rest[0] == keys.previous@[i as int]@);
        match jwt_verify(keys.previous[i].as_slice(), token) {
            Some(c) => {
                return verify_claims(&c, now);
            },
            None => {},
        }
        i = i + 1;
    }
    assert(secrets.subrange(i as int + 1, secrets.len() as int).len() == 0);
    Err(AccessTokenError::TokenInvalid)
}

/// Issues an access token for `username` at time `now`, signed with the
/// primary secret and valid for `TOKEN_LIFE_TIME_SECS` seconds. Verified at
/// any time `t` up to its expiry it yields `username` with the seconds left;
/// after that it is expired.
pub fn generate_access_token(keys: &TokenKeys, username: &String, now: u64) -> (r: String)
    requires
        now <= u64::MAX - TOKEN_LIFE_TIME_SECS,
    ensures
        r@ == jwt_signed(
            keys.primary@,
            issued_claims(username@, (now + TOKEN_LIFE_TIME_SECS) as nat),
        ),
        forall|t: u64| #[trigger]
            token_verdict(keys.secrets(), r@, t) == if t <= now + TOKEN_LIFE_TIME_SECS {
                Ok::<(Seq<char>, u64), AccessTokenError>(
                    (username@, (now + TOKEN_LIFE_TIME_SECS - t) as u64),
                )
            } else {
                Err(AccessTokenError::ExpiredToken)
            },
{
    proof {
        reveal_strlit("username");
        reveal_strlit("created_time");
    }
    let expires_at = now + TOKEN_LIFE_TIME_SECS;
    let claims = vec![
        (String::from_str("created_time"), format_u64(expires_at)),
        (String::from_str("username"), username.clone()),
    ];
    let ghost cv = claims_view(claims@);
    assert(cv =~= issued_claims(username@, expires_at as nat));
    assert(distinct_keys(cv)) by {
        assert(expiry_key().len() != subject_key().len());
    }
    let r = jwt_sign(keys.primary.as_slice(), &claims);
    proof {
        let d = jwt_claims(keys.primary@, r@)->Some_0;
        assert(keys.secrets()[0] == keys.primary@);
        assert(first_claims(keys.secrets(), r@) == Some(d));
        assert(cv.drop_first().drop_first().len() == 0);
        assert(claim_lookup(d, subject_key()) == claim_lookup(cv, subject_key()));
        assert(claim_lookup(d, expiry_key()) == claim_lookup(cv, expiry_key()));
        assert(cv[0].0.len() != subject_key().len());
        assert(cv.drop_first()[0] == cv[1]);
        assert(claim_lookup(cv.drop_first(), subject_key()) == Some(username@));
        assert(claim_lookup(cv, subject_key()) == Some(username@));
        assert(claim_lookup(cv, expiry_key()) == Some(decimal(expires_at as nat)));
        lemma_decimal_round_trip(expires_at as nat);
        assert(is_digit(decimal(expires_at as nat)[0]));
        assert(parse_decimal(decimal(expires_at as nat)) == Some(expires_at));
    }
    r
}

} // verus!
