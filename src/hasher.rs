//! One-way password hashing with a per-call random salt and a tunable cost.

use vstd::prelude::*;
use bcrypt::BcryptError;
use crate::decimal::{digit_value, is_digit};

verus! {

#[verifier::external_type_specification]
#[verifier::external_body]
pub struct ExBcryptError(bcrypt::BcryptError);

/// Whether bcrypt accepts `password` against the stored digest `stored`.
pub uninterp spec fn bcrypt_accepts(password: Seq<char>, stored: Seq<char>) -> bool;

/// Length of a bcrypt digest: `$2b$`, two cost digits, `$`, then 53
/// characters of salt and hash.
pub const DIGEST_LEN: usize = 60;

/// A digest in the `$2b$NN$...` form, of the right length.
pub open spec fn digest_shape(h: Seq<char>) -> bool {
    h.len() == DIGEST_LEN && h[0] == '$' && h[1] == '2' && h[2] == 'b' && h[3] == '$' && is_digit(
        h[4],
    ) && is_digit(h[5]) && h[6] == '$'
}

/// The cost written in the two digits after `$2b$`.
pub open spec fn digest_cost(h: Seq<char>) -> nat {
    digit_value(h[4]) * 10 + digit_value(h[5])
}

/// Relies on bcrypt::verify: it recomputes the digest of `password` with
/// the salt and cost read from `stored` and answers `Ok(true)` exactly when
/// the digests agree; the answer depends on its two arguments alone.
#[verifier::external_body]
fn bcrypt_verify(password: &str, stored: &str) -> (r: Result<bool, BcryptError>)
    ensures
        (r matches Ok(true)) == bcrypt_accepts(password@, stored@),
{
    bcrypt::verify(password, stored)
}

/// Relies on bcrypt::hash: it draws a random salt, refuses a cost outside
/// 4..=31, and returns a digest in the format that bcrypt::verify reads, so
/// that the same password verifies against it. The digest is written as
/// `$2b$`, the cost in two digits, `$`, 22 characters of salt and 31 of hash.
#[verifier::external_body]
fn bcrypt_hash(password: &str, cost: u32) -> (r: Result<String, BcryptError>)
    ensures
        r matches Ok(h) ==> bcrypt_accepts(password@, h@),
        r matches Ok(h) ==> digest_shape(h@) && digest_cost(h@) == cost,
        (cost < 4 || cost > 31) ==> r is Err,
{
    bcrypt::hash(password, cost)
}

/// The cost factor used by the service.
pub const DEFAULT_COST: u32 = 12;

pub open spec fn cost_in_range(cost: u32) -> bool {
    4 <= cost && cost <= 31
}

/// Hashes and checks passwords at a fixed cost factor.
pub struct Hasher {
    pub cost: u32,
}

impl Hasher {
    pub open spec fn wf(&self) -> bool {
        cost_in_range(self.cost)
    }

    /// A hasher with the given cost; `None` when the cost is out of the
    /// range that bcrypt takes, which is a configuration error.
    pub fn new(cost: u32) -> (r: Option<Hasher>)
        ensures
            cost_in_range(cost) <==> r is Some,
            r matches Some(h) ==> h.cost == cost && h.wf(),
    {
        if 4 <= cost && cost <= 31 {
            Some(Hasher { cost })
        } else {
            None
        }
    }

    /// Salts and hashes `plain` at this hasher's cost. `None` only when bcrypt
    /// failed (its source of randomness); a digest it returns verifies
    /// `plain` and carries the cost.
    pub fn hash(&self, plain: &str) -> (r: Option<String>)
        ensures
            r matches Some(h) ==> bcrypt_accepts(plain@, h@),
            r matches Some(h) ==> digest_shape(h@) && digest_cost(h@) == self.cost,
            !self.wf() ==> r is None,
    {
        match bcrypt_hash(plain, self.cost) {
            Ok(h) => Some(h),
            Err(_) => None,
        }
    }

    /// Whether `plain` matches the digest `stored`; a malformed `stored`
    /// gives `false`.
    pub fn verify(&self, plain: &str, stored: &str) -> (r: bool)
        ensures
            r == bcrypt_accepts(plain@, stored@),
    {
        match bcrypt_verify(plain, stored) {
            Ok(b) => b,
            Err(_) => false,
        }
    }
}

} // verus!
