//! The user use cases. The store is reached by the caller between steps:
//! each function here takes the store's answer to the previous request and
//! decides the result or what to hand to the store next. "Not found" is an
//! answer of its own, never inferred from an error's text.
//!
//! The check that a username is free before creating it is advisory: two
//! concurrent creations can both pass it, and the store's own uniqueness
//! constraint decides.

use vstd::prelude::*;
use crate::decimal::{format_i32, signed_decimal};
use crate::entity::{
    UserAuthRequest, UserAuthResponse, UserChangePasswordRequest, UserCreateRequest, UserFromDb,
    UserGet, UserGetPassword, UserGetResponse, UserUpdateResponse,
};
use crate::gate::{authenticate, gate_verdict, has_bearer_prefix, opt_str_view, AuthOutcome};
use crate::hasher::{bcrypt_accepts, digest_cost, digest_shape, Hasher};
use crate::response::{
    UseCaseError, STATUS_BAD_REQUEST, STATUS_CONFLICT, STATUS_INTERNAL, STATUS_NOT_FOUND,
    STATUS_UNAUTHORIZED,
};
use crate::token::{
    generate_access_token, get_time_sec, issued_claims, jwt_signed, token_verdict, AccessTokenError,
    TokenKeys, TOKEN_LIFE_TIME_SECS,
};

verus! {

/// The store's answer to a request: the value, a distinct "no such row",
/// or a failure of the store itself.
#[derive(Debug, Clone)]
pub enum StoreResult<T> {
    Found(T),
    NotFound,
    Failed,
}

/// The operations offered to callers.
#[derive(Debug, PartialEq, Eq, Structural, Clone, Copy)]
pub enum Operation {
    Login,
    CreateUser,
    UpdateUser,
    GetUser,
    ListUsers,
    ChangePassword,
}

/// The operations that need a valid bearer token, declared in this one place.
pub open spec fn is_protected(op: Operation) -> bool {
    match op {
        Operation::Login | Operation::CreateUser | Operation::UpdateUser => true,
        Operation::GetUser | Operation::ListUsers | Operation::ChangePassword => false,
    }
}

pub fn requires_token(op: Operation) -> (r: bool)
    ensures
        r == is_protected(op),
{
    match op {
        Operation::Login | Operation::CreateUser | Operation::UpdateUser => true,
        Operation::GetUser | Operation::ListUsers | Operation::ChangePassword => false,
    }
}

/// Admits a request for `op` with credential header `header` at time `now`:
/// an unprotected operation is always admitted; a protected one only with a
/// header that `authenticate` accepts, and otherwise it is `Unauthorized`
/// with the generic message, whatever the reason.
pub fn authorize(keys: &TokenKeys, op: Operation, header: Option<&str>, now: u64) -> (r: Result<
    (),
    UseCaseError,
>)
    ensures
        !is_protected(op) ==> r is Ok,
        is_protected(op) ==> (r is Ok <==> gate_verdict(
            keys.secrets(),
            opt_str_view(header),
            now,
        ) is Ok),
        r matches Err(e) ==> is_error(e, STATUS_UNAUTHORIZED, unauthorized_msg()),
{
    if !requires_token(op) {
        return Ok(());
    }
    match authenticate(keys, header, now) {
        AuthOutcome::Authenticated(_) => Ok(()),
        AuthOutcome::Rejected(_) => Err(unauthorized()),
    }
}

/// `authorize` at the current time of the system clock. Whatever the clock
/// reads, an unprotected operation is admitted, a protected one without a
/// header or with a header not starting with `"Bearer "` is refused, and a
/// refusal is `Unauthorized` with the generic message.
pub fn authorize_now(keys: &TokenKeys, op: Operation, header: Option<&str>) -> (r: Result<
    (),
    UseCaseError,
>)
    ensures
        !is_protected(op) ==> r is Ok,
        is_protected(op) && (header is None || (header matches Some(h) && !has_bearer_prefix(h@)))
            ==> r is Err,
        r matches Err(e) ==> is_error(e, STATUS_UNAUTHORIZED, unauthorized_msg()),
{
    authorize(keys, op, header, get_time_sec())
}

/// Length of the text form of a refresh token.
pub const REFRESH_TOKEN_LEN: usize = 36;

pub open spec fn is_lower_hex(c: char) -> bool {
    (48 <= (c as u32) && (c as u32) <= 57) || (97 <= (c as u32) && (c as u32) <= 102)
}

/// Text of a version 4 UUID in lowercase hyphenated form: 8-4-4-4-12 hex
/// digits, version digit `4`, variant digit one of `8`, `9`, `a`, `b`.
pub open spec fn is_uuid_v4_text(s: Seq<char>) -> bool {
    &&& s.len() == REFRESH_TOKEN_LEN
    &&& forall|i: int|
        0 <= i < s.len() ==> if i == 8 || i == 13 || i == 18 || i == 23 {
            #[trigger] s[i] == '-'
        } else {
            is_lower_hex(s[i])
        }
    &&& s[14] == '4'
    &&& (s[19] == '8' || s[19] == '9' || s[19] == 'a' || s[19] == 'b')
}

/// Relies on uuid's Uuid::new_v4, which sets the version and variant bits
/// of random bits, and on its Display, which writes the lowercase
/// hyphenated form.
#[verifier::external_body]
fn new_refresh_token() -> (r: String)
    ensures
        is_uuid_v4_text(r@),
{
    uuid::Uuid::new_v4().to_string()
}

/// `err` is of the kind with transport status `status` and carries `msg`.
pub open spec fn is_error(err: UseCaseError, status: u16, msg: Seq<char>) -> bool {
    err.status_spec() == status && err.message_spec() == msg
}

pub open spec fn unauthorized_msg() -> Seq<char> {
    "Unauthorized"@
}

pub open spec fn internal_msg() -> Seq<char> {
    "Internal server error"@
}

pub open spec fn invalid_old_password_msg() -> Seq<char> {
    "Invalid old password"@
}

pub open spec fn id_not_found_msg(id: i32) -> Seq<char> {
    "User with id="@ + signed_decimal(id as int) + " not found"@
}

pub open spec fn username_not_found_msg(username: Seq<char>) -> Seq<char> {
    "User with username="@ + username + " not found"@
}

pub open spec fn username_exists_msg(username: Seq<char>) -> Seq<char> {
    "User with username="@ + username + " already exists"@
}

fn unauthorized() -> (r: UseCaseError)
    ensures
        is_error(r, STATUS_UNAUTHORIZED, unauthorized_msg()),
{
    proof {
        reveal_strlit("Unauthorized");
    }
    UseCaseError::Unauthorized(String::from_str("Unauthorized"))
}

fn internal() -> (r: UseCaseError)
    ensures
        is_error(r, STATUS_INTERNAL, internal_msg()),
{
    proof {
        reveal_strlit("Internal server error");
    }
    UseCaseError::Internal(String::from_str("Internal server error"))
}

fn id_not_found(id: i32) -> (r: UseCaseError)
    ensures
        is_error(r, STATUS_NOT_FOUND, id_not_found_msg(id)),
{
    let msg = String::from_str("User with id=").concat(format_i32(id).as_str()).concat(" not found");
    UseCaseError::NotFound(msg)
}

/// First step of a login, on the store's answer to the lookup of the
/// username. An unknown username is `Unauthorized`, like a wrong password,
/// so that a caller cannot learn which usernames exist.
pub fn user_auth_lookup(found: &StoreResult<UserGet>) -> (r: Result<(), UseCaseError>)
    ensures
        match found {
            StoreResult::Found(_) => r is Ok,
            StoreResult::NotFound => r matches Err(e) && is_error(
                e,
                STATUS_UNAUTHORIZED,
                unauthorized_msg(),
            ),
            StoreResult::Failed => r matches Err(e) && is_error(e, STATUS_INTERNAL, internal_msg()),
        },
{
    match found {
        StoreResult::Found(_) => Ok(()),
        StoreResult::NotFound => Err(unauthorized()),
        StoreResult::Failed => Err(internal()),
    }
}

/// Second step of a login, on the store's answer to the request for the
/// user's password hash, at time `now`. A password that the hash accepts
/// gets an access token for the username, which verifies to it until
/// `TOKEN_LIFE_TIME_SECS` after `now`, and a fresh random refresh token (an
/// opaque UUID, checked nowhere); any other password is `Unauthorized`.
pub fn user_auth(
    keys: &TokenKeys,
    hasher: &Hasher,
    user: &UserAuthRequest,
    stored: &StoreResult<UserGetPassword>,
    now: u64,
) -> (r: Result<UserAuthResponse, UseCaseError>)
    requires
        now <= u64::MAX - TOKEN_LIFE_TIME_SECS,
    ensures
        match stored {
            StoreResult::Found(p) => if bcrypt_accepts(user.password@, p.password@) {
                r matches Ok(res) && res.access_token@ == jwt_signed(
                    keys.primary@,
                    issued_claims(user.username@, (now + TOKEN_LIFE_TIME_SECS) as nat),
                ) && is_uuid_v4_text(res.refresh_token@) && (forall|t: u64| #[trigger]
                    token_verdict(keys.secrets(), res.access_token@, t) == if t <= now
                        + TOKEN_LIFE_TIME_SECS {
                        Ok::<(Seq<char>, u64), AccessTokenError>(
                            (user.username@, (now + TOKEN_LIFE_TIME_SECS - t) as u64),
                        )
                    } else {
                        Err(AccessTokenError::ExpiredToken)
                    })
            } else {
                r matches Err(e) && is_error(e, STATUS_UNAUTHORIZED, unauthorized_msg())
            },
            _ => r matches Err(e) && is_error(e, STATUS_INTERNAL, internal_msg()),
        },
{
    let stored_hash = match stored {
        StoreResult::Found(p) => &p.password,
        _ => return Err(internal()),
    };
    if !hasher.verify(user.password.as_str(), stored_hash.as_str()) {
        return Err(unauthorized());
    }
    let access_token = generate_access_token(keys, &user.username, now);
    let refresh_token = new_refresh_token();
    Ok(UserAuthResponse { access_token, refresh_token })
}

/// First step of a creation, on the store's answer to the lookup of the
/// username. A taken username is a `Conflict`; a free one gives the record
/// to insert: the request with its password replaced by a hash that
/// verifies it. A failure of the store or of the hasher is `Internal`.
pub fn user_create(
    hasher: &Hasher,
    user: UserCreateRequest,
    existing: &StoreResult<UserGet>,
) -> (r: Result<UserCreateRequest, UseCaseError>)
    ensures
        match existing {
            StoreResult::Found(_) => r matches Err(e) && is_error(
                e,
                STATUS_CONFLICT,
                username_exists_msg(user.username@),
            ),
            StoreResult::Failed => r matches Err(e) && is_error(e, STATUS_INTERNAL, internal_msg()),
            StoreResult::NotFound => match r {
                Ok(rec) => rec.username@ == user.username@ && rec.firstname@ == user.firstname@
                    && rec.lastname@ == user.lastname@ && bcrypt_accepts(
                    user.password@,
                    rec.password@,
                ) && digest_shape(rec.password@) && digest_cost(rec.password@) == hasher.cost,
                Err(e) => is_error(e, STATUS_INTERNAL, internal_msg()),
            },
        },
{
    match existing {
        StoreResult::Found(_) => {
            let msg = String::from_str("User with username=").concat(user.username.as_str()).concat(
                " already exists",
            );
            return Err(UseCaseError::Conflict(msg));
        },
        StoreResult::Failed => return Err(internal()),
        StoreResult::NotFound => {},
    }
    match hasher.hash(user.password.as_str()) {
        Some(hashed) => {
            let mut rec = user;
            rec.password = hashed;
            Ok(rec)
        },
        None => Err(internal()),
    }
}

/// Last step of a creation, on the store's answer to the insert.
pub fn user_create_persisted(created: StoreResult<UserGet>) -> (r: Result<UserGet, UseCaseError>)
    ensures
        match created {
            StoreResult::Found(u) => r == Ok::<UserGet, UseCaseError>(u),
            _ => r matches Err(e) && is_error(e, STATUS_INTERNAL, internal_msg()),
        },
{
    match created {
        StoreResult::Found(u) => Ok(u),
        _ => Err(internal()),
    }
}

/// A user read by id; an absent id is `NotFound` with the id in its message.
pub fn user_get_by_id(id: i32, found: StoreResult<UserGetResponse>) -> (r: Result<
    UserGetResponse,
    UseCaseError,
>)
    ensures
        match found {
            StoreResult::Found(u) => r == Ok::<UserGetResponse, UseCaseError>(u),
            StoreResult::NotFound => r matches Err(e) && is_error(
                e,
                STATUS_NOT_FOUND,
                id_not_found_msg(id),
            ),
            StoreResult::Failed => r matches Err(e) && is_error(e, STATUS_INTERNAL, internal_msg()),
        },
{
    match found {
        StoreResult::Found(u) => Ok(u),
        StoreResult::NotFound => Err(id_not_found(id)),
        StoreResult::Failed => Err(internal()),
    }
}

/// A user read by username; an absent one is `NotFound` with the username
/// in its message.
pub fn user_get_by_username(username: &String, found: StoreResult<UserGet>) -> (r: Result<
    UserGet,
    UseCaseError,
>)
    ensures
        match found {
            StoreResult::Found(u) => r == Ok::<UserGet, UseCaseError>(u),
            StoreResult::NotFound => r matches Err(e) && is_error(
                e,
                STATUS_NOT_FOUND,
                username_not_found_msg(username@),
            ),
            StoreResult::Failed => r matches Err(e) && is_error(e, STATUS_INTERNAL, internal_msg()),
        },
{
    match found {
        StoreResult::Found(u) => Ok(u),
        StoreResult::NotFound => {
            let msg = String::from_str("User with username=").concat(username.as_str()).concat(
                " not found",
            );
            Err(UseCaseError::NotFound(msg))
        },
        StoreResult::Failed => Err(internal()),
    }
}

/// All users, in the store's order (by id ascending); any failure of the
/// store is `Internal`.
pub fn user_list(listed: StoreResult<Vec<UserGetResponse>>) -> (r: Result<
    Vec<UserGetResponse>,
    UseCaseError,
>)
    ensures
        match listed {
            StoreResult::Found(v) => r matches Ok(w) && w@ == v@,
            _ => r matches Err(e) && is_error(e, STATUS_INTERNAL, internal_msg()),
        },
{
    match listed {
        StoreResult::Found(v) => Ok(v),
        _ => Err(internal()),
    }
}

/// First step of a profile update, on the store's answer to the lookup of
/// the id: an absent user is `NotFound` and nothing is written.
pub fn user_update_lookup(id: i32, existing: &StoreResult<UserGetResponse>) -> (r: Result<
    (),
    UseCaseError,
>)
    ensures
        match existing {
            StoreResult::Found(_) => r is Ok,
            StoreResult::NotFound => r matches Err(e) && is_error(
                e,
                STATUS_NOT_FOUND,
                id_not_found_msg(id),
            ),
            StoreResult::Failed => r matches Err(e) && is_error(e, STATUS_INTERNAL, internal_msg()),
        },
{
    match existing {
        StoreResult::Found(_) => Ok(()),
        StoreResult::NotFound => Err(id_not_found(id)),
        StoreResult::Failed => Err(internal()),
    }
}

/// Last step of a profile update, on the store's answer to the write: the
/// updated row, field for field; any other answer is `Internal` (a missing
/// user was already reported by `user_update_lookup`).
pub fn user_update_by_id(updated: StoreResult<UserFromDb>) -> (r: Result<
    UserUpdateResponse,
    UseCaseError,
>)
    ensures
        match updated {
            StoreResult::Found(row) => r matches Ok(u) && u.id == row.id && u.username == row.username
                && u.firstname == row.firstname && u.lastname == row.lastname && u.create_ts
                == row.create_ts && u.update_ts == row.update_ts,
            _ => r matches Err(e) && is_error(e, STATUS_INTERNAL, internal_msg()),
        },
{
    match updated {
        StoreResult::Found(row) => Ok(
            UserUpdateResponse {
                id: row.id,
                username: row.username,
                firstname: row.firstname,
                lastname: row.lastname,
                create_ts: row.create_ts,
                update_ts: row.update_ts,
            },
        ),
        _ => Err(internal()),
    }
}

/// First step of a password change, on the store's answer to the request
/// for the user's password hash. An absent user is `NotFound`; an old
/// password that the hash does not accept is `BadRequest`, and then no new
/// hash is made. Otherwise the result is the hash to store: one that
/// verifies the new password.
pub fn user_change_password(
    hasher: &Hasher,
    user: &UserChangePasswordRequest,
    stored: &StoreResult<UserGetPassword>,
) -> (r: Result<String, UseCaseError>)
    ensures
        match stored {
            StoreResult::NotFound => r matches Err(e) && is_error(
                e,
                STATUS_NOT_FOUND,
                id_not_found_msg(user.id),
            ),
            StoreResult::Failed => r matches Err(e) && is_error(e, STATUS_INTERNAL, internal_msg()),
            StoreResult::Found(p) => if !bcrypt_accepts(user.old_password@, p.password@) {
                r matches Err(e) && is_error(e, STATUS_BAD_REQUEST, invalid_old_password_msg())
            } else {
                match r {
                    Ok(h) => bcrypt_accepts(user.new_password@, h@) && digest_shape(h@)
                        && digest_cost(h@) == hasher.cost,
                    Err(e) => is_error(e, STATUS_INTERNAL, internal_msg()),
                }
            },
        },
{
    let stored_hash = match stored {
        StoreResult::Found(p) => &p.password,
        StoreResult::NotFound => return Err(id_not_found(user.id)),
        StoreResult::Failed => return Err(internal()),
    };
    if !hasher.verify(user.old_password.as_str(), stored_hash.as_str()) {
        proof {
            reveal_strlit("Invalid old password");
        }
        return Err(UseCaseError::BadRequest(String::from_str("Invalid old password")));
    }
    match hasher.hash(user.new_password.as_str()) {
        Some(h) => Ok(h),
        None => Err(internal()),
    }
}

/// Last step of a password change, on the store's answer to the write of
/// the new hash: any answer but success is `Internal`.
pub fn user_change_password_persisted(written: StoreResult<()>) -> (r: Result<(), UseCaseError>)
    ensures
        match written {
            StoreResult::Found(_) => r is Ok,
            _ => r matches Err(e) && is_error(e, STATUS_INTERNAL, internal_msg()),
        },
{
    match written {
        StoreResult::Found(_) => Ok(()),
        _ => Err(internal()),
    }
}

} // verus!
