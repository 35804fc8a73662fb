//! Records exchanged with callers and with the user store, and the shape
//! checks applied to incoming requests.

use vstd::prelude::*;
use vstd::utf8::encode_utf8;

verus! {

/// Settings of the running service.
pub struct Config {
    pub http_host: String,
    pub http_port: String,
    pub db_host: String,
    pub db_port: String,
    pub db_user: String,
    pub db_password: String,
    pub db_name: String,
    pub db_max_conn: u32,
}

/// A full user row, password hash included.
pub struct User {
    pub id: i32,
    pub username: String,
    pub password: String,
    pub firstname: String,
    pub lastname: String,
}

/// Fields of a user to be created; `password` is plaintext on the way in
/// and replaced by its hash before it reaches the store.
#[derive(Clone, Debug)]
pub struct UserCreateRequest {
    pub username: String,
    pub password: String,
    pub firstname: String,
    pub lastname: String,
}

/// A user without its password hash.
#[derive(Clone, Debug)]
pub struct UserGet {
    pub id: i32,
    pub username: String,
    pub firstname: String,
    pub lastname: String,
}

/// The stored password hash of one user.
#[derive(Clone, Debug)]
pub struct UserGetPassword {
    pub password: String,
}

/// Login credentials.
#[derive(Clone, Debug)]
pub struct UserAuthRequest {
    pub username: String,
    pub password: String,
}

/// What a successful login hands back.
#[derive(Clone, Debug)]
pub struct UserAuthResponse {
    pub access_token: String,
    pub refresh_token: String,
}

/// A user row as the store returns it after an update; times are unix seconds.
#[derive(Clone, Debug)]
pub struct UserFromDb {
    pub id: i32,
    pub username: String,
    pub firstname: String,
    pub lastname: String,
    pub create_ts: i64,
    pub update_ts: i64,
}

/// A row that carries only an id.
#[derive(Clone, Copy, Debug)]
pub struct UserEmpty {
    pub id: i32,
}

/// A user as listed or read by id; times are unix seconds.
#[derive(Clone, Debug)]
pub struct UserGetResponse {
    pub id: i32,
    pub username: String,
    pub firstname: String,
    pub lastname: String,
    pub create_ts: i64,
    pub update_ts: i64,
}

/// Profile fields to write for the user `id`.
#[derive(Clone, Debug)]
pub struct UserUpdateRequest {
    pub id: i32,
    pub username: String,
    pub firstname: String,
    pub lastname: String,
}

/// A user after an update; times are unix seconds.
#[derive(Clone, Debug)]
pub struct UserUpdateResponse {
    pub id: i32,
    pub username: String,
    pub firstname: String,
    pub lastname: String,
    pub create_ts: i64,
    pub update_ts: i64,
}

/// A password change for the user `id`.
#[derive(Clone, Debug)]
pub struct UserChangePasswordRequest {
    pub id: i32,
    pub old_password: String,
    pub new_password: String,
}

/// Fewest bytes a username or a password may have.
pub const MIN_CREDENTIAL_LEN: usize = 5;

/// Length of the UTF-8 encoding of `s`.
pub open spec fn byte_len(s: Seq<char>) -> nat {
    encode_utf8(s).len()
}

/// The first shape error of a login request, if any.
pub open spec fn auth_request_error(username: Seq<char>, password: Seq<char>) -> Option<Seq<char>> {
    if byte_len(username) < MIN_CREDENTIAL_LEN {
        Some("invalid username"@)
    } else if byte_len(password) < MIN_CREDENTIAL_LEN {
        Some("invalid password"@)
    } else {
        None
    }
}

/// The first shape error of a create request, if any.
pub open spec fn create_request_error(
    username: Seq<char>,
    password: Seq<char>,
    firstname: Seq<char>,
    lastname: Seq<char>,
) -> Option<Seq<char>> {
    if byte_len(username) < MIN_CREDENTIAL_LEN {
        Some("invalid username"@)
    } else if byte_len(password) < MIN_CREDENTIAL_LEN {
        Some("invalid password"@)
    } else if firstname.len() == 0 {
        Some("firstname is empty"@)
    } else if lastname.len() == 0 {
        Some("lastname is empty"@)
    } else {
        None
    }
}

/// Checks the shape of a login request: username and password need at
/// least five bytes each.
pub fn verify_user_auth_request(req: UserAuthRequest) -> (r: Result<(), String>)
    ensures
        match auth_request_error(req.username@, req.password@) {
            None => r is Ok,
            Some(msg) => r matches Err(e) && e@ == msg,
        },
{
    if req.username.as_str().as_bytes().len() < MIN_CREDENTIAL_LEN {
        return Err(String::from_str("invalid username"));
    }
    if req.password.as_str().as_bytes().len() < MIN_CREDENTIAL_LEN {
        return Err(String::from_str("invalid password"));
    }
    Ok(())
}

/// Checks the shape of a create request: username and password need at
/// least five bytes each, first and last name at least one character.
pub fn verify_user_create_request(req: UserCreateRequest) -> (r: Result<(), String>)
    ensures
        match create_request_error(req.username@, req.password@, req.firstname@, req.lastname@) {
            None => r is Ok,
            Some(msg) => r matches Err(e) && e@ == msg,
        },
{
    if req.username.as_str().as_bytes().len() < MIN_CREDENTIAL_LEN {
        return Err(String::from_str("invalid username"));
    }
    if req.password.as_str().as_bytes().len() < MIN_CREDENTIAL_LEN {
        return Err(String::from_str("invalid password"));
    }
    if req.firstname.as_str().unicode_len() == 0 {
        return Err(String::from_str("firstname is empty"));
    }
    if req.lastname.as_str().unicode_len() == 0 {
        return Err(String::from_str("lastname is empty"));
    }
    Ok(())
}

} // verus!
