//! The rules for registering users and checking their credentials.
//!
//! Passwords are hashed and checked with the `argon2` crate; token encoding
//! and storage are the caller's.

use argon2::password_hash::{PasswordHash, PasswordHasher, PasswordVerifier, SaltString};
use vstd::prelude::*;
use crate::error::KrownError;
use crate::ids::{fresh_id, now_millis};
use crate::models::{CreateUserRequest, User, UserRole};
use crate::text::{decimal, decimal_text, joined};
use vstd::string::*;

verus! {

/// The shortest accepted username, in bytes.
pub const MIN_USERNAME_LENGTH: usize = 3;

/// Seconds in an hour.
pub const SECS_PER_HOUR: i64 = 3600;

/// Whether `password` matches the stored PHC hash `stored` under Argon2:
/// `None` where `stored` is not a hash string the parser accepts.
pub uninterp spec fn argon2_verdict(password: Seq<char>, stored: Seq<char>) -> Option<bool>;

/// Relies on `argon2::Argon2::hash_password` with a salt from
/// `SaltString::generate` over `rand::thread_rng`: a salted hash in PHC form,
/// or the hasher's error text.
/// A hash it makes is one that `check_password` accepts for the same password,
/// since verification recomputes it with the salt and parameters it records.
#[verifier::external_body]
fn hash_password(password: &str) -> (r: Result<String, String>)
    ensures
        r is Ok ==> argon2_verdict(password@, r->Ok_0@) == Some(true),
{
    let salt = SaltString::generate(&mut rand::thread_rng());
    match argon2::Argon2::default().hash_password(password.as_bytes(), &salt) {
        Ok(h) => Ok(h.to_string()),
        Err(e) => Err(e.to_string()),
    }
}

/// Relies on `argon2::PasswordHash::new` and `Argon2::verify_password`.
#[verifier::external_body]
fn check_password(password: &str, stored: &str) -> (r: Option<bool>)
    ensures
        r == argon2_verdict(password@, stored@),
{
    match PasswordHash::new(stored) {
        Ok(parsed) => Some(argon2::Argon2::default().verify_password(password.as_bytes(), &parsed).is_ok()),
        Err(_) => None,
    }
}

/// The length in bytes of a text's UTF-8 encoding.
pub open spec fn byte_len(s: Seq<char>) -> nat {
    vstd::utf8::encode_utf8(s).len()
}

/// The message of the first registration check that fails, if any: the
/// username has at least 3 bytes, is not taken, and the password has at
/// least `min_password_len` bytes.
pub open spec fn registration_problem(req: &CreateUserRequest, min_password_len: usize, username_taken: bool) -> Option<
    Seq<char>,
> {
    if byte_len(req.username@) < 3 {
        Some("Username must be at least 3 characters"@)
    } else if username_taken {
        Some("Username already exists"@)
    } else if byte_len(req.password@) < min_password_len {
        Some("Password must be at least "@ + decimal(min_password_len as nat) + " characters"@)
    } else {
        None
    }
}

/// The length in bytes of a text.
fn text_bytes(s: &String) -> (r: usize)
    ensures
        r == byte_len(s@),
{
    s.as_str().as_bytes().len()
}

/// Checks a registration; the first check that fails names the error.
pub fn validate_registration(req: &CreateUserRequest, min_password_len: usize, username_taken: bool) -> (r:
    Result<(), KrownError>)
    ensures
        match registration_problem(req, min_password_len, username_taken) {
            Some(m) => r matches Err(KrownError::InvalidInput(x)) && x@ == m,
            None => r is Ok,
        },
{
    if text_bytes(&req.username) < MIN_USERNAME_LENGTH {
        return Err(KrownError::InvalidInput(String::from_str("Username must be at least 3 characters")));
    }
    if username_taken {
        return Err(KrownError::InvalidInput(String::from_str("Username already exists")));
    }
    if text_bytes(&req.password) < min_password_len {
        let n = decimal_text(min_password_len as u64);
        let head = joined("Password must be at least ", n.as_str());
        let m = joined(head.as_str(), " characters");
        return Err(KrownError::InvalidInput(m));
    }
    Ok(())
}

/// The user that a validated registration `id` at `now` makes, given what
/// hashing its password gave: the hash, or why hashing failed.
pub fn user_from_hash(req: CreateUserRequest, hashed: Result<String, String>, id: u128, now: i64) -> (r: Result<
    User,
    KrownError,
>)
    ensures
        match hashed {
            Ok(h) => r == Ok::<User, KrownError>(
                User {
                    id: id,
                    username: req.username,
                    password_hash: h,
                    email: req.email,
                    role: req.role,
                    created_at: now,
                    updated_at: now,
                    last_login: None,
                },
            ),
            Err(why) => r matches Err(KrownError::Internal(m)) && m@ == "Password hashing failed: "@ + why@,
        },
{
    match hashed {
        Err(why) => Err(KrownError::Internal(joined("Password hashing failed: ", why.as_str()))),
        Ok(h) => Ok(
            User {
                id: id,
                username: req.username,
                password_hash: h,
                email: req.email,
                role: req.role,
                created_at: now,
                updated_at: now,
                last_login: None,
            },
        ),
    }
}

/// What registering a user `id` at `now` gives: the validation error, or
/// the new user, never logged in, whose stored hash Argon2 accepts for the
/// password; or, where hashing failed, an internal error saying so.
pub open spec fn registered(
    req: CreateUserRequest,
    min_password_len: usize,
    username_taken: bool,
    id: u128,
    now: i64,
    r: Result<User, KrownError>,
) -> bool {
    match registration_problem(&req, min_password_len, username_taken) {
        Some(m) => r matches Err(KrownError::InvalidInput(x)) && x@ == m,
        None => match r {
            Ok(u) => {
                &&& u.id == id && u.username == req.username && u.email == req.email && u.role == req.role
                &&& u.created_at == now && u.updated_at == now && u.last_login is None
                &&& argon2_verdict(req.password@, u.password_hash@) == Some(true)
            },
            Err(e) => e matches KrownError::Internal(m) && m@.len() >= "Password hashing failed: "@.len()
                && m@.subrange(0, "Password hashing failed: "@.len() as int) == "Password hashing failed: "@,
        },
    }
}

/// Registers a user `id` at time `now`: the request is validated, then the
/// password hashed.
pub fn register_user_at(
    req: CreateUserRequest,
    min_password_len: usize,
    username_taken: bool,
    id: u128,
    now: i64,
) -> (r: Result<User, KrownError>)
    ensures
        registered(req, min_password_len, username_taken, id, now, r),
{
    match validate_registration(&req, min_password_len, username_taken) {
        Err(e) => Err(e),
        Ok(()) => {
            let hashed = hash_password(req.password.as_str());
            let ghost h0 = hashed;
            let r = user_from_hash(req, hashed, id, now);
            proof {
                if h0 is Err {
                    let p = "Password hashing failed: "@;
                    assert((p + h0->Err_0@).subrange(0, p.len() as int) =~= p);
                }
            }
            r
        },
    }
}

/// `register_user_at` under a fresh identifier, at the current time; those
/// are the ones the new user carries.
pub fn create_user(req: CreateUserRequest, min_password_len: usize, username_taken: bool) -> (r: Result<User, KrownError>)
    ensures
        registered(
            req,
            min_password_len,
            username_taken,
            if r is Ok {
                r->Ok_0.id
            } else {
                0
            },
            if r is Ok {
                r->Ok_0.created_at
            } else {
                0
            },
            r,
        ),
{
    let id = fresh_id();
    let now = now_millis();
    register_user_at(req, min_password_len, username_taken, id, now)
}

/// The outcome of a login, given whether an account was found, the
/// password check's verdict on it, and the account's stored role.
pub open spec fn login_outcome_spec(found: bool, verdict: Option<bool>, role: Seq<char>) -> Result<UserRole, ()> {
    if !found {
        Err(())
    } else {
        match verdict {
            None => Err(()),
            Some(ok) => if !ok {
                Err(())
            } else if role == "admin"@ {
                Ok(UserRole::Admin)
            } else if role == "operator"@ {
                Ok(UserRole::Operator)
            } else if role == "readonly"@ {
                Ok(UserRole::ReadOnly)
            } else {
                Err(())
            },
        }
    }
}

/// Decides a login from the verdict of the password check (`None`: the stored
/// hash is unreadable) and the stored role: an unknown account or a wrong
/// password give the same "Invalid credentials"; a broken hash or role is an
/// internal error.
pub fn login_outcome(found: bool, verdict: Option<bool>, role: &str) -> (r: Result<UserRole, KrownError>)
    ensures
        match login_outcome_spec(found, verdict, role@) {
            Ok(x) => r == Ok::<UserRole, KrownError>(x),
            Err(_) => r is Err,
        },
        !found || verdict == Some(false) ==> (r matches Err(KrownError::Auth(m)) && m@ == "Invalid credentials"@),
        found && verdict is None ==> (r matches Err(KrownError::Internal(m)) && m@ == "Invalid password hash"@),
        found && verdict == Some(true) && login_outcome_spec(found, verdict, role@) is Err ==> (r matches Err(
            KrownError::Internal(m),
        ) && m@ == "Invalid role"@),
{
    proof {
        reveal_strlit("admin");
        reveal_strlit("operator");
        reveal_strlit("readonly");
        assert("admin"@.len() != "operator"@.len());
        assert("admin"@.len() != "readonly"@.len());
        assert("operator"@[0] != "readonly"@[0]);
    }
    if !found {
        return Err(KrownError::Auth(String::from_str("Invalid credentials")));
    }
    match verdict {
        None => Err(KrownError::Internal(String::from_str("Invalid password hash"))),
        Some(ok) => if !ok {
            Err(KrownError::Auth(String::from_str("Invalid credentials")))
        } else {
            match UserRole::parse(role) {
            Some(x) => Ok(x),
            None => Err(KrownError::Internal(String::from_str("Invalid role"))),
            }
        },
    }
}

/// Checks `password` against the account found for a login, if any
/// (its stored hash and role).
pub fn authenticate(password: &str, stored_hash: Option<&str>, role: &str) -> (r: Result<UserRole, KrownError>)
    ensures
        match stored_hash {
            None => r matches Err(KrownError::Auth(m)) && m@ == "Invalid credentials"@,
            Some(h) => match login_outcome_spec(true, argon2_verdict(password@, h@), role@) {
                Ok(x) => r == Ok::<UserRole, KrownError>(x),
                Err(_) => r is Err,
            },
        },
{
    match stored_hash {
        None => login_outcome(false, None, role),
        Some(h) => {
            let verdict = check_password(password, h);
            login_outcome(true, verdict, role)
        },
    }
}

/// The expiry of a token issued at `now_secs` for `hours` hours; `None`
/// where it does not fit in an `i64`.
pub fn token_expiry(now_secs: i64, hours: u64) -> (r: Option<i64>)
    ensures
        now_secs + hours * 3600 <= i64::MAX ==> r == Some((now_secs + hours * 3600) as i64),
        now_secs + hours * 3600 > i64::MAX ==> r is None,
{
    if hours > (i64::MAX / SECS_PER_HOUR) as u64 {
        assert(hours * 3600 > i64::MAX) by (nonlinear_arith)
            requires hours > i64::MAX / 3600;
        if now_secs >= 0 {
            return None;
        }
        // a negative start can still leave room; compute in i128
        let total: i128 = now_secs as i128 + (hours as i128) * 3600;
        if total > i64::MAX as i128 {
            return None;
        }
        return Some(total as i64);
    }
    assert(hours * 3600 <= i64::MAX) by (nonlinear_arith)
        requires hours <= i64::MAX / 3600;
    let span: i64 = (hours as i64) * SECS_PER_HOUR;
    if now_secs > i64::MAX - span {
        None
    } else {
        Some(now_secs + span)
    }
}

} // verus!
