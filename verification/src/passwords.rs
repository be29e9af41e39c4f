use argon2::{PasswordHasher, PasswordVerifier};
use vstd::prelude::*;

use crate::error::{ErrorKind, RequestError};

verus! {

/// The error text of `PasswordHash::new(hash)`, or `None` where the text
/// parses as a PHC password hash.
pub uninterp spec fn phc_parse_error(hash: Seq<char>) -> Option<Seq<char>>;

/// Whether `Argon2::default().verify_password(password, hash)` succeeds for a
/// parsable hash.
pub uninterp spec fn argon2_accepts(password: Seq<char>, hash: Seq<char>) -> bool;

/// Calls `PasswordHash::new` and gives its error text, if any.
#[verifier::external_body]
fn phc_check(hash: &str) -> (r: Option<String>)
    ensures
        match phc_parse_error(hash@) {
            None => r is None,
            Some(m) => r matches Some(t) && t@ == m,
        },
{
    argon2::PasswordHash::new(hash).err().map(|e| e.to_string())
}

/// Calls `Argon2::default().verify_password` on a parsable hash.
#[verifier::external_body]
fn argon2_verify(password: &str, hash: &str) -> (r: bool)
    requires
        phc_parse_error(hash@) is None,
    ensures
        r == argon2_accepts(password@, hash@),
{
    let parsed = argon2::PasswordHash::new(hash).unwrap();
    argon2::Argon2::default().verify_password(password.as_bytes(), &parsed).is_ok()
}

/// Calls `Argon2::default().hash_password` with a fresh salt from the
/// operating system (`SaltString::generate(&mut OsRng)`) and writes the hash
/// as a PHC string; on failure gives the error text. The hash differs from
/// call to call; what is promised is that it parses and verifies the
/// password it was made from.
#[verifier::external_body]
fn argon2_hash(password: &str) -> (r: Result<String, String>)
    ensures
        r matches Ok(h) ==> phc_parse_error(h@) is None && argon2_accepts(password@, h@),
{
    let salt = argon2::password_hash::SaltString::generate(&mut rand::rngs::OsRng);
    argon2::Argon2::default().hash_password(password.as_bytes(), &salt).map(|h| h.to_string()).map_err(
        |e| e.to_string(),
    )
}

/// Hashes a password for storage; a failure of the hasher is an internal error.
pub fn hash_password(password: &str) -> (r: Result<String, RequestError>)
    ensures
        r matches Ok(h) ==> phc_parse_error(h@) is None && argon2_accepts(password@, h@),
        r matches Err(e) ==> e.kind() == ErrorKind::InternalServerError,
{
    match argon2_hash(password) {
        Ok(h) => Ok(h),
        Err(m) => Err(RequestError::InternalServerError(m)),
    }
}

/// What checking a password against a stored hash gives: the parser's
/// message for an unparsable hash, a refusal for a wrong password.
pub open spec fn verify_outcome(password: Seq<char>, hash: Seq<char>) -> Result<(), (ErrorKind, Seq<char>)> {
    match phc_parse_error(hash) {
        Some(m) => Err((ErrorKind::InternalServerError, m)),
        None => if argon2_accepts(password, hash) {
            Ok(())
        } else {
            Err((ErrorKind::Unauthorized, "invalid credentials"@))
        },
    }
}

/// Checks a password against a stored hash: an unparsable hash is an
/// internal error carrying the parser's message, a wrong password is
/// unauthorized.
pub fn verify_password(password: &str, password_hash: &str) -> (r: Result<(), RequestError>)
    ensures
        match verify_outcome(password@, password_hash@) {
            Ok(()) => r is Ok,
            Err((kind, message)) => r matches Err(e) && e.is(kind, message),
        },
{
    if let Some(m) = phc_check(password_hash) {
        return Err(RequestError::InternalServerError(m));
    }
    if argon2_verify(password, password_hash) {
        Ok(())
    } else {
        Err(RequestError::unauthorized("invalid credentials"))
    }
}

/// A password checks out against any hash that hashing it produced.
pub proof fn law_hash_then_verify(password: Seq<char>, hash: Seq<char>)
    requires
        phc_parse_error(hash) is None,
        argon2_accepts(password, hash),
    ensures
        verify_outcome(password, hash) == Ok::<(), (ErrorKind, Seq<char>)>(()),
{
}

/// Refuses a registration whose e-mail address is already taken.
pub fn registration_gate(email_taken: bool) -> (r: Result<(), RequestError>)
    ensures
        email_taken ==> (r matches Err(e) && e.is(ErrorKind::Conflict, "user with this email already exists"@)),
        !email_taken ==> r is Ok,
{
    if email_taken {
        return Err(RequestError::conflict("user with this email already exists"));
    }
    Ok(())
}

/// What a login attempt on a found account gives: an inactive account is
/// forbidden before its password is looked at; otherwise the password check
/// decides.
pub open spec fn login_gate_outcome(is_active: bool, password: Seq<char>, hash: Seq<char>) -> Result<
    (),
    (ErrorKind, Seq<char>),
> {
    if !is_active {
        Err((ErrorKind::Forbidden, "user account is inactive"@))
    } else {
        verify_outcome(password, hash)
    }
}

/// Admits a login on a found account.
pub fn login_gate(is_active: bool, password: &str, password_hash: &str) -> (r: Result<(), RequestError>)
    ensures
        match login_gate_outcome(is_active, password@, password_hash@) {
            Ok(()) => r is Ok,
            Err((kind, message)) => r matches Err(e) && e.is(kind, message),
        },
{
    if !is_active {
        return Err(RequestError::forbidden("user account is inactive"));
    }
    verify_password(password, password_hash)
}

/// A login is refused as invalid credentials when no account has the given
/// e-mail; for a found account (its active flag and stored hash) it goes as
/// `login_gate` decides.
pub open spec fn login_account_outcome(found: Option<(bool, Seq<char>)>, password: Seq<char>) -> Result<
    (),
    (ErrorKind, Seq<char>),
> {
    match found {
        None => Err((ErrorKind::Unauthorized, "invalid credentials"@)),
        Some((is_active, hash)) => login_gate_outcome(is_active, password, hash),
    }
}

/// Decides a login from the account looked up by its e-mail, if any.
pub fn login_account_gate(found: Option<(bool, &str)>, password: &str) -> (r: Result<(), RequestError>)
    ensures
        match login_account_outcome(
            match found {
                None => None,
                Some((a, h)) => Some((a, h@)),
            },
            password@,
        ) {
            Ok(()) => r is Ok,
            Err((kind, message)) => r matches Err(e) && e.is(kind, message),
        },
{
    match found {
        None => Err(RequestError::unauthorized("invalid credentials")),
        Some((is_active, hash)) => login_gate(is_active, password, hash),
    }
}

/// A login with an e-mail that no account has is refused as invalid
/// credentials, whatever the password.
pub proof fn law_unknown_account_refused(password: Seq<char>)
    ensures
        login_account_outcome(None, password) == Err::<(), (ErrorKind, Seq<char>)>(
            (ErrorKind::Unauthorized, "invalid credentials"@),
        ),
{
}

/// An active account admits a login with the password it was registered
/// with: the stored hash is one that hashing that password produced.
pub proof fn law_registered_password_logs_in(password: Seq<char>, hash: Seq<char>)
    requires
        phc_parse_error(hash) is None,
        argon2_accepts(password, hash),
    ensures
        login_gate_outcome(true, password, hash) == Ok::<(), (ErrorKind, Seq<char>)>(()),
{
}

/// A blocked account never logs in, whatever the password.
pub proof fn law_blocked_account_refused(password: Seq<char>, hash: Seq<char>)
    ensures
        login_gate_outcome(false, password, hash) == Err::<(), (ErrorKind, Seq<char>)>(
            (ErrorKind::Forbidden, "user account is inactive"@),
        ),
{
}

} // verus!
