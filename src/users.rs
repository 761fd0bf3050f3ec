//! Accounts and the credential flow: registration hashes the password, login
//! checks it and opens a session, and every failed login looks the same.
use crate::jwt::{generate_jwt, is_session_token, SESSION_SECONDS};
use crate::session::SessionCookies;
use vstd::prelude::*;

verus! {

/// A stored account.
#[derive(Debug, Clone, PartialEq, Eq)]
pub struct User {
    pub id: String,
    pub email: String,
    /// Salted bcrypt hash of the password.
    pub password_hash: String,
}

/// The sign-up and sign-in form.
#[derive(Debug, Clone, PartialEq, Eq)]
pub struct UserRequest {
    pub email: String,
    pub password: String,
}

#[verifier::external_type_specification]
#[verifier::external_body]
pub struct ExBcryptError(bcrypt::BcryptError);

/// Whether bcrypt accepts `password` against the stored `hash`; `None` for a
/// hash it cannot read.
pub uninterp spec fn bcrypt_verdict(password: Seq<char>, hash: Seq<char>) -> Option<bool>;

/// Relies on `bcrypt::verify`: it recomputes the hash with the salt and cost
/// read from `hash`, so the answer depends on the two arguments alone.
#[verifier::external_body]
fn bcrypt_verify(password: &str, hash: &str) -> (r: Result<bool, bcrypt::BcryptError>)
    ensures
        match r {
            Ok(b) => bcrypt_verdict(password@, hash@) == Some(b),
            Err(_) => bcrypt_verdict(password@, hash@) is None,
        },
{
    bcrypt::verify(password, hash)
}

/// Relies on `bcrypt::hash` with `DEFAULT_COST`: a fresh random salt each
/// time, and `bcrypt::verify` accepts the password against what it returns.
#[verifier::external_body]
fn bcrypt_hash(password: &str) -> (r: Result<String, bcrypt::BcryptError>)
    ensures
        r matches Ok(h) ==> bcrypt_verdict(password@, h@) == Some(true),
{
    bcrypt::hash(password, bcrypt::DEFAULT_COST)
}

/// The password could not be hashed (the random source failed).
#[derive(Debug, Clone, Copy, PartialEq, Eq, Structural)]
pub struct HashError;

/// Hashes a password for storage.
pub fn hash_password(password: &str) -> (r: Result<String, HashError>)
    ensures
        r matches Ok(h) ==> bcrypt_verdict(password@, h@) == Some(true),
{
    match bcrypt_hash(password) {
        Ok(h) => Ok(h),
        Err(_) => Err(HashError),
    }
}

/// The account exists and the password matches its hash.
pub open spec fn credentials_accepted(user: Option<&User>, password: Seq<char>) -> bool {
    match user {
        Some(u) => bcrypt_verdict(password, u.password_hash@) == Some(true),
        None => false,
    }
}

pub open spec fn login_notice(accepted: bool) -> Seq<char> {
    if accepted {
        "User logged in correctly"@
    } else {
        "Invalid email or password"@
    }
}

pub open spec fn login_redirect(accepted: bool) -> Seq<char> {
    if accepted {
        "/movies"@
    } else {
        "/users/sign_in"@
    }
}

/// Checks a password against the account found for the email, if any.
pub fn check_credentials(user: Option<&User>, password: &str) -> (r: bool)
    ensures
        r == credentials_accepted(user, password@),
{
    match user {
        Some(u) => match bcrypt_verify(password, u.password_hash.as_str()) {
            Ok(b) => b,
            Err(_) => false,
        },
        None => false,
    }
}

/// Logs in: on good credentials the session cookie gets a fresh token for the
/// account's email; on any failure, unknown email or wrong password alike,
/// the cookies get the same notice. Returns the path to redirect to.
pub fn login(
    secret: &str,
    user: Option<&User>,
    password: &str,
    now: u64,
    cookies: &mut SessionCookies,
) -> (r: String)
    requires
        now <= u64::MAX - SESSION_SECONDS,
    ensures
        ({
            let accepted = credentials_accepted(user, password@);
            &&& r@ == login_redirect(accepted)
            &&& final(cookies).notice matches Some(n) && n@ == login_notice(accepted)
            &&& accepted ==> (final(cookies).jwt matches Some(t) && is_session_token(
                secret@,
                t@,
                user->Some_0.email@,
                (now + SESSION_SECONDS) as u64,
            ))
            &&& !accepted ==> final(cookies).jwt == old(cookies).jwt
        }),
{
    if check_credentials(user, password) {
        match user {
            Some(u) => {
                let token = generate_jwt(secret, u.email.as_str(), now);
                cookies.jwt = Some(token);
            },
            None => {},
        }
        cookies.set_notice(String::from_str("User logged in correctly"));
        String::from_str("/movies")
    } else {
        cookies.set_notice(String::from_str("Invalid email or password"));
        String::from_str("/users/sign_in")
    }
}

/// Where registration leads: to sign-in once the account was stored, else
/// back to sign-up with a notice that does not say why.
pub fn register_outcome(stored: bool, cookies: &mut SessionCookies) -> (r: String)
    ensures
        stored ==> r@ == "/users/sign_in"@ && *final(cookies) == *old(cookies),
        !stored ==> r@ == "/users/sign_up"@,
        !stored ==> final(cookies).jwt == old(cookies).jwt,
        !stored ==> (final(cookies).notice matches Some(n) && n@ == "Registration failed"@),
{
    if stored {
        String::from_str("/users/sign_in")
    } else {
        cookies.set_notice(String::from_str("Registration failed"));
        String::from_str("/users/sign_up")
    }
}

/// A login for an email with no account and a login with a wrong password
/// for an existing account end the same way: same notice, same redirect, no
/// session.
pub proof fn lemma_credential_hygiene(account: User, password: Seq<char>, wrong: Seq<char>)
    requires
        bcrypt_verdict(wrong, account.password_hash@) != Some(true),
    ensures
        !credentials_accepted(None::<&User>, password),
        !credentials_accepted(Some(&account), wrong),
        login_notice(credentials_accepted(None::<&User>, password)) == login_notice(
            credentials_accepted(Some(&account), wrong),
        ),
        login_redirect(credentials_accepted(None::<&User>, password)) == login_redirect(
            credentials_accepted(Some(&account), wrong),
        ),
{
}

} // verus!
