//! Request guards: who is asking, read from the session cookie. The strict
//! guard refuses a request without a valid session; the permissive one lets
//! it through as anonymous.
use crate::jwt::{decode_jwt, token_verdict};
use vstd::prelude::*;

verus! {

/// The subject of a valid, unexpired session token in the cookie, if any.
pub open spec fn cookie_subject(secret: Seq<char>, cookie: Option<Seq<char>>, now: u64) -> Option<
    Seq<char>,
> {
    match cookie {
        None => None,
        Some(t) => match token_verdict(secret, t, now) {
            Ok(c) => Some(c.0),
            Err(_) => None,
        },
    }
}

pub open spec fn cookie_view(cookie: Option<&str>) -> Option<Seq<char>> {
    match cookie {
        Some(c) => Some(c@),
        None => None,
    }
}

pub open spec fn email_view(email: Option<String>) -> Option<Seq<char>> {
    match email {
        Some(e) => Some(e@),
        None => None,
    }
}

/// What a guard does when the request carries no valid session.
#[derive(Debug, Clone, Copy, PartialEq, Eq, Structural)]
pub enum GuardPolicy {
    /// Refuse the request.
    Reject,
    /// Let it through as anonymous.
    Anonymous,
}

/// Where a guard leaves a request.
#[derive(Debug, Clone, PartialEq, Eq)]
pub enum GuardOutcome {
    Authenticated(String),
    Anonymous,
    Rejected,
}

/// `r` is what a guard with `policy` yields for a session naming `subject`.
pub open spec fn is_outcome(r: GuardOutcome, policy: GuardPolicy, subject: Option<Seq<char>>) -> bool {
    match subject {
        Some(s) => r matches GuardOutcome::Authenticated(e) && e@ == s,
        None => match policy {
            GuardPolicy::Reject => r is Rejected,
            GuardPolicy::Anonymous => r is Anonymous,
        },
    }
}

/// A request refused for want of a valid session.
#[derive(Debug, Clone, Copy, PartialEq, Eq, Structural)]
pub struct Unauthorized;

impl Unauthorized {
    /// The HTTP status the refusal maps to.
    pub fn status(&self) -> (r: u16)
        ensures
            r == 401,
    {
        401
    }
}

/// Reads the subject of the session token in `cookie`, if it is valid at `now`.
pub fn session_subject(secret: &str, cookie: Option<&str>, now: u64) -> (r: Option<String>)
    ensures
        email_view(r) == cookie_subject(secret@, cookie_view(cookie), now),
{
    match cookie {
        None => None,
        Some(token) => match decode_jwt(secret, token, now) {
            Ok(claims) => Some(claims.sub),
            Err(_) => None,
        },
    }
}

/// The shared pipeline of both guards: read the session, then apply `policy`
/// when there is none.
pub fn evaluate_guard(policy: GuardPolicy, secret: &str, cookie: Option<&str>, now: u64) -> (r:
    GuardOutcome)
    ensures
        is_outcome(r, policy, cookie_subject(secret@, cookie_view(cookie), now)),
{
    match session_subject(secret, cookie, now) {
        Some(email) => GuardOutcome::Authenticated(email),
        None => match policy {
            GuardPolicy::Reject => GuardOutcome::Rejected,
            GuardPolicy::Anonymous => GuardOutcome::Anonymous,
        },
    }
}

/// A user who must be logged in.
#[derive(Debug, Clone, PartialEq, Eq)]
pub struct AuthUser {
    pub email: String,
}

impl AuthUser {
    /// The strict guard.
    pub fn from_cookie(secret: &str, cookie: Option<&str>, now: u64) -> (r: Result<
        AuthUser,
        Unauthorized,
    >)
        ensures
            match cookie_subject(secret@, cookie_view(cookie), now) {
                Some(s) => r matches Ok(u) && u.email@ == s,
                None => r is Err,
            },
    {
        match evaluate_guard(GuardPolicy::Reject, secret, cookie, now) {
            GuardOutcome::Authenticated(email) => Ok(AuthUser { email }),
            _ => Err(Unauthorized),
        }
    }
}

/// A user who may be anonymous.
#[derive(Debug, Clone, PartialEq, Eq)]
pub struct LoggedUser {
    pub email: Option<String>,
}

impl LoggedUser {
    /// The permissive guard.
    pub fn from_cookie(secret: &str, cookie: Option<&str>, now: u64) -> (r: LoggedUser)
        ensures
            email_view(r.email) == cookie_subject(secret@, cookie_view(cookie), now),
    {
        match evaluate_guard(GuardPolicy::Anonymous, secret, cookie, now) {
            GuardOutcome::Authenticated(email) => LoggedUser { email: Some(email) },
            _ => LoggedUser { email: None },
        }
    }
}

/// A user who may be anonymous, as the home page sees it.
#[derive(Debug, Clone, PartialEq, Eq)]
pub struct AuthenticatedUser {
    pub email: Option<String>,
}

impl AuthenticatedUser {
    /// The permissive guard.
    pub fn from_cookie(secret: &str, cookie: Option<&str>, now: u64) -> (r: AuthenticatedUser)
        ensures
            email_view(r.email) == cookie_subject(secret@, cookie_view(cookie), now),
    {
        let logged = LoggedUser::from_cookie(secret, cookie, now);
        AuthenticatedUser { email: logged.email }
    }
}

/// Given the same missing or invalid cookie, the strict guard refuses the
/// request and the permissive guard lets it through as anonymous, with no
/// error for the handler to see.
pub proof fn lemma_guard_divergence(
    secret: Seq<char>,
    cookie: Option<Seq<char>>,
    now: u64,
    strict: GuardOutcome,
    permissive: GuardOutcome,
)
    requires
        cookie is None || token_verdict(secret, cookie->Some_0, now) is Err,
        is_outcome(strict, GuardPolicy::Reject, cookie_subject(secret, cookie, now)),
        is_outcome(permissive, GuardPolicy::Anonymous, cookie_subject(secret, cookie, now)),
    ensures
        cookie_subject(secret, cookie, now) is None,
        strict is Rejected,
        permissive is Anonymous,
{
}

} // verus!
