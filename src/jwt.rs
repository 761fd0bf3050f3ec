//! Session tokens: HS256 JSON Web Tokens whose claims name the user (`sub`)
//! and the instant the session ends (`exp`), valid while `exp` lies strictly
//! after the present instant.
use crate::encoding::{
    hs256_claims_of, hs256_sig, header_algorithm_of, jwt_decode, jwt_encode, jwt_header_algorithm,
    signed_by, splits_at, token_shape, SigningAlgorithm,
};
use vstd::prelude::*;

verus! {

/// Lifetime of a session token, in seconds.
pub const SESSION_SECONDS: u64 = 3600;

/// What a session token asserts: who the user is and until when.
#[derive(Debug, Clone, PartialEq, Eq)]
pub struct TokenClaims {
    /// The user's email address.
    pub sub: String,
    /// Expiry instant, in seconds since the Unix epoch.
    pub exp: u64,
}

/// Why a token was refused. Callers treat every kind alike; the kind is kept
/// for diagnostics only.
#[derive(Debug, Clone, Copy, PartialEq, Eq, Structural)]
pub enum TokenError {
    /// No readable header.
    Malformed,
    /// A header naming another algorithm than HS256.
    UnexpectedHeader,
    /// A signature that does not match, or claims that are not JSON.
    Rejected,
    /// Claims without a string `sub` or an unsigned integer `exp`.
    MissingClaims,
    /// A genuine token whose expiry instant has been reached.
    Expired,
}

/// The claims that `t` carries once its header, signature and claims have
/// been checked; expiry aside.
pub open spec fn verified_claims(secret: Seq<char>, t: Seq<char>) -> Result<
    (Seq<char>, u64),
    TokenError,
> {
    match header_algorithm_of(t) {
        None => Err(TokenError::Malformed),
        Some(a) => if a != SigningAlgorithm::HS256 {
            Err(TokenError::UnexpectedHeader)
        } else {
            match hs256_claims_of(t, secret) {
                None => Err(TokenError::Rejected),
                Some(c) => if !signed_by(secret, t) {
                    Err(TokenError::Rejected)
                } else {
                    match c {
                        (Some(s), Some(e)) => Ok((s, e)),
                        _ => Err(TokenError::MissingClaims),
                    }
                },
            }
        },
    }
}

/// What decoding `t` at instant `now` yields.
pub open spec fn token_verdict(secret: Seq<char>, t: Seq<char>, now: u64) -> Result<
    (Seq<char>, u64),
    TokenError,
> {
    match verified_claims(secret, t) {
        Ok(c) => if c.1 > now {
            Ok(c)
        } else {
            Err(TokenError::Expired)
        },
        Err(e) => Err(e),
    }
}

/// `t` is a well-shaped token under `secret` that carries `(sub, exp)`.
pub open spec fn is_session_token(secret: Seq<char>, t: Seq<char>, sub: Seq<char>, exp: u64) -> bool {
    token_shape(t) && verified_claims(secret, t) == Ok::<(Seq<char>, u64), TokenError>((sub, exp))
}

/// `r` is the executable form of the verdict `v`.
pub open spec fn is_verdict(r: Result<TokenClaims, TokenError>, v: Result<(Seq<char>, u64), TokenError>) -> bool {
    match r {
        Ok(c) => v == Ok::<(Seq<char>, u64), TokenError>((c.sub@, c.exp)),
        Err(e) => v == Err::<(Seq<char>, u64), TokenError>(e),
    }
}

/// Signs the claims `(subject, exp)` into a token, which decodes back to
/// exactly those claims.
pub fn encode_token(secret: &str, subject: &str, exp: u64) -> (r: String)
    ensures
        is_session_token(secret@, r@, subject@, exp),
{
    match jwt_encode(secret, subject, exp) {
        Ok(t) => t,
        Err(_) => String::new(),
    }
}

/// Signs a session for `user_email` issued at instant `now`; it expires
/// `SESSION_SECONDS` later, and decodes to exactly its claims until then.
pub fn generate_jwt(secret: &str, user_email: &str, now: u64) -> (r: String)
    requires
        now <= u64::MAX - SESSION_SECONDS,
    ensures
        is_session_token(secret@, r@, user_email@, (now + SESSION_SECONDS) as u64),
        forall|t: u64|
            t < now + SESSION_SECONDS ==> #[trigger] token_verdict(secret@, r@, t) == Ok::<
                (Seq<char>, u64),
                TokenError,
            >((user_email@, (now + SESSION_SECONDS) as u64)),
        forall|t: u64|
            t >= now + SESSION_SECONDS ==> #[trigger] token_verdict(secret@, r@, t) == Err::<
                (Seq<char>, u64),
                TokenError,
            >(TokenError::Expired),
{
    encode_token(secret, user_email, now + SESSION_SECONDS)
}

/// Decodes `token` at instant `now`: the header must name HS256, the
/// signature must match, the claims must hold a string `sub` and an unsigned
/// integer `exp`, and `exp` must lie strictly after `now`.
pub fn decode_jwt(secret: &str, token: &str, now: u64) -> (r: Result<TokenClaims, TokenError>)
    ensures
        is_verdict(r, token_verdict(secret@, token@, now)),
{
    match jwt_header_algorithm(token) {
        Ok(SigningAlgorithm::HS256) => {},
        Ok(_) => {
            return Err(TokenError::UnexpectedHeader);
        },
        Err(_) => {
            return Err(TokenError::Malformed);
        },
    }
    let (sub, exp) = match jwt_decode(secret, token) {
        Ok((Some(sub), Some(exp))) => (sub, exp),
        Ok(_) => {
            return Err(TokenError::MissingClaims);
        },
        Err(_) => {
            return Err(TokenError::Rejected);
        },
    };
    if exp > now {
        Ok(TokenClaims { sub, exp })
    } else {
        Err(TokenError::Expired)
    }
}

/// A token that carries its claims stops decoding once its expiry instant is
/// reached: one second after it, the token is refused as expired, and one
/// second before it, the token still yields its claims.
pub proof fn lemma_expiry_boundary(secret: Seq<char>, t: Seq<char>, sub: Seq<char>, exp: u64, now: u64)
    requires
        verified_claims(secret, t) == Ok::<(Seq<char>, u64), TokenError>((sub, exp)),
    ensures
        exp <= now ==> token_verdict(secret, t, now) == Err::<(Seq<char>, u64), TokenError>(
            TokenError::Expired,
        ),
        exp == now + 1 ==> token_verdict(secret, t, now) == Ok::<(Seq<char>, u64), TokenError>(
            (sub, exp),
        ),
{
}

/// A token whose header names any algorithm but HS256, or none, is refused,
/// whatever its signature would verify under.
pub proof fn lemma_header_pinned(secret: Seq<char>, t: Seq<char>, now: u64)
    requires
        header_algorithm_of(t) != Some(SigningAlgorithm::HS256),
    ensures
        verified_claims(secret, t) is Err,
        token_verdict(secret, t, now) is Err,
{
}

proof fn lemma_splits_unique(t: Seq<char>, a: int, b: int, c: int, d: int)
    requires
        splits_at(t, a, b),
        splits_at(t, c, d),
    ensures
        a == c && b == d,
{
    if a < c {
        assert(t[a] != '.');
    } else if c < a {
        assert(t[c] != '.');
    }
    if b < d {
        assert(t[b] != '.');
    } else if d < b {
        assert(t[d] != '.');
    }
}

/// Two texts of one length that differ at index `i` alone.
pub open spec fn differs_only_at(t: Seq<char>, t2: Seq<char>, i: int) -> bool {
    &&& t2.len() == t.len()
    &&& 0 <= i < t.len()
    &&& t2[i] != t[i]
    &&& forall|j: int| 0 <= j < t.len() && j != i ==> t2[j] == t[j]
}

/// After one character of a token with two dots changed, the token either
/// has lost that form or keeps its dots where they were.
proof fn lemma_same_split(t: Seq<char>, t2: Seq<char>, i: int, d1: int, d2: int, c1: int, c2: int)
    requires
        differs_only_at(t, t2, i),
        splits_at(t, d1, d2),
        i != d1 && i != d2,
        splits_at(t2, c1, c2),
    ensures
        c1 == d1 && c2 == d2,
{
    assert(t2[d1] == '.' && t2[d2] == '.');
    if t2[i] == '.' {
        assert(d1 == c1 || d1 == c2);
        assert(d2 == c1 || d2 == c2);
        assert(i == c1 || i == c2);
    }
    assert forall|j: int| 0 <= j < t2.len() && j != d1 && j != d2 implies #[trigger] t2[j]
        != '.' by {
        if j != i {
            assert(t[j] != '.');
        }
    }
    lemma_splits_unique(t2, c1, c2, d1, d2);
}

/// Changing any one character of the signature segment of a genuine token
/// makes it fail to decode.
pub proof fn lemma_signature_tamper(secret: Seq<char>, t: Seq<char>, t2: Seq<char>, i: int)
    requires
        verified_claims(secret, t) is Ok,
        differs_only_at(t, t2, i),
        forall|d1: int, d2: int| splits_at(t, d1, d2) ==> d2 < i,
    ensures
        verified_claims(secret, t2) is Err,
{
    let (d1, d2) = choose|d1: int, d2: int|
        #[trigger] splits_at(t, d1, d2) && t.skip(d2 + 1) == hs256_sig(secret, t.take(d2));
    if signed_by(secret, t2) {
        let (c1, c2) = choose|c1: int, c2: int|
            #[trigger] splits_at(t2, c1, c2) && t2.skip(c2 + 1) == hs256_sig(secret, t2.take(c2));
        lemma_same_split(t, t2, i, d1, d2, c1, c2);
        assert(t2.take(d2) =~= t.take(d2));
        assert(t2.skip(d2 + 1)[i - d2 - 1] != t.skip(d2 + 1)[i - d2 - 1]);
    }
}

/// Changing any one character of the payload segment of a genuine token,
/// without signing it anew, makes it fail to decode, unless the altered
/// text happens to have the very same HMAC as the untouched one.
pub proof fn lemma_payload_tamper(secret: Seq<char>, t: Seq<char>, t2: Seq<char>, i: int)
    requires
        verified_claims(secret, t) is Ok,
        differs_only_at(t, t2, i),
        forall|d1: int, d2: int|
            splits_at(t, d1, d2) ==> d1 < i < d2 && hs256_sig(secret, t2.take(d2)) != hs256_sig(
                secret,
                t.take(d2),
            ),
    ensures
        verified_claims(secret, t2) is Err,
{
    let (d1, d2) = choose|d1: int, d2: int|
        #[trigger] splits_at(t, d1, d2) && t.skip(d2 + 1) == hs256_sig(secret, t.take(d2));
    if signed_by(secret, t2) {
        let (c1, c2) = choose|c1: int, c2: int|
            #[trigger] splits_at(t2, c1, c2) && t2.skip(c2 + 1) == hs256_sig(secret, t2.take(c2));
        lemma_same_split(t, t2, i, d1, d2, c1, c2);
        assert(t2.skip(d2 + 1) =~= t.skip(d2 + 1));
    }
}

} // verus!
