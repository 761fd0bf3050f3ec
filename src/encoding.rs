//! What the library takes from jsonwebtoken: HS256 tokens written and read
//! by `jsonwebtoken::encode`, `decode` and `decode_header`.
use jsonwebtoken::Algorithm as Alg;
use vstd::prelude::*;

verus! {

/// A character of the URL-safe base64 alphabet.
pub open spec fn is_url_safe_char(c: char) -> bool {
    ('A' <= c && c <= 'Z') || ('a' <= c && c <= 'z') || ('0' <= c && c <= '9') || c == '-' || c
        == '_'
}

/// `t` holds exactly two dots, at `d1` and `d2`.
pub open spec fn splits_at(t: Seq<char>, d1: int, d2: int) -> bool {
    &&& 0 <= d1 < d2 < t.len()
    &&& t[d1] == '.'
    &&& t[d2] == '.'
    &&& forall|j: int| 0 <= j < t.len() && j != d1 && j != d2 ==> #[trigger] t[j] != '.'
}

/// Three non-empty segments of URL-safe base64 text joined by dots.
pub open spec fn token_shape(t: Seq<char>) -> bool {
    exists|d1: int, d2: int|
        {
            &&& splits_at(t, d1, d2)
            &&& 0 < d1 && d1 + 1 < d2 && d2 + 1 < t.len()
            &&& forall|j: int|
                0 <= j < t.len() && j != d1 && j != d2 ==> is_url_safe_char(#[trigger] t[j])
        }
}

/// `t` is `header.payload.signature` with the signature the HMAC-SHA-256 text
/// of `header.payload` under `secret`.
pub open spec fn signed_by(secret: Seq<char>, t: Seq<char>) -> bool {
    exists|d1: int, d2: int|
        #[trigger] splits_at(t, d1, d2) && t.skip(d2 + 1) == hs256_sig(secret, t.take(d2))
}

/// The signing algorithms a token header can name.
#[derive(Debug, Clone, Copy, PartialEq, Eq, Structural)]
pub enum SigningAlgorithm {
    HS256,
    HS384,
    HS512,
    ES256,
    ES384,
    RS256,
    RS384,
    RS512,
    PS256,
    PS384,
    PS512,
    EdDSA,
}

#[verifier::external_type_specification]
#[verifier::external_body]
pub struct ExJwtError(jsonwebtoken::errors::Error);

/// The base64url text of the HMAC-SHA-256 of `message` keyed by `secret`, as
/// jsonwebtoken signs and checks HS256 tokens.
pub uninterp spec fn hs256_sig(secret: Seq<char>, message: Seq<char>) -> Seq<char>;

/// The algorithm that `jsonwebtoken::decode_header` reads from the header of
/// `token`; `None` where it cannot read one.
pub uninterp spec fn header_algorithm_of(token: Seq<char>) -> Option<SigningAlgorithm>;

/// What `jsonwebtoken::decode` makes of `token` under `secret`, HS256 pinned
/// and expiry left unchecked: `None` where it refuses the token, else the
/// claims' `sub` if it is a string and `exp` if it is an unsigned integer.
pub uninterp spec fn hs256_claims_of(token: Seq<char>, secret: Seq<char>) -> Option<
    (Option<Seq<char>>, Option<u64>),
>;

pub open spec fn text_view(s: Option<String>) -> Option<Seq<char>> {
    match s {
        Some(x) => Some(x@),
        None => None,
    }
}

/// Relies on `jsonwebtoken::encode` with `Header::new(Algorithm::HS256)` and
/// claims `{"sub", "exp"}`: base64url header and claims, joined by a dot and
/// followed by the HS256 signature of that text. With an HMAC key and a JSON
/// map it cannot fail, and `decode_header` and `decode` read back what it wrote.
#[verifier::external_body]
pub(crate) fn jwt_encode(secret: &str, sub: &str, exp: u64) -> (r: Result<
    String,
    jsonwebtoken::errors::Error,
>)
    ensures
        match r {
            Ok(t) => {
                &&& token_shape(t@)
                &&& signed_by(secret@, t@)
                &&& header_algorithm_of(t@) == Some(SigningAlgorithm::HS256)
                &&& hs256_claims_of(t@, secret@) == Some((Some(sub@), Some(exp)))
            },
            Err(_) => false,
        },
{
    let mut claims = serde_json::Map::new();
    claims.insert("sub".to_string(), serde_json::Value::from(sub));
    claims.insert("exp".to_string(), serde_json::Value::from(exp));
    let header = jsonwebtoken::Header::new(jsonwebtoken::Algorithm::HS256);
    let key = jsonwebtoken::EncodingKey::from_secret(secret.as_bytes());
    jsonwebtoken::encode(&header, &claims, &key)
}

/// Relies on `jsonwebtoken::decode_header`: the `alg` of the token's header.
#[verifier::external_body]
pub(crate) fn jwt_header_algorithm(token: &str) -> (r: Result<
    SigningAlgorithm,
    jsonwebtoken::errors::Error,
>)
    ensures
        match r {
            Ok(a) => header_algorithm_of(token@) == Some(a),
            Err(_) => header_algorithm_of(token@) is None,
        },
{
    match jsonwebtoken::decode_header(token) {
        Ok(h) => Ok(match h.alg {
            Alg::HS256 => SigningAlgorithm::HS256, Alg::HS384 => SigningAlgorithm::HS384,
            Alg::HS512 => SigningAlgorithm::HS512, Alg::ES256 => SigningAlgorithm::ES256,
            Alg::ES384 => SigningAlgorithm::ES384, Alg::RS256 => SigningAlgorithm::RS256,
            Alg::RS384 => SigningAlgorithm::RS384, Alg::RS512 => SigningAlgorithm::RS512,
            Alg::PS256 => SigningAlgorithm::PS256, Alg::PS384 => SigningAlgorithm::PS384,
            Alg::PS512 => SigningAlgorithm::PS512, Alg::EdDSA => SigningAlgorithm::EdDSA,
        }),
        Err(e) => Err(e),
    }
}

/// Relies on `jsonwebtoken::decode` with `Validation::new(Algorithm::HS256)`
/// and `validate_exp` off. It accepts only `header.payload.signature` (a
/// further dot spoils the base64 of the header) whose signature is the HS256
/// signature of `header.payload`; the claims are then read as JSON.
#[verifier::external_body]
pub(crate) fn jwt_decode(secret: &str, token: &str) -> (r: Result<
    (Option<String>, Option<u64>),
    jsonwebtoken::errors::Error,
>)
    ensures
        match r {
            Ok((s, e)) => hs256_claims_of(token@, secret@) == Some((text_view(s), e)) && exists|
                d1: int,
                d2: int,
            |
                #[trigger] splits_at(token@, d1, d2) && token@.skip(d2 + 1) == hs256_sig(
                    secret@,
                    token@.take(d2),
                ),
            Err(_) => hs256_claims_of(token@, secret@) is None,
        },
{
    let key = jsonwebtoken::DecodingKey::from_secret(secret.as_bytes());
    let mut validation = jsonwebtoken::Validation::new(jsonwebtoken::Algorithm::HS256);
    validation.validate_exp = false;
    let data = jsonwebtoken::decode::<serde_json::Value>(token, &key, &validation)?;
    let sub = data.claims.get("sub").and_then(serde_json::Value::as_str).map(String::from);
    Ok((sub, data.claims.get("exp").and_then(serde_json::Value::as_u64)))
}

} // verus!
