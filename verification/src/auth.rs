//! Token-based identity: issuing and verifying signed bearer tokens.
//!
//! A token carries `{sub, exp}` claims signed with a process-wide symmetric
//! secret. Verification is pure and stateless: it checks the signature,
//! checks that the expiry lies strictly in the future, and requires the
//! subject to be a decimal user identifier. All rejections are uniform; no
//! caller learns whether a token was malformed, forged, or merely expired.

use vstd::prelude::*;

use crate::model::ApiError;
use crate::numeric::{parse_i32, parse_i32_spec};

verus! {

/// Seconds a token stays valid after issuance.
pub const TOKEN_TTL_SECONDS: u64 = 3600;

/// The claims carried by a token.
#[derive(Debug)]
pub struct Claims {
    pub sub: String,
    pub exp: u64,
}

/// The identity a verified token proves.
#[derive(Clone, Copy, Debug, PartialEq, Eq, Structural)]
pub struct AuthUser {
    pub user_id: i32,
}

/// The token text that signing claims `{sub, exp}` with `secret` yields.
pub uninterp spec fn signed_token(secret: Seq<u8>, sub: Seq<char>, exp: u64) -> Seq<char>;

/// The claims that decoding `token` under `secret` yields; `None` stands for
/// every rejection (wrong shape, bad signature, claims of the wrong type).
pub uninterp spec fn decoded_claims(secret: Seq<u8>, token: Seq<char>) -> Option<
    (Seq<char>, u64),
>;

// jsonwebtoken's error type, carried through the signing wrapper.
#[verifier::external_type_specification]
#[verifier::external_body]
pub struct ExJwtError(jsonwebtoken::errors::Error);

/// Relies on jsonwebtoken::encode with the default header (HS256): signing
/// with a symmetric secret has no failure path (the key family matches the
/// header, these claims always serialize, and HMAC signing is infallible),
/// the token is a function of the claims and the secret alone, and
/// jsonwebtoken::decode under the same secret accepts it and returns the
/// same claims.
#[verifier::external_body]
fn jwt_sign(secret: &[u8], sub: &str, exp: u64) -> (r: Result<
    String,
    jsonwebtoken::errors::Error,
>)
    ensures
        r is Ok,
        r matches Ok(t) ==> t@ == signed_token(secret@, sub@, exp),
        r matches Ok(t) ==> decoded_claims(secret@, t@) == Some((sub@, exp)),
{
    let mut claims = serde_json::Map::new();
    claims.insert("sub".to_string(), serde_json::Value::String(sub.to_string()));
    claims.insert("exp".to_string(), serde_json::Value::Number(serde_json::Number::from(exp)));
    jsonwebtoken::encode(
        &jsonwebtoken::Header::default(),
        &serde_json::Value::Object(claims),
        &jsonwebtoken::EncodingKey::from_secret(secret),
    )
}

/// Relies on jsonwebtoken::decode with HS256, the signature checked, and
/// expiry left to the caller: acceptance and the claims returned are a
/// function of the token text and the secret alone.
#[verifier::external_body]
fn jwt_decode(secret: &[u8], token: &str) -> (r: Option<Claims>)
    ensures
        r matches Some(c) ==> decoded_claims(secret@, token@) == Some((c.sub@, c.exp)),
        r is None ==> decoded_claims(secret@, token@) is None,
{
    let mut validation = jsonwebtoken::Validation::default();
    validation.validate_exp = false;
    let data = jsonwebtoken::decode::<serde_json::Value>(
        token,
        &jsonwebtoken::DecodingKey::from_secret(secret),
        &validation,
    ).ok()?;
    let sub = data.claims.get("sub")?.as_str()?.to_string();
    let exp = data.claims.get("exp")?.as_u64()?;
    Some(Claims { sub, exp })
}

/// The identity a subject claim names: its value as a decimal `i32`, if any.
pub open spec fn subject_identity(sub: Seq<char>) -> Option<AuthUser> {
    match parse_i32_spec(sub) {
        Some(id) => Some(AuthUser { user_id: id }),
        None => None,
    }
}

/// What verifying `token` under `secret` at instant `now` yields: the
/// subject's identity when the token decodes, its expiry lies strictly
/// after `now`, and its subject is a decimal identifier; `None` otherwise.
pub open spec fn verify_token_spec(secret: Seq<u8>, token: Seq<char>, now: u64) -> Option<
    AuthUser,
> {
    match decoded_claims(secret, token) {
        Some(claims) => if now < claims.1 {
            subject_identity(claims.0)
        } else {
            None
        },
        None => None,
    }
}

/// Issue a signed token for `user_id`. Issuance always succeeds, and the
/// token carries exactly the claims `{sub: user_id, exp: now + the fixed
/// TTL}`. It round-trips: at every instant before that expiry, and at no
/// other, verification yields exactly the subject it was issued for.
pub fn create_token(user_id: &str, secret: &[u8], now: u64) -> (r: Result<String, ApiError>)
    requires
        now + TOKEN_TTL_SECONDS <= u64::MAX,
    ensures
        r is Ok,
        r matches Ok(t) ==> t@ == signed_token(
            secret@,
            user_id@,
            (now + TOKEN_TTL_SECONDS) as u64,
        ),
        r matches Ok(t) ==> decoded_claims(secret@, t@) == Some(
            (user_id@, (now + TOKEN_TTL_SECONDS) as u64),
        ),
        r matches Ok(t) ==> forall|at: u64|
            verify_token_spec(secret@, t@, at) == (if at < now + TOKEN_TTL_SECONDS {
                subject_identity(user_id@)
            } else {
                None
            }),
{
    let exp = now + TOKEN_TTL_SECONDS;
    match jwt_sign(secret, user_id, exp) {
        Ok(t) => Ok(t),
        Err(_) => Err(ApiError::StoreFailure),
    }
}

impl AuthUser {
    /// Verify a bearer token: signature, expiry, and subject shape. Pure and
    /// stateless; no store or session table is consulted.
    pub fn from_token(token: &str, secret: &[u8], now: u64) -> (r: Option<AuthUser>)
        ensures
            r == verify_token_spec(secret@, token@, now),
    {
        match jwt_decode(secret, token) {
            Some(claims) => {
                if now < claims.exp {
                    match parse_i32(claims.sub.as_str()) {
                        Some(id) => Some(AuthUser { user_id: id }),
                        None => None,
                    }
                } else {
                    None
                }
            },
            None => None,
        }
    }
}

/// What extracting a bearer token out of an authorization header value
/// yields: the text after the scheme prefix, if the prefix is there.
pub open spec fn bearer_token_spec(h: Seq<char>) -> Option<Seq<char>> {
    if h.len() >= 7 && h.subrange(0, 7) == "Bearer "@ {
        Some(h.skip(7))
    } else {
        None
    }
}

/// The scheme prefix of a bearer authorization header, character by
/// character.
fn bearer_char(i: usize) -> (c: char)
    requires
        i < 7,
    ensures
        c == "Bearer "@[i as int],
{
    proof {
        reveal_strlit("Bearer ");
    }
    match i {
        0 => 'B',
        1 => 'e',
        2 => 'a',
        3 => 'r',
        4 => 'e',
        5 => 'r',
        _ => ' ',
    }
}

/// Extract the bearer token from an authorization header value: the text
/// after a literal `Bearer ` prefix, or nothing when the prefix is absent.
pub fn bearer_token(header: &str) -> (r: Option<&str>)
    ensures
        match r {
            Some(t) => bearer_token_spec(header@) == Some(t@),
            None => bearer_token_spec(header@) is None,
        },
{
    let n = header.unicode_len();
    if n < 7 {
        return None;
    }
    let mut i: usize = 0;
    while i < 7
        invariant
            7 <= n,
            n == header@.len(),
            i <= 7,
            forall|j: int| 0 <= j < i ==> header@[j] == "Bearer "@[j],
        decreases 7 - i,
    {
        let c = header.get_char(i);
        let expected = bearer_char(i);
        if c != expected {
            proof {
                assert(header@.subrange(0, 7)[i as int] != "Bearer "@[i as int]);
            }
            return None;
        }
        i = i + 1;
    }
    let rest = header.substring_char(7, n);
    proof {
        reveal_strlit("Bearer ");
        assert(header@.subrange(0, 7) =~= "Bearer "@);
        assert(rest@ =~= header@.skip(7));
    }
    Some(rest)
}

/// The identity gate every mutation and list call passes first: take the
/// authorization header value, extract the bearer token, verify it. Every
/// failure — missing header, wrong scheme, malformed or forged token,
/// expiry not in the future, non-numeric subject — is the one uniform
/// `AuthRejected`, so a caller cannot tell them apart.
pub fn authorize_header(header: Option<&str>, secret: &[u8], now: u64) -> (r: Result<
    AuthUser,
    ApiError,
>)
    ensures
        match header {
            Some(h) => match bearer_token_spec(h@) {
                Some(tok) => match verify_token_spec(secret@, tok, now) {
                    Some(id) => r == Ok::<AuthUser, ApiError>(id),
                    None => r == Err::<AuthUser, ApiError>(ApiError::AuthRejected),
                },
                None => r == Err::<AuthUser, ApiError>(ApiError::AuthRejected),
            },
            None => r == Err::<AuthUser, ApiError>(ApiError::AuthRejected),
        },
{
    match header {
        Some(h) => match bearer_token(h) {
            Some(token) => match AuthUser::from_token(token, secret, now) {
                Some(id) => Ok(id),
                None => Err(ApiError::AuthRejected),
            },
            None => Err(ApiError::AuthRejected),
        },
        None => Err(ApiError::AuthRejected),
    }
}

/// A token whose expiry claim does not lie strictly in the future fails
/// verification, whatever its signature.
pub proof fn lemma_expired_token_rejected(secret: Seq<u8>, token: Seq<char>, now: u64)
    requires
        decoded_claims(secret, token) matches Some(claims) ==> claims.1 <= now,
    ensures
        verify_token_spec(secret, token, now) is None,
{
}

} // verus!
