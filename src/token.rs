//! The token verifier: a compact JWT is checked against the authority's key set
//! with the signature algorithm pinned to RS256, whatever the token's header
//! claims.
use vstd::prelude::*;
use crate::jwks::{find_by_key_id, key_ids};
use jsonwebtoken::jwk::{Jwk, JwkSet};
use jsonwebtoken::{Algorithm, DecodingKey};

verus! {

#[verifier::external_type_specification]
pub struct ExAlgorithm(jsonwebtoken::Algorithm);

#[verifier::external_type_specification]
#[verifier::external_body]
pub struct ExDecodingKey(jsonwebtoken::DecodingKey);

#[verifier::external_type_specification]
#[verifier::external_body]
pub struct ExJwtError(jsonwebtoken::errors::Error);

#[verifier::external_type_specification]
#[verifier::external_body]
pub struct ExValue(serde_json::Value);

/// What the header segment of a compact token decodes to: its declared
/// algorithm and its key identifier, or `None` when the token has fewer than
/// three segments or the header is not base64url-encoded JSON of a JWT header.
pub uninterp spec fn jwt_header(token: Seq<char>) -> Option<(Algorithm, Option<Seq<char>>)>;

/// Why a token was not accepted.
#[derive(Clone, Copy, Debug, PartialEq, Eq, Structural)]
pub enum VerifyError {
    /// The header segment is missing or is not a decodable JWT header.
    MalformedHeader,
    /// The header carries no `kid`.
    MissingKeyId,
    /// No key of the set carries the header's `kid`.
    UnknownKey,
    /// The key found cannot be turned into a verification key.
    InvalidKeyMaterial,
    /// The signature or the registered claims do not check out under RS256.
    SignatureInvalid,
}

/// The algorithm every signature is verified with.
pub open spec fn pinned_algorithm() -> Algorithm {
    Algorithm::RS256
}

/// The failure decided before any cryptography: from the header and the
/// identifiers of the keys alone, in the order header, `kid`, key lookup.
pub open spec fn header_failure(token: Seq<char>, ids: Seq<Option<Seq<char>>>) -> Option<VerifyError> {
    match jwt_header(token) {
        None => Some(VerifyError::MalformedHeader),
        Some((_, None)) => Some(VerifyError::MissingKeyId),
        Some((_, Some(kid))) => if ids.contains(Some(kid)) {
            None
        } else {
            Some(VerifyError::UnknownKey)
        },
    }
}

/// Whether the header of `token` declares the pinned algorithm.
pub open spec fn declares_pinned(token: Seq<char>) -> bool {
    match jwt_header(token) {
        Some((alg, _)) => alg == pinned_algorithm(),
        None => false,
    }
}

/// What a verification of `token` against a set with key identifiers `ids`
/// may end in: a header failure where there is one; otherwise success, which
/// needs a header that declares RS256, or a failure of the key or the
/// signature.
pub open spec fn verify_outcome(token: Seq<char>, ids: Seq<Option<Seq<char>>>, r: Result<serde_json::Value, VerifyError>) -> bool {
    match header_failure(token, ids) {
        Some(e) => r == Err::<serde_json::Value, VerifyError>(e),
        None => match r {
            Ok(_) => declares_pinned(token),
            Err(e) => e == VerifyError::InvalidKeyMaterial || e == VerifyError::SignatureInvalid,
        },
    }
}

/// Relies on `jsonwebtoken::decode_header`: it splits the token at its last two
/// dots and decodes the header segment; the result depends on the token alone.
#[verifier::external_body]
fn decode_header(token: &str) -> (r: Result<(Algorithm, Option<String>), jsonwebtoken::errors::Error>)
    ensures
        match r {
            Ok((alg, Some(kid))) => jwt_header(token@) == Some((alg, Some(kid@))),
            Ok((alg, None)) => jwt_header(token@) == Some((alg, None::<Seq<char>>)),
            Err(_) => jwt_header(token@) is None,
        },
{
    jsonwebtoken::decode_header(token).map(|h| (h.alg, h.kid))
}

/// Relies on `DecodingKey::from_jwk`: builds a verification key from the key's
/// parameters, or fails. Nothing is stated of which.
#[verifier::external_body]
fn decoding_key(jwk: &Jwk) -> (r: Result<DecodingKey, jsonwebtoken::errors::Error>)
{
    DecodingKey::from_jwk(jwk)
}

/// Relies on `jsonwebtoken::decode` with `Validation::new(alg)`: that check
/// allows `alg` only, so a token whose decoded header declares another
/// algorithm is refused before its signature is read. Expiry is checked
/// against the clock, so nothing more is stated of the outcome.
#[verifier::external_body]
fn decode_claims(token: &str, key: &DecodingKey, alg: Algorithm) -> (r: Result<serde_json::Value, jsonwebtoken::errors::Error>)
    ensures
        r is Ok ==> match jwt_header(token@) {
            Some((declared, _)) => declared == alg,
            None => false,
        },
{
    jsonwebtoken::decode::<serde_json::Value>(token, key, &jsonwebtoken::Validation::new(alg)).map(|d| d.claims)
}

/// Verifies a compact token against the key set and returns its claim set.
/// The steps run in order and stop at the first failure: decode the header,
/// take its `kid`, find that key, build the verification key, and check the
/// signature and claims with RS256.
pub fn verify(token: &str, jwks: &JwkSet) -> (r: Result<serde_json::Value, VerifyError>)
    ensures
        verify_outcome(token@, key_ids(*jwks), r),
{
    let (_, kid) = match decode_header(token) {
        Ok(h) => h,
        Err(_) => return Err(VerifyError::MalformedHeader),
    };
    let kid = match kid {
        Some(k) => k,
        None => return Err(VerifyError::MissingKeyId),
    };
    let jwk = match find_by_key_id(jwks, kid.as_str()) {
        Some(j) => j,
        None => return Err(VerifyError::UnknownKey),
    };
    let key = match decoding_key(jwk) {
        Ok(k) => k,
        Err(_) => return Err(VerifyError::InvalidKeyMaterial),
    };
    match decode_claims(token, &key, Algorithm::RS256) {
        Ok(claims) => Ok(claims),
        Err(_) => Err(VerifyError::SignatureInvalid),
    }
}

} // verus!
