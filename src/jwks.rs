//! The authority's key set: where it is published, how a fetched document
//! becomes a key set, and lookup of a key by its identifier.
use vstd::prelude::*;
use vstd::string::StringExecFns;

verus! {

#[verifier::external_type_specification]
#[verifier::external_body]
pub struct ExJwkSet(jsonwebtoken::jwk::JwkSet);

#[verifier::external_type_specification]
#[verifier::external_body]
pub struct ExJwk(jsonwebtoken::jwk::Jwk);

/// The key identifiers of the keys of a set, in the set's order (`None` for a
/// key that carries no `kid`).
pub uninterp spec fn key_ids(set: jsonwebtoken::jwk::JwkSet) -> Seq<Option<Seq<char>>>;

/// Whether some key of the set carries the identifier `kid`.
pub open spec fn has_key(set: jsonwebtoken::jwk::JwkSet, kid: Seq<char>) -> bool {
    key_ids(set).contains(Some(kid))
}

/// Relies on `JwkSet::find`: it returns the first key whose `kid` is present and
/// equal to the one asked for, and `None` when no key has it.
#[verifier::external_body]
fn find_jwk<'a>(set: &'a jsonwebtoken::jwk::JwkSet, kid: &str) -> (r: Option<&'a jsonwebtoken::jwk::Jwk>)
    ensures
        r is Some <==> key_ids(*set).contains(Some(kid@)),
{
    set.find(kid)
}

/// Looks up the key that carries the identifier `kid`.
pub fn find_by_key_id<'a>(set: &'a jsonwebtoken::jwk::JwkSet, kid: &str) -> (r: Option<&'a jsonwebtoken::jwk::Jwk>)
    ensures
        r is Some <==> has_key(*set, kid@),
{
    find_jwk(set, kid)
}

#[verifier::external_type_specification]
#[verifier::external_body]
pub struct ExJsonError(serde_json::Error);

/// The key identifiers of the key set that a JSON document describes, in
/// order, or `None` when the bytes are not a JSON Web Key Set document.
pub uninterp spec fn jwks_document(body: Seq<u8>) -> Option<Seq<Option<Seq<char>>>>;

/// Relies on `serde_json::from_slice` into `JwkSet`: it succeeds exactly on a
/// JWKS document, and the set holds that document's keys in order.
#[verifier::external_body]
fn parse_jwks(body: &[u8]) -> (r: Result<jsonwebtoken::jwk::JwkSet, serde_json::Error>)
    ensures
        r is Ok <==> jwks_document(body@) is Some,
        r is Ok ==> Some(key_ids(r->Ok_0)) == jwks_document(body@),
{
    serde_json::from_slice(body)
}

/// Why the key set could not be had from the authority's answer.
#[derive(Clone, Copy, Debug, PartialEq, Eq, Structural)]
pub enum FetchError {
    /// The answer's status was not in the 2xx range.
    Status(u16),
    /// The body is not a JSON Web Key Set document.
    Malformed,
}

pub open spec fn is_success(status: u16) -> bool {
    200 <= status && status < 300
}

/// Turns the authority's answer to the key-set request into the key set:
/// a non-2xx status and a body that is no key-set document are errors.
pub fn jwks_from_response(status: u16, body: &[u8]) -> (r: Result<jsonwebtoken::jwk::JwkSet, FetchError>)
    ensures
        !is_success(status) ==> r == Err::<jsonwebtoken::jwk::JwkSet, FetchError>(FetchError::Status(status)),
        is_success(status) && jwks_document(body@) is None ==> r == Err::<jsonwebtoken::jwk::JwkSet, FetchError>(FetchError::Malformed),
        is_success(status) && jwks_document(body@) is Some ==> r is Ok && Some(key_ids(r->Ok_0)) == jwks_document(body@),
{
    if !(200 <= status && status < 300) {
        return Err(FetchError::Status(status));
    }
    match parse_jwks(body) {
        Ok(set) => Ok(set),
        Err(_) => Err(FetchError::Malformed),
    }
}

/// Path of the key-set document under the authority's base URL.
pub const JWKS_PATH: &'static str = "/.well-known/jwks.json";

/// The discovery URL of the authority's key set.
pub fn jwks_url(authority: &str) -> (r: String)
    ensures
        r@ == authority@ + JWKS_PATH@,
{
    let mut url = String::from_str(authority);
    url.append(JWKS_PATH);
    url
}

} // verus!
