//! The auth layer: the per-request decision of a protected route, from the raw
//! `Authorization` header and the key set to forward or reject.
use vstd::prelude::*;
use vstd::string::StringExecFns;
use crate::jwks::key_ids;
use crate::token::{declares_pinned, header_failure, verify, verify_outcome, VerifyError};
use jsonwebtoken::jwk::JwkSet;

verus! {

/// Why a request was turned away.
#[derive(Clone, Copy, Debug, PartialEq, Eq, Structural)]
pub enum RejectReason {
    /// No `Authorization` header.
    MissingHeader,
    /// The header holds bytes other than visible ASCII and tab.
    HeaderNotText,
    /// The header text does not start with `Bearer `.
    MissingBearer,
    /// The bearer token did not verify.
    Token(VerifyError),
}

/// The auth layer's answer for one request.
#[derive(Debug)]
pub enum Decision {
    /// Hand the request on unchanged; the claim set is for logging.
    Forward(serde_json::Value),
    /// Answer at once with the reason's status.
    Reject(RejectReason),
}

/// Status code of every rejection.
pub const UNAUTHORIZED: u16 = 401;

/// A header byte that `HeaderValue::to_str` accepts: visible ASCII or tab.
pub open spec fn visible_byte(c: u8) -> bool {
    (32 <= c && c < 127) || c == 9
}

pub open spec fn visible_ascii(b: Seq<u8>) -> bool {
    forall|i: int| 0 <= i < b.len() ==> visible_byte(#[trigger] b[i])
}

/// The scheme prefix `Bearer ` as bytes.
pub open spec fn bearer_prefix() -> Seq<u8> {
    seq![66u8, 101u8, 97u8, 114u8, 101u8, 114u8, 32u8]
}

pub open spec fn ascii_chars(b: Seq<u8>) -> Seq<char> {
    b.map_values(|c: u8| c as char)
}

/// The token that a header presents: what follows `Bearer `, read as text.
pub open spec fn bearer_token(b: Seq<u8>) -> Option<Seq<char>> {
    if b.len() >= 7 && b.subrange(0, 7) == bearer_prefix() {
        Some(ascii_chars(b.subrange(7, b.len() as int)))
    } else {
        None
    }
}

/// The rejection decided before the signature check, in the auth layer's order;
/// `None` when the request reaches it.
pub open spec fn early_rejection(auth: Option<Seq<u8>>, ids: Seq<Option<Seq<char>>>) -> Option<RejectReason> {
    match auth {
        None => Some(RejectReason::MissingHeader),
        Some(b) => if !visible_ascii(b) {
            Some(RejectReason::HeaderNotText)
        } else {
            match bearer_token(b) {
                None => Some(RejectReason::MissingBearer),
                Some(t) => match header_failure(t, ids) {
                    Some(e) => Some(RejectReason::Token(e)),
                    None => None,
                },
            }
        },
    }
}

/// What the auth layer may decide on a request with header `auth` against a set
/// with key identifiers `ids`: the early rejection where there is one;
/// otherwise forwarding, only for a token whose header declares RS256, or a
/// rejection for its key or its signature.
pub open spec fn gate_outcome(auth: Option<Seq<u8>>, ids: Seq<Option<Seq<char>>>, d: Decision) -> bool {
    match early_rejection(auth, ids) {
        Some(reason) => d == Decision::Reject(reason),
        None => match d {
            Decision::Forward(_) => declares_pinned(bearer_token(auth->0)->0),
            Decision::Reject(reason) => reason == RejectReason::Token(VerifyError::InvalidKeyMaterial)
                || reason == RejectReason::Token(VerifyError::SignatureInvalid),
        },
    }
}

/// The status a decision answers with: none when the request goes on.
pub open spec fn status_of(d: Decision) -> Option<u16> {
    match d {
        Decision::Forward(_) => None,
        Decision::Reject(_) => Some(UNAUTHORIZED),
    }
}

/// Relies on `std::str::from_utf8`: ASCII bytes are valid UTF-8 and decode to
/// one character each.
#[verifier::external_body]
fn text_of(b: &[u8]) -> (r: Option<&str>)
    ensures
        (forall|i: int| 0 <= i < b@.len() ==> #[trigger] b@[i] < 128) ==> r is Some && r->0@ == ascii_chars(b@),
{
    std::str::from_utf8(b).ok()
}

fn is_visible_ascii(b: &[u8]) -> (r: bool)
    ensures
        r == visible_ascii(b@),
{
    let mut i: usize = 0;
    while i < b.len()
        invariant
            i <= b@.len(),
            forall|j: int| 0 <= j < i ==> visible_byte(#[trigger] b@[j]),
        decreases b@.len() - i,
    {
        let c = b[i];
        if !((32 <= c && c < 127) || c == 9) {
            return false;
        }
        i = i + 1;
    }
    true
}

fn has_bearer_prefix(b: &[u8]) -> (r: bool)
    ensures
        r == (b@.len() >= 7 && b@.subrange(0, 7) == bearer_prefix()),
{
    let prefix: [u8; 7] = [66u8, 101u8, 97u8, 114u8, 101u8, 114u8, 32u8];
    assert(prefix@ == bearer_prefix());
    if b.len() < 7 {
        return false;
    }
    let mut i: usize = 0;
    while i < 7
        invariant
            i <= 7,
            b@.len() >= 7,
            prefix@ == bearer_prefix(),
            forall|j: int| 0 <= j < i ==> b@[j] == #[trigger] prefix@[j],
        decreases 7 - i,
    {
        if b[i] != prefix[i] {
            assert(b@.subrange(0, 7)[i as int] != bearer_prefix()[i as int]);
            return false;
        }
        i = i + 1;
    }
    assert(b@.subrange(0, 7) =~= bearer_prefix());
    true
}

/// Decides one request of a protected route from its raw `Authorization`
/// header. The checks run in order and the first that fails decides: header
/// present, header is text, `Bearer ` prefix, then the token's verification.
pub fn validate_session(authorization: Option<&[u8]>, jwks: &JwkSet) -> (d: Decision)
    ensures
        gate_outcome(
            match authorization {
                Some(b) => Some(b@),
                None => None,
            },
            key_ids(*jwks),
            d,
        ),
{
    let b = match authorization {
        Some(b) => b,
        None => return Decision::Reject(RejectReason::MissingHeader),
    };
    if !is_visible_ascii(b) {
        return Decision::Reject(RejectReason::HeaderNotText);
    }
    if !has_bearer_prefix(b) {
        return Decision::Reject(RejectReason::MissingBearer);
    }
    let rest = vstd::slice::slice_subrange(b, 7, b.len());
    assert forall|i: int| 0 <= i < rest@.len() implies #[trigger] rest@[i] < 128 by {
        assert(rest@[i] == b@[i + 7]);
    }
    let token = match text_of(rest) {
        Some(t) => t,
        None => return Decision::Reject(RejectReason::MissingBearer),
    };
    decide_on_token(verify(token, jwks))
}

/// The decision for a bearer token once it has been verified: forward with its
/// claims, or reject for the verifier's reason.
pub fn decide_on_token(verified: Result<serde_json::Value, VerifyError>) -> (d: Decision)
    ensures
        match verified {
            Ok(claims) => d == Decision::Forward(claims),
            Err(e) => d == Decision::Reject(RejectReason::Token(e)),
        },
{
    match verified {
        Ok(claims) => Decision::Forward(claims),
        Err(e) => Decision::Reject(RejectReason::Token(e)),
    }
}

impl Decision {
    /// The status to answer with: `None` when the request is forwarded, 401
    /// for every rejection.
    pub fn reject_status(&self) -> (r: Option<u16>)
        ensures
            r == status_of(*self),
    {
        match self {
            Decision::Forward(_) => None,
            Decision::Reject(_) => Some(UNAUTHORIZED),
        }
    }
}

/// The short plain-text diagnostic that goes with a rejection; informal, not
/// an interface.
pub open spec fn reason_text(r: RejectReason) -> Seq<char> {
    match r {
        RejectReason::MissingHeader => "no authorization header"@,
        RejectReason::HeaderNotText => "authorization header is not text"@,
        RejectReason::MissingBearer => "No Bearer"@,
        RejectReason::Token(VerifyError::MalformedHeader) => "failed to decode header"@,
        RejectReason::Token(VerifyError::MissingKeyId) => "no valid kid"@,
        RejectReason::Token(VerifyError::UnknownKey) => "no valid jwk"@,
        RejectReason::Token(VerifyError::InvalidKeyMaterial) => "unusable key"@,
        RejectReason::Token(VerifyError::SignatureInvalid) => "invalid token"@,
    }
}

impl RejectReason {
    /// The diagnostic text of this reason.
    pub fn message(&self) -> (r: String)
        ensures
            r@ == reason_text(*self),
    {
        let text: &str = match self {
            RejectReason::MissingHeader => "no authorization header",
            RejectReason::HeaderNotText => "authorization header is not text",
            RejectReason::MissingBearer => "No Bearer",
            RejectReason::Token(VerifyError::MalformedHeader) => "failed to decode header",
            RejectReason::Token(VerifyError::MissingKeyId) => "no valid kid",
            RejectReason::Token(VerifyError::UnknownKey) => "no valid jwk",
            RejectReason::Token(VerifyError::InvalidKeyMaterial) => "unusable key",
            RejectReason::Token(VerifyError::SignatureInvalid) => "invalid token",
        };
        String::from_str(text)
    }
}

/// A request without an `Authorization` header is answered 401, whatever the
/// key set, and never reaches the handler.
pub proof fn lemma_missing_header_rejected(ids: Seq<Option<Seq<char>>>, d: Decision)
    requires
        gate_outcome(None, ids, d),
    ensures
        d == Decision::Reject(RejectReason::MissingHeader),
        status_of(d) == Some(UNAUTHORIZED),
{
}

/// A text header that does not start with `Bearer ` (such as `Basic abc123`)
/// is answered 401.
pub proof fn lemma_missing_bearer_rejected(b: Seq<u8>, ids: Seq<Option<Seq<char>>>, d: Decision)
    requires
        visible_ascii(b),
        bearer_token(b) is None,
        gate_outcome(Some(b), ids, d),
    ensures
        d == Decision::Reject(RejectReason::MissingBearer),
        status_of(d) == Some(UNAUTHORIZED),
{
}

/// A token whose header names a key identifier that no key of the set carries
/// fails with `UnknownKey`, and the auth layer answers 401.
pub proof fn lemma_unknown_key_rejected(
    b: Seq<u8>,
    ids: Seq<Option<Seq<char>>>,
    r: Result<serde_json::Value, VerifyError>,
    d: Decision,
    alg: jsonwebtoken::Algorithm,
    kid: Seq<char>,
)
    requires
        visible_ascii(b),
        bearer_token(b) is Some,
        crate::token::jwt_header(bearer_token(b)->0) == Some((alg, Some(kid))),
        !ids.contains(Some(kid)),
        verify_outcome(bearer_token(b)->0, ids, r),
        gate_outcome(Some(b), ids, d),
    ensures
        r == Err::<serde_json::Value, VerifyError>(VerifyError::UnknownKey),
        d == Decision::Reject(RejectReason::Token(VerifyError::UnknownKey)),
        status_of(d) == Some(UNAUTHORIZED),
{
}

/// The header's algorithm never selects the verification: a token whose
/// header declares anything but RS256 is rejected, by the verifier and by the
/// gate.
pub proof fn lemma_pinned_algorithm_decides(
    token: Seq<char>,
    b: Seq<u8>,
    ids: Seq<Option<Seq<char>>>,
    r: Result<serde_json::Value, VerifyError>,
    d: Decision,
)
    requires
        !declares_pinned(token),
        verify_outcome(token, ids, r),
        bearer_token(b) == Some(token),
        gate_outcome(Some(b), ids, d),
    ensures
        r is Err,
        d is Reject,
        status_of(d) == Some(UNAUTHORIZED),
{
}

/// Verifying one token twice against one key set cannot end in two different
/// header failures, nor in a header failure once and success once: the
/// decision up to the signature check depends on the token and the key set
/// alone.
pub proof fn lemma_verify_repeatable(
    token: Seq<char>,
    ids: Seq<Option<Seq<char>>>,
    r1: Result<serde_json::Value, VerifyError>,
    r2: Result<serde_json::Value, VerifyError>,
)
    requires
        verify_outcome(token, ids, r1),
        verify_outcome(token, ids, r2),
    ensures
        r1 is Ok ==> (r2 is Ok || r2 == Err::<serde_json::Value, VerifyError>(VerifyError::InvalidKeyMaterial)
            || r2 == Err::<serde_json::Value, VerifyError>(VerifyError::SignatureInvalid)),
        header_failure(token, ids) is Some ==> r1 == r2,
{
}

} // verus!
