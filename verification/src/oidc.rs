//! Verification of an OIDC bearer token against the provider's key set: the token's key
//! must be published, its signature must verify, and its issuer, audience and expiry must
//! be the configured ones; the identity is then read from its claims.

use vstd::prelude::*;
use vstd::string::*;
use crate::auth::{VerifiedOidcIdentity, oidc_identity_from_claims, role_from_name, Role};
use crate::backend_config::OidcConfig;
use serde_json::Value as Json;
use jsonwebtoken::{decode, DecodingKey, Validation};
use jsonwebtoken::jwk::JwkSet;
use self::ClaimValue::{Absent, Bool, List, Null, Number, Object, Text};

verus! {

/// Why an OIDC token is refused.
#[derive(Debug, Clone, Copy, PartialEq, Eq, Structural)]
pub enum OidcError {
    InvalidHeader,
    MissingKid,
    MissingJwksUrl,
    UnknownKey,
    MissingIssuer,
    MissingAudience,
    InvalidToken,
    InvalidClaims,
}

/// What the header of a token gives: `None` when the header cannot be read, otherwise its
/// key identifier, if it names one.
pub uninterp spec fn spec_jwt_header_kid(token: Seq<char>) -> Option<Option<Seq<char>>>;

/// Whether a JSON key set publishes a usable key under an identifier.
pub uninterp spec fn spec_jwks_has_key(jwks_json: Seq<char>, kid: Seq<char>) -> bool;

pub open spec fn kid_view(kid: Option<String>) -> Option<Seq<char>> {
    match kid {
        Some(k) => Some(k@),
        None => None,
    }
}

/// Whether the signature of a token verifies with the algorithm its header names and the
/// key that the JSON key set publishes under `kid`.
pub uninterp spec fn spec_jwt_signature_valid(token: Seq<char>, jwks_json: Seq<char>, kid: Seq<char>) -> bool;

/// Wraps `jsonwebtoken::decode_header`, giving the header's key identifier, or `None` when
/// the header cannot be decoded. The header depends on the token alone.
#[verifier::external_body]
fn jwt_header(token: &str) -> (r: Option<Option<String>>)
    ensures
        r is None <==> spec_jwt_header_kid(token@) is None,
        r matches Some(kid) ==> spec_jwt_header_kid(token@) == Some(kid_view(kid)),
{
    match jsonwebtoken::decode_header(token) {
        Ok(header) => Some(header.kid),
        Err(_) => None,
    }
}

/// Wraps `jsonwebtoken::jwk::JwkSet::find` on the key set read from JSON, followed by
/// `jsonwebtoken::DecodingKey::from_jwk`: whether the set reads, holds a key under `kid`
/// and that key is usable. The answer depends on the two texts alone.
#[verifier::external_body]
fn jwks_has_key(jwks_json: &str, kid: &str) -> (r: bool)
    ensures
        r == spec_jwks_has_key(jwks_json@, kid@),
{
    let Ok(set) = serde_json::from_str::<JwkSet>(jwks_json) else { return false };
    match set.find(kid) {
        Some(jwk) => DecodingKey::from_jwk(jwk).is_ok(),
        None => false,
    }
}

/// A claim of a token's payload, as its JSON value gives it.
#[derive(Debug, Clone, PartialEq, Eq)]
pub enum ClaimValue {
    /// The payload has no such member.
    Absent,
    Null,
    Bool(bool),
    /// A number, with its value when it is an integer that fits `i64`.
    Number(Option<i64>),
    Text(String),
    /// An array, each element with its text when it is a string.
    List(Vec<Option<String>>),
    Object,
}

/// The member `name` of the payload of a token, read without any check of the token:
/// `None` when the header or the payload cannot be decoded.
pub uninterp spec fn spec_jwt_claim(token: Seq<char>, name: Seq<char>) -> Option<ClaimValue>;

/// Wraps `jsonwebtoken::decode` into a `serde_json::Value` with every check switched off
/// (signature, expiry, audience, required claims), followed by `serde_json::Value::get`
/// of the member `name`: the payload's member as it is, one case per JSON kind. The
/// payload depends on the token alone.
#[verifier::external_body]
fn jwt_claim(token: &str, name: &str) -> (r: Option<ClaimValue>)
    ensures
        r == spec_jwt_claim(token@, name@),
{
    let mut checks = Validation::default();
    checks.insecure_disable_signature_validation();
    checks.required_spec_claims.clear();
    checks.validate_exp = false;
    checks.validate_aud = false;
    let payload = decode::<Json>(token, &DecodingKey::from_secret(b""), &checks).ok()?.claims;
    Some(match payload.get(name) {
        None => Absent,
        Some(Json::Null) => Null,
        Some(Json::Bool(value)) => Bool(*value),
        Some(Json::Number(value)) => Number(value.as_i64()),
        Some(Json::String(value)) => Text(value.clone()),
        Some(Json::Array(items)) => List(items.iter().map(|item| item.as_str().map(String::from)).collect()),
        Some(Json::Object(_)) => Object,
    })
}

/// A claim that jsonwebtoken's issuer or audience check lets through for `expected`: a
/// string equal to it, or an array of strings that holds it; a claim of another kind is
/// not checked.
pub open spec fn claim_admits(claim: Option<ClaimValue>, expected: Seq<char>) -> bool {
    match claim {
        Some(ClaimValue::Text(value)) => value@ == expected,
        Some(ClaimValue::List(items)) => (forall|k: int| 0 <= k < items.len() ==> items[k] is Some) ==> exists|
            k: int,
        | 0 <= k < items.len() && kid_view(#[trigger] items[k]) == Some(expected),
        _ => true,
    }
}

/// Wraps `jsonwebtoken::decode` with the key that the key set `jwks_json` publishes under
/// `kid` and a validation of the header's algorithm, the issuer, the audience and the
/// expiry: whether the token passes. As the crate's `decode` and `validate` show, a token
/// that passes has a signature that verifies with that algorithm and key, an expiry, and
/// issuer and audience claims that, where they are strings or arrays of strings, admit the
/// ones given. Whether the expiry lies in the future is checked against the clock and is
/// left unsaid.
#[verifier::external_body]
fn jwt_verified(token: &str, jwks_json: &str, kid: &str, issuer: &str, audience: &str) -> (r: bool)
    ensures
        r ==> spec_jwt_signature_valid(token@, jwks_json@, kid@),
        r ==> spec_jwt_claim(token@, "exp"@) matches Some(ClaimValue::Number(_)),
        r ==> claim_admits(spec_jwt_claim(token@, "iss"@), issuer@),
        r ==> claim_admits(spec_jwt_claim(token@, "aud"@), audience@),
{
    let Ok(header) = jsonwebtoken::decode_header(token) else { return false };
    let Ok(set) = serde_json::from_str::<JwkSet>(jwks_json) else { return false };
    let Some(jwk) = set.find(kid) else { return false };
    let Ok(key) = DecodingKey::from_jwk(jwk) else { return false };
    let mut checks = Validation::new(header.alg);
    checks.set_issuer(&[issuer]);
    checks.set_audience(&[audience]);
    checks.validate_exp = true;
    decode::<Json>(token, &key, &checks).is_ok()
}

/// A text claim as the identity reads it: absent or null is no value, a string is its
/// value, any other kind is invalid.
pub open spec fn text_claim_value(claim: Option<ClaimValue>) -> Result<Option<Seq<char>>, ()> {
    match claim {
        Some(ClaimValue::Absent) | Some(ClaimValue::Null) => Ok(None),
        Some(ClaimValue::Text(value)) => Ok(Some(value@)),
        _ => Err(()),
    }
}

/// An integer claim as the identity reads it: absent or null is no value, an integer that
/// fits `i64` is its value, any other kind is invalid.
pub open spec fn integer_claim_value(claim: Option<ClaimValue>) -> Result<Option<i64>, ()> {
    match claim {
        Some(ClaimValue::Absent) | Some(ClaimValue::Null) => Ok(None),
        Some(ClaimValue::Number(Some(value))) => Ok(Some(value)),
        _ => Err(()),
    }
}

/// The subject, expiry, preferred user name and role that claims give: the subject and the
/// expiry are required, the two others optional, and a claim of the wrong kind makes the
/// claims invalid.
pub open spec fn claims_fields(
    subject: Option<ClaimValue>,
    expires_at: Option<ClaimValue>,
    preferred_username: Option<ClaimValue>,
    role: Option<ClaimValue>,
) -> Result<(Seq<char>, i64, Option<Seq<char>>, Option<Seq<char>>), OidcError> {
    match (
        text_claim_value(subject),
        integer_claim_value(expires_at),
        text_claim_value(preferred_username),
        text_claim_value(role),
    ) {
        (Ok(Some(s)), Ok(Some(e)), Ok(p), Ok(ro)) => Ok((s, e, p, ro)),
        _ => Err(OidcError::InvalidClaims),
    }
}

fn text_claim(claim: Option<ClaimValue>) -> (r: Result<Option<String>, ()>)
    ensures
        match text_claim_value(claim) {
            Ok(v) => r matches Ok(t) && kid_view(t) == v,
            Err(()) => r is Err,
        },
{
    match claim {
        Some(ClaimValue::Absent) | Some(ClaimValue::Null) => Ok(None),
        Some(ClaimValue::Text(value)) => Ok(Some(value)),
        _ => Err(()),
    }
}

/// The identity that a token's claims describe, or `InvalidClaims`.
pub fn identity_from_claims(
    subject: Option<ClaimValue>,
    expires_at: Option<ClaimValue>,
    preferred_username: Option<ClaimValue>,
    role: Option<ClaimValue>,
) -> (r: Result<VerifiedOidcIdentity, OidcError>)
    ensures
        match claims_fields(subject, expires_at, preferred_username, role) {
            Err(e) => r == Err::<VerifiedOidcIdentity, OidcError>(e),
            Ok((s, e, p, ro)) => r matches Ok(id) && identity_of(id, s, e, p, ro),
        },
{
    let ghost fields = claims_fields(subject, expires_at, preferred_username, role);
    let exp = match expires_at {
        Some(ClaimValue::Number(Some(value))) => value,
        _ => {
            return Err(OidcError::InvalidClaims);
        },
    };
    let sub = match text_claim(subject) {
        Ok(Some(value)) => value,
        _ => {
            return Err(OidcError::InvalidClaims);
        },
    };
    let name = match text_claim(preferred_username) {
        Ok(value) => value,
        Err(()) => {
            return Err(OidcError::InvalidClaims);
        },
    };
    let claimed_role = match text_claim(role) {
        Ok(value) => value,
        Err(()) => {
            return Err(OidcError::InvalidClaims);
        },
    };
    let ghost sv = sub@;
    let ghost pv = kid_view(name);
    let ghost rv = kid_view(claimed_role);
    let id = oidc_identity_from_claims(sub, exp, name, claimed_role);
    assert(identity_of(id, sv, exp, pv, rv));
    Ok(id)
}

/// The identity that claims describe, as `oidc_identity_from_claims` builds it.
pub open spec fn identity_of(
    id: VerifiedOidcIdentity,
    subject: Seq<char>,
    expires_at: i64,
    preferred_username: Option<Seq<char>>,
    role: Option<Seq<char>>,
) -> bool {
    &&& id.subject@ == subject
    &&& id.expires_at == expires_at
    &&& id.username@ == (match preferred_username {
        Some(name) => name,
        None => subject,
    })
    &&& id.role == (match role {
        Some(name) => match role_from_name(name) {
            Some(parsed) => parsed,
            None => Role::ReadOnly,
        },
        None => Role::ReadOnly,
    })
}

/// What `verify_oidc_claims` answers for a token, the key set's text and the settings.
pub open spec fn oidc_outcome(
    token: Seq<char>,
    jwks_json: Seq<char>,
    config: OidcConfig,
    r: Result<VerifiedOidcIdentity, OidcError>,
) -> bool {
    &&& (spec_jwt_header_kid(token) is None ==> r == Err::<VerifiedOidcIdentity, OidcError>(
        OidcError::InvalidHeader,
    ))
    &&& (spec_jwt_header_kid(token) == Some(None::<Seq<char>>) ==> r == Err::<
        VerifiedOidcIdentity,
        OidcError,
    >(OidcError::MissingKid))
    &&& (spec_jwt_header_kid(token) matches Some(Some(kid)) ==> {
        &&& config.jwks_url is None ==> r == Err::<VerifiedOidcIdentity, OidcError>(
            OidcError::MissingJwksUrl,
        )
        &&& config.jwks_url is Some && !spec_jwks_has_key(jwks_json, kid) ==> r == Err::<
            VerifiedOidcIdentity,
            OidcError,
        >(OidcError::UnknownKey)
        &&& config.jwks_url is Some && spec_jwks_has_key(jwks_json, kid) && config.issuer is None
            ==> r == Err::<VerifiedOidcIdentity, OidcError>(OidcError::MissingIssuer)
        &&& config.jwks_url is Some && spec_jwks_has_key(jwks_json, kid) && config.issuer is Some
            && config.audience is None ==> r == Err::<VerifiedOidcIdentity, OidcError>(
            OidcError::MissingAudience,
        )
        &&& config.jwks_url is Some && spec_jwks_has_key(jwks_json, kid) && config.issuer is Some
            && config.audience is Some ==> (r is Ok || r == Err::<VerifiedOidcIdentity, OidcError>(
            OidcError::InvalidToken,
        ) || r == Err::<VerifiedOidcIdentity, OidcError>(OidcError::InvalidClaims))
    })
    &&& (r is Ok ==> (spec_jwt_header_kid(token) matches Some(Some(kid)) && config.jwks_url is Some
        && spec_jwks_has_key(jwks_json, kid) && config.issuer is Some && config.audience is Some))
    &&& (r is Ok ==> (spec_jwt_header_kid(token) matches Some(Some(kid)) && spec_jwt_signature_valid(
        token,
        jwks_json,
        kid,
    )))
    &&& (r is Ok ==> claim_admits(spec_jwt_claim(token, "iss"@), config.issuer->0@) && claim_admits(
        spec_jwt_claim(token, "aud"@),
        config.audience->0@,
    ))
    &&& (r matches Ok(id) ==> claims_fields(
        spec_jwt_claim(token, "sub"@),
        spec_jwt_claim(token, "exp"@),
        spec_jwt_claim(token, "preferred_username"@),
        spec_jwt_claim(token, "role"@),
    ) matches Ok((s, e, p, ro)) && identity_of(id, s, e, p, ro))
    &&& ((spec_jwt_header_kid(token) matches Some(Some(kid)) && spec_jwks_has_key(jwks_json, kid)
        && config.jwks_url is Some && config.issuer is Some && config.audience is Some && claims_fields(
        spec_jwt_claim(token, "sub"@),
        spec_jwt_claim(token, "exp"@),
        spec_jwt_claim(token, "preferred_username"@),
        spec_jwt_claim(token, "role"@),
    ) is Err) ==> r is Err)
    &&& (r == Err::<VerifiedOidcIdentity, OidcError>(OidcError::InvalidClaims) ==> claims_fields(
        spec_jwt_claim(token, "sub"@),
        spec_jwt_claim(token, "exp"@),
        spec_jwt_claim(token, "preferred_username"@),
        spec_jwt_claim(token, "role"@),
    ) is Err)
}

/// A token whose header names a key that the set publishes, under complete settings, and
/// whose claims hold a string subject and an integer expiry, with the preferred user name
/// and the role each absent, null or a string, is refused only as an invalid token (its
/// signature, issuer, audience or expiry failing). Once accepted, its identity has that
/// subject and expiry, the preferred user name or else the subject as its user name, and
/// the role that the role claim names or else read-only: an account whose provider sends
/// no role claim is read-only.
pub proof fn lemma_well_formed_claims_are_accepted_or_invalid_token(
    token: Seq<char>,
    jwks_json: Seq<char>,
    config: OidcConfig,
    r: Result<VerifiedOidcIdentity, OidcError>,
    kid: Seq<char>,
    subject: Seq<char>,
    expires_at: i64,
)
    requires
        oidc_outcome(token, jwks_json, config, r),
        spec_jwt_header_kid(token) == Some(Some(kid)),
        spec_jwks_has_key(jwks_json, kid),
        config.jwks_url is Some,
        config.issuer is Some,
        config.audience is Some,
        spec_jwt_claim(token, "sub"@) matches Some(ClaimValue::Text(t)) && t@ == subject,
        spec_jwt_claim(token, "exp"@) == Some(ClaimValue::Number(Some(expires_at))),
        spec_jwt_claim(token, "preferred_username"@) matches Some(c) && (c is Absent || c is Null || c is Text),
        spec_jwt_claim(token, "role"@) matches Some(c) && (c is Absent || c is Null || c is Text),
    ensures
        r is Ok || r == Err::<VerifiedOidcIdentity, OidcError>(OidcError::InvalidToken),
        r matches Ok(id) ==> id.subject@ == subject && id.expires_at == expires_at,
        r matches Ok(id) ==> (spec_jwt_claim(token, "preferred_username"@) matches Some(ClaimValue::Text(n))
            ==> id.username@ == n@),
        r matches Ok(id) ==> (spec_jwt_claim(token, "preferred_username"@) matches Some(c) && !(c is Text)
            ==> id.username@ == subject),
        r matches Ok(id) ==> (spec_jwt_claim(token, "role"@) matches Some(c) && !(c is Text) ==> id.role
            == Role::ReadOnly),
        r matches Ok(id) ==> (spec_jwt_claim(token, "role"@) matches Some(ClaimValue::Text(n)) ==> id.role
            == (match role_from_name(n@) {
            Some(parsed) => parsed,
            None => Role::ReadOnly,
        })),
{
    assert(claims_fields(
        spec_jwt_claim(token, "sub"@),
        spec_jwt_claim(token, "exp"@),
        spec_jwt_claim(token, "preferred_username"@),
        spec_jwt_claim(token, "role"@),
    ) is Ok);
}

/// Verifies an OIDC token against the provider's key set `jwks_json`, in order: the header
/// must read and name a key, a key set URL must be configured and the set must publish
/// that key, the issuer and audience must be configured, then the signature (with the
/// header's algorithm and that key), issuer, audience and expiry are checked and the
/// claims must hold a subject and an expiry.
pub fn verify_oidc_claims(token: &str, jwks_json: &str, config: &OidcConfig) -> (r: Result<
    VerifiedOidcIdentity,
    OidcError,
>)
    ensures
        oidc_outcome(token@, jwks_json@, *config, r),
{
    let kid = match jwt_header(token) {
        None => {
            return Err(OidcError::InvalidHeader);
        },
        Some(header) => header,
    };
    let kid = match kid {
        None => {
            return Err(OidcError::MissingKid);
        },
        Some(kid) => kid,
    };
    if config.jwks_url.is_none() {
        return Err(OidcError::MissingJwksUrl);
    }
    if !jwks_has_key(jwks_json, kid.as_str()) {
        return Err(OidcError::UnknownKey);
    }
    let issuer = match &config.issuer {
        None => {
            return Err(OidcError::MissingIssuer);
        },
        Some(issuer) => issuer,
    };
    let audience = match &config.audience {
        None => {
            return Err(OidcError::MissingAudience);
        },
        Some(audience) => audience,
    };
    if !jwt_verified(token, jwks_json, kid.as_str(), issuer.as_str(), audience.as_str()) {
        return Err(OidcError::InvalidToken);
    }
    identity_from_claims(
        jwt_claim(token, "sub"),
        jwt_claim(token, "exp"),
        jwt_claim(token, "preferred_username"),
        jwt_claim(token, "role"),
    )
}

} // verus!
