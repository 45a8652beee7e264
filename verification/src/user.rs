//! The auth guard: extracting and verifying the caller's bearer credential.
//!
//! A request proves who the caller is with a signed bearer credential on its
//! authorization header. The guard parses the header, verifies the
//! credential's signature against the preloaded public key (RSA with
//! SHA-256), and extracts the subject claim as the caller's user identifier.
//! It has a required form, which classifies every failure, and an optional
//! form, which degrades any failure to "no authenticated user".
//!
//! No time-based claim checks are enforced, so the outcome of verification is
//! a function of the credential text and the key material alone.

use vstd::prelude::*;
use vstd::string::StrSliceExecFns;

verus! {

/// The claims this gateway reads out of a verified credential.
#[derive(Clone, Debug)]
pub struct Claims {
    /// The subject: the caller's user identifier.
    pub sub: String,
}

/// The authenticated caller of a request.
#[derive(Clone, Debug)]
pub struct AppUser {
    pub user_id: String,
}

/// Why the auth guard rejected a request.
#[derive(Clone, Copy, Debug, PartialEq, Eq, Structural)]
pub enum AuthError {
    /// The request carries no authorization header.
    Missing,
    /// The authorization header is not a bearer credential.
    Malformed,
    /// The credential failed signature or structural verification.
    Invalid,
}

impl AuthError {
    /// How a guard failure is classified outward on a required-auth
    /// endpoint: always as an unauthorized request, whatever stage failed.
    pub fn classify(&self) -> (r: crate::error::AppError)
        ensures
            r == crate::error::AppError::Unauthorized,
    {
        crate::error::AppError::Unauthorized
    }
}

/// What verifying a credential against a public key yields: the subject claim
/// if the token is a structurally valid credential whose signature the key
/// verifies and whose claims carry a string subject, and nothing otherwise.
/// The outcome is determined by the token text and the key material alone.
pub uninterp spec fn jwt_subject(token: Seq<char>, verification_key: Seq<u8>) -> Option<Seq<char>>;

/// Relies on `jsonwebtoken::decode` with the RS256 algorithm and on
/// `jsonwebtoken::DecodingKey::from_rsa_pem`: with every time-based check
/// disabled, both are functions of the token text and the PEM key material
/// alone, and `decode` succeeds exactly on credentials whose signature the
/// key verifies.
#[verifier::external_body]
fn decode_claims(token: &str, verification_key: &Vec<u8>) -> (r: Option<Claims>)
    ensures
        match r {
            Some(c) => jwt_subject(token@, verification_key@) == Some(c.sub@),
            None => jwt_subject(token@, verification_key@) is None,
        },
{
    let key = match jsonwebtoken::DecodingKey::from_rsa_pem(verification_key) {
        Ok(k) => k,
        Err(_) => return None,
    };
    let mut validation = jsonwebtoken::Validation::new(jsonwebtoken::Algorithm::RS256);
    validation.validate_exp = false;
    validation.required_spec_claims = std::collections::HashSet::new();
    match jsonwebtoken::decode::<serde_json::Value>(token, &key, &validation) {
        Ok(data) => match data.claims.get("sub") {
            Some(serde_json::Value::String(sub)) => Some(Claims { sub: sub.clone() }),
            _ => None,
        },
        Err(_) => None,
    }
}

/// Does `c` match `lower`, an ASCII lower-case letter, ignoring case?
pub open spec fn matches_ci(c: char, lower: char) -> bool {
    c == lower || c as int + 32 == lower as int
}

/// What parsing an authorization header as a bearer credential yields: the
/// scheme "Bearer" (any case), one space, then the non-empty token.
pub open spec fn spec_parse_bearer(h: Seq<char>) -> Option<Seq<char>> {
    if h.len() >= 8 && matches_ci(h[0], 'b') && matches_ci(h[1], 'e') && matches_ci(h[2], 'a')
        && matches_ci(h[3], 'r') && matches_ci(h[4], 'e') && matches_ci(h[5], 'r') && h[6] == ' ' {
        Some(h.skip(7))
    } else {
        None
    }
}

/// Parses an authorization header value as a bearer credential, yielding the
/// token after the scheme.
pub fn parse_bearer(h: &str) -> (r: Option<&str>)
    ensures
        match r {
            Some(t) => spec_parse_bearer(h@) == Some(t@),
            None => spec_parse_bearer(h@) is None,
        },
{
    let n = h.unicode_len();
    if n < 8 {
        return None;
    }
    let c0 = h.get_char(0);
    let c1 = h.get_char(1);
    let c2 = h.get_char(2);
    let c3 = h.get_char(3);
    let c4 = h.get_char(4);
    let c5 = h.get_char(5);
    let c6 = h.get_char(6);
    if (c0 == 'b' || c0 == 'B') && (c1 == 'e' || c1 == 'E') && (c2 == 'a' || c2 == 'A') && (c3
        == 'r' || c3 == 'R') && (c4 == 'e' || c4 == 'E') && (c5 == 'r' || c5 == 'R') && c6 == ' ' {
        let token = h.substring_char(7, n);
        proof {
            assert(token@ =~= h@.skip(7));
        }
        Some(token)
    } else {
        None
    }
}

/// The header of a request, viewed abstractly: present with its text, or
/// absent.
pub open spec fn spec_header_view(h: Option<&String>) -> Option<Seq<char>> {
    match h {
        Some(s) => Some(s@),
        None => None,
    }
}

/// What the required form of the auth guard yields for a request: the
/// subject of a verified bearer credential, or the first failure met —
/// missing header, unparsable header, failed verification.
pub open spec fn spec_authenticate(h: Option<Seq<char>>, verification_key: Seq<u8>) -> Result<
    Seq<char>,
    AuthError,
> {
    match h {
        Option::None => Err(AuthError::Missing),
        Option::Some(hs) => match spec_parse_bearer(hs) {
            Option::None => Err(AuthError::Malformed),
            Option::Some(tok) => match jwt_subject(tok, verification_key) {
                Option::Some(sub) => Ok(sub),
                Option::None => Err(AuthError::Invalid),
            },
        },
    }
}

/// What the optional form of the auth guard yields: the same identifier the
/// required form would yield, or "no user" in place of any failure.
pub open spec fn spec_authenticate_optional(
    h: Option<Seq<char>>,
    verification_key: Seq<u8>,
) -> Option<Seq<char>> {
    match spec_authenticate(h, verification_key) {
        Ok(sub) => Some(sub),
        Err(_) => None,
    }
}

/// Verifies a bearer token and builds the authenticated caller out of its
/// subject claim.
pub fn jwt_2_user(token: &str, verification_key: &Vec<u8>) -> (r: Result<AppUser, AuthError>)
    ensures
        match r {
            Ok(u) => jwt_subject(token@, verification_key@) == Some(u.user_id@),
            Err(e) => e == AuthError::Invalid && jwt_subject(token@, verification_key@) is None,
        },
{
    match decode_claims(token, verification_key) {
        Some(claims) => Ok(AppUser { user_id: claims.sub }),
        None => Err(AuthError::Invalid),
    }
}

/// The required form of the auth guard: fails the request unless the header
/// holds a bearer credential that verifies against the key.
pub fn authenticate_required(header: Option<&String>, verification_key: &Vec<u8>) -> (r: Result<
    AppUser,
    AuthError,
>)
    ensures
        match r {
            Ok(u) => spec_authenticate(spec_header_view(header), verification_key@) == Ok::<
                Seq<char>,
                AuthError,
            >(u.user_id@),
            Err(e) => spec_authenticate(spec_header_view(header), verification_key@) == Err::<
                Seq<char>,
                AuthError,
            >(e),
        },
{
    match header {
        None => Err(AuthError::Missing),
        Some(h) => match parse_bearer(h.as_str()) {
            None => Err(AuthError::Malformed),
            Some(token) => jwt_2_user(token, verification_key),
        },
    }
}

/// The optional form of the auth guard: used by endpoints that personalize
/// output for logged-in callers but stay usable anonymously.
pub fn authenticate_optional(header: Option<&String>, verification_key: &Vec<u8>) -> (r: Option<
    AppUser,
>)
    ensures
        match r {
            Some(u) => spec_authenticate_optional(spec_header_view(header), verification_key@)
                == Some(u.user_id@),
            None => spec_authenticate_optional(spec_header_view(header), verification_key@)
                is None,
        },
{
    match authenticate_required(header, verification_key) {
        Ok(u) => Some(u),
        Err(_) => None,
    }
}

/// Law: the required form of the auth guard succeeds with subject `sub`
/// precisely when the header is present, parses as a bearer credential, and
/// the credential verifies to `sub` against the key; and each failure is
/// classified by the first stage that failed.
pub proof fn lemma_required_auth_exact(h: Option<Seq<char>>, verification_key: Seq<u8>)
    ensures
        h is None ==> spec_authenticate(h, verification_key) == Err::<Seq<char>, AuthError>(
            AuthError::Missing,
        ),
        h matches Some(hs) ==> (spec_parse_bearer(hs) is None ==> spec_authenticate(
            h,
            verification_key,
        ) == Err::<Seq<char>, AuthError>(AuthError::Malformed)),
        h matches Some(hs) ==> (spec_parse_bearer(hs) matches Some(t) ==> (jwt_subject(
            t,
            verification_key,
        ) is None ==> spec_authenticate(h, verification_key) == Err::<Seq<char>, AuthError>(
            AuthError::Invalid,
        ))),
        h matches Some(hs) ==> (spec_parse_bearer(hs) matches Some(t) ==> (jwt_subject(
            t,
            verification_key,
        ) matches Some(subject) ==> spec_authenticate(h, verification_key) == Ok::<
            Seq<char>,
            AuthError,
        >(subject))),
        spec_authenticate(h, verification_key) matches Ok(subject) ==> (h matches Some(hs)
            && spec_parse_bearer(hs) matches Some(t) && jwt_subject(t, verification_key) == Some(
            subject,
        )),
{
}

/// Law: the optional form of the auth guard never propagates a failure — any
/// verification failure yields "no user" — and on success it yields the same
/// identifier the required form yields.
pub proof fn lemma_optional_auth_total(h: Option<Seq<char>>, verification_key: Seq<u8>)
    ensures
        spec_authenticate(h, verification_key) is Err ==> spec_authenticate_optional(
            h,
            verification_key,
        ) is None,
        spec_authenticate(h, verification_key) matches Ok(subject) ==> spec_authenticate_optional(
            h,
            verification_key,
        ) == Some(subject),
        spec_authenticate_optional(h, verification_key) matches Some(subject) ==> spec_authenticate(
            h,
            verification_key,
        ) == Ok::<Seq<char>, AuthError>(subject),
{
}

} // verus!
