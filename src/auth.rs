use vstd::prelude::*;
use crate::error::ApiError;
use jwt::{Header, Token, Unverified};

verus! {

/// The identity a request carries: who the caller is, in which role, and
/// until when the token claims to be valid.
#[derive(Clone, Debug, PartialEq, Eq)]
pub struct MyJWTClaims {
    pub email: String,
    pub role: String,
    pub exp: i64,
}

/// The claim fields read from a token's payload, each present only where the
/// payload holds it with the expected JSON type.
#[derive(Clone, Debug, PartialEq, Eq)]
pub struct ClaimFields {
    pub email: Option<String>,
    pub role: Option<String>,
    pub exp: Option<i64>,
}

/// The view of a claim field: present fields as their characters.
pub type FieldsView = (Option<Seq<char>>, Option<Seq<char>>, Option<i64>);

/// What the token decoder reads from `token`: `None` where the token is not
/// three base64url parts holding a JSON header and a JSON payload.
pub uninterp spec fn token_claim_fields(token: Seq<char>) -> Option<FieldsView>;

pub open spec fn string_opt_view(o: Option<String>) -> Option<Seq<char>> {
    match o {
        Some(s) => Some(s@),
        None => None,
    }
}

pub open spec fn fields_view(f: ClaimFields) -> FieldsView {
    (string_opt_view(f.email), string_opt_view(f.role), f.exp)
}

/// The number of `.` separators in `s`.
pub open spec fn dot_count(s: Seq<char>) -> nat
    decreases s.len(),
{
    if s.len() == 0 {
        0
    } else {
        dot_count(s.drop_last()) + if s.last() == '.' { 1nat } else { 0nat }
    }
}

/// Whether `r` is what a credential with decoded fields `f` yields: claims
/// when all three fields are present, `Unauthenticated` otherwise.
pub open spec fn claims_outcome(r: Result<MyJWTClaims, ApiError>, f: Option<FieldsView>) -> bool {
    match f {
        Some((Some(email), Some(role), Some(exp))) => match r {
            Ok(c) => c.email@ == email && c.role@ == role && c.exp == exp,
            Err(_) => false,
        },
        _ => r == Err::<MyJWTClaims, ApiError>(ApiError::Unauthenticated),
    }
}

/// Relies on jwt::Token::parse_unverified, which splits the token at `.` into
/// exactly three parts and decodes the first two as base64url JSON, without
/// checking the signature; and on serde_json's `Index` and `as_str` /
/// `as_i64` to read the `email`, `role` and `exp` members of the payload.
#[verifier::external_body]
fn parse_unverified_fields(token: &str) -> (r: Option<ClaimFields>)
    ensures
        match r {
            Some(f) => token_claim_fields(token@) == Some(fields_view(f)),
            None => token_claim_fields(token@) is None,
        },
        r is Some ==> dot_count(token@) == 2,
{
    match Token::<Header, serde_json::Value, Unverified>::parse_unverified(token) {
        Ok(t) => Some(ClaimFields {
            email: t.claims()["email"].as_str().map(String::from),
            role: t.claims()["role"].as_str().map(String::from),
            exp: t.claims()["exp"].as_i64(),
        }),
        Err(_) => None,
    }
}

/// The claims of a decoded token: all three fields must be present.
pub fn claims_from_fields(fields: Option<ClaimFields>) -> (r: Result<MyJWTClaims, ApiError>)
    ensures
        claims_outcome(r, match fields {
            Some(f) => Some(fields_view(f)),
            None => None,
        }),
{
    match fields {
        Some(f) => match (f.email, f.role, f.exp) {
            (Some(email), Some(role), Some(exp)) => Ok(MyJWTClaims { email, role, exp }),
            _ => Err(ApiError::Unauthenticated),
        },
        None => Err(ApiError::Unauthenticated),
    }
}

/// Decodes one bearer token into claims, without verifying its signature or
/// its expiry.
pub fn claims_from_token(token: &str) -> (r: Result<MyJWTClaims, ApiError>)
    ensures
        claims_outcome(r, token_claim_fields(token@)),
        dot_count(token@) != 2 ==> r == Err::<MyJWTClaims, ApiError>(ApiError::Unauthenticated),
{
    let fields = parse_unverified_fields(token);
    claims_from_fields(fields)
}

/// Claims from the values of the `Authorization` header: none is
/// `Unauthenticated`, more than one is `BadRequest`, and a single one is
/// decoded.
pub fn claims_from_header_values(values: &Vec<String>) -> (r: Result<MyJWTClaims, ApiError>)
    ensures
        values@.len() == 0 ==> r == Err::<MyJWTClaims, ApiError>(ApiError::Unauthenticated),
        values@.len() > 1 ==> r == Err::<MyJWTClaims, ApiError>(ApiError::BadRequest),
        values@.len() == 1 ==> claims_outcome(r, token_claim_fields(values@[0]@)),
{
    if values.len() == 0 {
        Err(ApiError::Unauthenticated)
    } else if values.len() == 1 {
        claims_from_token(values[0].as_str())
    } else {
        Err(ApiError::BadRequest)
    }
}

} // verus!
