//! What this library relies on from the `http` crate's validators.
use vstd::prelude::*;

verus! {

#[verifier::external_type_specification]
#[verifier::external_body]
pub struct ExStatusCode(http::StatusCode);

#[verifier::external_type_specification]
#[verifier::external_body]
pub struct ExInvalidStatusCode(http::status::InvalidStatusCode);

#[verifier::external_type_specification]
#[verifier::external_body]
pub struct ExHeaderName(http::header::HeaderName);

#[verifier::external_type_specification]
#[verifier::external_body]
pub struct ExInvalidHeaderName(http::header::InvalidHeaderName);

#[verifier::external_type_specification]
#[verifier::external_body]
pub struct ExHeaderValue(http::header::HeaderValue);

#[verifier::external_type_specification]
#[verifier::external_body]
pub struct ExInvalidHeaderValue(http::header::InvalidHeaderValue);

/// A byte that may stand in a header name: a digit, a letter, or one of
/// ``!#$%&'*+-.^_`|~``.
pub open spec fn token_byte(b: u8) -> bool {
    ||| 48 <= b <= 57
    ||| 65 <= b <= 90
    ||| 97 <= b <= 122
    ||| b == 33 || (35 <= b <= 39) || b == 42 || b == 43 || b == 45 || b == 46
    ||| b == 94 || b == 95 || b == 96 || b == 124 || b == 126
}

/// A header name that `http::HeaderName::from_bytes` accepts: 1 to 65535
/// bytes, each a token byte (upper case is accepted and lower-cased).
pub open spec fn header_name_accepts(name: Seq<u8>) -> bool {
    &&& 1 <= name.len() <= 65535
    &&& forall|i: int| 0 <= i < name.len() ==> #[trigger] token_byte(name[i])
}

/// A byte that `http::HeaderValue::from_bytes` accepts: not a control byte
/// other than a tab, and not DEL.
pub open spec fn field_byte(b: u8) -> bool {
    (b >= 32 && b != 127) || b == 9
}

/// Relies on `http::StatusCode::from_u16`: it accepts exactly the codes 100 to 999.
pub assume_specification[ http::StatusCode::from_u16 ](src: u16) -> (r: Result<
    http::StatusCode,
    http::status::InvalidStatusCode,
>)
    ensures
        (r is Ok) <==> (100 <= src && src <= 999),
;

/// Relies on `http::HeaderValue::from_bytes`: it accepts exactly the byte
/// strings whose every byte passes its `is_valid` test.
pub assume_specification[ http::HeaderValue::from_bytes ](src: &[u8]) -> (r: Result<
    http::HeaderValue,
    http::header::InvalidHeaderValue,
>)
    ensures
        (r is Ok) <==> (forall|i: int| 0 <= i < src@.len() ==> #[trigger] field_byte(src@[i])),
;

/// Relies on `http::HeaderName::from_bytes`: it accepts exactly the names of
/// 1 to 65535 bytes whose every byte maps to a non-zero entry of its
/// `HEADER_CHARS` table.
pub assume_specification[ http::HeaderName::from_bytes ](src: &[u8]) -> (r: Result<
    http::HeaderName,
    http::header::InvalidHeaderName,
>)
    ensures
        (r is Ok) == header_name_accepts(src@),
;

} // verus!
