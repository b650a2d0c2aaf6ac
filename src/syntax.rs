//! What HTTP allows in each part of a message, and the calls into the `http` crate that
//! decide it.
use vstd::prelude::*;

verus! {

/// A byte that may stand in a token (RFC 9110): a method, or a header field name.
pub open spec fn is_token_byte(b: u8) -> bool {
    (48 <= b <= 57) || (65 <= b <= 90) || (97 <= b <= 122) || b == 33 || b == 35 || b == 36
        || b == 37 || b == 38 || b == 39 || b == 42 || b == 43 || b == 45 || b == 46 || b == 94
        || b == 95 || b == 96 || b == 124 || b == 126
}

/// A byte that may stand in a header field value: any byte but the control characters,
/// horizontal tab excepted.
pub open spec fn is_value_byte(b: u8) -> bool {
    (b >= 32 && b != 127) || b == 9
}

/// The longest header field name that is accepted.
pub const MAX_HEADER_NAME_LEN: usize = 65535;

pub open spec fn is_method(m: Seq<u8>) -> bool {
    m.len() > 0 && forall|i: int| 0 <= i < m.len() ==> is_token_byte(#[trigger] m[i])
}

pub open spec fn is_header_name(n: Seq<u8>) -> bool {
    0 < n.len() <= MAX_HEADER_NAME_LEN && forall|i: int|
        0 <= i < n.len() ==> is_token_byte(#[trigger] n[i])
}

pub open spec fn is_header_value(v: Seq<u8>) -> bool {
    forall|i: int| 0 <= i < v.len() ==> is_value_byte(#[trigger] v[i])
}

pub open spec fn is_status(s: u16) -> bool {
    100 <= s <= 999
}

pub open spec fn lower_byte(b: u8) -> u8 {
    if 65 <= b <= 90 {
        (b + 32) as u8
    } else {
        b
    }
}

/// A header field name in the form in which it is stored: ASCII letters in lower case.
pub open spec fn lowered(n: Seq<u8>) -> Seq<u8> {
    n.map_values(|b: u8| lower_byte(b))
}

/// Whether `http` parses these bytes as a request target.
pub uninterp spec fn parses_as_uri(u: Seq<u8>) -> bool;

/// Relies on `http::Method::from_bytes`, which accepts exactly the non-empty strings of
/// token bytes.
#[verifier::external_body]
pub(crate) fn check_method(m: &[u8]) -> (r: bool)
    ensures
        r == is_method(m@),
{
    http::Method::from_bytes(m).is_ok()
}

/// Relies on `http::Uri::try_from` for byte slices: whether it parses. It refuses the
/// empty string and anything over 65534 bytes, and takes "/" as it is.
#[verifier::external_body]
pub(crate) fn check_uri(u: &[u8]) -> (r: bool)
    ensures
        r == parses_as_uri(u@),
        u@.len() == 0 ==> !r,
        u@.len() > 65534 ==> !r,
        u@ == seq![47u8] ==> r,
{
    http::Uri::try_from(u).is_ok()
}

/// Relies on `http::HeaderName::from_bytes`, which accepts the names of 1 to 65535 token
/// bytes and stores them with ASCII letters in lower case.
#[verifier::external_body]
pub(crate) fn header_name(n: &[u8]) -> (r: Option<Vec<u8>>)
    ensures
        r is Some == is_header_name(n@),
        r matches Some(v) ==> v@ == lowered(n@),
{
    http::HeaderName::from_bytes(n).ok().map(|h| h.as_str().as_bytes().to_vec())
}

/// Relies on `http::HeaderValue::from_bytes`, which accepts exactly the strings of value
/// bytes.
#[verifier::external_body]
pub(crate) fn check_header_value(v: &[u8]) -> (r: bool)
    ensures
        r == is_header_value(v@),
{
    http::HeaderValue::from_bytes(v).is_ok()
}

/// Relies on `http::StatusCode::from_u16`, which accepts the codes from 100 to 999.
#[verifier::external_body]
pub(crate) fn check_status(s: u16) -> (r: bool)
    ensures
        r == is_status(s),
{
    http::StatusCode::from_u16(s).is_ok()
}

/// Relies on `http::StatusCode::INTERNAL_SERVER_ERROR`, the code 500.
#[verifier::external_body]
pub(crate) fn internal_server_error() -> (r: u16)
    ensures
        r == 500,
{
    http::StatusCode::INTERNAL_SERVER_ERROR.as_u16()
}

} // verus!
