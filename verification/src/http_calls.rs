//! The calls into the `http` crate and into std that the response and the
//! header lines are built with, with what each is trusted to do.
use core::str::Utf8Error;
use http::header::{HeaderValue, InvalidHeaderValue, CONTENT_TYPE};
use http::status::InvalidStatusCode;
use http::StatusCode;
use vstd::prelude::*;
use vstd::string::StringSliceAdditionalSpecFns;
use vstd::utf8::valid_utf8;

verus! {

#[verifier::external_type_specification]
#[verifier::external_body]
pub struct ExInvalidHeaderValue(InvalidHeaderValue);

#[verifier::external_type_specification]
#[verifier::external_body]
pub struct ExInvalidStatusCode(InvalidStatusCode);

#[verifier::external_type_specification]
#[verifier::external_body]
pub struct ExUtf8Error(Utf8Error);

/// A byte that a header value may hold: any byte from 32 up but DEL (127),
/// or a horizontal tab.
pub open spec fn is_header_value_byte(b: u8) -> bool {
    (b >= 32 && b != 127) || b == 9
}

/// Every byte of `bytes` may stand in a header value.
pub open spec fn all_header_value_bytes(bytes: Seq<u8>) -> bool {
    forall|i: int| 0 <= i < bytes.len() ==> is_header_value_byte(#[trigger] bytes[i])
}

/// `core::str::from_utf8`: the bytes read as a string slice, which succeeds
/// exactly when they are valid UTF-8 and then holds those same bytes.
pub assume_specification<'a>[ core::str::from_utf8 ](v: &'a [u8]) -> (r: Result<
    &'a str,
    Utf8Error,
>)
    ensures
        r is Ok <==> valid_utf8(v@),
        r matches Ok(s) ==> s.spec_bytes() == v@,
;

/// `HeaderValue::from_str`: checks every byte of the text (32 and up but
/// 127, or a tab) and keeps a copy of the bytes, handed back here as a vector.
#[verifier::external_body]
pub(crate) fn parse_header_value(text: &str) -> (r: Result<Vec<u8>, InvalidHeaderValue>)
    ensures
        r is Ok <==> all_header_value_bytes(text.spec_bytes()),
        r matches Ok(bytes) ==> bytes@ == text.spec_bytes(),
{
    match HeaderValue::from_str(text) {
        Ok(value) => Ok(value.as_bytes().to_vec()),
        Err(e) => Err(e),
    }
}

/// The `Display` text of `InvalidHeaderValue`, which is always the same.
#[verifier::external_body]
pub(crate) fn invalid_header_value_text(e: &InvalidHeaderValue) -> (r: String)
    ensures
        r@ == "failed to parse header value"@,
{
    e.to_string()
}

/// `StatusCode::from_u16`: accepts exactly the codes from 100 to 999 and
/// keeps the code, handed back here as a number.
#[verifier::external_body]
pub(crate) fn status_code_from_u16(code: u16) -> (r: Result<u16, InvalidStatusCode>)
    ensures
        r is Ok <==> 100 <= code <= 999,
        r matches Ok(c) ==> c == code,
{
    match StatusCode::from_u16(code) {
        Ok(status) => Ok(status.as_u16()),
        Err(e) => Err(e),
    }
}

/// The `Display` text of `InvalidStatusCode`, which is always the same.
#[verifier::external_body]
pub(crate) fn invalid_status_code_text(e: &InvalidStatusCode) -> (r: String)
    ensures
        r@ == "invalid status code"@,
{
    e.to_string()
}

/// The name of the `CONTENT_TYPE` header constant, which is `content-type`.
#[verifier::external_body]
pub(crate) fn content_type_name() -> (r: String)
    ensures
        r@ == "content-type"@,
{
    CONTENT_TYPE.as_str().to_string()
}

} // verus!
