//! The response of a request, assembled from what curl reports after the
//! transfer.
use crate::curl_calls::{
    curl_error_text, easy_content_type, easy_response_code, reports_content_type,
    reports_response_code,
};
use curl::Error as CurlError;
use crate::error::Error;
use crate::http_calls::{
    all_header_value_bytes, content_type_name, invalid_header_value_text,
    invalid_status_code_text, parse_header_value, status_code_from_u16,
};
use crate::request::HeaderField;
use curl::easy::Easy2;
use vstd::prelude::*;
use vstd::utf8::encode_utf8;

verus! {

/// The response to a request.
pub struct HttpResponse {
    /// The status code, from 100 to 999.
    pub status_code: u16,
    /// The headers: the content type, when the server sent one.
    pub headers: Vec<HeaderField>,
    /// The body, when the handler kept it in memory.
    pub body: Option<Vec<u8>>,
}

impl HttpResponse {
    /// The headers, each as a name and the bytes of its value.
    pub open spec fn fields(self) -> Seq<(Seq<char>, Seq<u8>)> {
        self.headers@.map_values(|h: HeaderField| h.pair())
    }
}

/// The bytes of an optional body.
pub open spec fn opt_bytes(body: Option<Vec<u8>>) -> Option<Seq<u8>> {
    match body {
        Some(b) => Some(b@),
        None => None,
    }
}

/// The content type, if any, may stand in a header value.
pub open spec fn content_type_acceptable(content_type: Option<String>) -> bool {
    match content_type {
        Some(text) => all_header_value_bytes(encode_utf8(text@)),
        None => true,
    }
}

/// The headers of a response with this content type: one `content-type`
/// header with its bytes, or none.
pub open spec fn response_fields(content_type: Option<String>) -> Seq<(Seq<char>, Seq<u8>)> {
    match content_type {
        Some(text) => seq![("content-type"@, encode_utf8(text@))],
        None => seq![],
    }
}

/// Assembles the response from the body that the handler kept, the response
/// code and the content type that curl reported. The code is taken as a
/// `u16` (its low 16 bits). A content type that cannot stand in a header
/// value is refused first, then a status code outside 100..=999.
pub fn build_response(body: Option<Vec<u8>>, response_code: u32, content_type: Option<String>) -> (r:
    Result<HttpResponse, Error>)
    ensures
        !content_type_acceptable(content_type) ==> (r matches Err(Error::Curl(m)) && m@
            == "failed to parse header value"@),
        content_type_acceptable(content_type) && !(100 <= (response_code as u16) <= 999) ==> (r matches Err(
            Error::Curl(m),
        ) && m@ == "invalid status code"@),
        content_type_acceptable(content_type) && 100 <= (response_code as u16) <= 999 ==> (r matches Ok(
            resp,
        ) && resp.status_code == response_code as u16 && resp.fields() == response_fields(
            content_type,
        ) && opt_bytes(resp.body) == opt_bytes(body)),
{
    let code = response_code as u16;
    let mut headers: Vec<HeaderField> = Vec::new();
    match content_type {
        Some(text) => {
            match parse_header_value(text.as_str()) {
                Ok(value) => {
                    headers.push(HeaderField { name: content_type_name(), value });
                },
                Err(e) => {
                    return Err(Error::Curl(invalid_header_value_text(&e)));
                },
            }
        },
        None => {},
    }
    match status_code_from_u16(code) {
        Ok(status_code) => {
            let resp = HttpResponse { status_code, headers, body };
            assert(resp.fields() =~= response_fields(content_type));
            Ok(resp)
        },
        Err(e) => Err(Error::Curl(invalid_status_code_text(&e))),
    }
}

/// Reads the response code and the content type from a handle after its
/// transfer, and assembles the response with the body that its handler kept.
/// Whatever curl reports, a response that comes back keeps that body, has a
/// status code from 100 to 999 and at most a `content-type` header; every
/// refusal, by curl or by the HTTP types, is a `Curl` error. Which of the two
/// comes back rests on what curl reports; `build_response` states the
/// outcome for each reported value.
pub fn response_of<H>(easy: &Easy2<H>, body: Option<Vec<u8>>) -> (r: Result<HttpResponse, Error>)
    ensures
        r matches Ok(resp) ==> {
            &&& opt_bytes(resp.body) == opt_bytes(body)
            &&& 100 <= resp.status_code <= 999
            &&& (resp.fields().len() == 0 || (resp.fields().len() == 1 && resp.fields()[0].0
                == "content-type"@ && all_header_value_bytes(resp.fields()[0].1)))
        },
        r matches Err(e) ==> e is Curl,
        r matches Ok(resp) ==> exists|code: u32, content_type: Option<String>|
            #![auto]
            reports_response_code(easy, Ok(code)) && reports_content_type(easy, Ok(content_type))
                && content_type_acceptable(content_type) && 100 <= (code as u16) <= 999
                && resp.status_code == code as u16 && resp.fields() == response_fields(content_type)
                && opt_bytes(resp.body) == opt_bytes(body),
        r is Err ==> {
            ||| exists|e: CurlError| #![auto] reports_response_code(easy, Err(e))
            ||| exists|code: u32, e: CurlError|
                #![auto]
                reports_response_code(easy, Ok(code)) && reports_content_type(easy, Err(e))
            ||| exists|code: u32, content_type: Option<String>|
                #![auto]
                reports_response_code(easy, Ok(code)) && reports_content_type(easy, Ok(content_type))
                    && !(content_type_acceptable(content_type) && 100 <= (code as u16) <= 999)
        },
{
    let code_read = easy_response_code(easy);
    let code = match code_read {
        Ok(c) => c,
        Err(e) => {
            assert(reports_response_code(easy, Err(e)));
            return Err(Error::Curl(curl_error_text(&e)));
        },
    };
    assert(reports_response_code(easy, Ok(code)));
    let content_type_read = easy_content_type(easy);
    let content_type = match content_type_read {
        Ok(c) => c,
        Err(e) => {
            assert(reports_content_type(easy, Err(e)));
            return Err(Error::Curl(curl_error_text(&e)));
        },
    };
    assert(reports_content_type(easy, Ok(content_type)));
    let ghost reported = content_type;
    let r = build_response(body, code, content_type);
    proof {
        if r is Ok {
            assert(content_type_acceptable(reported) && 100 <= (code as u16) <= 999);
        } else {
            assert(!(content_type_acceptable(reported) && 100 <= (code as u16) <= 999));
        }
    }
    r
}

} // verus!
