//! Laws of the client, over all inputs: what a result must satisfy given
//! what curl did.
use crate::client::{
    curl_refused_step, planned_options, request_settable, Build, CurlOption, HttpClient, Perform,
};
use crate::curl_calls::{reports_content_type, reports_response_code};
use crate::error::Error;
use crate::request::{header_plan, HttpRequest};
use crate::response::{content_type_acceptable, opt_bytes, response_fields, response_of, HttpResponse};
use crate::units::BytesOffset;
use curl::easy::Easy2;
use curl::Error as CurlError;
use vstd::prelude::*;

verus! {

/// A request fails with a curl error only when curl refused one of its
/// steps (or a header line holds a NUL character); when curl refuses none of
/// them and every header can be sent, the request succeeds, and the client
/// holds exactly the options the request plans, in order.
pub proof fn law_request_fails_only_on_refusal<C>(
    client: HttpClient<C, Build>,
    request: HttpRequest,
    r: Result<HttpClient<C, Perform>, Error>,
)
    requires
        request_settable(request),
        request.valid_header_names(),
        call_ensures(HttpClient::<C, Build>::request, (client, request), r),
    ensures
        r matches Err(Error::Curl(_)) ==> (header_plan(request.fields()) is NulCharacter
            || curl_refused_step::<C>(client.options(), request)),
        (header_plan(request.fields()) is Lines && !curl_refused_step::<C>(
            client.options(),
            request,
        )) ==> (r matches Ok(c) && c.options() == planned_options(client.options(), request)),
{
}

/// Resuming from an offset fails only when curl refused that offset on that
/// client; otherwise the client comes back with the offset recorded last.
pub proof fn law_resume_from_fails_only_on_refusal<C>(
    client: HttpClient<C, Build>,
    offset: BytesOffset,
    r: Result<HttpClient<C, Build>, Error>,
)
    requires
        call_ensures(HttpClient::<C, Build>::resume_from, (client, offset), r),
    ensures
        r is Err ==> client.refuses(CurlOption::ResumeFrom(offset.0 as u64)),
        !client.refuses(CurlOption::ResumeFrom(offset.0 as u64)) ==> (r matches Ok(c)
            && c.options() == client.options().push(CurlOption::ResumeFrom(offset.0 as u64))),
{
}

/// Naming a CA bundle fails only when curl refused that path on that client;
/// otherwise the client comes back with the path recorded last.
pub proof fn law_cainfo_fails_only_on_refusal<C>(
    client: HttpClient<C, Build>,
    path: &str,
    r: Result<HttpClient<C, Build>, Error>,
)
    requires
        call_ensures(HttpClient::<C, Build>::cainfo, (client, path), r),
    ensures
        r is Err ==> client.refuses(CurlOption::CaInfo(path@)),
        !client.refuses(CurlOption::CaInfo(path@)) ==> (r matches Ok(c) && c.options()
            == client.options().push(CurlOption::CaInfo(path@))),
{
}

/// Naming the proxy's CA bundle fails only when curl refused that path on
/// that client; otherwise the client comes back with the path recorded last.
pub proof fn law_proxy_cainfo_fails_only_on_refusal<C>(
    client: HttpClient<C, Build>,
    cainfo: &str,
    r: Result<HttpClient<C, Build>, Error>,
)
    requires
        call_ensures(HttpClient::<C, Build>::proxy_cainfo, (client, cainfo), r),
    ensures
        r is Err ==> client.refuses(CurlOption::ProxyCaInfo(cainfo@)),
        !client.refuses(CurlOption::ProxyCaInfo(cainfo@)) ==> (r matches Ok(c) && c.options()
            == client.options().push(CurlOption::ProxyCaInfo(cainfo@))),
{
}

/// A response carries the status code that the handle reported (its low 16
/// bits), the content type that it reported and the body it was given; it
/// fails only when a read was refused or what was reported cannot make a
/// response.
pub proof fn law_response_is_what_curl_reported<H>(
    easy: &Easy2<H>,
    body: Option<Vec<u8>>,
    r: Result<HttpResponse, Error>,
)
    requires
        call_ensures(response_of::<H>, (easy, body), r),
    ensures
        r matches Ok(resp) ==> exists|code: u32, content_type: Option<String>|
            #![auto]
            reports_response_code(easy, Ok(code)) && reports_content_type(easy, Ok(content_type))
                && resp.status_code == code as u16 && resp.fields() == response_fields(content_type)
                && opt_bytes(resp.body) == opt_bytes(body),
        r is Err ==> {
            ||| exists|e: CurlError| #![auto] reports_response_code(easy, Err(e))
            ||| exists|code: u32, e: CurlError|
                #![auto]
                reports_response_code(easy, Ok(code)) && reports_content_type(easy, Err(e))
            ||| exists|code: u32, content_type: Option<String>|
                #![auto]
                reports_response_code(easy, Ok(code)) && reports_content_type(easy, Ok(content_type))
                    && !(content_type_acceptable(content_type) && 100 <= (code as u16) <= 999)
        },
{
}

} // verus!
