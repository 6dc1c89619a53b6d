//! The calls into curl that the client makes, with what each is trusted to do.
//!
//! Every item here is believed by Verus without proof. Each option setter is
//! a method of the client that forwards one value to libcurl through
//! `curl_easy_setopt`; whether libcurl accepts it is decided there, so apart
//! from the cases that the `curl` crate itself refuses before calling libcurl
//! (a string with a NUL character), nothing is promised of the outcome. What
//! each one promises is what the client's record of options becomes: the
//! option with the value handed to curl when curl accepted it, and nothing
//! new when it refused.
use core::time::Duration;
use crate::client::{CurlOption, HttpClient};
use curl::easy::{Auth, Easy2, List};
use curl::Error as CurlError;
use vstd::prelude::*;

verus! {

#[verifier::external_type_specification]
#[verifier::external_body]
#[verifier::reject_recursive_types(H)]
pub struct ExEasy2<H>(Easy2<H>);

#[verifier::external_type_specification]
#[verifier::external_body]
pub struct ExList(List);

#[verifier::external_type_specification]
#[verifier::external_body]
pub struct ExAuth(Auth);

#[verifier::external_type_specification]
#[verifier::external_body]
pub struct ExCurlError(CurlError);

/// The strings that a curl string list holds, in order.
pub uninterp spec fn list_items(list: List) -> Seq<Seq<char>>;

/// Whether a string holds the NUL character, which a C string cannot carry.
pub open spec fn has_nul(s: Seq<char>) -> bool {
    s.contains('\0')
}

/// `List::new`: a new list holds no string.
#[verifier::external_body]
pub(crate) fn list_new() -> (r: List)
    ensures
        list_items(r) == Seq::<Seq<char>>::empty(),
{
    List::new()
}

/// `List::append`: the string is copied into a C string, which fails when
/// it holds a NUL character and leaves the list as it was; otherwise the
/// string is added at the end. (The crate panics when libcurl cannot
/// allocate the node, which this contract does not cover.)
#[verifier::external_body]
pub(crate) fn list_append(list: &mut List, data: &str) -> (r: Result<(), CurlError>)
    ensures
        r is Ok <==> !has_nul(data@),
        r is Ok ==> list_items(*final(list)) == list_items(*old(list)).push(data@),
        r is Err ==> list_items(*final(list)) == list_items(*old(list)),
{
    list.append(data)
}

/// `curl::Error`'s `Display` text: the code, libcurl's description of it
/// and any extra detail. The text comes from the linked libcurl, so no
/// contract states it.
#[verifier::external_body]
pub(crate) fn curl_error_text(e: &CurlError) -> String {
    e.to_string()
}

/// The handle reported this outcome when its response code was read.
pub open(crate) spec fn reports_response_code<H>(easy: &Easy2<H>, outcome: Result<u32, CurlError>) -> bool {
    call_ensures(easy_response_code::<H>, (easy,), outcome)
}

/// The handle reported this outcome when its content type was read.
pub open(crate) spec fn reports_content_type<H>(
    easy: &Easy2<H>,
    outcome: Result<Option<String>, CurlError>,
) -> bool {
    call_ensures(easy_content_type::<H>, (easy,), outcome)
}

/// `Easy2::response_code`: the last response code that the handle received
/// (`CURLINFO_RESPONSE_CODE`). It depends on the transfer, so nothing is
/// promised of it.
#[verifier::external_body]
pub(crate) fn easy_response_code<H>(easy: &Easy2<H>) -> (r: Result<u32, CurlError>) {
    easy.response_code()
}

/// `Easy2::content_type`: the Content-Type that the last response carried, if
/// any (`CURLINFO_CONTENT_TYPE`). It depends on the transfer, so nothing is
/// promised of it.
#[verifier::external_body]
pub(crate) fn easy_content_type<H>(easy: &Easy2<H>) -> (r: Result<Option<String>, CurlError>) {
    match easy.content_type() {
        Ok(v) => Ok(v.map(|s| s.to_string())),
        Err(e) => Err(e),
    }
}

impl<C, S> HttpClient<C, S> {
    /// curl refuses to set `option` on this client: the setter of that option,
    /// handed this client and the option's value, came back with an error.
    /// Only a call of the setter that was made and refused makes this true.
    pub open(crate) spec fn refuses(self, option: CurlOption) -> bool {
        match option {
            CurlOption::Url(v) => exists|s: &str, c: Self, e: CurlError|
                #![auto]
                s@ == v && call_ensures(Self::set_url, (self, s), (c, Err::<(), CurlError>(e))),
            CurlOption::HttpHeaders(v) => exists|l: List, c: Self, e: CurlError|
                #![auto]
                list_items(l) == v && call_ensures(
                    Self::set_http_headers,
                    (self, l),
                    (c, Err::<(), CurlError>(e)),
                ),
            CurlOption::Post(v) => exists|c: Self, e: CurlError|
                #![auto]
                call_ensures(Self::set_post, (self, v), (c, Err::<(), CurlError>(e))),
            CurlOption::PostFieldSize(v) => exists|c: Self, e: CurlError|
                #![auto]
                call_ensures(Self::set_post_field_size, (self, v), (c, Err::<(), CurlError>(e))),
            CurlOption::PostFieldsCopy(v) => exists|s: &[u8], c: Self, e: CurlError|
                #![auto]
                s@ == v && call_ensures(
                    Self::set_post_fields_copy,
                    (self, s),
                    (c, Err::<(), CurlError>(e)),
                ),
            CurlOption::HttpGet(v) => exists|c: Self, e: CurlError|
                #![auto]
                call_ensures(Self::set_get, (self, v), (c, Err::<(), CurlError>(e))),
            CurlOption::Upload(v) => exists|c: Self, e: CurlError|
                #![auto]
                call_ensures(Self::set_upload, (self, v), (c, Err::<(), CurlError>(e))),
            CurlOption::ResumeFrom(v) => exists|c: Self, e: CurlError|
                #![auto]
                call_ensures(Self::set_resume_from, (self, v), (c, Err::<(), CurlError>(e))),
            CurlOption::MaxRecvSpeed(v) => exists|c: Self, e: CurlError|
                #![auto]
                call_ensures(Self::set_max_recv_speed, (self, v), (c, Err::<(), CurlError>(e))),
            CurlOption::InFileSize(v) => exists|c: Self, e: CurlError|
                #![auto]
                call_ensures(Self::set_in_filesize, (self, v), (c, Err::<(), CurlError>(e))),
            CurlOption::MaxSendSpeed(v) => exists|c: Self, e: CurlError|
                #![auto]
                call_ensures(Self::set_max_send_speed, (self, v), (c, Err::<(), CurlError>(e))),
            CurlOption::Username(v) => exists|s: &str, c: Self, e: CurlError|
                #![auto]
                s@ == v && call_ensures(Self::set_username, (self, s), (c, Err::<(), CurlError>(e))),
            CurlOption::Password(v) => exists|s: &str, c: Self, e: CurlError|
                #![auto]
                s@ == v && call_ensures(Self::set_password, (self, s), (c, Err::<(), CurlError>(e))),
            CurlOption::HttpAuth(v) => exists|a: &Auth, c: Self, e: CurlError|
                #![auto]
                *a == v && call_ensures(Self::set_http_auth, (self, a), (c, Err::<(), CurlError>(e))),
            CurlOption::Port(v) => exists|c: Self, e: CurlError|
                #![auto]
                call_ensures(Self::set_port, (self, v), (c, Err::<(), CurlError>(e))),
            CurlOption::CaInfo(v) => exists|s: &str, c: Self, e: CurlError|
                #![auto]
                s@ == v && call_ensures(Self::set_cainfo, (self, s), (c, Err::<(), CurlError>(e))),
            CurlOption::CaPath(v) => exists|s: &str, c: Self, e: CurlError|
                #![auto]
                s@ == v && call_ensures(Self::set_capath, (self, s), (c, Err::<(), CurlError>(e))),
            CurlOption::ProxyUsername(v) => exists|s: &str, c: Self, e: CurlError|
                #![auto]
                s@ == v && call_ensures(Self::set_proxy_username, (self, s), (c, Err::<(), CurlError>(e))),
            CurlOption::ProxyPassword(v) => exists|s: &str, c: Self, e: CurlError|
                #![auto]
                s@ == v && call_ensures(Self::set_proxy_password, (self, s), (c, Err::<(), CurlError>(e))),
            CurlOption::ProxyAuth(v) => exists|a: &Auth, c: Self, e: CurlError|
                #![auto]
                *a == v && call_ensures(Self::set_proxy_auth, (self, a), (c, Err::<(), CurlError>(e))),
            CurlOption::Proxy(v) => exists|s: &str, c: Self, e: CurlError|
                #![auto]
                s@ == v && call_ensures(Self::set_proxy, (self, s), (c, Err::<(), CurlError>(e))),
            CurlOption::ProxyPort(v) => exists|c: Self, e: CurlError|
                #![auto]
                call_ensures(Self::set_proxy_port, (self, v), (c, Err::<(), CurlError>(e))),
            CurlOption::ProxyCaInfo(v) => exists|s: &str, c: Self, e: CurlError|
                #![auto]
                s@ == v && call_ensures(Self::set_proxy_cainfo, (self, s), (c, Err::<(), CurlError>(e))),
            CurlOption::ProxyCaPath(v) => exists|s: &str, c: Self, e: CurlError|
                #![auto]
                s@ == v && call_ensures(Self::set_proxy_capath, (self, s), (c, Err::<(), CurlError>(e))),
            CurlOption::FollowLocation(v) => exists|c: Self, e: CurlError|
                #![auto]
                call_ensures(Self::set_follow_location, (self, v), (c, Err::<(), CurlError>(e))),
            CurlOption::ConnectTimeout(v) => exists|c: Self, e: CurlError|
                #![auto]
                call_ensures(Self::set_connect_timeout, (self, v), (c, Err::<(), CurlError>(e))),
            CurlOption::Timeout(v) => exists|c: Self, e: CurlError|
                #![auto]
                call_ensures(Self::set_timeout, (self, v), (c, Err::<(), CurlError>(e))),
            CurlOption::Verbose(v) => exists|c: Self, e: CurlError|
                #![auto]
                call_ensures(Self::set_verbose, (self, v), (c, Err::<(), CurlError>(e))),
            CurlOption::ShowHeader(v) => exists|c: Self, e: CurlError|
                #![auto]
                call_ensures(Self::set_show_header, (self, v), (c, Err::<(), CurlError>(e))),
        }
    }

    /// `Easy2::url`: sets `CURLOPT_URL` to the value. The string is first copied
    /// into a C string, which fails when it holds a NUL character; otherwise
    /// libcurl decides. When it accepts, the handle holds the option with this
    /// value, and the record of options gains it; otherwise the record gains
    /// nothing.
    #[verifier::external_body]
    pub(crate) fn set_url(self, value: &str) -> (r: (Self, Result<(), CurlError>))
        ensures
            r.1 is Ok ==> r.0.options() == self.options().push(CurlOption::Url(value@)),
            r.1 is Err ==> r.0.options() == self.options(),
            has_nul(value@) ==> r.1 is Err,
    {
        let mut client = self;
        let outcome = client.easy.url(value);
        (client, outcome)
    }

    /// `Easy2::post`: sets `CURLOPT_POST` to the value; libcurl decides whether it
    /// accepts it. When it does, the handle holds the option with this value,
    /// and the record of options gains it; otherwise the record gains
    /// nothing.
    #[verifier::external_body]
    pub(crate) fn set_post(self, value: bool) -> (r: (Self, Result<(), CurlError>))
        ensures
            r.1 is Ok ==> r.0.options() == self.options().push(CurlOption::Post(value)),
            r.1 is Err ==> r.0.options() == self.options(),
    {
        let mut client = self;
        let outcome = client.easy.post(value);
        (client, outcome)
    }

    /// `Easy2::post_field_size`: sets `CURLOPT_POSTFIELDSIZE_LARGE` to the value; libcurl decides whether it
    /// accepts it. When it does, the handle holds the option with this value,
    /// and the record of options gains it; otherwise the record gains
    /// nothing.
    /// (The crate first clears `CURLOPT_POSTFIELDS`, which stays cleared when
    /// libcurl then refuses the size; the record does not show that step.)
    #[verifier::external_body]
    pub(crate) fn set_post_field_size(self, value: u64) -> (r: (Self, Result<(), CurlError>))
        ensures
            r.1 is Ok ==> r.0.options() == self.options().push(CurlOption::PostFieldSize(value)),
            r.1 is Err ==> r.0.options() == self.options(),
    {
        let mut client = self;
        let outcome = client.easy.post_field_size(value);
        (client, outcome)
    }

    /// `Easy2::get`: sets `CURLOPT_HTTPGET` to the value; libcurl decides whether it
    /// accepts it. When it does, the handle holds the option with this value,
    /// and the record of options gains it; otherwise the record gains
    /// nothing.
    #[verifier::external_body]
    pub(crate) fn set_get(self, value: bool) -> (r: (Self, Result<(), CurlError>))
        ensures
            r.1 is Ok ==> r.0.options() == self.options().push(CurlOption::HttpGet(value)),
            r.1 is Err ==> r.0.options() == self.options(),
    {
        let mut client = self;
        let outcome = client.easy.get(value);
        (client, outcome)
    }

    /// `Easy2::upload`: sets `CURLOPT_UPLOAD` to the value; libcurl decides whether it
    /// accepts it. When it does, the handle holds the option with this value,
    /// and the record of options gains it; otherwise the record gains
    /// nothing.
    #[verifier::external_body]
    pub(crate) fn set_upload(self, value: bool) -> (r: (Self, Result<(), CurlError>))
        ensures
            r.1 is Ok ==> r.0.options() == self.options().push(CurlOption::Upload(value)),
            r.1 is Err ==> r.0.options() == self.options(),
    {
        let mut client = self;
        let outcome = client.easy.upload(value);
        (client, outcome)
    }

    /// `Easy2::post_fields_copy`: copies the body of a POST into the handle
    /// (`CURLOPT_COPYPOSTFIELDS`); libcurl decides whether it accepts it. When it
    /// does, the record of options gains the copied bytes; otherwise the record gains
    /// nothing.
    /// (The crate first sets the size of the data, which stays set when
    /// libcurl then refuses the copy; the record does not show that step.)
    #[verifier::external_body]
    pub(crate) fn set_post_fields_copy(self, value: &[u8]) -> (r: (Self, Result<(), CurlError>))
        ensures
            r.1 is Ok ==> r.0.options() == self.options().push(CurlOption::PostFieldsCopy(value@)),
            r.1 is Err ==> r.0.options() == self.options(),
    {
        let mut client = self;
        let outcome = client.easy.post_fields_copy(value);
        (client, outcome)
    }

    /// `Easy2::http_headers`: hands the list of header lines to the handle
    /// (`CURLOPT_HTTPHEADER`); libcurl decides whether it accepts it. When it
    /// does, the record of options gains the lines of the list; otherwise the
    /// record gains nothing.
    #[verifier::external_body]
    pub(crate) fn set_http_headers(self, list: List) -> (r: (Self, Result<(), CurlError>))
        ensures
            r.1 is Ok ==> r.0.options() == self.options().push(CurlOption::HttpHeaders(list_items(list))),
            r.1 is Err ==> r.0.options() == self.options(),
    {
        let mut client = self;
        let outcome = client.easy.http_headers(list);
        (client, outcome)
    }

    /// `Easy2::resume_from`: sets `CURLOPT_RESUME_FROM_LARGE` to the value; libcurl decides whether it
    /// accepts it. When it does, the handle holds the option with this value,
    /// and the record of options gains it; otherwise the record gains
    /// nothing.
    #[verifier::external_body]
    pub(crate) fn set_resume_from(self, value: u64) -> (r: (Self, Result<(), CurlError>))
        ensures
            r.1 is Ok ==> r.0.options() == self.options().push(CurlOption::ResumeFrom(value)),
            r.1 is Err ==> r.0.options() == self.options(),
    {
        let mut client = self;
        let outcome = client.easy.resume_from(value);
        (client, outcome)
    }

    /// `Easy2::max_recv_speed`: sets `CURLOPT_MAX_RECV_SPEED_LARGE` to the value; libcurl decides whether it
    /// accepts it. When it does, the handle holds the option with this value,
    /// and the record of options gains it; otherwise the record gains
    /// nothing.
    #[verifier::external_body]
    pub(crate) fn set_max_recv_speed(self, value: u64) -> (r: (Self, Result<(), CurlError>))
        ensures
            r.1 is Ok ==> r.0.options() == self.options().push(CurlOption::MaxRecvSpeed(value)),
            r.1 is Err ==> r.0.options() == self.options(),
    {
        let mut client = self;
        let outcome = client.easy.max_recv_speed(value);
        (client, outcome)
    }

    /// `Easy2::in_filesize`: sets `CURLOPT_INFILESIZE_LARGE` to the value; libcurl decides whether it
    /// accepts it. When it does, the handle holds the option with this value,
    /// and the record of options gains it; otherwise the record gains
    /// nothing.
    #[verifier::external_body]
    pub(crate) fn set_in_filesize(self, value: u64) -> (r: (Self, Result<(), CurlError>))
        ensures
            r.1 is Ok ==> r.0.options() == self.options().push(CurlOption::InFileSize(value)),
            r.1 is Err ==> r.0.options() == self.options(),
    {
        let mut client = self;
        let outcome = client.easy.in_filesize(value);
        (client, outcome)
    }

    /// `Easy2::max_send_speed`: sets `CURLOPT_MAX_SEND_SPEED_LARGE` to the value; libcurl decides whether it
    /// accepts it. When it does, the handle holds the option with this value,
    /// and the record of options gains it; otherwise the record gains
    /// nothing.
    #[verifier::external_body]
    pub(crate) fn set_max_send_speed(self, value: u64) -> (r: (Self, Result<(), CurlError>))
        ensures
            r.1 is Ok ==> r.0.options() == self.options().push(CurlOption::MaxSendSpeed(value)),
            r.1 is Err ==> r.0.options() == self.options(),
    {
        let mut client = self;
        let outcome = client.easy.max_send_speed(value);
        (client, outcome)
    }

    /// `Easy2::username`: sets `CURLOPT_USERNAME` to the value. The string is first copied
    /// into a C string, which fails when it holds a NUL character; otherwise
    /// libcurl decides. When it accepts, the handle holds the option with this
    /// value, and the record of options gains it; otherwise the record gains
    /// nothing.
    #[verifier::external_body]
    pub(crate) fn set_username(self, value: &str) -> (r: (Self, Result<(), CurlError>))
        ensures
            r.1 is Ok ==> r.0.options() == self.options().push(CurlOption::Username(value@)),
            r.1 is Err ==> r.0.options() == self.options(),
            has_nul(value@) ==> r.1 is Err,
    {
        let mut client = self;
        let outcome = client.easy.username(value);
        (client, outcome)
    }

    /// `Easy2::password`: sets `CURLOPT_PASSWORD` to the value. The string is first copied
    /// into a C string, which fails when it holds a NUL character; otherwise
    /// libcurl decides. When it accepts, the handle holds the option with this
    /// value, and the record of options gains it; otherwise the record gains
    /// nothing.
    #[verifier::external_body]
    pub(crate) fn set_password(self, value: &str) -> (r: (Self, Result<(), CurlError>))
        ensures
            r.1 is Ok ==> r.0.options() == self.options().push(CurlOption::Password(value@)),
            r.1 is Err ==> r.0.options() == self.options(),
            has_nul(value@) ==> r.1 is Err,
    {
        let mut client = self;
        let outcome = client.easy.password(value);
        (client, outcome)
    }

    /// `Easy2::http_auth`: sets `CURLOPT_HTTPAUTH` to the value; libcurl decides whether it
    /// accepts it. When it does, the handle holds the option with this value,
    /// and the record of options gains it; otherwise the record gains
    /// nothing.
    #[verifier::external_body]
    pub(crate) fn set_http_auth(self, value: &Auth) -> (r: (Self, Result<(), CurlError>))
        ensures
            r.1 is Ok ==> r.0.options() == self.options().push(CurlOption::HttpAuth(*value)),
            r.1 is Err ==> r.0.options() == self.options(),
    {
        let mut client = self;
        let outcome = client.easy.http_auth(value);
        (client, outcome)
    }

    /// `Easy2::port`: sets `CURLOPT_PORT` to the value; libcurl decides whether it
    /// accepts it. When it does, the handle holds the option with this value,
    /// and the record of options gains it; otherwise the record gains
    /// nothing.
    #[verifier::external_body]
    pub(crate) fn set_port(self, value: u16) -> (r: (Self, Result<(), CurlError>))
        ensures
            r.1 is Ok ==> r.0.options() == self.options().push(CurlOption::Port(value)),
            r.1 is Err ==> r.0.options() == self.options(),
    {
        let mut client = self;
        let outcome = client.easy.port(value);
        (client, outcome)
    }

    /// `Easy2::cainfo`: sets `CURLOPT_CAINFO` to the value. The string is first copied
    /// into a C string, which fails when it holds a NUL character; otherwise
    /// libcurl decides. When it accepts, the handle holds the option with this
    /// value, and the record of options gains it; otherwise the record gains
    /// nothing.
    #[verifier::external_body]
    pub(crate) fn set_cainfo(self, value: &str) -> (r: (Self, Result<(), CurlError>))
        ensures
            r.1 is Ok ==> r.0.options() == self.options().push(CurlOption::CaInfo(value@)),
            r.1 is Err ==> r.0.options() == self.options(),
            has_nul(value@) ==> r.1 is Err,
    {
        let mut client = self;
        let outcome = client.easy.cainfo(value);
        (client, outcome)
    }

    /// `Easy2::capath`: sets `CURLOPT_CAPATH` to the value. The string is first copied
    /// into a C string, which fails when it holds a NUL character; otherwise
    /// libcurl decides. When it accepts, the handle holds the option with this
    /// value, and the record of options gains it; otherwise the record gains
    /// nothing.
    #[verifier::external_body]
    pub(crate) fn set_capath(self, value: &str) -> (r: (Self, Result<(), CurlError>))
        ensures
            r.1 is Ok ==> r.0.options() == self.options().push(CurlOption::CaPath(value@)),
            r.1 is Err ==> r.0.options() == self.options(),
            has_nul(value@) ==> r.1 is Err,
    {
        let mut client = self;
        let outcome = client.easy.capath(value);
        (client, outcome)
    }

    /// `Easy2::proxy_username`: sets `CURLOPT_PROXYUSERNAME` to the value. The string is first copied
    /// into a C string, which fails when it holds a NUL character; otherwise
    /// libcurl decides. When it accepts, the handle holds the option with this
    /// value, and the record of options gains it; otherwise the record gains
    /// nothing.
    #[verifier::external_body]
    pub(crate) fn set_proxy_username(self, value: &str) -> (r: (Self, Result<(), CurlError>))
        ensures
            r.1 is Ok ==> r.0.options() == self.options().push(CurlOption::ProxyUsername(value@)),
            r.1 is Err ==> r.0.options() == self.options(),
            has_nul(value@) ==> r.1 is Err,
    {
        let mut client = self;
        let outcome = client.easy.proxy_username(value);
        (client, outcome)
    }

    /// `Easy2::proxy_password`: sets `CURLOPT_PROXYPASSWORD` to the value. The string is first copied
    /// into a C string, which fails when it holds a NUL character; otherwise
    /// libcurl decides. When it accepts, the handle holds the option with this
    /// value, and the record of options gains it; otherwise the record gains
    /// nothing.
    #[verifier::external_body]
    pub(crate) fn set_proxy_password(self, value: &str) -> (r: (Self, Result<(), CurlError>))
        ensures
            r.1 is Ok ==> r.0.options() == self.options().push(CurlOption::ProxyPassword(value@)),
            r.1 is Err ==> r.0.options() == self.options(),
            has_nul(value@) ==> r.1 is Err,
    {
        let mut client = self;
        let outcome = client.easy.proxy_password(value);
        (client, outcome)
    }

    /// `Easy2::proxy_auth`: sets `CURLOPT_PROXYAUTH` to the value; libcurl decides whether it
    /// accepts it. When it does, the handle holds the option with this value,
    /// and the record of options gains it; otherwise the record gains
    /// nothing.
    #[verifier::external_body]
    pub(crate) fn set_proxy_auth(self, value: &Auth) -> (r: (Self, Result<(), CurlError>))
        ensures
            r.1 is Ok ==> r.0.options() == self.options().push(CurlOption::ProxyAuth(*value)),
            r.1 is Err ==> r.0.options() == self.options(),
    {
        let mut client = self;
        let outcome = client.easy.proxy_auth(value);
        (client, outcome)
    }

    /// `Easy2::proxy`: sets `CURLOPT_PROXY` to the value. The string is first copied
    /// into a C string, which fails when it holds a NUL character; otherwise
    /// libcurl decides. When it accepts, the handle holds the option with this
    /// value, and the record of options gains it; otherwise the record gains
    /// nothing.
    #[verifier::external_body]
    pub(crate) fn set_proxy(self, value: &str) -> (r: (Self, Result<(), CurlError>))
        ensures
            r.1 is Ok ==> r.0.options() == self.options().push(CurlOption::Proxy(value@)),
            r.1 is Err ==> r.0.options() == self.options(),
            has_nul(value@) ==> r.1 is Err,
    {
        let mut client = self;
        let outcome = client.easy.proxy(value);
        (client, outcome)
    }

    /// `Easy2::proxy_port`: sets `CURLOPT_PROXYPORT` to the value; libcurl decides whether it
    /// accepts it. When it does, the handle holds the option with this value,
    /// and the record of options gains it; otherwise the record gains
    /// nothing.
    #[verifier::external_body]
    pub(crate) fn set_proxy_port(self, value: u16) -> (r: (Self, Result<(), CurlError>))
        ensures
            r.1 is Ok ==> r.0.options() == self.options().push(CurlOption::ProxyPort(value)),
            r.1 is Err ==> r.0.options() == self.options(),
    {
        let mut client = self;
        let outcome = client.easy.proxy_port(value);
        (client, outcome)
    }

    /// `Easy2::proxy_cainfo`: sets `CURLOPT_PROXY_CAINFO` to the value. The string is first copied
    /// into a C string, which fails when it holds a NUL character; otherwise
    /// libcurl decides. When it accepts, the handle holds the option with this
    /// value, and the record of options gains it; otherwise the record gains
    /// nothing.
    #[verifier::external_body]
    pub(crate) fn set_proxy_cainfo(self, value: &str) -> (r: (Self, Result<(), CurlError>))
        ensures
            r.1 is Ok ==> r.0.options() == self.options().push(CurlOption::ProxyCaInfo(value@)),
            r.1 is Err ==> r.0.options() == self.options(),
            has_nul(value@) ==> r.1 is Err,
    {
        let mut client = self;
        let outcome = client.easy.proxy_cainfo(value);
        (client, outcome)
    }

    /// `Easy2::proxy_capath`: sets `CURLOPT_PROXY_CAPATH` to the value. The string is first copied
    /// into a C string, which fails when it holds a NUL character; otherwise
    /// libcurl decides. When it accepts, the handle holds the option with this
    /// value, and the record of options gains it; otherwise the record gains
    /// nothing.
    #[verifier::external_body]
    pub(crate) fn set_proxy_capath(self, value: &str) -> (r: (Self, Result<(), CurlError>))
        ensures
            r.1 is Ok ==> r.0.options() == self.options().push(CurlOption::ProxyCaPath(value@)),
            r.1 is Err ==> r.0.options() == self.options(),
            has_nul(value@) ==> r.1 is Err,
    {
        let mut client = self;
        let outcome = client.easy.proxy_capath(value);
        (client, outcome)
    }

    /// `Easy2::follow_location`: sets `CURLOPT_FOLLOWLOCATION` to the value; libcurl decides whether it
    /// accepts it. When it does, the handle holds the option with this value,
    /// and the record of options gains it; otherwise the record gains
    /// nothing.
    #[verifier::external_body]
    pub(crate) fn set_follow_location(self, value: bool) -> (r: (Self, Result<(), CurlError>))
        ensures
            r.1 is Ok ==> r.0.options() == self.options().push(CurlOption::FollowLocation(value)),
            r.1 is Err ==> r.0.options() == self.options(),
    {
        let mut client = self;
        let outcome = client.easy.follow_location(value);
        (client, outcome)
    }

    /// `Easy2::connect_timeout`: sets `CURLOPT_CONNECTTIMEOUT_MS` to the value; libcurl decides whether it
    /// accepts it. When it does, the handle holds the option with this value,
    /// and the record of options gains it; otherwise the record gains
    /// nothing.
    #[verifier::external_body]
    pub(crate) fn set_connect_timeout(self, value: Duration) -> (r: (Self, Result<(), CurlError>))
        ensures
            r.1 is Ok ==> r.0.options() == self.options().push(CurlOption::ConnectTimeout(value)),
            r.1 is Err ==> r.0.options() == self.options(),
    {
        let mut client = self;
        let outcome = client.easy.connect_timeout(value);
        (client, outcome)
    }

    /// `Easy2::timeout`: sets `CURLOPT_TIMEOUT_MS` to the value; libcurl decides whether it
    /// accepts it. When it does, the handle holds the option with this value,
    /// and the record of options gains it; otherwise the record gains
    /// nothing.
    #[verifier::external_body]
    pub(crate) fn set_timeout(self, value: Duration) -> (r: (Self, Result<(), CurlError>))
        ensures
            r.1 is Ok ==> r.0.options() == self.options().push(CurlOption::Timeout(value)),
            r.1 is Err ==> r.0.options() == self.options(),
    {
        let mut client = self;
        let outcome = client.easy.timeout(value);
        (client, outcome)
    }

    /// `Easy2::verbose`: sets `CURLOPT_VERBOSE` to the value; libcurl decides whether it
    /// accepts it. When it does, the handle holds the option with this value,
    /// and the record of options gains it; otherwise the record gains
    /// nothing.
    #[verifier::external_body]
    pub(crate) fn set_verbose(self, value: bool) -> (r: (Self, Result<(), CurlError>))
        ensures
            r.1 is Ok ==> r.0.options() == self.options().push(CurlOption::Verbose(value)),
            r.1 is Err ==> r.0.options() == self.options(),
    {
        let mut client = self;
        let outcome = client.easy.verbose(value);
        (client, outcome)
    }

    /// `Easy2::show_header`: sets `CURLOPT_HEADER` to the value; libcurl decides whether it
    /// accepts it. When it does, the handle holds the option with this value,
    /// and the record of options gains it; otherwise the record gains
    /// nothing.
    #[verifier::external_body]
    pub(crate) fn set_show_header(self, value: bool) -> (r: (Self, Result<(), CurlError>))
        ensures
            r.1 is Ok ==> r.0.options() == self.options().push(CurlOption::ShowHeader(value)),
            r.1 is Err ==> r.0.options() == self.options(),
    {
        let mut client = self;
        let outcome = client.easy.show_header(value);
        (client, outcome)
    }
}

} // verus!
