//! The HTTP client: a curl easy handle that is configured in the `Build`
//! state, and that a request turns into the `Perform` state.
//!
//! The model of a client is the sequence of curl options that it has set on
//! its handle, each with its value, in the order in which they were set.
use crate::curl_calls::{curl_error_text, has_nul, list_append, list_items, list_new};
use crate::error::Error;
use crate::request::{header_line, header_plan, HeaderPlan, HttpRequest, Method};
use crate::units::{BytesOffset, BytesPerSec, FileSize};
use core::time::Duration;
use curl::easy::{Auth, Easy2};
use curl::Error as CurlError;
use vstd::prelude::*;

verus! {

/// A type-state struct in building the HttpClient.
pub struct Build;

/// A type-state struct in building the HttpClient.
pub struct Perform;

/// A curl option that a client has set on its handle, with its value.
pub enum CurlOption {
    Url(Seq<char>),
    HttpHeaders(Seq<Seq<char>>),
    Post(bool),
    PostFieldSize(u64),
    PostFieldsCopy(Seq<u8>),
    HttpGet(bool),
    Upload(bool),
    ResumeFrom(u64),
    MaxRecvSpeed(u64),
    InFileSize(u64),
    MaxSendSpeed(u64),
    Username(Seq<char>),
    Password(Seq<char>),
    HttpAuth(Auth),
    Port(u16),
    CaInfo(Seq<char>),
    CaPath(Seq<char>),
    ProxyUsername(Seq<char>),
    ProxyPassword(Seq<char>),
    ProxyAuth(Auth),
    Proxy(Seq<char>),
    ProxyPort(u16),
    ProxyCaInfo(Seq<char>),
    ProxyCaPath(Seq<char>),
    FollowLocation(bool),
    ConnectTimeout(Duration),
    Timeout(Duration),
    Verbose(bool),
    ShowHeader(bool),
}

/// The options that a request sets for its method: `POST` turns on posting
/// and, with a body, gives its size and a copy of it; `GET` turns on a plain
/// get; `PUT` turns on uploading (the body is not sent then).
pub open spec fn method_options(method: Method, body: Option<Seq<u8>>) -> Seq<CurlOption> {
    match method {
        Method::Post => match body {
            Some(b) => seq![
                CurlOption::Post(true),
                CurlOption::PostFieldSize(b.len() as u64),
                CurlOption::PostFieldsCopy(b),
            ],
            None => seq![CurlOption::Post(true)],
        },
        Method::Get => seq![CurlOption::HttpGet(true)],
        Method::Put => seq![CurlOption::Upload(true)],
        _ => seq![],
    }
}

/// The options that a request sets, in order, when its header lines are
/// `lines`: the URL, the header list, then those of its method.
pub open spec fn request_options(request: HttpRequest, lines: Seq<Seq<char>>) -> Seq<CurlOption> {
    seq![CurlOption::Url(request.url@), CurlOption::HttpHeaders(lines)] + method_options(
        request.method,
        request.body_bytes(),
    )
}

/// The methods that a request can be made with.
pub open spec fn supported_method(method: Method) -> bool {
    method is Get || method is Post || method is Put
}

/// A request that can be set up without reaching a method that is not
/// handled: its method is handled, or it stops before the method is looked
/// at (a URL with a NUL character, or a header that cannot be sent).
pub open spec fn request_settable(request: HttpRequest) -> bool {
    supported_method(request.method) || has_nul(request.url@) || !(header_plan(
        request.fields(),
    ) is Lines)
}

/// The options that a request is meant to set on a client whose options are
/// `before`: all its steps when its headers can all be sent, otherwise the
/// URL only, as the headers stop it there.
pub open spec fn planned_options(before: Seq<CurlOption>, request: HttpRequest) -> Seq<CurlOption> {
    match header_plan(request.fields()) {
        HeaderPlan::Lines(lines) => before + request_options(request, lines),
        _ => before.push(CurlOption::Url(request.url@)),
    }
}

/// curl refused one of the request's steps: some client that had set the
/// steps before it (after the options `before`) was refused the next one.
pub open spec fn curl_refused_step<C>(before: Seq<CurlOption>, request: HttpRequest) -> bool {
    let planned = planned_options(before, request);
    exists|c: HttpClient<C, Build>|
        #![auto]
        before.len() <= c.options().len() < planned.len() && c.options() == planned.take(
            c.options().len() as int,
        ) && c.refuses(planned[c.options().len() as int])
}

/// Once a prefix of the headers stops the plan, the whole plan stops there.
proof fn lemma_plan_stops(fields: Seq<(Seq<char>, Seq<u8>)>, k: int)
    requires
        0 <= k <= fields.len(),
        !(header_plan(fields.take(k)) is Lines),
    ensures
        header_plan(fields) == header_plan(fields.take(k)),
    decreases fields.len() - k,
{
    if k < fields.len() {
        let next = fields.take(k + 1);
        assert(next.drop_last() =~= fields.take(k));
        lemma_plan_stops(fields, k + 1);
    } else {
        assert(fields.take(k) =~= fields);
    }
}

/// The HTTP Client struct that wraps curl Easy2.
#[verifier::reject_recursive_types(C)]
pub struct HttpClient<C, S> {
    /// The curl easy handle, with the handler `C` that collects the body.
    pub(crate) easy: Easy2<C>,
    /// The options set on `easy` so far, in order.
    pub(crate) applied: Ghost<Seq<CurlOption>>,
    /// Which step of the building the client is at.
    pub(crate) state: S,
}

impl<C, S> HttpClient<C, S> {
    /// The options that the client has set on its handle, in order.
    pub closed spec fn options(self) -> Seq<CurlOption> {
        self.applied@
    }

    /// The curl easy handle of the client.
    pub closed spec fn handle(self) -> Easy2<C> {
        self.easy
    }
}

impl<C> HttpClient<C, Perform> {
    /// Hands over the configured easy handle, to be performed; the body that
    /// its handler collects and what curl reports afterwards make the
    /// response (see `response_of`).
    pub fn into_handle(self) -> (r: Easy2<C>)
        ensures
            r == self.handle(),
    {
        self.easy
    }
}

impl<C> HttpClient<C, Build> {
    /// Creates a new HTTP Client around a curl easy handle whose handler
    /// collects the body of the response (in memory or in a file). The
    /// client has set no option yet.
    pub fn new(easy: Easy2<C>) -> (r: Self)
        ensures
            r.options() == Seq::<CurlOption>::empty(),
            r.handle() == easy,
    {
        HttpClient { easy, applied: Ghost(Seq::empty()), state: Build }
    }

    /// Set a point to resume transfer from
    ///
    /// Specify the offset in bytes you want the transfer to start from.
    ///
    /// By default this option is 0 and corresponds to
    /// `CURLOPT_RESUME_FROM_LARGE`.
    pub fn resume_from(self, offset: BytesOffset) -> (r: Result<Self, Error>)
        ensures
            r matches Ok(c) ==> c.options() == self.options().push(CurlOption::ResumeFrom(offset.0 as u64)),
            r matches Err(e) ==> e is Curl,
            r is Err ==> self.refuses(CurlOption::ResumeFrom(offset.0 as u64)),
    {
        let (client, outcome) = self.set_resume_from(offset.0 as u64);
        match outcome {
            Ok(()) => Ok(client),
            Err(e) => Err(Error::Curl(curl_error_text(&e))),
        }
    }

    /// Rate limit data download speed
    ///
    /// If a download exceeds this speed (counted in bytes per second) on
    /// cumulative average during the transfer, the transfer will pause to keep
    /// the average rate less than or equal to the parameter value.
    ///
    /// By default this option is not set (unlimited speed) and corresponds to
    /// `CURLOPT_MAX_RECV_SPEED_LARGE`.
    pub fn download_speed(self, speed: BytesPerSec) -> (r: Result<Self, Error>)
        ensures
            r matches Ok(c) ==> c.options() == self.options().push(CurlOption::MaxRecvSpeed(speed.0)),
            r matches Err(e) ==> e is Curl,
            r is Err ==> self.refuses(CurlOption::MaxRecvSpeed(speed.0)),
    {
        let (client, outcome) = self.set_max_recv_speed(speed.0);
        match outcome {
            Ok(()) => Ok(client),
            Err(e) => Err(Error::Curl(curl_error_text(&e))),
        }
    }

    /// Set the size of the input file to send off.
    ///
    /// By default this option is not set and corresponds to
    /// `CURLOPT_INFILESIZE_LARGE`.
    pub fn upload_file_size(self, size: FileSize) -> (r: Result<Self, Error>)
        ensures
            r matches Ok(c) ==> c.options() == self.options().push(CurlOption::InFileSize(size.0 as u64)),
            r matches Err(e) ==> e is Curl,
            r is Err ==> self.refuses(CurlOption::InFileSize(size.0 as u64)),
    {
        let (client, outcome) = self.set_in_filesize(size.0 as u64);
        match outcome {
            Ok(()) => Ok(client),
            Err(e) => Err(Error::Curl(curl_error_text(&e))),
        }
    }

    /// Rate limit data upload speed
    ///
    /// If an upload exceeds this speed (counted in bytes per second) on
    /// cumulative average during the transfer, the transfer will pause to keep
    /// the average rate less than or equal to the parameter value.
    ///
    /// By default this option is not set (unlimited speed) and corresponds to
    /// `CURLOPT_MAX_SEND_SPEED_LARGE`.
    pub fn upload_speed(self, speed: BytesPerSec) -> (r: Result<Self, Error>)
        ensures
            r matches Ok(c) ==> c.options() == self.options().push(CurlOption::MaxSendSpeed(speed.0)),
            r matches Err(e) ==> e is Curl,
            r is Err ==> self.refuses(CurlOption::MaxSendSpeed(speed.0)),
    {
        let (client, outcome) = self.set_max_send_speed(speed.0);
        match outcome {
            Ok(()) => Ok(client),
            Err(e) => Err(Error::Curl(curl_error_text(&e))),
        }
    }

    /// Configures the username to pass as authentication for this connection.
    ///
    /// By default this value is not set and corresponds to `CURLOPT_USERNAME`.
    pub fn username(self, user: &str) -> (r: Result<Self, Error>)
        ensures
            r matches Ok(c) ==> c.options() == self.options().push(CurlOption::Username(user@)),
            r matches Err(e) ==> e is Curl,
            has_nul(user@) ==> r is Err,
            r is Err ==> self.refuses(CurlOption::Username(user@)),
    {
        let (client, outcome) = self.set_username(user);
        match outcome {
            Ok(()) => Ok(client),
            Err(e) => Err(Error::Curl(curl_error_text(&e))),
        }
    }

    /// Configures the password to pass as authentication for this connection.
    ///
    /// By default this value is not set and corresponds to `CURLOPT_PASSWORD`.
    pub fn password(self, pass: &str) -> (r: Result<Self, Error>)
        ensures
            r matches Ok(c) ==> c.options() == self.options().push(CurlOption::Password(pass@)),
            r matches Err(e) ==> e is Curl,
            has_nul(pass@) ==> r is Err,
            r is Err ==> self.refuses(CurlOption::Password(pass@)),
    {
        let (client, outcome) = self.set_password(pass);
        match outcome {
            Ok(()) => Ok(client),
            Err(e) => Err(Error::Curl(curl_error_text(&e))),
        }
    }

    /// Set HTTP server authentication methods to try
    ///
    /// If more than one method is set, libcurl will first query the site to see
    /// which authentication methods it supports and then pick the best one you
    /// allow it to use. For some methods, this will induce an extra network
    /// round-trip. Set the actual name and password with the `password` and
    /// `username` methods.
    ///
    /// For authentication with a proxy, see `proxy_auth`.
    ///
    /// By default this value is basic and corresponds to `CURLOPT_HTTPAUTH`.
    pub fn http_auth(self, auth: &Auth) -> (r: Result<Self, Error>)
        ensures
            r matches Ok(c) ==> c.options() == self.options().push(CurlOption::HttpAuth(*auth)),
            r matches Err(e) ==> e is Curl,
            r is Err ==> self.refuses(CurlOption::HttpAuth(*auth)),
    {
        let (client, outcome) = self.set_http_auth(auth);
        match outcome {
            Ok(()) => Ok(client),
            Err(e) => Err(Error::Curl(curl_error_text(&e))),
        }
    }

    /// Configures the port number to connect to, instead of the one specified
    /// in the URL or the default of the protocol.
    pub fn port(self, port: u16) -> (r: Result<Self, Error>)
        ensures
            r matches Ok(c) ==> c.options() == self.options().push(CurlOption::Port(port)),
            r matches Err(e) ==> e is Curl,
            r is Err ==> self.refuses(CurlOption::Port(port)),
    {
        let (client, outcome) = self.set_port(port);
        match outcome {
            Ok(()) => Ok(client),
            Err(e) => Err(Error::Curl(curl_error_text(&e))),
        }
    }

    /// Specify the path to Certificate Authority (CA) bundle
    ///
    /// The file referenced should hold one or more certificates to verify the
    /// peer with.
    ///
    /// This option is by default set to the system path where libcurl's cacert
    /// bundle is assumed to be stored, as established at build time.
    ///
    /// If curl is built against the NSS SSL library, the NSS PEM PKCS#11 module
    /// (libnsspem.so) needs to be available for this option to work properly.
    ///
    /// By default this option is the system defaults, and corresponds to
    /// `CURLOPT_CAINFO`.
    pub fn cainfo(self, path: &str) -> (r: Result<Self, Error>)
        ensures
            r matches Ok(c) ==> c.options() == self.options().push(CurlOption::CaInfo(path@)),
            r matches Err(e) ==> e is Curl,
            has_nul(path@) ==> r is Err,
            r is Err ==> self.refuses(CurlOption::CaInfo(path@)),
    {
        let (client, outcome) = self.set_cainfo(path);
        match outcome {
            Ok(()) => Ok(client),
            Err(e) => Err(Error::Curl(curl_error_text(&e))),
        }
    }

    /// Specify directory holding CA certificates
    ///
    /// Names a directory holding multiple CA certificates to verify the peer
    /// with. If libcurl is built against OpenSSL, the certificate directory
    /// must be prepared using the openssl c_rehash utility. This makes sense
    /// only when used in combination with the `ssl_verify_peer` option.
    ///
    /// By default this option is not set and corresponds to `CURLOPT_CAPATH`.
    pub fn capath(self, path: &str) -> (r: Result<Self, Error>)
        ensures
            r matches Ok(c) ==> c.options() == self.options().push(CurlOption::CaPath(path@)),
            r matches Err(e) ==> e is Curl,
            has_nul(path@) ==> r is Err,
            r is Err ==> self.refuses(CurlOption::CaPath(path@)),
    {
        let (client, outcome) = self.set_capath(path);
        match outcome {
            Ok(()) => Ok(client),
            Err(e) => Err(Error::Curl(curl_error_text(&e))),
        }
    }

    /// Configures the proxy username to pass as authentication for this
    /// connection.
    ///
    /// By default this value is not set and corresponds to
    /// `CURLOPT_PROXYUSERNAME`.
    pub fn proxy_username(self, user: &str) -> (r: Result<Self, Error>)
        ensures
            r matches Ok(c) ==> c.options() == self.options().push(CurlOption::ProxyUsername(user@)),
            r matches Err(e) ==> e is Curl,
            has_nul(user@) ==> r is Err,
            r is Err ==> self.refuses(CurlOption::ProxyUsername(user@)),
    {
        let (client, outcome) = self.set_proxy_username(user);
        match outcome {
            Ok(()) => Ok(client),
            Err(e) => Err(Error::Curl(curl_error_text(&e))),
        }
    }

    /// Configures the proxy password to pass as authentication for this
    /// connection.
    ///
    /// By default this value is not set and corresponds to
    /// `CURLOPT_PROXYPASSWORD`.
    pub fn proxy_password(self, pass: &str) -> (r: Result<Self, Error>)
        ensures
            r matches Ok(c) ==> c.options() == self.options().push(CurlOption::ProxyPassword(pass@)),
            r matches Err(e) ==> e is Curl,
            has_nul(pass@) ==> r is Err,
            r is Err ==> self.refuses(CurlOption::ProxyPassword(pass@)),
    {
        let (client, outcome) = self.set_proxy_password(pass);
        match outcome {
            Ok(()) => Ok(client),
            Err(e) => Err(Error::Curl(curl_error_text(&e))),
        }
    }

    /// Set HTTP proxy authentication methods to try
    ///
    /// If more than one method is set, libcurl will first query the site to see
    /// which authentication methods it supports and then pick the best one you
    /// allow it to use. For some methods, this will induce an extra network
    /// round-trip. Set the actual name and password with the `proxy_password`
    /// and `proxy_username` methods.
    ///
    /// By default this value is basic and corresponds to `CURLOPT_PROXYAUTH`.
    pub fn proxy_auth(self, auth: &Auth) -> (r: Result<Self, Error>)
        ensures
            r matches Ok(c) ==> c.options() == self.options().push(CurlOption::ProxyAuth(*auth)),
            r matches Err(e) ==> e is Curl,
            r is Err ==> self.refuses(CurlOption::ProxyAuth(*auth)),
    {
        let (client, outcome) = self.set_proxy_auth(auth);
        match outcome {
            Ok(()) => Ok(client),
            Err(e) => Err(Error::Curl(curl_error_text(&e))),
        }
    }

    /// Provide the URL of a proxy to use.
    ///
    /// By default this option is not set and corresponds to `CURLOPT_PROXY`.
    pub fn proxy(self, url: &str) -> (r: Result<Self, Error>)
        ensures
            r matches Ok(c) ==> c.options() == self.options().push(CurlOption::Proxy(url@)),
            r matches Err(e) ==> e is Curl,
            has_nul(url@) ==> r is Err,
            r is Err ==> self.refuses(CurlOption::Proxy(url@)),
    {
        let (client, outcome) = self.set_proxy(url);
        match outcome {
            Ok(()) => Ok(client),
            Err(e) => Err(Error::Curl(curl_error_text(&e))),
        }
    }

    /// Provide port number the proxy is listening on.
    ///
    /// By default this option is not set (the default port for the proxy
    /// protocol is used) and corresponds to `CURLOPT_PROXYPORT`.
    pub fn proxy_port(self, port: u16) -> (r: Result<Self, Error>)
        ensures
            r matches Ok(c) ==> c.options() == self.options().push(CurlOption::ProxyPort(port)),
            r matches Err(e) ==> e is Curl,
            r is Err ==> self.refuses(CurlOption::ProxyPort(port)),
    {
        let (client, outcome) = self.set_proxy_port(port);
        match outcome {
            Ok(()) => Ok(client),
            Err(e) => Err(Error::Curl(curl_error_text(&e))),
        }
    }

    /// Set CA certificate to verify peer against for proxy.
    ///
    /// By default this value is not set and corresponds to
    /// `CURLOPT_PROXY_CAINFO`.
    pub fn proxy_cainfo(self, cainfo: &str) -> (r: Result<Self, Error>)
        ensures
            r matches Ok(c) ==> c.options() == self.options().push(CurlOption::ProxyCaInfo(cainfo@)),
            r matches Err(e) ==> e is Curl,
            has_nul(cainfo@) ==> r is Err,
            r is Err ==> self.refuses(CurlOption::ProxyCaInfo(cainfo@)),
    {
        let (client, outcome) = self.set_proxy_cainfo(cainfo);
        match outcome {
            Ok(()) => Ok(client),
            Err(e) => Err(Error::Curl(curl_error_text(&e))),
        }
    }

    /// Specify a directory holding CA certificates for proxy.
    ///
    /// The specified directory should hold multiple CA certificates to verify
    /// the HTTPS proxy with. If libcurl is built against OpenSSL, the
    /// certificate directory must be prepared using the OpenSSL `c_rehash`
    /// utility.
    ///
    /// By default this value is not set and corresponds to
    /// `CURLOPT_PROXY_CAPATH`.
    pub fn proxy_capath(self, path: &str) -> (r: Result<Self, Error>)
        ensures
            r matches Ok(c) ==> c.options() == self.options().push(CurlOption::ProxyCaPath(path@)),
            r matches Err(e) ==> e is Curl,
            has_nul(path@) ==> r is Err,
            r is Err ==> self.refuses(CurlOption::ProxyCaPath(path@)),
    {
        let (client, outcome) = self.set_proxy_capath(path);
        match outcome {
            Ok(()) => Ok(client),
            Err(e) => Err(Error::Curl(curl_error_text(&e))),
        }
    }

    /// Follow HTTP 3xx redirects.
    ///
    /// Indicates whether any `Location` headers in the response should get
    /// followed.
    ///
    /// By default this option is `false` and corresponds to
    /// `CURLOPT_FOLLOWLOCATION`.
    pub fn follow_location(self, enable: bool) -> (r: Result<Self, Error>)
        ensures
            r matches Ok(c) ==> c.options() == self.options().push(CurlOption::FollowLocation(enable)),
            r matches Err(e) ==> e is Curl,
            r is Err ==> self.refuses(CurlOption::FollowLocation(enable)),
    {
        let (client, outcome) = self.set_follow_location(enable);
        match outcome {
            Ok(()) => Ok(client),
            Err(e) => Err(Error::Curl(curl_error_text(&e))),
        }
    }

    /// Timeout for the connect phase
    ///
    /// This is the maximum time that you allow the connection phase to the
    /// server to take. This only limits the connection phase, it has no impact
    /// once it has connected.
    ///
    /// By default this value is 300 seconds and corresponds to
    /// `CURLOPT_CONNECTTIMEOUT_MS`.
    pub fn connect_timeout(self, timeout: Duration) -> (r: Result<Self, Error>)
        ensures
            r matches Ok(c) ==> c.options() == self.options().push(CurlOption::ConnectTimeout(timeout)),
            r matches Err(e) ==> e is Curl,
            r is Err ==> self.refuses(CurlOption::ConnectTimeout(timeout)),
    {
        let (client, outcome) = self.set_connect_timeout(timeout);
        match outcome {
            Ok(()) => Ok(client),
            Err(e) => Err(Error::Curl(curl_error_text(&e))),
        }
    }

    /// Set maximum time the request is allowed to take.
    ///
    /// Normally, name lookups can take a considerable time and limiting
    /// operations to less than a few minutes risk aborting perfectly normal
    /// operations.
    ///
    /// If libcurl is built to use the standard system name resolver, that
    /// portion of the transfer will still use full-second resolution for
    /// timeouts with a minimum timeout allowed of one second.
    ///
    /// In unix-like systems, this might cause signals to be used unless
    /// `nosignal` is set.
    ///
    /// Since this puts a hard limit for how long a request is allowed to
    /// take, it has limited use in dynamic use cases with varying transfer
    /// times. You are then advised to explore `low_speed_limit`,
    /// `low_speed_time` or using `progress_function` to implement your own
    /// timeout logic.
    ///
    /// By default this option is not set and corresponds to
    /// `CURLOPT_TIMEOUT_MS`.
    pub fn timeout(self, timeout: Duration) -> (r: Result<Self, Error>)
        ensures
            r matches Ok(c) ==> c.options() == self.options().push(CurlOption::Timeout(timeout)),
            r matches Err(e) ==> e is Curl,
            r is Err ==> self.refuses(CurlOption::Timeout(timeout)),
    {
        let (client, outcome) = self.set_timeout(timeout);
        match outcome {
            Ok(()) => Ok(client),
            Err(e) => Err(Error::Curl(curl_error_text(&e))),
        }
    }

    /// Configures this handle to have verbose output to help debug protocol
    /// information.
    ///
    /// By default output goes to stderr, but the `stderr` function on this type
    /// can configure that. You can also use the `debug_function` method to get
    /// all protocol data sent and received.
    ///
    /// By default, this option is `false`.
    pub fn verbose(self, verbose: bool) -> (r: Result<Self, Error>)
        ensures
            r matches Ok(c) ==> c.options() == self.options().push(CurlOption::Verbose(verbose)),
            r matches Err(e) ==> e is Curl,
            r is Err ==> self.refuses(CurlOption::Verbose(verbose)),
    {
        let (client, outcome) = self.set_verbose(verbose);
        match outcome {
            Ok(()) => Ok(client),
            Err(e) => Err(Error::Curl(curl_error_text(&e))),
        }
    }

    /// Indicates whether header information is streamed to the output body of
    /// this request.
    ///
    /// This option is only relevant for protocols which have header metadata
    /// (like http or ftp). It's not generally possible to extract headers
    /// from the body if using this method, that use case should be intended for
    /// the `header_function` method.
    ///
    /// To set HTTP headers, use the `http_header` method.
    ///
    /// By default, this option is `false` and corresponds to
    /// `CURLOPT_HEADER`.
    pub fn show_header(self, show: bool) -> (r: Result<Self, Error>)
        ensures
            r matches Ok(c) ==> c.options() == self.options().push(CurlOption::ShowHeader(show)),
            r matches Err(e) ==> e is Curl,
            r is Err ==> self.refuses(CurlOption::ShowHeader(show)),
    {
        let (client, outcome) = self.set_show_header(show);
        match outcome {
            Ok(()) => Ok(client),
            Err(e) => Err(Error::Curl(curl_error_text(&e))),
        }
    }

    /// Sets up the request on the handle, step by step: the URL, then the
    /// header lines, in order, collected in a list that is handed over whole,
    /// then the options of the method. A header whose value is not visible
    /// ASCII stops it with an `Other` error that names the header and lists
    /// its bytes; a refusal by curl stops it with a `Curl` error. The first
    /// step that fails decides the error and no later step runs, so the
    /// client that comes back holds exactly the steps that succeeded; a curl
    /// error means that curl refused the next step on the client reached.
    fn set_request(self, request: &HttpRequest) -> (r: (Self, Result<(), Error>))
        requires
            request_settable(*request),
            request.valid_header_names(),
        ensures
            ({
                let planned = planned_options(self.options(), *request);
                let done = r.0.options();
                &&& self.options().len() <= done.len() <= planned.len()
                &&& done == planned.take(done.len() as int)
                &&& r.1 is Ok <==> (header_plan(request.fields()) is Lines && done == planned)
                &&& r.1 matches Err(Error::Other(m)) ==> (header_plan(request.fields())
                    == HeaderPlan::InvalidValue(m@) && done == planned)
                &&& r.1 matches Err(Error::Curl(_)) ==> ((header_plan(request.fields())
                    is NulCharacter && done == planned) || (done.len() < planned.len() && exists|
                    before: Self,
                | #![auto]
                before.options() == done && before.refuses(planned[done.len() as int])))
            }),
            header_plan(request.fields()) matches HeaderPlan::InvalidValue(m) ==> (r.1 is Err && (
            r.1 matches Err(Error::Other(t)) ==> t@ == m)),
            header_plan(request.fields()) is NulCharacter ==> (r.1 matches Err(Error::Curl(_))),
            has_nul(request.url@) ==> (r.1 matches Err(Error::Curl(_)) && r.0.options()
                == self.options()),
    {
        let ghost start = self.options();
        let ghost planned = planned_options(start, *request);
        let ghost before = self;
        let (client, outcome) = self.set_url(request.url.as_str());
        match outcome {
            Ok(()) => {},
            Err(e) => {
                assert(before.refuses(CurlOption::Url(request.url@)));
                return (client, Err(Error::Curl(curl_error_text(&e))));
            },
        }
        let mut list = list_new();
        let n = request.headers.len();
        let mut i: usize = 0;
        assert(request.fields().take(0) =~= Seq::<(Seq<char>, Seq<u8>)>::empty());
        while i < n
            invariant
                n == request.headers@.len(),
                n == request.fields().len(),
                i <= n,
                !has_nul(request.url@),
                planned == planned_options(start, *request),
                start == self.options(),
                client.options() == start.push(CurlOption::Url(request.url@)),
                header_plan(request.fields().take(i as int)) == HeaderPlan::Lines(
                    list_items(list),
                ),
            decreases n - i,
        {
            let ghost prefix = request.fields().take(i + 1);
            proof {
                assert(prefix.drop_last() =~= request.fields().take(i as int));
                assert(prefix.last() == request.headers@[i as int].pair());
            }
            let line = match header_line(&request.headers[i]) {
                Ok(line) => line,
                Err(e) => {
                    proof {
                        lemma_plan_stops(request.fields(), i + 1);
                        assert(planned.take(planned.len() as int) =~= planned);
                    }
                    return (client, Err(e));
                },
            };
            match list_append(&mut list, line.as_str()) {
                Ok(()) => {},
                Err(e) => {
                    proof {
                        lemma_plan_stops(request.fields(), i + 1);
                        assert(planned.take(planned.len() as int) =~= planned);
                    }
                    return (client, Err(Error::Curl(curl_error_text(&e))));
                },
            }
            i = i + 1;
        }
        proof {
            assert(request.fields().take(n as int) =~= request.fields());
        }
        let ghost lines = list_items(list);
        assert(planned == start + request_options(*request, lines));
        assert(planned.take(start.len() + 1 as int) =~= client.options());
        let ghost before = client;
        let (client, outcome) = client.set_http_headers(list);
        match outcome {
            Ok(()) => {},
            Err(e) => {
                assert(before.refuses(planned[start.len() + 1 as int]));
                return (client, Err(Error::Curl(curl_error_text(&e))));
            },
        }
        assert(planned.take(start.len() + 2 as int) =~= client.options());
        let mut client = client;
        match &request.method {
            Method::Post => {
                let ghost before = client;
                let (next, outcome) = client.set_post(true);
                match outcome {
                    Ok(()) => {},
                    Err(e) => {
                        assert(before.refuses(planned[start.len() + 2 as int]));
                        return (next, Err(Error::Curl(curl_error_text(&e))));
                    },
                }
                client = next;
                assert(planned.take(start.len() + 3 as int) =~= client.options());
                match &request.body {
                    Some(body) => {
                        let ghost before = client;
                        let (next, outcome) = client.set_post_field_size(body.len() as u64);
                        match outcome {
                            Ok(()) => {},
                            Err(e) => {
                                assert(before.refuses(planned[start.len() + 3 as int]));
                                return (next, Err(Error::Curl(curl_error_text(&e))));
                            },
                        }
                        client = next;
                        assert(planned.take(start.len() + 4 as int) =~= client.options());
                        let ghost before = client;
                        let (next, outcome) = client.set_post_fields_copy(body.as_slice());
                        match outcome {
                            Ok(()) => {},
                            Err(e) => {
                                assert(before.refuses(planned[start.len() + 4 as int]));
                                return (next, Err(Error::Curl(curl_error_text(&e))));
                            },
                        }
                        client = next;
                    },
                    None => {},
                }
            },
            Method::Get => {
                let ghost before = client;
                let (next, outcome) = client.set_get(true);
                match outcome {
                    Ok(()) => {},
                    Err(e) => {
                        assert(before.refuses(planned[start.len() + 2 as int]));
                        return (next, Err(Error::Curl(curl_error_text(&e))));
                    },
                }
                client = next;
            },
            Method::Put => {
                let ghost before = client;
                let (next, outcome) = client.set_upload(true);
                match outcome {
                    Ok(()) => {},
                    Err(e) => {
                        assert(before.refuses(planned[start.len() + 2 as int]));
                        return (next, Err(Error::Curl(curl_error_text(&e))));
                    },
                }
                client = next;
            },
            _ => {
                proof {
                    assert(!supported_method(request.method));
                }
                return (client, Err(Error::Other(String::new())));
            },
        }
        assert(client.options() =~= planned);
        (client, Ok(()))
    }

    /// Sets the HTTP request (see `set_request`) and moves the client to the
    /// `Perform` state. A URL with a NUL character is refused by curl before
    /// any header is looked at; a header whose value is not visible ASCII
    /// gives the `Other` error that names it once the URL was accepted; a
    /// curl error comes only from a step that curl refused.
    pub fn request(self, request: HttpRequest) -> (r: Result<HttpClient<C, Perform>, Error>)
        requires
            request_settable(request),
            request.valid_header_names(),
        ensures
            r matches Ok(c) ==> (header_plan(request.fields()) matches HeaderPlan::Lines(lines)
                && c.options() == self.options() + request_options(request, lines)),
            r matches Err(Error::Other(m)) ==> (header_plan(request.fields())
                == HeaderPlan::InvalidValue(m@) && !has_nul(request.url@)),
            has_nul(request.url@) ==> (r matches Err(e) && e is Curl),
            header_plan(request.fields()) is NulCharacter ==> (r matches Err(e) && e is Curl),
            r matches Err(Error::Curl(_)) ==> (header_plan(request.fields()) is NulCharacter
                || curl_refused_step::<C>(self.options(), request)),
    {
        let (client, outcome) = self.set_request(&request);
        match outcome {
            Ok(()) => Ok(client.into_perform()),
            Err(e) => Err(e),
        }
    }

    /// The same client in the `Perform` state.
    fn into_perform(self) -> (r: HttpClient<C, Perform>)
        ensures
            r.options() == self.options(),
            r.handle() == self.handle(),
    {
        HttpClient { easy: self.easy, applied: self.applied, state: Perform }
    }
}

} // verus!
