use curl::easy::{Auth, Easy2, Handler};
use curl_http_client::{
    build_response, header_line, is_valid_header_name, response_of, BytesOffset, BytesPerSec, Error, FileSize,
    HeaderField, HttpClient, HttpRequest, Method,
};
use std::time::Duration;

#[derive(Debug)]
struct Sink;

impl Handler for Sink {}

fn fresh() -> HttpClient<Sink, curl_http_client::Build> {
    HttpClient::new(Easy2::new(Sink))
}

fn field(name: &str, value: &[u8]) -> HeaderField {
    HeaderField { name: name.to_string(), value: value.to_vec() }
}

fn request(method: Method, headers: Vec<HeaderField>, body: Option<Vec<u8>>) -> HttpRequest {
    HttpRequest { url: "http://127.0.0.1:1/test".to_string(), method, headers, body }
}

fn curl_message(r: Result<impl Sized, Error>) -> Option<String> {
    match r {
        Err(Error::Curl(m)) => Some(m),
        _ => None,
    }
}

#[test]
fn units_keep_their_number() {
    let speed = BytesPerSec::from(4000000u64);
    assert_eq!(*speed, 4000000u64);
    let offset = BytesOffset::from(17usize);
    assert_eq!(*offset, 17usize);
    let size = FileSize::from(0usize);
    assert_eq!(*size, 0usize);
    assert_eq!(speed.0, 4000000u64);
}

#[test]
fn header_line_joins_name_and_value() {
    let line = header_line(&field("content-type", b"text/plain; charset=utf-8")).unwrap();
    assert_eq!(line, "content-type: text/plain; charset=utf-8");
}

#[test]
fn header_line_keeps_tab_and_empty_value() {
    assert_eq!(header_line(&field("x-a", b"a\tb")).unwrap(), "x-a: a\tb");
    assert_eq!(header_line(&field("x-empty", b"")).unwrap(), "x-empty: ");
}

#[test]
fn header_line_refuses_control_and_non_ascii_bytes() {
    match header_line(&field("x-test", &[104, 127])) {
        Err(Error::Other(m)) => assert_eq!(m, "invalid x-test header value [104, 127]"),
        _ => panic!("expected an Other error"),
    }
    match header_line(&field("x-utf8", &[0, 10, 200, 255])) {
        Err(Error::Other(m)) => assert_eq!(m, "invalid x-utf8 header value [0, 10, 200, 255]"),
        _ => panic!("expected an Other error"),
    }
}

#[test]
fn builders_accept_plain_settings() {
    let client = fresh()
        .resume_from(BytesOffset::from(0usize))
        .unwrap()
        .download_speed(BytesPerSec::from(1000u64))
        .unwrap()
        .upload_file_size(FileSize::from(1024usize))
        .unwrap()
        .upload_speed(BytesPerSec::from(4000000u64))
        .unwrap()
        .username("user")
        .unwrap()
        .password("secret")
        .unwrap()
        .http_auth(Auth::new().basic(true))
        .unwrap()
        .port(8080)
        .unwrap()
        .proxy_username("proxy-user")
        .unwrap()
        .proxy_password("proxy-secret")
        .unwrap()
        .proxy_auth(Auth::new().basic(true))
        .unwrap()
        .proxy("http://127.0.0.1:3128")
        .unwrap()
        .proxy_port(3128)
        .unwrap()
        .follow_location(true)
        .unwrap()
        .connect_timeout(Duration::from_secs(5))
        .unwrap()
        .timeout(Duration::from_secs(30))
        .unwrap()
        .verbose(false)
        .unwrap()
        .show_header(false)
        .unwrap();
    let _ = client;
}

#[test]
fn builders_refuse_nul_in_text() {
    assert!(curl_message(fresh().username("us\0er")).is_some());
    assert!(curl_message(fresh().password("\0")).is_some());
    assert!(curl_message(fresh().proxy("http://a\0b")).is_some());
    assert!(curl_message(fresh().cainfo("/tmp/ca\0.pem")).is_some());
    assert!(curl_message(fresh().capath("/tmp\0")).is_some());
    assert!(curl_message(fresh().proxy_username("a\0")).is_some());
    assert!(curl_message(fresh().proxy_password("a\0")).is_some());
    assert!(curl_message(fresh().proxy_cainfo("a\0")).is_some());
    assert!(curl_message(fresh().proxy_capath("a\0")).is_some());
}

#[test]
fn request_get_with_headers() {
    let headers = vec![field("accept", b"*/*"), field("x-trace", b"abc")];
    let client = fresh().request(request(Method::Get, headers, None));
    assert!(client.is_ok());
}

#[test]
fn request_post_and_put() {
    let post = fresh().request(request(Method::Post, vec![], Some(b"hello".to_vec())));
    assert!(post.is_ok());
    let post_empty = fresh().request(request(Method::Post, vec![], None));
    assert!(post_empty.is_ok());
    let put = fresh().upload_file_size(FileSize::from(5usize)).unwrap().request(request(
        Method::Put,
        vec![],
        Some(b"ignored".to_vec()),
    ));
    assert!(put.is_ok());
}

#[test]
fn request_stops_at_first_invalid_header() {
    let headers = vec![
        field("accept", b"*/*"),
        field("x-bad", &[1, 2]),
        field("x-worse", &[127]),
    ];
    match fresh().request(request(Method::Get, headers, None)) {
        Err(Error::Other(m)) => assert_eq!(m, "invalid x-bad header value [1, 2]"),
        _ => panic!("expected an Other error"),
    }
}

#[test]
fn request_refuses_nul_in_url() {
    let mut bad_url = request(Method::Get, vec![], None);
    bad_url.url = "http://a\0b/".to_string();
    assert!(curl_message(fresh().request(bad_url)).is_some());
}

#[test]
fn build_response_with_content_type() {
    let resp = build_response(Some(b"body".to_vec()), 200, Some("text/html".to_string())).unwrap();
    assert_eq!(resp.status_code, 200);
    assert_eq!(resp.headers.len(), 1);
    assert_eq!(resp.headers[0].name, "content-type");
    assert_eq!(resp.headers[0].value, b"text/html".to_vec());
    assert_eq!(resp.body, Some(b"body".to_vec()));
}

#[test]
fn build_response_without_content_type() {
    let resp = build_response(None, 404, None).unwrap();
    assert_eq!(resp.status_code, 404);
    assert!(resp.headers.is_empty());
    assert_eq!(resp.body, None);
}

#[test]
fn build_response_takes_low_bits_of_code() {
    let resp = build_response(None, 65536 + 200, None).unwrap();
    assert_eq!(resp.status_code, 200);
}

#[test]
fn build_response_refuses_status_outside_range() {
    assert_eq!(
        curl_message(build_response(None, 99, None)),
        Some("invalid status code".to_string())
    );
    assert_eq!(
        curl_message(build_response(None, 1000, None)),
        Some("invalid status code".to_string())
    );
    assert!(build_response(None, 100, None).is_ok());
    assert!(build_response(None, 999, None).is_ok());
}

#[test]
fn build_response_refuses_bad_content_type_first() {
    assert_eq!(
        curl_message(build_response(None, 200, Some("text\nhtml".to_string()))),
        Some("failed to parse header value".to_string())
    );
    assert_eq!(
        curl_message(build_response(None, 0, Some("a\u{7f}".to_string()))),
        Some("failed to parse header value".to_string())
    );
    let resp = build_response(None, 200, Some("text/\u{e9}t\u{e9}".to_string())).unwrap();
    assert_eq!(resp.headers[0].value, "text/\u{e9}t\u{e9}".as_bytes().to_vec());
}

#[test]
fn response_of_untouched_handle() {
    let easy = Easy2::new(Sink);
    assert_eq!(
        curl_message(response_of(&easy, Some(vec![1, 2, 3]))),
        Some("invalid status code".to_string())
    );
}

#[test]
fn performed_handle_comes_back() {
    let client = fresh().request(request(Method::Get, vec![], None)).unwrap();
    let easy = client.into_handle();
    assert!(easy.get_ref().fmt_check());
}

trait FmtCheck {
    fn fmt_check(&self) -> bool;
}

impl FmtCheck for Sink {
    fn fmt_check(&self) -> bool {
        format!("{:?}", self) == "Sink"
    }
}

#[test]
fn error_message_reads_either_kind() {
    assert_eq!(Error::Curl("a".to_string()).message(), "a");
    assert_eq!(Error::Other("b".to_string()).message(), "b");
}

#[test]
fn request_with_unhandled_method_stops_at_bad_header() {
    let headers = vec![field("x-bad", &[200])];
    match fresh().request(request(Method::Delete, headers, None)) {
        Err(Error::Other(m)) => assert_eq!(m, "invalid x-bad header value [200]"),
        _ => panic!("expected an Other error"),
    }
}

#[test]
fn request_refuses_url_before_looking_at_headers() {
    let mut req = request(Method::Get, vec![field("x-bad", &[1])], None);
    req.url = "http://a\0b/".to_string();
    assert!(curl_message(fresh().request(req)).is_some());
    let mut other = request(Method::Patch, vec![], None);
    other.url = "\0".to_string();
    assert!(curl_message(fresh().request(other)).is_some());
}

#[test]
fn header_names_are_lowercase_tokens() {
    assert!(is_valid_header_name("content-type"));
    assert!(is_valid_header_name("x-a.b_c~1!#$%&'*+^`|"));
    assert!(!is_valid_header_name(""));
    assert!(!is_valid_header_name("Content-Type"));
    assert!(!is_valid_header_name("x y"));
    assert!(!is_valid_header_name("x:y"));
    assert!(!is_valid_header_name("x-\0"));
    assert!(!is_valid_header_name("\u{e9}"));
    assert!(is_valid_header_name(&"a".repeat(65535)));
    assert!(!is_valid_header_name(&"a".repeat(65536)));
}
