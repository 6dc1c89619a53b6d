//! An HTTP client built on a curl easy handle. A client is configured in the
//! `Build` state, option by option; a request sets its URL, its header lines
//! and its method and turns it into the `Perform` state; after the transfer,
//! the response is assembled from what curl reports.
//!
//! What is proved: which curl options each step sets, and with which values;
//! how header lines are formed and when a header stops a request; how the
//! response's status code and headers are derived, and when they are refused.
use vstd::prelude::*;

pub mod client;
pub mod curl_calls;
pub mod error;
pub mod http_calls;
pub mod laws;
pub mod request;
pub mod response;
pub mod text;
pub mod units;

pub use client::{Build, CurlOption, HttpClient, Perform};
pub use error::Error;
pub use request::{header_line, is_valid_header_name, HeaderField, HttpRequest, Method};
pub use response::{build_response, response_of, HttpResponse};
pub use units::{BytesOffset, BytesPerSec, FileSize};

verus! {

} // verus!
