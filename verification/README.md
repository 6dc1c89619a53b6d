# curl_http_client

An HTTP client on a curl easy handle, written in Verus.

- `src/client.rs`: `HttpClient<C, S>`, configured option by option in the
  `Build` state; `request` sets the URL, the header lines and the method and
  moves the client to the `Perform` state. The model of a client is the
  sequence of curl options it has set, with their values.
- `src/request.rs`: requests, header lines (`name: value`) and the plan that
  says which headers stop a request and why.
- `src/response.rs`: the response, assembled from the body, the response
  code and the content type that curl reports.
- `src/text.rs`: decimal numbers and the debug rendering of byte lists.
- `src/units.rs`: `BytesPerSec`, `BytesOffset`, `FileSize`.
- `src/curl_calls.rs`, `src/http_calls.rs`: the calls into `curl`, `http` and
  std, each with the contract that is trusted.
- `app/lib.rs`: the body collector (memory or file), the asynchronous
  transfer through `async_curl`, and conversions to and from the `http` and
  `url` types.
