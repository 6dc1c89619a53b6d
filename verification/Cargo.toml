[package]
name = "curl_http_client"
version = "0.1.0"
edition = "2021"
publish = false

[dependencies]
curl = "=0.4.51"
async-curl = "=0.1.8"
http = "=1.5.0"
url = "=2.5.8"
