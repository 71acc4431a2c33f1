//! The parts of reqwest that the client relies on.
use vstd::prelude::*;

verus! {

/// reqwest's blocking client, held as an opaque transport handle.
#[verifier::external_type_specification]
#[verifier::external_body]
pub struct ExTransport(reqwest::blocking::Client);

/// reqwest's blocking response, handed to the caller as it came.
#[verifier::external_type_specification]
#[verifier::external_body]
pub struct ExResponse(reqwest::blocking::Response);

/// reqwest's error, handed to the caller as it came.
#[verifier::external_type_specification]
#[verifier::external_body]
pub struct ExError(reqwest::Error);

/// Relies on `reqwest::blocking::ClientBuilder::build` with the default
/// configuration, which is what `reqwest::blocking::Client::new` does without
/// its `expect`: it fails when the TLS backend cannot be initialised or the
/// resolver cannot load the system configuration. Whether it fails depends on
/// the machine, so nothing is promised of the outcome. Like every blocking
/// call of reqwest, it must not run inside an async runtime.
#[verifier::external_body]
pub(crate) fn build_transport() -> (r: Result<reqwest::blocking::Client, reqwest::Error>) {
    reqwest::blocking::Client::builder().build()
}

/// Whether reqwest takes the text `s` as a request URL: `url::Url::parse`
/// accepts it and the parsed URL has a host (`IntoUrl::into_url` for `&str`).
/// This depends on the text alone.
pub uninterp spec fn into_url_ok(s: Seq<char>) -> bool;

/// Relies on `reqwest::blocking::Client::get` and `RequestBuilder::send`:
/// one GET to `url`, blocking until a response or a transport error. `get`
/// converts `url` with `IntoUrl::into_url`, and `send` returns that
/// conversion's error, before any network work, when it fails; so a response
/// comes back only for a URL that reqwest takes. Anything beyond that depends
/// on the network, so nothing more is promised. It panics if called inside an
/// async runtime.
#[verifier::external_body]
pub(crate) fn send_get(transport: &reqwest::blocking::Client, url: &str) -> (r: Result<
    reqwest::blocking::Response,
    reqwest::Error,
>)
    ensures
        r is Ok ==> into_url_ok(url@),
{
    transport.get(url).send()
}

} // verus!
