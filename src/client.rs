//! The client: a base URL and a reusable blocking HTTP transport.
use vstd::prelude::*;

use crate::transport::{build_transport, into_url_ok, send_get};
use crate::url::{join_url, joined_url};

verus! {

/// A base URL and the transport that requests under it go through.
pub struct ApiClient {
    base_url: String,
    client: reqwest::blocking::Client,
}

impl ApiClient {
    /// The base URL that every request of this client starts with.
    pub closed spec fn base_url_spec(&self) -> Seq<char> {
        self.base_url@
    }

    /// The transport that this client's requests go through.
    pub closed spec fn transport_spec(&self) -> reqwest::blocking::Client {
        self.client
    }

    /// Makes a client for `base_url` out of the outcome of setting up a
    /// transport: a client holding `base_url` exactly when the transport was
    /// set up, else the transport's own error, unchanged. The client keeps
    /// the transport it was given. No `base_url`, the empty one included, is
    /// rejected.
    pub fn from_transport(
        base_url: &str,
        transport: Result<reqwest::blocking::Client, reqwest::Error>,
    ) -> (r: Result<ApiClient, reqwest::Error>)
        ensures
            r.is_ok() == transport.is_ok(),
            r matches Ok(c) ==> c.base_url_spec() == base_url@,
            r matches Ok(c) ==> transport == Ok::<reqwest::blocking::Client, reqwest::Error>(
                c.transport_spec(),
            ),
            r matches Err(e) ==> transport == Err::<reqwest::blocking::Client, reqwest::Error>(e),
    {
        match transport {
            Ok(client) => Ok(ApiClient { base_url: String::from_str(base_url), client }),
            Err(e) => Err(e),
        }
    }

    /// Sets up a transport and makes a client for `base_url` with it. It fails
    /// only where the transport cannot be set up, with that error.
    ///
    /// # Panics
    ///
    /// Panics if called from inside an async runtime, as reqwest's blocking
    /// client does.
    pub fn new(base_url: &str) -> (r: Result<ApiClient, reqwest::Error>)
        ensures
            r matches Ok(c) ==> c.base_url_spec() == base_url@,
    {
        Self::from_transport(base_url, build_transport())
    }

    /// The base URL, as it was given.
    pub fn base_url(&self) -> (r: &str)
        ensures
            r@ == self.base_url_spec(),
    {
        self.base_url.as_str()
    }

    /// The URL that `make_request(endpoint)` asks for: the base URL, `/` and
    /// `endpoint`, as plain text.
    pub fn request_url(&self, endpoint: &str) -> (r: String)
        ensures
            r@ == joined_url(self.base_url_spec(), endpoint@),
    {
        join_url(self.base_url.as_str(), endpoint)
    }

    /// Sends one GET to `request_url(endpoint)` and returns the response, or the
    /// transport's error, as it came. There is one attempt and no retry; the
    /// client is left as it was. A response comes back only where reqwest
    /// takes that joined URL; every other outcome is the transport's.
    ///
    /// # Panics
    ///
    /// Panics if called from inside an async runtime, as reqwest's blocking
    /// client does.
    pub fn make_request(&self, endpoint: &str) -> (r: Result<
        reqwest::blocking::Response,
        reqwest::Error,
    >)
        ensures
            r is Ok ==> into_url_ok(joined_url(self.base_url_spec(), endpoint@)),
    {
        let url = self.request_url(endpoint);
        send_get(&self.client, url.as_str())
    }
}

} // verus!
