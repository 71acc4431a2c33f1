//! A small blocking HTTP client bound to one base URL.
//!
//! Every request goes to the base URL, a `/` and an endpoint, joined as
//! plain text: no slash is removed or added, nothing is percent-encoded.
pub mod client;
mod transport;
pub mod url;

pub use client::ApiClient;
