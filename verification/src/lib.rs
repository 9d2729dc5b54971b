//! A small HTTP-client core: header-token parsing, URL normalization,
//! request construction and response presentation, each with a proved
//! contract. The network transport itself lives outside this library.
use vstd::prelude::*;

pub mod errors;
pub mod headers;
pub mod present;
pub mod request;
pub mod url;

pub use errors::ClientError;
pub use headers::{build_headers, parse_key_val};
pub use present::{render_outcome, Presentation, ResponseView, TransportFailure};
pub use request::{build_request, Body, Method, RequestSpec};
pub use url::ensure_url_prefix;

verus! {

/// Every request is dispatched with this fixed timeout, in seconds;
/// there are no retries.
pub const REQUEST_TIMEOUT_SECS: u64 = 10;

} // verus!
