//! Request construction: method, normalized URL, header collection and
//! body are assembled into a request descriptor, ready for one
//! dispatch. No network I/O happens here.
use vstd::prelude::*;
use vstd::string::StringExecFns;

use crate::headers::{build_headers, built_header_map, hview, pairs_to_map, unique_keys, upsert};
use crate::url::{ensure_url_prefix, has_scheme_prefix, lemma_normalized_has_scheme, normalize_url};

verus! {

/// The four supported HTTP verbs.
#[derive(Clone, Copy, Debug, PartialEq, Eq, Structural)]
pub enum Method {
    Get,
    Post,
    Put,
    Delete,
}

impl Method {
    /// Only POST and PUT may carry a body.
    pub open spec fn spec_allows_body(self) -> bool {
        self is Post || self is Put
    }

    /// Whether this verb may carry a body: true exactly for POST and PUT.
    pub fn allows_body(&self) -> (r: bool)
        ensures
            r == self.spec_allows_body(),
    {
        match self {
            Method::Post => true,
            Method::Put => true,
            Method::Get => false,
            Method::Delete => false,
        }
    }
}

/// The body of an outgoing request.
pub enum Body {
    /// No body at all: always the case for GET and DELETE.
    NoBody,
    /// The raw bytes of a `-d` argument, sent as `application/json`.
    RawBody(String),
    /// The full contents of a `-f` file, sent as a single multipart
    /// part named `file`.
    FileBody(Vec<u8>),
}

/// The in-memory description of an outgoing request, constructed once
/// per invocation and consumed exactly once by the transport.
pub struct RequestSpec {
    pub method: Method,
    pub url: String,
    pub headers: Vec<(String, String)>,
    pub body: Body,
}

impl RequestSpec {
    /// Well-formedness: the URL is scheme-prefixed, header names are
    /// unique, and only a body-carrying verb has a body.
    pub open spec fn wf(self) -> bool {
        &&& has_scheme_prefix(self.url@)
        &&& unique_keys(hview(self.headers@))
        &&& (self.body is NoBody || self.method.spec_allows_body())
    }

    /// The headers as a name-to-value mapping.
    pub open spec fn header_map(self) -> Map<Seq<char>, Seq<char>> {
        pairs_to_map(hview(self.headers@))
    }
}

/// Assembles a request: the URL is normalized, the headers are built
/// from the raw pairs, and the body is chosen. A file takes priority
/// over raw data; raw data forces the `content-type` header to
/// `application/json`, overriding any user-supplied value; GET and
/// DELETE never carry a body, whatever else was passed.
pub fn build_request(
    method: Method,
    url: &str,
    headers: &Vec<(String, String)>,
    data: Option<String>,
    file: Option<Vec<u8>>,
) -> (r: RequestSpec)
    ensures
        r.wf(),
        r.method == method,
        r.url@ == normalize_url(url@),
        !method.spec_allows_body() ==> r.body is NoBody,
        method.spec_allows_body() ==> r.body == (match file {
            Some(bytes) => Body::FileBody(bytes),
            None => match data {
                Some(d) => Body::RawBody(d),
                None => Body::NoBody,
            },
        }),
        (method.spec_allows_body() && file is None && data is Some) ==> r.header_map()
            == built_header_map(hview(headers@)).insert("content-type"@, "application/json"@),
        (method.spec_allows_body() && file is None && data is Some) ==> r.header_map().contains_key("content-type"@)
            && r.header_map()["content-type"@] == "application/json"@,
        !(method.spec_allows_body() && file is None && data is Some) ==> r.header_map()
            == built_header_map(hview(headers@)),
{
    proof {
        lemma_normalized_has_scheme(url@);
    }
    let nurl = ensure_url_prefix(url);
    let mut hs = build_headers(headers);
    let body: Body;
    if method.allows_body() {
        match file {
            Some(bytes) => {
                body = Body::FileBody(bytes);
            },
            None => {
                match data {
                    Some(d) => {
                        upsert(
                            &mut hs,
                            String::from_str("content-type"),
                            String::from_str("application/json"),
                        );
                        body = Body::RawBody(d);
                    },
                    None => {
                        body = Body::NoBody;
                    },
                }
            },
        }
    } else {
        body = Body::NoBody;
    }
    RequestSpec { method, url: nurl, headers: hs, body }
}

} // verus!
