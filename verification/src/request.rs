use vstd::prelude::*;

use crate::header::HeaderPair;

verus! {

/// One of the four supported HTTP methods.
#[derive(Debug, Clone, Copy, PartialEq, Eq)]
pub enum Method {
    Get,
    Post,
    Put,
    Delete,
}

impl Method {
    /// Whether requests with this method carry a body: POST and PUT do,
    /// GET and DELETE never do.
    pub open spec fn spec_has_body(self) -> bool {
        self == Method::Post || self == Method::Put
    }

    pub fn has_body(&self) -> (b: bool)
        ensures
            b == self.spec_has_body(),
    {
        match self {
            Method::Post | Method::Put => true,
            Method::Get | Method::Delete => false,
        }
    }

    /// The printed label of the method, derived from the tag itself.
    pub open spec fn spec_label(self) -> Seq<char> {
        match self {
            Method::Get => "GET"@,
            Method::Post => "POST"@,
            Method::Put => "PUT"@,
            Method::Delete => "DELETE"@,
        }
    }

    pub fn label(&self) -> (r: &'static str)
        ensures
            r@ == self.spec_label(),
    {
        match self {
            Method::Get => "GET",
            Method::Post => "POST",
            Method::Put => "PUT",
            Method::Delete => "DELETE",
        }
    }
}

/// The ways a dispatch can fail: the URL does not parse, the transport could
/// not deliver the request, or the response body could not be read in full.
#[derive(Debug, Clone, PartialEq, Eq)]
pub enum DispatchError {
    InvalidUrl,
    TransportFailure { cause: String },
    BodyReadFailure,
}

impl DispatchError {
    /// The human-readable description of the error.
    pub open spec fn spec_message(self) -> Seq<char> {
        match self {
            DispatchError::InvalidUrl => "invalid URL"@,
            DispatchError::TransportFailure { cause } => "transport failure: "@ + cause@,
            DispatchError::BodyReadFailure => "failed to read body"@,
        }
    }

    pub fn message(&self) -> (r: String)
        ensures
            r@ == self.spec_message(),
    {
        match self {
            DispatchError::InvalidUrl => String::from_str("invalid URL"),
            DispatchError::TransportFailure { cause } => {
                let mut m = String::from_str("transport failure: ");
                m.append(cause.as_str());
                m
            },
            DispatchError::BodyReadFailure => String::from_str("failed to read body"),
        }
    }
}

/// An outbound request, built once per invocation from command-line input:
/// the method, the normalized URL text, the headers in command-line order,
/// and the body for the methods that carry one.
#[derive(Debug, Clone, PartialEq, Eq)]
pub struct RequestSpec {
    pub method: Method,
    pub url: String,
    pub headers: Vec<HeaderPair>,
    pub body: Option<String>,
}

impl RequestSpec {
    /// GET and DELETE requests never hold a body; POST and PUT always do.
    pub open spec fn wf(self) -> bool {
        self.method.spec_has_body() <==> self.body is Some
    }
}

/// The serialization of `s` parsed as an absolute URL, or `None` when `s` is
/// not one. URL parsing depends on the input string alone, so its outcome can
/// be named as a function of that string.
pub uninterp spec fn url_normalized(s: Seq<char>) -> Option<Seq<char>>;

/// Relies on `url::Url::parse`: it accepts exactly the well-formed absolute
/// URL strings (no implicit scheme is supplied), and `String::from` on the
/// parsed value hands back the serialization the `url::Url` holds.
#[verifier::external_body]
fn normalize_url(s: &str) -> (r: Option<String>)
    ensures
        r matches Some(u) ==> url_normalized(s@) == Some(u@),
        r is Some <==> url_normalized(s@) is Some,
{
    match url::Url::parse(s) {
        Ok(u) => Some(String::from(u)),
        Err(_) => None,
    }
}

/// Holds when `req` is exactly the request that `build_request` owes for the
/// given method, URL text, body argument, and parsed headers.
pub open spec fn spec_built(
    req: RequestSpec,
    method: Method,
    url: Seq<char>,
    body: Option<String>,
    headers: Seq<HeaderPair>,
) -> bool {
    &&& req.method == method
    &&& url_normalized(url) == Some(req.url@)
    &&& req.headers@ == headers
    &&& req.body == (if method.spec_has_body() {
        body
    } else {
        None::<String>
    })
}

/// Builds the outbound request for one invocation.
///
/// The URL text must parse as an absolute URL, or the result is
/// `DispatchError::InvalidUrl` and no request exists to send. On success the
/// headers are kept in the order supplied, the body argument is attached
/// verbatim for POST and PUT, and no body is attached for GET and DELETE even
/// when one was supplied.
pub fn build_request(
    method: Method,
    url: &str,
    body: Option<String>,
    headers: Vec<HeaderPair>,
) -> (r: Result<RequestSpec, DispatchError>)
    requires
        method.spec_has_body() ==> body is Some,
    ensures
        r is Ok <==> url_normalized(url@) is Some,
        r matches Ok(req) ==> spec_built(req, method, url@, body, headers@) && req.wf(),
        r matches Err(e) ==> e == DispatchError::InvalidUrl,
{
    match normalize_url(url) {
        Some(normalized) => {
            let attached: Option<String> = if method.has_body() {
                body
            } else {
                None
            };
            Ok(RequestSpec { method, url: normalized, headers, body: attached })
        },
        None => Err(DispatchError::InvalidUrl),
    }
}

/// Building a request is deterministic: two requests built from the same
/// method, URL text, body argument, and header sequence are identical in
/// content, so dispatching the same inputs twice sends two independent,
/// identical-in-content requests.
pub proof fn lemma_build_deterministic(
    r1: RequestSpec,
    r2: RequestSpec,
    method: Method,
    url: Seq<char>,
    body: Option<String>,
    headers: Seq<HeaderPair>,
)
    requires
        spec_built(r1, method, url, body, headers),
        spec_built(r2, method, url, body, headers),
    ensures
        r1.method == r2.method,
        r1.url@ == r2.url@,
        r1.headers@ == r2.headers@,
        r1.body == r2.body,
{
}

} // verus!
