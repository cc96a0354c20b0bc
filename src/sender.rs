use vstd::prelude::*;
use crate::message::{header_lines, HttpError, OutboundRequest, Version};

verus! {

#[verifier::external_type_specification]
#[verifier::external_body]
pub struct ExRequest(reqwest::Request);

/// The sender: it holds nothing of its own and sends every request through the
/// one client that the process shares.
#[derive(Debug)]
pub struct HttpClient;

impl HttpClient {
    /// A sender; making one does no I/O and cannot fail.
    pub fn new() -> (r: HttpClient)
        ensures
            r == HttpClient,
    {
        HttpClient
    }

    /// A sender on the heap, for callers that hold senders behind a pointer.
    pub fn boxed() -> (r: Box<HttpClient>)
        ensures
            *r == HttpClient,
    {
        Box::new(HttpClient::new())
    }
}

/// Whether the transport can express a request with this method, target and
/// header lines.
pub uninterp spec fn request_accepted(
    method: Seq<char>,
    uri: Seq<char>,
    headers: Seq<(Seq<char>, Seq<u8>)>,
) -> bool;

/// Relies on http::request::Builder, which parses the method, target and header
/// lines, and on reqwest's conversion of the resulting request, which parses
/// the target as a URL; whether both accept depends on those texts alone.
#[verifier::external_body]
fn convert_request(request: OutboundRequest) -> (r: Option<reqwest::Request>)
    ensures
        r is Some <==> request_accepted(request.method@, request.uri@, header_lines(request.headers@)),
{
    let version = match request.version {
        Version::Http09 => http::Version::HTTP_09,
        Version::Http10 => http::Version::HTTP_10,
        Version::Http11 => http::Version::HTTP_11,
        Version::Http2 => http::Version::HTTP_2,
        Version::Http3 => http::Version::HTTP_3,
    };
    let mut builder = http::Request::builder().method(request.method.as_str()).uri(request.uri.as_str()).version(version);
    for h in request.headers {
        builder = builder.header(h.name, h.value);
    }
    let converted = builder.body(request.body).ok()?;
    reqwest::Request::try_from(converted).ok()
}

/// Settles the request to hand to the transport from the outcome of
/// converting it: a request the transport cannot express is a conversion error.
pub fn settle_request(converted: Option<reqwest::Request>) -> (r: Result<reqwest::Request, HttpError>)
    ensures
        converted matches Some(req) ==> r == Ok::<reqwest::Request, HttpError>(req),
        converted is None ==> r == Err::<reqwest::Request, HttpError>(HttpError::Conversion),
{
    match converted {
        Some(req) => Ok(req),
        None => Err(HttpError::Conversion),
    }
}

/// The transport's form of `request`, or a conversion error exactly where the
/// request has a method, target or header line that the transport cannot
/// express; such a request never reaches the network.
pub fn transport_request(request: OutboundRequest) -> (r: Result<reqwest::Request, HttpError>)
    ensures
        r is Ok <==> request_accepted(request.method@, request.uri@, header_lines(request.headers@)),
        r is Err ==> r == Err::<reqwest::Request, HttpError>(HttpError::Conversion),
{
    settle_request(convert_request(request))
}

} // verus!
