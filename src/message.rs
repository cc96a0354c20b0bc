use vstd::prelude::*;

verus! {

/// The protocol version of a request or response.
#[derive(Debug, Clone, Copy, PartialEq, Eq, Structural)]
pub enum Version {
    Http09,
    Http10,
    Http11,
    Http2,
    Http3,
}

/// One header line: a name and its raw value. A header list may repeat a name.
#[derive(Debug, PartialEq, Eq)]
pub struct Header {
    pub name: String,
    pub value: Vec<u8>,
}

/// A request as the caller builds it: method, target, version, header lines
/// in the order they are to be sent, and the body.
#[derive(Debug, PartialEq, Eq)]
pub struct OutboundRequest {
    pub method: String,
    pub uri: String,
    pub version: Version,
    pub headers: Vec<Header>,
    pub body: Vec<u8>,
}

/// The header lines as names and raw values, in order.
pub open spec fn header_lines(headers: Seq<Header>) -> Seq<(Seq<char>, Seq<u8>)> {
    headers.map_values(|h: Header| (h.name@, h.value@))
}

/// A response as the caller sees it, with the body fully buffered.
#[derive(Debug, PartialEq, Eq)]
pub struct Response {
    pub status: u16,
    pub version: Version,
    pub headers: Vec<Header>,
    pub body: Vec<u8>,
}

/// What the transport reported for one exchange that completed: the status
/// line, the header lines in the order received, and the drained body.
#[derive(Debug, PartialEq, Eq)]
pub struct TransportReply {
    pub status: u16,
    pub version: Version,
    pub headers: Vec<Header>,
    pub body: Vec<u8>,
}

/// Why the extra trust anchor named by the configuration could not be used.
#[derive(Debug, PartialEq, Eq)]
pub enum TrustFailure {
    /// The certificate file could not be read; the reason is the reader's.
    Unreadable { reason: String },
    /// The file's bytes were not accepted as a PEM certificate.
    Rejected,
}

/// The errors of the sender.
#[derive(Debug, PartialEq, Eq)]
pub enum HttpError {
    /// A trust anchor was configured but could not be used; no client exists.
    Configuration { path: String, failure: TrustFailure },
    /// The client with the platform's default trust settings could not be built.
    ClientBuild,
    /// The request cannot be expressed in the transport's request model.
    Conversion,
    /// The exchange itself failed; the cause is the transport's description.
    Transport { cause: String },
}

impl TrustFailure {
    /// A copy of this failure.
    pub fn duplicate(&self) -> (r: TrustFailure)
        ensures
            r == *self,
    {
        match self {
            TrustFailure::Unreadable { reason } => TrustFailure::Unreadable { reason: reason.clone() },
            TrustFailure::Rejected => TrustFailure::Rejected,
        }
    }
}

impl HttpError {
    /// A copy of this error.
    pub fn duplicate(&self) -> (r: HttpError)
        ensures
            r == *self,
    {
        match self {
            HttpError::Configuration { path, failure } => HttpError::Configuration {
                path: path.clone(),
                failure: failure.duplicate(),
            },
            HttpError::ClientBuild => HttpError::ClientBuild,
            HttpError::Conversion => HttpError::Conversion,
            HttpError::Transport { cause } => HttpError::Transport { cause: cause.clone() },
        }
    }
}

/// The response that carries exactly what the transport reported.
pub open spec fn response_of(t: TransportReply) -> Response {
    Response { status: t.status, version: t.version, headers: t.headers, body: t.body }
}

/// Turns the outcome of one exchange into the sender's result: a completed
/// exchange gives its status, version, headers and body unchanged, and a failed
/// one gives a transport error with the transport's cause.
pub fn complete_exchange(outcome: Result<TransportReply, String>) -> (r: Result<Response, HttpError>)
    ensures
        outcome matches Ok(t) ==> r == Ok::<Response, HttpError>(response_of(t)),
        outcome matches Err(cause) ==> r == Err::<Response, HttpError>(
            HttpError::Transport { cause },
        ),
{
    match outcome {
        Ok(t) => Ok(Response { status: t.status, version: t.version, headers: t.headers, body: t.body }),
        Err(cause) => Err(HttpError::Transport { cause }),
    }
}

} // verus!
