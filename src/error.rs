use vstd::prelude::*;

verus! {

/// The failures of a call, whatever layer they come from.
///
/// Each one is terminal: the call, and any body stream attached to it, ends
/// with it.
#[derive(Debug, Clone, PartialEq, Eq)]
pub enum Error {
    /// Malformed base64 content met by a body decoder.
    Base64DecodeError,
    /// A header collection could not be parsed.
    HeaderParsingError,
    /// A header value is not representable as text.
    HeaderValueError,
    /// An HTTP construct was rejected (an invalid status, header name or value).
    HttpError,
    /// A content-type value failed validation by a body decoder.
    InvalidContentType(String),
    /// A header name violates the wire format.
    InvalidHeaderName,
    /// A header value violates the wire format.
    InvalidHeaderValue,
    /// The host's fetch or runtime call failed; holds the host's own message.
    HostError(String),
    /// The response does not have the expected shape.
    MalformedResponse,
    /// The response carries no `content-type` header.
    MissingContentTypeHeader,
    /// The response has no body where one was required.
    MissingResponseBody,
    /// The RPC protocol status signals a failure.
    ProtocolStatusError { code: i32, message: String },
}

} // verus!
