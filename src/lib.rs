//! A gRPC-Web transport bridge for hosts that offer an asynchronous `fetch`.
//!
//! The library holds every decision of a call: the outgoing headers and
//! descriptor, the decoding of the host's response head, and the state
//! machine that turns the host's body reader into an ordered frame sequence.
//! The host binding performs the fetch and the reads, and hands the results
//! back as plain values.

pub mod body_stream;
pub mod call;
pub mod client;
pub mod error;
pub mod headers;
pub mod http_spec;
pub mod response;

pub use body_stream::{BodyStream, Pulled, ReadResult};
pub use call::{call, on_fetch_settled, prepare_request, receive_response, OutgoingRequest};
pub use client::Client;
pub use error::Error;
pub use headers::{is_reserved_name, names_match, prepare_headers, value_is_text, Header};
pub use response::{
    headers_accepted, set_response_headers, status_is_valid, HostHeader, HostResponse,
    ResponseHead,
};
