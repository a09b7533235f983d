use vstd::prelude::*;
use vstd::string::StringExecFns;

use crate::error::Error;
use crate::headers::{all_text, outgoing_headers, prepare_headers, Header};
use crate::response::{
    all_accepted, headers_accepted, last_content_type, present, set_response_headers,
    status_accepted, status_is_valid, HostResponse, ResponseHead,
};

verus! {

/// The request descriptor handed to the host's fetch.
pub struct OutgoingRequest {
    pub url: String,
    pub method: String,
    pub headers: Vec<Header>,
    pub body: Vec<u8>,
}

/// `POST`, the only method put on the wire.
pub open spec fn post_method() -> Seq<char> {
    seq!['P', 'O', 'S', 'T']
}

/// `r` is the descriptor for `url`, outgoing headers `h` and body `body`.
pub open spec fn describes(
    r: OutgoingRequest,
    url: Seq<char>,
    h: Seq<(Seq<u8>, Seq<u8>)>,
    body: Seq<u8>,
) -> bool {
    &&& r.url@ == url
    &&& r.method@ == post_method()
    &&& r.headers.deep_view() == h
    &&& r.body@ == body
}

/// The headers carry a non-empty `content-type` (the last one counts).
pub open spec fn has_content_type(h: Seq<(Seq<u8>, Seq<u8>)>) -> bool {
    last_content_type(h) matches Some(c) && c.len() > 0
}

/// The outcome of a call, given the host response head it resolved with.
pub open spec fn head_outcome(status: u16, entries: Seq<(Option<Seq<u8>>, Option<Seq<u8>>)>) -> Result<(), Error> {
    let h = present(entries);
    if !has_content_type(h) {
        Err(Error::MissingContentTypeHeader)
    } else if !(status_accepted(status) && all_accepted(h)) {
        Err(Error::HttpError)
    } else {
        Ok(())
    }
}

/// `head` is the decoded response for `status` and host entries `entries`.
pub open spec fn decodes(
    head: ResponseHead,
    status: u16,
    entries: Seq<(Option<Seq<u8>>, Option<Seq<u8>>)>,
) -> bool {
    &&& head.status == status
    &&& head.headers.deep_view() == present(entries)
    &&& last_content_type(present(entries)) == Some(head.content_type@)
    &&& head.content_type@.len() > 0
}

/// Builds the host request descriptor: method `POST`, the given URL, headers
/// and body.
pub fn prepare_request(url: String, headers: Vec<Header>, body: Vec<u8>) -> (r: OutgoingRequest)
    ensures
        describes(r, url@, headers.deep_view(), body@),
{
    let method = String::from_str("POST");
    proof {
        reveal_strlit("POST");
        assert(method@ =~= post_method());
    }
    OutgoingRequest { url, method, headers, body }
}

/// Decides the first half of a call, up to the host fetch.
///
/// `body` is the outcome of collecting the caller's request body. The result
/// is the descriptor to fetch, or the error that ends the call before the
/// host is contacted: a header value that is not text comes first, then a
/// failed body collection.
pub fn call(base_url: String, path: &str, headers: &Vec<Header>, body: Result<Vec<u8>, Error>) -> (r:
    Result<OutgoingRequest, Error>)
    ensures
        !all_text(headers.deep_view()) ==> r == Err::<OutgoingRequest, Error>(
            Error::HeaderValueError,
        ),
        all_text(headers.deep_view()) && body is Err ==> r == Err::<OutgoingRequest, Error>(
            body->Err_0,
        ),
        all_text(headers.deep_view()) && body is Ok ==> (r matches Ok(req) && describes(
            req,
            base_url@ + path@,
            outgoing_headers(headers.deep_view()),
            body->Ok_0@,
        )),
        r matches Ok(req) ==> req.method@ == post_method(),
{
    let out_headers = match prepare_headers(headers) {
        Ok(h) => h,
        Err(e) => return Err(e),
    };
    let bytes = match body {
        Ok(b) => b,
        Err(e) => return Err(e),
    };
    let url = base_url.concat(path);
    Ok(prepare_request(url, out_headers, bytes))
}

/// Decodes the head of the host's response.
///
/// A response without a `content-type` header, or whose last one is empty,
/// fails with `MissingContentTypeHeader`; one whose status or headers the `http` crate
/// refuses fails with `HttpError`. Only an `Ok` result lets the body reader be
/// requested.
pub fn receive_response(status: u16, entries: &Vec<crate::response::HostHeader>) -> (r: Result<
    ResponseHead,
    Error,
>)
    ensures
        r is Err <==> head_outcome(status, entries.deep_view()) is Err,
        r is Err ==> r->Err_0 == head_outcome(status, entries.deep_view())->Err_0,
        r is Ok ==> decodes(r->Ok_0, status, entries.deep_view()),
        !has_content_type(present(entries.deep_view())) ==> r == Err::<ResponseHead, Error>(
            Error::MissingContentTypeHeader,
        ),
        r is Ok ==> r->Ok_0.content_type@.len() > 0,
{
    let (headers, content_type) = set_response_headers(entries);
    let content_type = match content_type {
        Some(c) => c,
        None => return Err(Error::MissingContentTypeHeader),
    };
    if content_type.len() == 0 {
        return Err(Error::MissingContentTypeHeader);
    }
    proof {
        crate::headers::lemma_bytes_deep_view(content_type);
    }
    if !(status_is_valid(status) && headers_accepted(&headers)) {
        return Err(Error::HttpError);
    }
    Ok(ResponseHead { status, headers, content_type })
}

/// Decides the second half of a call, once the host's fetch has settled.
///
/// A rejection becomes `HostError` with the host's own message; a resolution
/// is decoded by `receive_response`.
pub fn on_fetch_settled(outcome: Result<HostResponse, String>) -> (r: Result<ResponseHead, Error>)
    ensures
        outcome matches Err(m) ==> r == Err::<ResponseHead, Error>(Error::HostError(m)),
        outcome matches Ok(resp) ==> {
            &&& r is Err <==> head_outcome(resp.status, resp.headers.deep_view()) is Err
            &&& r is Err ==> r->Err_0 == head_outcome(resp.status, resp.headers.deep_view())->Err_0
            &&& r is Ok ==> decodes(r->Ok_0, resp.status, resp.headers.deep_view())
            &&& !has_content_type(present(resp.headers.deep_view())) ==> r
                == Err::<ResponseHead, Error>(Error::MissingContentTypeHeader)
        },
{
    match outcome {
        Err(m) => Err(Error::HostError(m)),
        Ok(resp) => receive_response(resp.status, &resp.headers),
    }
}

} // verus!
