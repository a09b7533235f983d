use vstd::prelude::*;

use crate::call::{describes, OutgoingRequest};
use crate::error::Error;
use crate::headers::{all_text, outgoing_headers, Header};

verus! {

/// The gRPC-Web transport client: it holds only its immutable base URL.
#[derive(Debug, Clone)]
pub struct Client {
    base_url: String,
}

impl View for Client {
    type V = Seq<char>;

    /// The base URL.
    closed spec fn view(&self) -> Seq<char> {
        self.base_url@
    }
}

impl Client {
    /// Creates a client for `base_url`.
    pub fn new(base_url: String) -> (r: Self)
        ensures
            r@ == base_url@,
    {
        Self { base_url }
    }

    /// The base URL that every request path is appended to.
    pub fn base_url(&self) -> (r: &String)
        ensures
            r@ == self@,
    {
        &self.base_url
    }

    /// The client admits every call at once: it is always ready.
    pub fn poll_ready(&self) -> (r: Result<(), Error>)
        ensures
            r is Ok,
    {
        Ok(())
    }

    /// Starts a call to `path`: the descriptor to fetch, or the error that
    /// ends the call before the host is contacted.
    pub fn call(&self, path: &str, headers: &Vec<Header>, body: Result<Vec<u8>, Error>) -> (r:
        Result<OutgoingRequest, Error>)
        ensures
            !all_text(headers.deep_view()) ==> r == Err::<OutgoingRequest, Error>(
                Error::HeaderValueError,
            ),
            all_text(headers.deep_view()) && body is Err ==> r == Err::<OutgoingRequest, Error>(
                body->Err_0,
            ),
            all_text(headers.deep_view()) && body is Ok ==> (r matches Ok(req) && describes(
                req,
                self@ + path@,
                outgoing_headers(headers.deep_view()),
                body->Ok_0@,
            )),
    {
        crate::call::call(self.base_url.clone(), path, headers, body)
    }
}

} // verus!
