//! Requests, as the listener hands them over.

use vstd::prelude::*;
use vstd::string::StringSliceAdditionalSpecFns;
use vstd::utf8::encode_utf8;

verus! {

/// A request: the method, the path, and the query string that followed the
/// path, without the `?`.
#[derive(Clone, Debug, PartialEq, Eq)]
pub struct Request {
    pub method: String,
    pub path: String,
    pub query: String,
}

/// What a request holds, as bytes.
pub struct RequestView {
    pub method: Seq<u8>,
    pub path: Seq<u8>,
    pub query: Seq<u8>,
}

impl View for Request {
    type V = RequestView;

    open spec fn view(&self) -> RequestView {
        RequestView {
            method: encode_utf8(self.method@),
            path: encode_utf8(self.path@),
            query: encode_utf8(self.query@),
        }
    }
}

impl Request {
    /// The request with the given method, path and query string.
    pub fn new(method: &str, path: &str, query: &str) -> (request: Request)
        ensures
            request@ == (RequestView {
                method: method.spec_bytes(),
                path: path.spec_bytes(),
                query: query.spec_bytes(),
            }),
    {
        Request { method: method.to_owned(), path: path.to_owned(), query: query.to_owned() }
    }
}

} // verus!
