//! The response a handler gives back: a status code, headers and a body.

use vstd::prelude::*;

verus! {

/// The status of a response that carries what was asked for.
pub const OK: u16 = 200;

/// The status of a response to a change that was made: there is no body.
pub const NO_CONTENT: u16 = 204;

/// The status of a response to a payload that describes no record.
pub const BAD_REQUEST: u16 = 400;

/// The status of a response to a request for what is not there.
pub const NOT_FOUND: u16 = 404;

/// The status of a response to a request that lacks a parameter.
pub const UNPROCESSABLE_ENTITY: u16 = 422;

/// The status of a response to a request that failed for no fault of its
/// own.
pub const INTERNAL_SERVER_ERROR: u16 = 500;

/// An HTTP response with a text body.
#[derive(Debug, Clone, PartialEq, Eq)]
pub struct Response {
    pub status: u16,
    pub headers: Vec<(String, String)>,
    pub body: String,
}

/// A `Response` as a mathematical value.
pub struct ResponseView {
    pub status: u16,
    pub headers: Seq<(Seq<char>, Seq<char>)>,
    pub body: Seq<char>,
}

impl View for Response {
    type V = ResponseView;

    open spec fn view(&self) -> ResponseView {
        ResponseView {
            status: self.status,
            headers: Seq::new(
                self.headers.len() as nat,
                |i: int| (self.headers[i].0@, self.headers[i].1@),
            ),
            body: self.body@,
        }
    }
}

/// The response with `status`, no header and `body`.
pub open spec fn plain(status: u16, body: Seq<char>) -> ResponseView {
    ResponseView { status, headers: Seq::empty(), body }
}

/// The response with `status`, the one header `name: value` and an empty body.
pub open spec fn bare(status: u16, name: Seq<char>, value: Seq<char>) -> ResponseView {
    ResponseView { status, headers: seq![(name, value)], body: Seq::empty() }
}

impl Response {
    /// A response without headers.
    pub fn with_body(status: u16, body: String) -> (response: Response)
        ensures
            response@ == plain(status, body@),
    {
        let response = Response { status, headers: Vec::new(), body };
        assert(response@.headers =~= Seq::empty());
        response
    }

    /// A response without a body that carries one header.
    pub fn with_header(status: u16, name: &str, value: String) -> (response: Response)
        ensures
            response@ == bare(status, name@, value@),
    {
        let mut headers: Vec<(String, String)> = Vec::new();
        headers.push((String::from_str(name), value));
        let response = Response { status, headers, body: String::new() };
        assert(response@.headers =~= seq![(name@, value@)]);
        response
    }
}

} // verus!
