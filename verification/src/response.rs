//! The response that the service hands back to the transport.

use vstd::prelude::*;
use vstd::string::StringExecFns;

verus! {

/// Status of the response to a request without a usable body.
pub const BAD_REQUEST: u16 = 400;

/// Status of the response to a request whose record was stored.
pub const CREATED: u16 = 201;

/// An outbound response: a status code and a text body.
#[derive(Debug, Clone, PartialEq, Eq)]
pub struct Response {
    pub status: u16,
    pub body: String,
}

/// What a [`Response`] holds, as mathematical text.
pub struct ResponseView {
    pub status: u16,
    pub body: Seq<char>,
}

impl View for Response {
    type V = ResponseView;

    open spec fn view(&self) -> ResponseView {
        ResponseView { status: self.status, body: self.body@ }
    }
}

/// The response to a request without a usable body.
pub open spec fn empty_body_response() -> ResponseView {
    ResponseView { status: 400, body: "Empty body"@ }
}

/// The response to a request whose record was stored, with the record's JSON
/// text as its body.
pub open spec fn created_response(body: Seq<char>) -> ResponseView {
    ResponseView { status: 201, body }
}

impl Response {
    /// Status 400 with the body `Empty body`.
    pub fn empty_body() -> (response: Response)
        ensures
            response@ == empty_body_response(),
    {
        Response { status: BAD_REQUEST, body: String::from_str("Empty body") }
    }

    /// Status 201 with the given body.
    pub fn created(body: String) -> (response: Response)
        ensures
            response@ == created_response(body@),
    {
        Response { status: CREATED, body }
    }
}

} // verus!
