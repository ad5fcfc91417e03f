//! Requests as the client describes them and replies as the transport reports them.
//!
//! Nothing here touches the network: a request is a value to be sent by the caller,
//! and a reply is a value that the caller fills in from what came back.

use vstd::prelude::*;

verus! {

/// The two methods that the backend's endpoints take.
#[derive(Debug, Clone, Copy, PartialEq, Eq, Structural)]
pub enum Method {
    Get,
    Post,
}

/// One HTTP request to the backend.
#[derive(Debug, PartialEq, Eq)]
pub struct Request {
    pub method: Method,
    pub url: String,
    /// The members (name, string value) of the JSON object to send as the body, in the
    /// order in which they were written; `None` where the request has no body.
    pub json: Option<Vec<(String, String)>>,
}

/// The mathematical content of a [`Request`].
pub struct RequestModel {
    pub method: Method,
    pub url: Seq<char>,
    pub json: Option<Seq<(Seq<char>, Seq<char>)>>,
}

impl View for Request {
    type V = RequestModel;

    open spec fn view(&self) -> RequestModel {
        RequestModel { method: self.method, url: self.url@, json: self.json.deep_view() }
    }
}

/// The status line of an answer: its code, and the text under which the status is shown
/// (the code followed by its standard reason, as in `404 Not Found`).
#[derive(Debug, PartialEq, Eq)]
pub struct HttpStatus {
    pub code: u16,
    pub text: String,
}

impl HttpStatus {
    /// The codes from 200 to 299 report success.
    pub open spec fn success(&self) -> bool {
        200 <= self.code < 300
    }

    /// Whether the status reports success.
    pub fn is_success(&self) -> (b: bool)
        ensures
            b == self.success(),
    {
        300 > self.code && self.code >= 200
    }
}

/// What came of sending a request. `B` is what was read of the answer's body.
#[derive(Debug, PartialEq, Eq)]
pub enum Reply<B> {
    /// No answer arrived; the text says why.
    Unreachable(String),
    /// An answer arrived with this status and this body.
    Answered(HttpStatus, B),
}

/// A result whose texts are taken by their characters.
pub open spec fn text_result(r: Result<String, String>) -> Result<Seq<char>, Seq<char>> {
    match r {
        Ok(s) => Ok(s@),
        Err(e) => Err(e@),
    }
}

/// A result without a value, its error text taken by its characters.
pub open spec fn unit_result(r: Result<(), String>) -> Result<(), Seq<char>> {
    match r {
        Ok(_) => Ok(()),
        Err(e) => Err(e@),
    }
}

} // verus!
