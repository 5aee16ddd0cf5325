//! What a handler hands back to the server loop.

use vstd::prelude::*;

verus! {

/// The status code of a successful response.
pub const OK: u16 = 200;

/// How the body of a response is to be read.
#[derive(Clone, Copy, Debug, PartialEq, Eq, Structural)]
pub enum ContentType {
    /// Plain text in UTF-8.
    Text,
    /// A JSON document.
    Json,
}

/// A complete response: status code, kind of body, and the body.
#[derive(Debug, PartialEq, Eq)]
pub struct Response {
    pub code: u16,
    pub content_type: ContentType,
    pub body: String,
}

impl Response {
    /// A successful plain-text response that carries `body`.
    pub fn text(body: String) -> (r: Response)
        ensures
            r.code == OK,
            r.content_type == ContentType::Text,
            r.body@ == body@,
    {
        Response { code: OK, content_type: ContentType::Text, body }
    }

    /// A successful JSON response that carries `body`.
    pub fn json(body: String) -> (r: Response)
        ensures
            r.code == OK,
            r.content_type == ContentType::Json,
            r.body@ == body@,
    {
        Response { code: OK, content_type: ContentType::Json, body }
    }
}

} // verus!
