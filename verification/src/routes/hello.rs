//! The handler of the root path.

use vstd::prelude::*;
use vstd::string::*;
use crate::response::{ContentType, Response, OK};

verus! {

/// The body of every response to the root path.
pub open spec fn hello_body() -> Seq<char> {
    "Hello, world!"@
}

/// Answers a request to the root path: always the same greeting.
pub fn hello() -> (r: Response)
    ensures
        r.code == OK,
        r.content_type == ContentType::Text,
        r.body@ == hello_body(),
{
    Response::text(String::from_str("Hello, world!"))
}

} // verus!
