//! The route table: the endpoints of the service, the path pattern of
//! each, and the handler behind it.

use vstd::prelude::*;
use vstd::string::*;
use crate::response::{ContentType, Response, OK};
use crate::routes::greet::{greet, greeting};
use crate::routes::hello::{hello, hello_body};
use crate::routes::status::{status, status_body};

verus! {

/// An endpoint of the service. Each answers `GET` only.
#[derive(Clone, Copy, Debug, PartialEq, Eq, Structural)]
pub enum Endpoint {
    /// The root path.
    Hello,
    /// The greeting by name.
    Greet,
    /// The report on the service.
    Status,
}

/// The path pattern of an endpoint. A segment in braces stands for
/// one non-empty path segment, handed to the handler under that name.
pub open spec fn pattern_of(endpoint: Endpoint) -> Seq<char> {
    match endpoint {
        Endpoint::Hello => "/"@,
        Endpoint::Greet => "/greet/{name}"@,
        Endpoint::Status => "/status"@,
    }
}

/// What an endpoint answers. Only the greeting looks at the name.
pub open spec fn answer_of(endpoint: Endpoint, name: Seq<char>) -> (ContentType, Seq<char>) {
    match endpoint {
        Endpoint::Hello => (ContentType::Text, hello_body()),
        Endpoint::Greet => (ContentType::Text, greeting(name)),
        Endpoint::Status => (ContentType::Json, status_body()),
    }
}

impl Endpoint {
    /// Every endpoint, in the order in which the table lists them.
    pub fn all() -> (r: [Endpoint; 3])
        ensures
            r@ == seq![Endpoint::Hello, Endpoint::Greet, Endpoint::Status],
    {
        let r = [Endpoint::Hello, Endpoint::Greet, Endpoint::Status];
        assert(r@ =~= seq![Endpoint::Hello, Endpoint::Greet, Endpoint::Status]);
        r
    }

    /// The path pattern under which the endpoint is registered.
    pub fn pattern(self) -> (r: &'static str)
        ensures
            r@ == pattern_of(self),
    {
        match self {
            Endpoint::Hello => "/",
            Endpoint::Greet => "/greet/{name}",
            Endpoint::Status => "/status",
        }
    }

    /// Runs the handler of the endpoint. `name` is the segment that
    /// the pattern bound; an endpoint whose pattern binds none
    /// answers the same whatever is passed.
    pub fn respond(self, name: &str) -> (r: Response)
        ensures
            r.code == OK,
            (r.content_type, r.body@) == answer_of(self, name@),
    {
        match self {
            Endpoint::Hello => hello(),
            Endpoint::Greet => greet(name),
            Endpoint::Status => status(),
        }
    }
}

/// No two endpoints share a path pattern.
pub proof fn lemma_patterns_distinct(a: Endpoint, b: Endpoint)
    requires
        pattern_of(a) == pattern_of(b),
    ensures
        a == b,
{
    reveal_strlit("/");
    reveal_strlit("/greet/{name}");
    reveal_strlit("/status");
    assert(pattern_of(Endpoint::Hello).len() == 1);
    assert(pattern_of(Endpoint::Greet).len() == 13);
    assert(pattern_of(Endpoint::Status).len() == 7);
}

/// An endpoint whose pattern binds no name answers the same to every
/// request.
pub proof fn lemma_answer_ignores_name(endpoint: Endpoint, a: Seq<char>, b: Seq<char>)
    requires
        endpoint != Endpoint::Greet,
    ensures
        answer_of(endpoint, a) == answer_of(endpoint, b),
{
}

} // verus!
