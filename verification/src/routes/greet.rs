//! The handler that greets a caller by name.

use vstd::prelude::*;
use vstd::string::*;
use crate::response::{ContentType, Response, OK};

verus! {

/// The greeting for `name`: the name between a fixed opening and an
/// exclamation mark, character for character.
pub open spec fn greeting(name: Seq<char>) -> Seq<char> {
    "Hello, "@ + name + "!"@
}

/// Answers a request that names whom to greet. The name is taken as
/// it comes: nothing is trimmed, escaped or refused, the empty name
/// included.
pub fn greet(name: &str) -> (r: Response)
    ensures
        r.code == OK,
        r.content_type == ContentType::Text,
        r.body@ == greeting(name@),
{
    let mut body = String::from_str("Hello, ");
    body.append(name);
    body.append("!");
    Response::text(body)
}

/// A greeting holds the name it was made for, unchanged, right after
/// its seven opening characters, and ends one character later.
pub proof fn lemma_greeting_holds_name(name: Seq<char>)
    ensures
        greeting(name).len() == name.len() + 8,
        greeting(name).subrange(7, 7 + name.len() as int) == name,
{
    reveal_strlit("Hello, ");
    reveal_strlit("!");
    assert(greeting(name).subrange(7, 7 + name.len() as int) =~= name);
}

/// Different names get different greetings.
pub proof fn lemma_greeting_injective(a: Seq<char>, b: Seq<char>)
    requires
        greeting(a) == greeting(b),
    ensures
        a == b,
{
    lemma_greeting_holds_name(a);
    lemma_greeting_holds_name(b);
}

} // verus!
