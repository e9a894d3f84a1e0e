//! The data and replies behind a small set of HTTP routes.
use vstd::prelude::*;
use vstd::string::*;

verus! {

/// A user as the routes exchange it.
pub struct User {
    pub name: String,
}

impl User {
    /// The user with this name.
    pub fn new(name: String) -> (r: User)
        ensures
            r.name@ == name@,
    {
        User { name }
    }
}

/// The body of the hello route.
pub fn hello_body() -> (r: String)
    ensures
        r@ == "Hello, World!"@,
{
    String::from_str("Hello, World!")
}

/// What the echo route answers to `query`.
pub fn echo_text(query: &str) -> (r: String)
    ensures
        r@ == "You said: "@ + query@,
{
    let mut s = String::from_str("You said: ");
    s.append(query);
    s
}

/// The echo reply when the `text` parameter may be missing.
pub fn echo_reply(text: Option<&str>) -> (r: String)
    ensures
        r@ == "You said: "@ + match text {
            Some(t) => t@,
            None => "No text provided"@,
        },
{
    match text {
        Some(t) => echo_text(t),
        None => echo_text("No text provided"),
    }
}

} // verus!
