//! An HTTP POST request as plain values, ready to be sent by the runtime.

use vstd::prelude::*;
use vstd::string::*;

verus! {

/// A POST request: where it goes, its headers in the order they are set,
/// and its body.
pub struct HttpPost {
    pub url: String,
    pub headers: Vec<(String, String)>,
    pub body: String,
}

/// The view of a request's headers: each name and value as text.
pub open spec fn header_views(headers: Seq<(String, String)>) -> Seq<(Seq<char>, Seq<char>)> {
    headers.map_values(|h: (String, String)| (h.0@, h.1@))
}

/// A header from two texts.
pub fn header(name: &str, value: &str) -> (res: (String, String))
    ensures
        res.0@ == name@,
        res.1@ == value@,
{
    (String::from_str(name), String::from_str(value))
}

/// `"Bearer "` followed by the token, as an `Authorization` value.
pub open spec fn bearer(token: Seq<char>) -> Seq<char> {
    "Bearer "@ + token
}

/// The `Authorization` value for a token.
pub fn bearer_value(token: &str) -> (res: String)
    ensures
        res@ == bearer(token@),
{
    let mut s = String::from_str("Bearer ");
    s.append(token);
    s
}

} // verus!
