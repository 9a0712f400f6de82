//! A request as plain data: the library says what to ask, the application
//! does the asking.

use vstd::prelude::*;

verus! {

/// A `GET` request.
#[derive(Debug, PartialEq, Eq)]
pub struct HttpRequest {
    pub url: String,
    /// Header names with their values, in order.
    pub headers: Vec<(String, String)>,
    /// Query parameters with their values, in order.
    pub query: Vec<(String, String)>,
}

/// The mathematical value of an [`HttpRequest`].
pub struct Request {
    pub url: Seq<char>,
    pub headers: Seq<(Seq<char>, Seq<char>)>,
    pub query: Seq<(Seq<char>, Seq<char>)>,
}

/// The pairs of a list, each string taken by its characters.
pub open spec fn pairs_view(pairs: Seq<(String, String)>) -> Seq<(Seq<char>, Seq<char>)> {
    Seq::new(pairs.len(), |i: int| (pairs[i].0@, pairs[i].1@))
}

impl View for HttpRequest {
    type V = Request;

    open spec fn view(&self) -> Request {
        Request {
            url: self.url@,
            headers: pairs_view(self.headers@),
            query: pairs_view(self.query@),
        }
    }
}

/// Adds the pair of `name` and `value` to the end of `pairs`.
pub fn push_pair(pairs: &mut Vec<(String, String)>, name: &str, value: String)
    ensures
        pairs_view(final(pairs)@) == pairs_view(old(pairs)@).push((name@, value@)),
{
    pairs.push((String::from_str(name), value));
}

} // verus!
