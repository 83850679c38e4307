//! Requests as they go out.

use vstd::prelude::*;

use crate::json::Json;

verus! {

/// A POST request with a JSON body.
#[derive(Debug)]
pub struct HttpPost {
    pub url: String,
    /// Names and values of the headers.
    pub headers: Vec<(String, String)>,
    pub body: Json,
}

/// What the headers say.
pub open spec fn header_texts(headers: Seq<(String, String)>) -> Seq<(Seq<char>, Seq<char>)> {
    headers.map_values(|header: (String, String)| (header.0@, header.1@))
}

/// Adds a header.
pub fn push_header(headers: &mut Vec<(String, String)>, name: &str, value: &str)
    ensures
        header_texts(final(headers)@) == header_texts(old(headers)@).push((name@, value@)),
{
    let ghost before = headers@;
    headers.push((name.to_owned(), value.to_owned()));
    assert(header_texts(headers@) =~= header_texts(before).push((name@, value@)));
}

} // verus!
