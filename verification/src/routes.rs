//! Building the logical request for each endpoint: the url, headers and
//! body, stated exactly.

pub mod group;
pub mod user;

use crate::structs::SortOrder;
use crate::text::{dec_seq, usize_to_dec};
use vstd::prelude::*;
use vstd::string::*;
use vstd::utf8::encode_utf8;

verus! {

/// The page size requested when the caller names none.
pub open spec fn limit_value(limit: Option<usize>) -> nat {
    match limit {
        Some(l) => l as nat,
        None => 10,
    }
}

/// The cursor query fragment, when a cursor is given.
pub open spec fn cursor_suffix(cursor: Option<String>) -> Seq<char> {
    match cursor {
        Some(c) => "&cursor="@ + c@,
        None => Seq::empty(),
    }
}

/// The sort-order query fragment, when an order is given.
pub open spec fn sort_suffix(sort_order: Option<SortOrder>) -> Seq<char> {
    match sort_order {
        Some(SortOrder::Ascending) => "&sortOrder=Asc"@,
        Some(SortOrder::Descending) => "&sortOrder=Desc"@,
        None => Seq::empty(),
    }
}

/// The full query string of a paginated endpoint.
pub open spec fn paging_suffix(
    limit: Option<usize>,
    cursor: Option<String>,
    sort_order: Option<SortOrder>,
) -> Seq<char> {
    "?limit="@ + dec_seq(limit_value(limit)) + cursor_suffix(cursor) + sort_suffix(sort_order)
}

/// Appends the query string of a paginated endpoint to a url.
pub(crate) fn append_paging(
    url: &mut String,
    limit: Option<usize>,
    cursor: Option<String>,
    sort_order: Option<SortOrder>,
)
    ensures
        final(url)@ == old(url)@ + paging_suffix(limit, cursor, sort_order),
{
    url.append("?limit=");
    let real_limit: usize = match limit {
        Some(l) => l,
        None => 10,
    };
    let limit_text = usize_to_dec(real_limit);
    url.append(limit_text.as_str());
    match cursor {
        Some(c) => {
            url.append("&cursor=");
            url.append(c.as_str());
        },
        None => {},
    }
    match sort_order {
        Some(SortOrder::Ascending) => url.append("&sortOrder=Asc"),
        Some(SortOrder::Descending) => url.append("&sortOrder=Desc"),
        None => {},
    }
    proof {
        assert(url@ =~= old(url)@ + paging_suffix(limit, cursor, sort_order));
    }
}

/// The decimal Content-Length value for a body: its length in UTF-8 bytes.
pub open spec fn content_length_seq(body: Seq<char>) -> Seq<char> {
    dec_seq((encode_utf8(body).len() as usize) as nat)
}

/// The headers attached to a JSON request body: its byte length and the
/// JSON content type.
pub open spec fn json_body_headers_spec(headers: Seq<(String, String)>, body: Seq<char>) -> bool {
    &&& headers.len() == 2
    &&& headers[0].0@ == "Content-Length"@
    &&& headers[0].1@ == content_length_seq(body)
    &&& headers[1].0@ == "Content-Type"@
    &&& headers[1].1@ == "application/json"@
}

/// Builds the headers [`json_body_headers_spec`] describes for a body.
pub(crate) fn json_body_headers(body: &String) -> (headers: Vec<(String, String)>)
    ensures
        json_body_headers_spec(headers@, body@),
{
    let byte_len = body.as_str().len();
    let mut headers: Vec<(String, String)> = Vec::new();
    headers.push((String::from_str("Content-Length"), usize_to_dec(byte_len)));
    headers.push((String::from_str("Content-Type"), String::from_str("application/json")));
    headers
}

} // verus!
