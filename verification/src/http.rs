use vstd::prelude::*;

use crate::error::Error;
use crate::text::{concat, owned};

verus! {

/// The HTTP methods that the clients use.
#[derive(Debug, Clone, Copy, PartialEq, Eq, Structural)]
pub enum HttpMethod {
    Get,
    Post,
    Delete,
}

/// A request as a client prepares it: method, full URL and headers. The body,
/// if any, is added by whoever sends it.
#[derive(Debug)]
pub struct HttpRequest {
    pub method: HttpMethod,
    pub url: String,
    pub headers: Vec<(String, String)>,
}

pub open spec fn header_views(h: Seq<(String, String)>) -> Seq<(Seq<char>, Seq<char>)> {
    h.map_values(|p: (String, String)| (p.0@, p.1@))
}

/// A header built from two string slices.
pub fn header(name: &str, value: &str) -> (r: (String, String))
    ensures
        r.0@ == name@,
        r.1@ == value@,
{
    (owned(name), owned(value))
}

/// The error for a response whose status is not a success: the response text as
/// the message and the status as the code.
pub fn status_error(status: &str, body: &str) -> (r: Error)
    ensures
        r matches Error::Api { message, code } && message@ == body@ && code is Some && code->0@ == status@,
{
    Error::Api { message: owned(body), code: Some(owned(status)) }
}

/// The error for a failed response whose body carried its own message and code.
pub fn api_error(message: String, code: Option<String>) -> (r: Error)
    ensures
        r == (Error::Api { message, code }),
{
    Error::Api { message, code }
}

} // verus!
