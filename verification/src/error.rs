use vstd::prelude::*;

use crate::text::{concat, owned, push_str};

verus! {

/// The errors of the library.
#[derive(Debug)]
pub enum Error {
    ToolNotFound(String),
    InvalidParameter(String),
    MissingParameter(String),
    ExecutionFailed(String),
    /// A JSON document could not be read or written; the reader's message.
    Json(String),
    /// An HTTP exchange failed; the client's message.
    Http(String),
    Api { message: String, code: Option<String> },
    Provider(String),
    AuthRequired,
    RateLimited,
    Internal(String),
}

/// The text that describes an error.
pub open spec fn error_text(e: Error) -> Seq<char> {
    match e {
        Error::ToolNotFound(s) => "Tool not found: "@ + s@,
        Error::InvalidParameter(s) => "Invalid parameter: "@ + s@,
        Error::MissingParameter(s) => "Missing required parameter: "@ + s@,
        Error::ExecutionFailed(s) => "Execution failed: "@ + s@,
        Error::Json(s) => "JSON error: "@ + s@,
        Error::Http(s) => "HTTP error: "@ + s@,
        Error::Api { message, code } => "API error: "@ + message@,
        Error::Provider(s) => "Provider error: "@ + s@,
        Error::AuthRequired => "Authentication required"@,
        Error::RateLimited => "Rate limited"@,
        Error::Internal(s) => "Internal error: "@ + s@,
    }
}

impl Error {
    /// The text that describes the error (what displaying it shows).
    pub fn message(&self) -> (r: String)
        ensures
            r@ == error_text(*self),
    {
        match self {
            Error::ToolNotFound(s) => concat("Tool not found: ", s.as_str()),
            Error::InvalidParameter(s) => concat("Invalid parameter: ", s.as_str()),
            Error::MissingParameter(s) => concat("Missing required parameter: ", s.as_str()),
            Error::ExecutionFailed(s) => concat("Execution failed: ", s.as_str()),
            Error::Json(s) => concat("JSON error: ", s.as_str()),
            Error::Http(s) => concat("HTTP error: ", s.as_str()),
            Error::Api { message, code: _ } => concat("API error: ", message.as_str()),
            Error::Provider(s) => concat("Provider error: ", s.as_str()),
            Error::AuthRequired => owned("Authentication required"),
            Error::RateLimited => owned("Rate limited"),
            Error::Internal(s) => concat("Internal error: ", s.as_str()),
        }
    }
}

} // verus!
