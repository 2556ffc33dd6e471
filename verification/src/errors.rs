//! The failures an upstream call can end in, their diagnostic messages, and
//! the text form that the tool channel carries instead of a structured error.
use vstd::prelude::*;

use crate::text::{decimal_string, spec_decimal};

verus! {

/// A failure of one upstream call.
#[derive(Debug, Clone, PartialEq, Eq)]
pub enum SearchError {
    /// The rate limiter refused the request.
    RateLimitExceeded,
    /// Upstream answered with a non-success HTTP status.
    UpstreamHttp { status: u16, reason: String, body: String },
    /// Upstream's body could not be parsed as the expected shape.
    UpstreamParse { cause: String },
}

/// The diagnostic message of a [`SearchError`].
pub open spec fn spec_error_message(e: SearchError) -> Seq<char> {
    match e {
        SearchError::RateLimitExceeded => "Rate limit exceeded"@,
        SearchError::UpstreamHttp { status, reason, body } => "Brave API error: "@ + spec_decimal(
            status as nat,
        ) + " "@ + reason@ + "\n"@ + body@,
        SearchError::UpstreamParse { cause } => "Failed to parse API response: "@ + cause@,
    }
}

impl SearchError {
    /// The diagnostic message.
    pub fn message(&self) -> (r: String)
        ensures
            r@ == spec_error_message(*self),
    {
        match self {
            SearchError::RateLimitExceeded => "Rate limit exceeded".to_owned(),
            SearchError::UpstreamHttp { status, reason, body } => {
                let mut r = "Brave API error: ".to_owned();
                let status_text = decimal_string(*status as u64);
                r.append(status_text.as_str());
                r.append(" ");
                r.append(reason.as_str());
                r.append("\n");
                r.append(body.as_str());
                proof {
                    assert(r@ =~= spec_error_message(*self));
                }
                r
            },
            SearchError::UpstreamParse { cause } => {
                let mut r = "Failed to parse API response: ".to_owned();
                r.append(cause.as_str());
                r
            },
        }
    }
}

/// The tool-channel form of a failure: the three tool operations return
/// plain text, never a failure value, so an error becomes this text.
pub fn error_text(e: &SearchError) -> (r: String)
    ensures
        r@ == "Error: "@ + spec_error_message(*e),
{
    let mut r = "Error: ".to_owned();
    let message = e.message();
    r.append(message.as_str());
    r
}

/// Classifies an upstream HTTP exchange: a success status hands the body on
/// for parsing; any other status is an upstream error carrying status,
/// reason and body.
pub fn http_outcome(status: u16, reason: String, body: String) -> (r: Result<String, SearchError>)
    ensures
        200 <= status < 300 ==> r == Ok::<String, SearchError>(body),
        !(200 <= status < 300) ==> r == Err::<String, SearchError>(
            SearchError::UpstreamHttp { status, reason, body },
        ),
{
    if 200 <= status && status < 300 {
        Ok(body)
    } else {
        Err(SearchError::UpstreamHttp { status, reason, body })
    }
}

} // verus!
