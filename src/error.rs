use vstd::prelude::*;

verus! {

/// A failure reported by the transport that executes requests. This layer
/// passes it through unchanged and never retries.
#[derive(Debug, Clone, PartialEq, Eq)]
pub enum RedditError {
    /// The request could not be sent or its response could not be read.
    Network(String),
    /// The access token could not be obtained or was refused.
    Auth(String),
    /// The response body did not decode into an envelope.
    Decode(String),
    /// The remote API refused the request for exceeding its rate limit.
    RateLimited,
}

/// Describe the possible errors that can occur while fetching data from Reddit.
#[derive(Debug, Clone, PartialEq, Eq)]
pub enum FetcherError {
    /// A decoded envelope did not have the shape a projection expected.
    RedditParseError(String),
    /// A transport failure, passed through from the connection.
    RedditApiError(RedditError),
}

impl From<RedditError> for FetcherError {
    fn from(e: RedditError) -> (r: FetcherError)
        ensures
            r == FetcherError::RedditApiError(e),
    {
        FetcherError::RedditApiError(e)
    }
}

impl vstd::std_specs::convert::FromSpecImpl<RedditError> for FetcherError {
    open spec fn obeys_from_spec() -> bool {
        true
    }

    open spec fn from_spec(e: RedditError) -> FetcherError {
        FetcherError::RedditApiError(e)
    }
}

/// `r` is a parse error whose message is `msg`.
pub open spec fn is_parse_error<T>(r: Result<T, FetcherError>, msg: Seq<char>) -> bool {
    match r {
        Err(FetcherError::RedditParseError(m)) => m@ == msg,
        _ => false,
    }
}

} // verus!
