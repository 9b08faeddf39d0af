//! The closed error taxonomy surfaced by every backend adapter.

use vstd::prelude::*;

verus! {

/// One failure of a provider call, classified into a closed taxonomy that is
/// uniform across backends. Callers branch on the kind; the carried text is
/// for logging only.
#[derive(Clone, Debug, PartialEq, Eq)]
pub enum AgentError {
    /// The outbound call exceeded the configured deadline.
    Timeout,
    /// The transport could not reach the endpoint.
    ConnectionFailure,
    /// The backend reported unauthorized credentials.
    AuthenticationFailure,
    /// The backend reported too many requests.
    RateLimitExceeded,
    /// Any other non-success HTTP status, with the status and the raw body.
    HttpFailure(u16, String),
    /// The response body did not match the expected schema.
    DeserializationFailure,
    /// The response parsed successfully but contained no usable content.
    EmptyResponse,
}

/// The single decimal digit `d` as a one-character string view.
pub open spec fn dec_digit(d: int) -> Seq<char> {
    if d == 0 {
        "0"@
    } else if d == 1 {
        "1"@
    } else if d == 2 {
        "2"@
    } else if d == 3 {
        "3"@
    } else if d == 4 {
        "4"@
    } else if d == 5 {
        "5"@
    } else if d == 6 {
        "6"@
    } else if d == 7 {
        "7"@
    } else if d == 8 {
        "8"@
    } else {
        "9"@
    }
}

/// The usual decimal rendering of a nonnegative integer, without leading
/// zeros (except for zero itself).
pub open spec fn dec_rep(n: int) -> Seq<char>
    decreases n,
{
    if n < 10 {
        dec_digit(n)
    } else {
        dec_rep(n / 10) + dec_digit(n % 10)
    }
}

/// The single decimal digit `d` as a string slice.
fn digit_str(d: u16) -> (r: &'static str)
    requires
        d < 10,
    ensures
        r@ == dec_digit(d as int),
{
    if d == 0 {
        "0"
    } else if d == 1 {
        "1"
    } else if d == 2 {
        "2"
    } else if d == 3 {
        "3"
    } else if d == 4 {
        "4"
    } else if d == 5 {
        "5"
    } else if d == 6 {
        "6"
    } else if d == 7 {
        "7"
    } else if d == 8 {
        "8"
    } else {
        "9"
    }
}

/// Render `n` in decimal.
pub fn u16_to_decimal(n: u16) -> (r: String)
    ensures
        r@ == dec_rep(n as int),
    decreases n,
{
    if n < 10 {
        digit_str(n).to_owned()
    } else {
        let mut s = u16_to_decimal(n / 10);
        s.append(digit_str(n % 10));
        s
    }
}

/// The human-readable description of error `e`, as recorded in step outputs
/// and logs.
pub open spec fn spec_description(e: AgentError) -> Seq<char> {
    match e {
        AgentError::Timeout => "request timed out"@,
        AgentError::ConnectionFailure => "could not connect to the endpoint"@,
        AgentError::AuthenticationFailure => "authentication failed: invalid API key"@,
        AgentError::RateLimitExceeded => "rate limit exceeded"@,
        AgentError::HttpFailure(status, body) => "HTTP "@ + dec_rep(status as int) + " error: "@
            + body@,
        AgentError::DeserializationFailure => "failed to deserialize the response"@,
        AgentError::EmptyResponse => "response contained no content"@,
    }
}

impl AgentError {
    /// A human-readable description of the error, suitable for logging or for
    /// recording as a failed step's output.
    pub fn description(&self) -> (r: String)
        ensures
            r@ == spec_description(*self),
    {
        match self {
            AgentError::Timeout => "request timed out".to_owned(),
            AgentError::ConnectionFailure => "could not connect to the endpoint".to_owned(),
            AgentError::AuthenticationFailure => "authentication failed: invalid API key".to_owned(),
            AgentError::RateLimitExceeded => "rate limit exceeded".to_owned(),
            AgentError::HttpFailure(status, body) => {
                let mut s = "HTTP ".to_owned();
                let digits = u16_to_decimal(*status);
                s.append(digits.as_str());
                s.append(" error: ");
                s.append(body.as_str());
                s
            },
            AgentError::DeserializationFailure => "failed to deserialize the response".to_owned(),
            AgentError::EmptyResponse => "response contained no content".to_owned(),
        }
    }
}

} // verus!
