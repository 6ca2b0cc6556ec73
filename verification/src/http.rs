//! Prepared requests and reported failures: the boundary between the
//! verified request-building/response-handling logic and the application's
//! HTTP client.

use vstd::prelude::*;
use vstd::string::StringExecFns;

use crate::errors::AuthError;
use crate::strutil::spec_dec_digits;

verus! {

/// An authenticated request, fully determined before any network call.
#[derive(Debug)]
pub struct PreparedRequest {
    pub url: String,
    /// Value of the `Authorization` header.
    pub authorization: String,
    /// Value of the `Content-Type` header.
    pub content_type: String,
    /// Form body for a POST; `None` for a GET.
    pub body: Option<String>,
}

/// How a call failed, as the application reports it back.
#[derive(Debug)]
pub enum HttpFailure {
    /// The request could not be sent or got no response; the detail text.
    Network(String),
    /// A response arrived with a non-success status code.
    BadStatus(u16),
    /// A success response arrived but its body could not be decoded.
    Parse(String),
}

/// The log/error text for each failure, as the original messages read.
pub open spec fn spec_http_failure_text(f: HttpFailure) -> Seq<char> {
    match f {
        HttpFailure::Network(d) => "unknown error. "@ + d@,
        HttpFailure::BadStatus(code) => "status error. status="@ + spec_dec_digits(code as int),
        HttpFailure::Parse(d) => "parse error. "@ + d@,
    }
}

/// The error a failed call maps to.
pub fn http_failure_error(f: &HttpFailure) -> (r: AuthError)
    ensures
        r matches AuthError::GeneralErrorStr(m) && m@ == spec_http_failure_text(*f),
{
    match f {
        HttpFailure::Network(d) => {
            let mut m = String::from_str("unknown error. ");
            m.append(d.as_str());
            AuthError::GeneralErrorStr(m)
        },
        HttpFailure::BadStatus(code) => {
            let mut m = String::from_str("status error. status=");
            let digits = crate::strutil::u64_to_string(*code as u64);
            m.append(digits.as_str());
            AuthError::GeneralErrorStr(m)
        },
        HttpFailure::Parse(d) => {
            let mut m = String::from_str("parse error. ");
            m.append(d.as_str());
            AuthError::GeneralErrorStr(m)
        },
    }
}

} // verus!
