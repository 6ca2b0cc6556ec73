//! Error taxonomy of the service client.

use vstd::prelude::*;
use vstd::string::StringExecFns;

verus! {

/// Status-level error classes reported by the service.
#[derive(Debug, Clone, Copy, PartialEq, Eq, Structural)]
pub enum AuthErrorCode {
    NoError,
    Nothingtodo,
    Unauthorized,
    NotFound,
    ServerError,
    UnknownError,
}

impl AuthErrorCode {
    /// Numeric code of the class, as the service reports it.
    pub fn as_u16(&self) -> (r: u16)
        ensures
            r == self.spec_u16(),
    {
        match self {
            AuthErrorCode::NoError => 0,
            AuthErrorCode::Nothingtodo => 1,
            AuthErrorCode::Unauthorized => 401,
            AuthErrorCode::NotFound => 404,
            AuthErrorCode::ServerError => 0xfffe,
            AuthErrorCode::UnknownError => 0xffff,
        }
    }

    /// Numeric code of each class.
    pub open spec fn spec_u16(self) -> u16 {
        match self {
            AuthErrorCode::NoError => 0,
            AuthErrorCode::Nothingtodo => 1,
            AuthErrorCode::Unauthorized => 401,
            AuthErrorCode::NotFound => 404,
            AuthErrorCode::ServerError => 0xfffe,
            AuthErrorCode::UnknownError => 0xffff,
        }
    }

    /// Class of a numeric code; anything unassigned is `UnknownError`.
    pub fn from_u16(num: u16) -> (r: Self)
        ensures
            r.spec_u16() == num || (r == AuthErrorCode::UnknownError
                && forall|c: AuthErrorCode| c != AuthErrorCode::UnknownError ==> c.spec_u16() != num),
    {
        match num {
            0 => AuthErrorCode::NoError,
            1 => AuthErrorCode::Nothingtodo,
            401 => AuthErrorCode::Unauthorized,
            404 => AuthErrorCode::NotFound,
            0xfffe => AuthErrorCode::ServerError,
            _ => AuthErrorCode::UnknownError,
        }
    }

    /// Short human-readable description of the class.
    pub fn desc(&self) -> (r: &'static str)
        ensures
            r@ == self.spec_desc(),
    {
        match self {
            AuthErrorCode::NoError => "OK",
            AuthErrorCode::Nothingtodo => "Nothing to do",
            AuthErrorCode::NotFound => "Not Found",
            AuthErrorCode::Unauthorized => "Unauthorized",
            AuthErrorCode::ServerError => "Server Processing Error Occured",
            AuthErrorCode::UnknownError => "Unknown Error Occured",
        }
    }

    /// Description text of each class.
    pub open spec fn spec_desc(self) -> Seq<char> {
        match self {
            AuthErrorCode::NoError => "OK"@,
            AuthErrorCode::Nothingtodo => "Nothing to do"@,
            AuthErrorCode::NotFound => "Not Found"@,
            AuthErrorCode::Unauthorized => "Unauthorized"@,
            AuthErrorCode::ServerError => "Server Processing Error Occured"@,
            AuthErrorCode::UnknownError => "Unknown Error Occured"@,
        }
    }
}

/// Errors raised by authentication and by the authenticated calls.
#[derive(Debug)]
pub enum AuthError {
    ErrorWithCode(AuthErrorCode),
    ErrorWithCodeStr(AuthErrorCode, &'static str),
    ErrorWithCodeString(AuthErrorCode, String),
    GeneralError(&'static str),
    GeneralErrorStr(String),
}

impl AuthError {
    /// Display text of the error, mirroring how each variant is logged.
    pub fn message(&self) -> (r: String)
        ensures
            r@ == self.spec_message(),
    {
        match self {
            AuthError::ErrorWithCode(code) => {
                let mut s = String::from_str("ErrorCode: ");
                s.append(code.desc());
                s
            },
            AuthError::ErrorWithCodeStr(code, detail) => {
                let mut s = String::from_str("ErrorCode: ");
                s.append(code.desc());
                s.append(" / ");
                s.append(detail);
                s
            },
            AuthError::ErrorWithCodeString(code, detail) => {
                let mut s = String::from_str("ErrorCode: ");
                s.append(code.desc());
                s.append(" / ");
                s.append(detail.as_str());
                s
            },
            AuthError::GeneralError(detail) => {
                let mut s = String::from_str("Error: ");
                s.append(detail);
                s
            },
            AuthError::GeneralErrorStr(detail) => {
                let mut s = String::from_str("Error: ");
                s.append(detail.as_str());
                s
            },
        }
    }

    /// Display text of each variant.
    pub open spec fn spec_message(self) -> Seq<char> {
        match self {
            AuthError::ErrorWithCode(code) => "ErrorCode: "@ + code.spec_desc(),
            AuthError::ErrorWithCodeStr(code, detail) => "ErrorCode: "@ + code.spec_desc() + " / "@
                + detail@,
            AuthError::ErrorWithCodeString(code, detail) => "ErrorCode: "@ + code.spec_desc()
                + " / "@ + detail@,
            AuthError::GeneralError(detail) => "Error: "@ + detail@,
            AuthError::GeneralErrorStr(detail) => "Error: "@ + detail@,
        }
    }
}

} // verus!
