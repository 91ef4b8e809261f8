use vstd::prelude::*;
use vstd::string::StringExecFns;

verus! {

/// What can go wrong while a request is handled.
#[derive(Debug, PartialEq)]
pub enum ApiError {
    Auth(String),
    Validation(String),
    Internal(String),
}

impl ApiError {
    /// The line that describes the error: a prefix that names its kind,
    /// then the detail.
    pub open spec fn message_spec(&self) -> Seq<char> {
        match self {
            ApiError::Auth(s) => "Authentication failed: "@ + s@,
            ApiError::Validation(s) => "Invalid request: "@ + s@,
            ApiError::Internal(s) => "Internal server error: "@ + s@,
        }
    }

    pub fn message(&self) -> (r: String)
        ensures
            r@ == self.message_spec(),
    {
        match self {
            ApiError::Auth(s) => String::from_str("Authentication failed: ").concat(s.as_str()),
            ApiError::Validation(s) => String::from_str("Invalid request: ").concat(s.as_str()),
            ApiError::Internal(s) => String::from_str("Internal server error: ").concat(s.as_str()),
        }
    }
}

} // verus!
