use vstd::prelude::*;
use vstd::string::StringExecFns;

verus! {

/// The uniform wrapper around every JSON response body.
///
/// `status` is `"success"` or `"error"`; `error` holds a message only on the
/// error path, where `data` is the payload type's empty value.
#[derive(Debug, PartialEq)]
pub struct ApiResponse<T> {
    pub data: T,
    pub status: String,
    pub error: Option<String>,
}

impl<T> ApiResponse<T> {
    /// Whether this envelope reports success.
    pub open spec fn is_success(&self) -> bool {
        &&& self.status@ == "success"@
        &&& self.error is None
    }

    /// Whether this envelope reports the error `msg`.
    pub open spec fn is_error_with(&self, msg: Seq<char>) -> bool {
        &&& self.status@ == "error"@
        &&& self.error matches Some(e) && e@ == msg
    }
}

impl<T: Default> ApiResponse<T> {
    /// A success envelope around `data`.
    pub fn success(data: T) -> (r: Self)
        ensures
            r.data == data,
            r.is_success(),
    {
        ApiResponse { data, status: String::from_str("success"), error: None }
    }

    /// An error envelope carrying `error`, with the empty payload.
    pub fn error(error: String) -> (r: Self)
        ensures
            r.is_error_with(error@),
    {
        ApiResponse { data: T::default(), status: String::from_str("error"), error: Some(error) }
    }
}

} // verus!
