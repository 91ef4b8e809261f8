use vstd::prelude::*;
use vstd::string::StringExecFns;

verus! {

/// The status of a request whose credential header is missing or wrong.
pub const STATUS_UNAUTHORIZED: u16 = 401;

/// Whether a request that carried `provided` in its credential header is let
/// through: only an exact, case-sensitive match of the configured key is.
pub open spec fn credential_accepted(provided: Option<Seq<char>>, expected: Seq<char>) -> bool {
    provided == Some(expected)
}

/// The credential check. It reads nothing but its two arguments, so the
/// answer to one request never depends on another.
pub fn authorize(provided: Option<&str>, expected: &str) -> (r: Result<(), u16>)
    ensures
        r is Ok <==> credential_accepted(
            match provided { Some(p) => Some(p@), None => None },
            expected@,
        ),
        r is Err ==> r == Err::<(), u16>(STATUS_UNAUTHORIZED),
{
    match provided {
        None => Err(STATUS_UNAUTHORIZED),
        Some(p) => {
            let given = String::from_str(p);
            let wanted = String::from_str(expected);
            if given == wanted {
                Ok(())
            } else {
                Err(STATUS_UNAUTHORIZED)
            }
        },
    }
}

/// Whether a status code is in the success range.
pub open spec fn status_is_success(code: u16) -> bool {
    200 <= code <= 299
}

pub fn is_success_status(code: u16) -> (r: bool)
    ensures
        r == status_is_success(code),
{
    200 <= code && code <= 299
}

/// The severity at which a finished request is logged.
#[derive(Clone, Copy, PartialEq, Eq, Structural, Debug)]
pub enum LogLevel {
    Info,
    Error,
}

/// Finished requests are logged as information on success, as errors
/// otherwise.
pub fn completion_log_level(status: u16) -> (r: LogLevel)
    ensures
        r == (if status_is_success(status) { LogLevel::Info } else { LogLevel::Error }),
{
    if is_success_status(status) {
        LogLevel::Info
    } else {
        LogLevel::Error
    }
}

} // verus!
