use vstd::prelude::*;
use vstd::string::StringExecFns;
use crate::envelope::ApiResponse;
use crate::request::{is_blank, text_is_blank, EmbeddingRequest, MessageRequest};

verus! {

/// The status a handler answers with when the provider or the store failed.
pub const STATUS_INTERNAL_SERVER_ERROR: u16 = 500;

/// Validates an embedding request before any call is made. A blank text is
/// answered at once with the error envelope "Text cannot be empty"; `None`
/// means the text goes on to the provider unchanged.
pub fn check_embedding_request<T: Default>(req: &EmbeddingRequest) -> (r: Option<ApiResponse<T>>)
    ensures
        r is Some <==> is_blank(req.text@),
        r matches Some(e) ==> e.is_error_with("Text cannot be empty"@),
{
    if text_is_blank(req.text.as_str()) {
        Some(ApiResponse::error(String::from_str("Text cannot be empty")))
    } else {
        None
    }
}

/// Validates a chat request before any call is made. A blank message is
/// answered at once with the error envelope "Message cannot be empty";
/// `None` means the message goes on to the provider unchanged.
pub fn check_message_request<T: Default>(req: &MessageRequest) -> (r: Option<ApiResponse<T>>)
    ensures
        r is Some <==> is_blank(req.message@),
        r matches Some(e) ==> e.is_error_with("Message cannot be empty"@),
{
    if text_is_blank(req.message.as_str()) {
        Some(ApiResponse::error(String::from_str("Message cannot be empty")))
    } else {
        None
    }
}

/// Turns what a downstream call returned into the handler's answer: its
/// value in a success envelope, or a bare internal-error status whatever
/// the cause.
pub fn respond_with<T: Default, E>(outcome: Result<T, E>) -> (r: Result<ApiResponse<T>, u16>)
    ensures
        outcome matches Ok(d) ==> (r matches Ok(e) && e.data == d && e.is_success()),
        outcome is Err ==> r == Err::<ApiResponse<T>, u16>(STATUS_INTERNAL_SERVER_ERROR),
{
    match outcome {
        Ok(d) => Ok(ApiResponse::success(d)),
        Err(_) => Err(STATUS_INTERNAL_SERVER_ERROR),
    }
}

/// The payload of a successful reset.
#[derive(Debug, PartialEq)]
pub struct ResetReply {
    pub message: String,
}

/// The fixed confirmation that a reset sends back.
pub fn reset_reply() -> (r: ResetReply)
    ensures
        r.message@ == "Database reset successfully"@,
{
    ResetReply { message: String::from_str("Database reset successfully") }
}

} // verus!
