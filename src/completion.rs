use vstd::prelude::*;

verus! {

/// Token counts of one completion call.
#[derive(Clone, Copy, PartialEq, Eq, Structural, Debug)]
pub struct Usage {
    pub prompt_tokens: u32,
    pub completion_tokens: u32,
    pub total_tokens: u32,
}

/// The text a completion call generated, with its token counts.
#[derive(Debug, PartialEq)]
pub struct CompletionResponse {
    pub response: String,
    pub usage: Usage,
}

/// The payload of a successful chat answer.
#[derive(Debug, PartialEq)]
pub struct ChatReply {
    pub message: String,
    pub usage: Usage,
}

impl CompletionResponse {
    /// Builds the result of a completion call from the first choice's content
    /// and the reported usage. Missing content reads as the empty text and
    /// missing usage as zero tokens of each kind.
    pub fn from_parts(content: Option<String>, usage: Option<Usage>) -> (r: Self)
        ensures
            r.response@ == (match content { Some(c) => c@, None => Seq::empty() }),
            r.usage == (match usage {
                Some(u) => u,
                None => Usage { prompt_tokens: 0, completion_tokens: 0, total_tokens: 0 },
            }),
    {
        let response = match content {
            Some(c) => c,
            None => String::new(),
        };
        let usage = match usage {
            Some(u) => u,
            None => Usage { prompt_tokens: 0, completion_tokens: 0, total_tokens: 0 },
        };
        CompletionResponse { response, usage }
    }

    /// The chat payload: the generated text and its usage.
    pub fn into_reply(self) -> (r: ChatReply)
        ensures
            r.message == self.response,
            r.usage == self.usage,
    {
        ChatReply { message: self.response, usage: self.usage }
    }
}

} // verus!
