use vstd::prelude::*;
use vstd::string::StrSliceExecFns;

verus! {

/// Whether `c` has the Unicode `White_Space` property.
pub uninterp spec fn white_space(c: char) -> bool;

/// Relies on char::is_whitespace: whether the character has the Unicode
/// `White_Space` property, the same set that `str::trim` strips.
#[verifier::external_body]
fn is_white_space(c: char) -> (r: bool)
    ensures
        r == white_space(c),
{
    c.is_whitespace()
}

/// A text is blank when nothing is left of it once surrounding white space
/// is trimmed: every character of it is white space.
pub open spec fn is_blank(s: Seq<char>) -> bool {
    forall|i: int| 0 <= i < s.len() ==> white_space(#[trigger] s[i])
}

/// Whether `text` is empty or white space only.
pub fn text_is_blank(text: &str) -> (r: bool)
    ensures
        r == is_blank(text@),
{
    let n = text.unicode_len();
    let mut i: usize = 0;
    while i < n
        invariant
            n == text@.len(),
            i <= n,
            forall|j: int| 0 <= j < i ==> white_space(#[trigger] text@[j]),
        decreases n - i,
    {
        let c = text.get_char(i);
        if !is_white_space(c) {
            return false;
        }
        i += 1;
    }
    true
}

/// The body of a chat request.
#[derive(Debug, PartialEq)]
pub struct MessageRequest {
    pub message: String,
}

/// The body of an embedding request.
#[derive(Debug, PartialEq)]
pub struct EmbeddingRequest {
    pub text: String,
}

} // verus!
