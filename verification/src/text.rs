use vstd::prelude::*;

verus! {

/// The number of bytes that a text takes when stored: that of its UTF-8
/// encoding. The limits on URIs and metadata keys are in these bytes.
pub open spec fn byte_len(text: Seq<char>) -> nat {
    vstd::utf8::encode_utf8(text).len()
}

/// Measures the number of bytes that a text takes when stored.
pub fn stored_len(text: &str) -> (r: usize)
    ensures
        r == byte_len(text@),
{
    text.as_bytes().len()
}

} // verus!
