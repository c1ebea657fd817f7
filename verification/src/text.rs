//! Small operations on text.

use vstd::prelude::*;

verus! {

/// Whether two texts hold the same characters.
pub(crate) fn same_text(a: &str, b: &str) -> (same: bool)
    ensures
        same == (a@ == b@),
{
    a.to_owned() == b.to_owned()
}

/// The view of an optional text.
pub open spec fn optional_text(text: Option<String>) -> Option<Seq<char>> {
    match text {
        Some(shown) => Some(shown@),
        None => None,
    }
}

/// The view of a text, or of what is said in its place.
pub open spec fn text_or_fault(text: Result<String, String>) -> Result<Seq<char>, Seq<char>> {
    match text {
        Ok(shown) => Ok(shown@),
        Err(fault) => Err(fault@),
    }
}

/// The view of optional bytes.
pub open spec fn optional_bytes(bytes: Option<Vec<u8>>) -> Option<Seq<u8>> {
    match bytes {
        Some(held) => Some(held@),
        None => None,
    }
}

} // verus!
