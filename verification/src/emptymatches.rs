//! The empty-width fragments: word boundaries, line-relative anchors, and
//! absolute text anchors. Each is a constant fragment with no parameters.

use vstd::prelude::*;
use crate::humanregex::Fragment;
use crate::humanregex::StandardToken;

verus! {

/// Match a word boundary.
pub fn word_boundary() -> (r: Fragment)
    ensures
        r == Fragment::StandardClass(StandardToken::WordBoundary),
{
    Fragment::StandardClass(StandardToken::WordBoundary)
}

/// Match anything but a word boundary.
pub fn non_word_boundary() -> (r: Fragment)
    ensures
        r == Fragment::StandardClass(StandardToken::NonWordBoundary),
{
    Fragment::StandardClass(StandardToken::NonWordBoundary)
}

/// Match the beginning of the text, or the start of a line under a
/// multi-line flag scope.
pub fn beginning() -> (r: Fragment)
    ensures
        r is GenericChain,
        r.canon() == "^"@,
{
    Fragment::GenericChain(String::from_str("^"))
}

/// Match the end of the text, or the end of a line under a multi-line flag
/// scope.
pub fn end() -> (r: Fragment)
    ensures
        r is GenericChain,
        r.canon() == "$"@,
{
    Fragment::GenericChain(String::from_str("$"))
}

/// Match the beginning of the text, even under a multi-line flag scope.
pub fn beginning_of_text() -> (r: Fragment)
    ensures
        r is GenericChain,
        r.canon() == "\\A"@,
{
    Fragment::GenericChain(String::from_str("\\A"))
}

/// Match the end of the text, even under a multi-line flag scope.
pub fn end_of_text() -> (r: Fragment)
    ensures
        r is GenericChain,
        r.canon() == "\\z"@,
{
    Fragment::GenericChain(String::from_str("\\z"))
}

} // verus!
