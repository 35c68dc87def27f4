//! The flag-scoping layer: each operation wraps its target in an inline,
//! scoped non-capturing group carrying one engine flag, so the flag's effect
//! is confined to the wrapped sub-expression and does not leak to siblings
//! joined by later concatenation.

use vstd::prelude::*;
use crate::humanregex::Fragment;
use crate::humanregex::serialize;

verus! {

fn flag_group(marker: &str, target: &Fragment) -> (r: Fragment)
    ensures
        r is GenericChain,
        r.canon() == marker@ + target.canon() + ")"@,
{
    let mut s = String::new();
    s.append(marker);
    let t = serialize(target);
    s.append(t.as_str());
    s.append(")");
    proof {
        assert(s@ =~= marker@ + target.canon() + ")"@);
    }
    Fragment::GenericChain(s)
}

/// Make every match inside the target case insensitive, matching both upper
/// and lower case letters.
pub fn case_insensitive(target: &Fragment) -> (r: Fragment)
    ensures
        r is GenericChain,
        r.canon() == "(?i:"@ + target.canon() + ")"@,
{
    flag_group("(?i:", target)
}

/// Enable multi-line mode inside the target: the line anchors then match the
/// beginning and end of every line.
pub fn multi_line_mode(target: &Fragment) -> (r: Fragment)
    ensures
        r is GenericChain,
        r.canon() == "(?m:"@ + target.canon() + ")"@,
{
    flag_group("(?m:", target)
}

/// Allow the any-character class to match line terminators inside the target.
pub fn dot_matches_newline_too(target: &Fragment) -> (r: Fragment)
    ensures
        r is GenericChain,
        r.canon() == "(?s:"@ + target.canon() + ")"@,
{
    flag_group("(?s:", target)
}

/// Disable Unicode support inside the target.
pub fn disable_unicode(target: &Fragment) -> (r: Fragment)
    ensures
        r is GenericChain,
        r.canon() == "(?-u:"@ + target.canon() + ")"@,
{
    flag_group("(?-u:", target)
}

} // verus!
