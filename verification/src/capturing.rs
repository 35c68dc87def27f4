//! The grouping layer: numbered and named capturing groups.

use vstd::prelude::*;
use crate::humanregex::Fragment;
use crate::humanregex::serialize;

verus! {

/// Wrap an expression in a numbered capturing group. Group numbers are
/// assigned by the external engine in left-to-right order of appearance and
/// are not tracked here.
pub fn capture(target: &Fragment) -> (r: Fragment)
    ensures
        r is GenericChain,
        r.canon() == "("@ + target.canon() + ")"@,
{
    let mut s = String::from_str("(");
    let t = serialize(target);
    s.append(t.as_str());
    s.append(")");
    Fragment::GenericChain(s)
}

/// Wrap an expression in a named capturing group. The name is inserted
/// verbatim; an illegal name surfaces only as a compile failure from the
/// external engine.
pub fn named_capture(target: &Fragment, name: &str) -> (r: Fragment)
    ensures
        r is GenericChain,
        r.canon() == "(?P<"@ + name@ + ">"@ + target.canon() + ")"@,
{
    let mut s = String::from_str("(?P<");
    s.append(name);
    s.append(">");
    let t = serialize(target);
    s.append(t.as_str());
    s.append(")");
    Fragment::GenericChain(s)
}

} // verus!
