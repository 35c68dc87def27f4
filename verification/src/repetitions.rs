//! The repetition layer: counted and symbolic quantifiers. Every operation
//! here first encloses its target in a non-capturing group, so the quantifier
//! binds to the whole target rather than to its trailing atom.

use vstd::prelude::*;
use crate::humanregex::Fragment;
use crate::humanregex::PatternError;
use crate::humanregex::noncapturing_group;
use crate::humanregex::serialize;

verus! {

/// The decimal digit character for a value below ten.
pub open spec fn dec_digit_char(d: nat) -> char {
    if d == 0 {
        '0'
    } else if d == 1 {
        '1'
    } else if d == 2 {
        '2'
    } else if d == 3 {
        '3'
    } else if d == 4 {
        '4'
    } else if d == 5 {
        '5'
    } else if d == 6 {
        '6'
    } else if d == 7 {
        '7'
    } else if d == 8 {
        '8'
    } else {
        '9'
    }
}

/// The decimal rendering of a number, most significant digit first, with no
/// leading zeros except for the number zero itself.
pub open spec fn dec_rep(n: nat) -> Seq<char>
    decreases n,
{
    if n < 10 {
        seq![dec_digit_char(n)]
    } else {
        dec_rep(n / 10) + seq![dec_digit_char(n % 10)]
    }
}

fn digit_char(d: u8) -> (c: char)
    requires
        d < 10,
    ensures
        c == dec_digit_char(d as nat),
{
    match d {
        0 => '0',
        1 => '1',
        2 => '2',
        3 => '3',
        4 => '4',
        5 => '5',
        6 => '6',
        7 => '7',
        8 => '8',
        _ => '9',
    }
}

/// Append the decimal rendering of `n` to `out`.
pub(crate) fn append_dec(out: &mut String, n: u8)
    ensures
        final(out)@ == old(out)@ + dec_rep(n as nat),
    decreases n,
{
    if n >= 10 {
        append_dec(out, n / 10);
    }
    out.push(digit_char(n % 10));
    proof {
        if n < 10 {
            assert(out@ =~= old(out)@ + dec_rep(n as nat));
        } else {
            assert(out@ =~= old(out)@ + (dec_rep((n / 10) as nat) + seq![
                dec_digit_char((n % 10) as nat),
            ]));
        }
    }
}

/// Serialize `target` enclosed in a non-capturing group.
fn grouped(target: &Fragment) -> (r: String)
    ensures
        r@ == noncapturing_group(target.canon()),
{
    let mut s = String::from_str("(?:");
    let t = serialize(target);
    s.append(t.as_str());
    s.append(")");
    s
}

/// Match exactly `n` of the target, which is first enclosed in a
/// non-capturing group.
pub fn exactly(n: u8, target: &Fragment) -> (r: Fragment)
    ensures
        r is GenericChain,
        r.canon() == noncapturing_group(target.canon()) + "{"@ + dec_rep(n as nat) + "}"@,
{
    let mut s = grouped(target);
    s.append("{");
    append_dec(&mut s, n);
    s.append("}");
    Fragment::GenericChain(s)
}

/// Match at least `n` of the target, which is first enclosed in a
/// non-capturing group.
pub fn at_least(n: u8, target: &Fragment) -> (r: Fragment)
    ensures
        r is GenericChain,
        r.canon() == noncapturing_group(target.canon()) + "{"@ + dec_rep(n as nat) + ",}"@,
{
    let mut s = grouped(target);
    s.append("{");
    append_dec(&mut s, n);
    s.append(",}");
    Fragment::GenericChain(s)
}

/// Match at least `n` and at most `m` of the target, which is first enclosed
/// in a non-capturing group. A lower bound above the upper bound is rejected
/// here, at construction.
pub fn between(n: u8, m: u8, target: &Fragment) -> (r: Result<Fragment, PatternError>)
    ensures
        r is Err <==> n > m,
        r matches Err(e) ==> e is InvalidRepetitionRange,
        r matches Ok(g) ==> (g is GenericChain && g.canon() == noncapturing_group(target.canon())
            + "{"@ + dec_rep(n as nat) + ","@ + dec_rep(m as nat) + "}"@),
{
    if n > m {
        return Err(PatternError::InvalidRepetitionRange);
    }
    let mut s = grouped(target);
    s.append("{");
    append_dec(&mut s, n);
    s.append(",");
    append_dec(&mut s, m);
    s.append("}");
    Ok(Fragment::GenericChain(s))
}

/// Match one or more of the target, which is first enclosed in a
/// non-capturing group.
pub fn one_or_more(target: &Fragment) -> (r: Fragment)
    ensures
        r is GenericChain,
        r.canon() == noncapturing_group(target.canon()) + "+"@,
{
    let mut s = grouped(target);
    s.append("+");
    Fragment::GenericChain(s)
}

/// Match zero or more of the target, which is first enclosed in a
/// non-capturing group.
pub fn zero_or_more(target: &Fragment) -> (r: Fragment)
    ensures
        r is GenericChain,
        r.canon() == noncapturing_group(target.canon()) + "*"@,
{
    let mut s = grouped(target);
    s.append("*");
    Fragment::GenericChain(s)
}

/// Match zero or one of the target, which is first enclosed in a
/// non-capturing group.
pub fn zero_or_one(target: &Fragment) -> (r: Fragment)
    ensures
        r is GenericChain,
        r.canon() == noncapturing_group(target.canon()) + "?"@,
{
    let mut s = grouped(target);
    s.append("?");
    Fragment::GenericChain(s)
}

} // verus!
