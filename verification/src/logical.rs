//! The logical combinators: alternation over listed options, class
//! intersection, and class difference. The class operations are restricted to
//! class-kind fragments and reject any other operand at construction.

use vstd::prelude::*;
use crate::humanregex::Fragment;
use crate::humanregex::PatternError;
use crate::humanregex::is_class_kind;
use crate::humanregex::noncapturing_group;
use crate::humanregex::serialize;

verus! {

/// The given parts joined in order with the separator between neighbours.
pub open spec fn joined_with(parts: Seq<Seq<char>>, sep: Seq<char>) -> Seq<char>
    decreases parts.len(),
{
    if parts.len() == 0 {
        Seq::empty()
    } else if parts.len() == 1 {
        parts[0]
    } else {
        joined_with(parts.drop_last(), sep) + sep + parts.last()
    }
}

proof fn lemma_joined_with_take(parts: Seq<Seq<char>>, sep: Seq<char>, i: int)
    requires
        1 <= i < parts.len(),
    ensures
        joined_with(parts.take(i + 1), sep) == joined_with(parts.take(i), sep) + sep + parts[i],
{
    assert(parts.take(i + 1).drop_last() =~= parts.take(i));
    assert(parts.take(i + 1).last() == parts[i]);
}

/// Establish an OR relationship over the listed options: the result is a
/// non-capturing group holding the options in order, separated by the
/// alternation bar, so the engine tries them left to right and the first
/// match wins. The options are inserted verbatim. An empty list is rejected
/// here, at construction.
pub fn or(options: &Vec<String>) -> (r: Result<Fragment, PatternError>)
    ensures
        r is Err <==> options@.len() == 0,
        r matches Err(e) ==> e is EmptyAlternation,
        r matches Ok(g) ==> (g is GenericChain && g.canon() == noncapturing_group(
            joined_with(options@.map_values(|s: String| s@), "|"@),
        )),
{
    if options.len() == 0 {
        return Err(PatternError::EmptyAlternation);
    }
    let ghost parts = options@.map_values(|s: String| s@);
    let mut s = String::from_str("(?:");
    s.append(options[0].as_str());
    proof {
        assert(parts.take(1) =~= seq![parts[0]]);
        assert(s@ =~= "(?:"@ + joined_with(parts.take(1), "|"@));
    }
    let mut i: usize = 1;
    while i < options.len()
        invariant
            1 <= i <= options@.len(),
            parts == options@.map_values(|s: String| s@),
            parts.len() == options@.len(),
            s@ == "(?:"@ + joined_with(parts.take(i as int), "|"@),
        decreases options@.len() - i,
    {
        s.append("|");
        s.append(options[i].as_str());
        proof {
            lemma_joined_with_take(parts, "|"@, i as int);
            assert(s@ =~= "(?:"@ + joined_with(parts.take(i + 1 as int), "|"@));
        }
        i = i + 1;
    }
    s.append(")");
    proof {
        assert(parts.take(parts.len() as int) =~= parts);
        assert(s@ =~= noncapturing_group(joined_with(parts, "|"@)));
    }
    Ok(Fragment::GenericChain(s))
}

fn is_class(f: &Fragment) -> (r: bool)
    ensures
        r == is_class_kind(*f),
{
    match f {
        Fragment::StandardClass(_) => true,
        Fragment::PosixClass(_, _) => true,
        Fragment::CustomClass(_) => true,
        Fragment::LiteralChain(_) => false,
        Fragment::GenericChain(_) => false,
    }
}

/// Take the intersection of the listed character classes: the result is a
/// custom class holding the operands' canonical texts joined by the
/// intersection operator. Every operand must itself be a class-kind fragment;
/// any other operand is rejected here, at construction. The engine must
/// support class-set arithmetic for the result to compile.
pub fn and(options: &Vec<Fragment>) -> (r: Result<Fragment, PatternError>)
    requires
        options@.len() >= 1,
    ensures
        r is Err <==> (exists|j: int| 0 <= j < options@.len() && !is_class_kind(options@[j])),
        r matches Err(e) ==> e is NonClassOperand,
        r matches Ok(g) ==> (g matches Fragment::CustomClass(inner) && inner@ == joined_with(
            options@.map_values(|f: Fragment| f.canon()),
            "&&"@,
        )),
{
    let ghost parts = options@.map_values(|f: Fragment| f.canon());
    let mut inner = String::new();
    let mut i: usize = 0;
    while i < options.len()
        invariant
            0 <= i <= options@.len(),
            parts == options@.map_values(|f: Fragment| f.canon()),
            parts.len() == options@.len(),
            forall|j: int| 0 <= j < i ==> is_class_kind(options@[j]),
            inner@ == joined_with(parts.take(i as int), "&&"@),
        decreases options@.len() - i,
    {
        if !is_class(&options[i]) {
            proof {
                assert(!is_class_kind(options@[i as int]));
            }
            return Err(PatternError::NonClassOperand);
        }
        let t = serialize(&options[i]);
        if i > 0 {
            inner.append("&&");
        }
        inner.append(t.as_str());
        proof {
            if i == 0 {
                assert(parts.take(1) =~= seq![parts[0]]);
                assert(inner@ =~= joined_with(parts.take(1), "&&"@));
            } else {
                lemma_joined_with_take(parts, "&&"@, i as int);
                assert(inner@ =~= joined_with(parts.take(i + 1 as int), "&&"@));
            }
        }
        i = i + 1;
    }
    proof {
        assert(parts.take(parts.len() as int) =~= parts);
    }
    Ok(Fragment::CustomClass(inner))
}

/// Subtract the second character class from the first: the result is a custom
/// class holding the two canonical texts joined by the difference operator.
/// Both operands must be class-kind fragments; any other operand is rejected
/// here, at construction. The engine must support class-set arithmetic for
/// the result to compile.
pub fn subtract(from: &Fragment, subtrahend: &Fragment) -> (r: Result<Fragment, PatternError>)
    ensures
        r is Err <==> !(is_class_kind(*from) && is_class_kind(*subtrahend)),
        r matches Err(e) ==> e is NonClassOperand,
        r matches Ok(g) ==> (g matches Fragment::CustomClass(inner) && inner@ == from.canon()
            + "--"@ + subtrahend.canon()),
{
    if !is_class(from) || !is_class(subtrahend) {
        return Err(PatternError::NonClassOperand);
    }
    let mut inner = serialize(from);
    inner.append("--");
    let t = serialize(subtrahend);
    inner.append(t.as_str());
    Ok(Fragment::CustomClass(inner))
}

} // verus!
