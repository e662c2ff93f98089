//! The order of texts, character by character.
use vstd::prelude::*;

use crate::text::chars::to_chars;

verus! {

/// The first text comes before the second in a dictionary that goes by the code
/// points of the characters.
pub open spec fn precedes(left: Seq<char>, right: Seq<char>) -> bool
    decreases left.len(),
{
    if right.len() == 0 {
        false
    } else if left.len() == 0 {
        true
    } else if left.first() == right.first() {
        precedes(left.drop_first(), right.drop_first())
    } else {
        (left.first() as u32) < (right.first() as u32)
    }
}

/// Of two texts at most one comes before the other.
pub proof fn lemma_precedes_one_way(left: Seq<char>, right: Seq<char>)
    ensures
        precedes(left, right) ==> !precedes(right, left),
    decreases left.len(),
{
    if left.len() > 0 && right.len() > 0 && left.first() == right.first() {
        lemma_precedes_one_way(left.drop_first(), right.drop_first());
    }
}

/// What comes before a text that comes before a third comes before the third.
pub proof fn lemma_precedes_transitive(a: Seq<char>, b: Seq<char>, c: Seq<char>)
    requires
        precedes(a, b),
        precedes(b, c),
    ensures
        precedes(a, c),
    decreases a.len(),
{
    if a.len() > 0 && a.first() == b.first() && b.first() == c.first() {
        lemma_precedes_transitive(a.drop_first(), b.drop_first(), c.drop_first());
    }
}

/// Characters with the same code are the same.
proof fn lemma_code_tells_apart(left: char, right: char)
    ensures
        left as u32 == right as u32 ==> left == right,
{
}

/// What does not come before a text that does not come before a third does not
/// come before the third.
pub proof fn lemma_not_precedes_transitive(a: Seq<char>, b: Seq<char>, c: Seq<char>)
    requires
        !precedes(a, b),
        !precedes(b, c),
    ensures
        !precedes(a, c),
    decreases a.len(),
{
    if a.len() > 0 && b.len() > 0 && c.len() > 0 {
        lemma_code_tells_apart(a.first(), b.first());
        lemma_code_tells_apart(b.first(), c.first());
    }
    if a.len() > 0 && b.len() > 0 && c.len() > 0 && a.first() == b.first() && b.first()
        == c.first() {
        lemma_not_precedes_transitive(a.drop_first(), b.drop_first(), c.drop_first());
    }
}

/// Whether the first text comes before the second.
pub fn text_precedes(left: &str, right: &str) -> (out: bool)
    ensures
        out == precedes(left@, right@),
{
    let l = to_chars(left);
    let r = to_chars(right);
    let mut i: usize = 0;
    assert(l@.skip(0) =~= left@);
    assert(r@.skip(0) =~= right@);
    while i < l.len() && i < r.len() && l[i] == r[i]
        invariant
            i <= l@.len(),
            i <= r@.len(),
            precedes(left@, right@) == precedes(l@.skip(i as int), r@.skip(i as int)),
        decreases l@.len() - i,
    {
        assert(l@.skip(i as int).drop_first() =~= l@.skip(i + 1));
        assert(r@.skip(i as int).drop_first() =~= r@.skip(i + 1));
        i += 1;
    }
    if i == r.len() {
        false
    } else if i == l.len() {
        true
    } else {
        (l[i] as u32) < (r[i] as u32)
    }
}

} // verus!
