//! Facts about character sequences that the error-message contracts use:
//! what it means for one sequence to occur inside another, and that a
//! concatenation contains its middle part.

use vstd::prelude::*;

verus! {

/// `needle` occurs contiguously somewhere inside `hay`.
pub open spec fn contains_seq(hay: Seq<char>, needle: Seq<char>) -> bool {
    exists|i: int|
        0 <= i && i + needle.len() <= hay.len() && #[trigger] hay.subrange(
            i,
            i + needle.len() as int,
        ) == needle
}

/// A concatenation `prefix + mid + suffix` contains `mid`.
pub proof fn lemma_concat_contains_middle(prefix: Seq<char>, mid: Seq<char>, suffix: Seq<char>)
    ensures
        contains_seq(prefix + mid + suffix, mid),
{
    let hay = prefix + mid + suffix;
    let i = prefix.len() as int;
    assert(hay.subrange(i, i + mid.len() as int) =~= mid);
}

} // verus!
