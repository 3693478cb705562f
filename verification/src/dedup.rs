//! First-occurrence deduplication of candidate lists.
//!
//! Candidate sets preserve first-seen order; the executable
//! deduplication is delegated to the `itertools` crate and stated
//! against the [`dedup_first`] specification.

use vstd::prelude::*;
use itertools::Itertools;
use crate::arch::Arch;

verus! {

/// Keeps the first appearance of each element, in order of first
/// appearance.
pub open spec fn dedup_first<A>(s: Seq<A>) -> Seq<A>
    decreases s.len(),
{
    if s.len() == 0 {
        Seq::empty()
    } else {
        let rest = dedup_first(s.drop_last());
        if rest.contains(s.last()) {
            rest
        } else {
            rest.push(s.last())
        }
    }
}

/// Deduplication never invents elements: everything it returns occurs
/// in its input, and conversely nothing of the input is lost.
pub proof fn lemma_dedup_first_contains<A>(s: Seq<A>, x: A)
    ensures
        dedup_first(s).contains(x) <==> s.contains(x),
    decreases s.len(),
{
    if s.len() == 0 {
    } else {
        lemma_dedup_first_contains(s.drop_last(), x);
        assert(s.contains(x) <==> (s.drop_last().contains(x) || s.last() == x)) by {
            if s.contains(x) {
                let i = choose|i: int| 0 <= i < s.len() && s[i] == x;
                if i < s.len() - 1 {
                    assert(s.drop_last()[i] == x);
                }
            }
            if s.drop_last().contains(x) {
                let i = choose|i: int| 0 <= i < s.drop_last().len() && s.drop_last()[i] == x;
                assert(s[i] == x);
            }
            if s.last() == x {
                assert(s[s.len() - 1] == x);
            }
        }
        let rest = dedup_first(s.drop_last());
        if !rest.contains(s.last()) {
            assert(forall|y: A| rest.push(s.last()).contains(y) <==> (rest.contains(y)
                || s.last() == y)) by {
                assert(forall|y: A| #[trigger] rest.contains(y) ==> rest.push(
                    s.last(),
                ).contains(y)) by {
                    assert forall|y: A| #[trigger] rest.contains(y) implies rest.push(
                        s.last(),
                    ).contains(y) by {
                        let i = choose|i: int| 0 <= i < rest.len() && rest[i] == y;
                        assert(rest.push(s.last())[i] == y);
                    }
                }
                assert(rest.push(s.last())[rest.len() as int] == s.last());
            }
        }
    }
}

/// Relies on `Itertools::unique`: yields the first occurrence of each
/// distinct string, in input order; `String` equality and hashing go by
/// the string's contents.
#[verifier::external_body]
pub fn unique_strings(v: Vec<String>) -> (r: Vec<String>)
    ensures
        r.deep_view() == dedup_first(v.deep_view()),
{
    v.into_iter().unique().collect()
}

/// Relies on `Itertools::unique`: yields the first occurrence of each
/// distinct architecture, in input order; the derived `Eq` and `Hash`
/// on [`Arch`] are structural.
#[verifier::external_body]
pub fn unique_arches(v: Vec<Arch>) -> (r: Vec<Arch>)
    ensures
        r@ == dedup_first(v@),
{
    v.into_iter().unique().collect()
}

} // verus!
