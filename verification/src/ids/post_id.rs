//! Post-release segment.

use crate::order::{at_most, compare_optional, optional_order, reversed};
use core::cmp::Ordering;
use vstd::prelude::*;
use vstd::std_specs::cmp::PartialOrdSpecImpl;

verus! {

/// The keyword a post-release segment was written with: `post`, or `rev` and
/// its short form `r`.
///
/// The keyword is kept for equality only. In the order it counts for
/// nothing: any two keywords compare `Equal`.
#[derive(Clone, Copy, Debug, Hash, PartialEq, Eq, Structural)]
pub enum PostHead {
    Post,
    Rev,
}

/// Post-release segment, as in `1.0.post456`, `1.0rev` or `1.0-3`.
///
/// `post_head` is absent in the bare form `-3`, which has no keyword;
/// `post_num` is absent where a keyword stands alone.
#[derive(Clone, Copy, Debug, Hash, PartialEq, Eq, Structural)]
pub struct PostHeader {
    pub post_head: Option<PostHead>,
    pub post_num: Option<u32>,
}

impl PostHead {
    /// How `self` stands to `other`: always `Equal`.
    pub open spec fn compare(self, other: Self) -> Ordering {
        Ordering::Equal
    }

    /// Three-way comparison.
    pub fn cmp(&self, other: &Self) -> (r: Ordering)
        ensures
            r == self.compare(*other),
    {
        Ordering::Equal
    }
}

impl PartialOrdSpecImpl for PostHead {
    open spec fn obeys_partial_cmp_spec() -> bool {
        true
    }

    open spec fn partial_cmp_spec(&self, other: &Self) -> Option<Ordering> {
        Some(self.compare(*other))
    }
}

impl PartialOrd for PostHead {
    fn partial_cmp(&self, other: &Self) -> (r: Option<Ordering>) {
        Some(Ordering::Equal)
    }
}

impl PostHeader {
    /// How `self` stands to `other`: by number alone, a missing number below
    /// every present one. The keyword plays no part.
    pub open spec fn compare(self, other: Self) -> Ordering {
        optional_order(self.post_num, other.post_num)
    }

    /// How two optional segments stand to each other: no segment sorts below
    /// any segment.
    pub open spec fn compare_optional(a: Option<Self>, b: Option<Self>) -> Ordering {
        match (a, b) {
            (None, None) => Ordering::Equal,
            (None, Some(_)) => Ordering::Less,
            (Some(_), None) => Ordering::Greater,
            (Some(x), Some(y)) => x.compare(y),
        }
    }

    /// Three-way comparison.
    pub fn cmp(&self, other: &Self) -> (r: Ordering)
        ensures
            r == self.compare(*other),
    {
        compare_optional(self.post_num, other.post_num)
    }

    /// Three-way comparison of optional segments.
    pub fn cmp_optional(a: &Option<Self>, b: &Option<Self>) -> (r: Ordering)
        ensures
            r == Self::compare_optional(*a, *b),
    {
        match (a, b) {
            (None, None) => Ordering::Equal,
            (None, Some(_)) => Ordering::Less,
            (Some(_), None) => Ordering::Greater,
            (Some(x), Some(y)) => x.cmp(y),
        }
    }

    /// A segment without a number sorts below one with any number, whatever
    /// the keywords.
    pub proof fn absent_below_present(h1: Option<PostHead>, h2: Option<PostHead>, n: u32)
        ensures
            (PostHeader { post_head: h1, post_num: None }).compare(
                PostHeader { post_head: h2, post_num: Some(n) },
            ) == Ordering::Less,
    {}

    /// Segments with numbers sort as their numbers do, whatever the keywords.
    pub proof fn numbers_in_order(h1: Option<PostHead>, a: u32, h2: Option<PostHead>, b: u32)
        ensures
            a < b <==> (PostHeader { post_head: h1, post_num: Some(a) }).compare(
                PostHeader { post_head: h2, post_num: Some(b) },
            ) == Ordering::Less,
            a == b <==> (PostHeader { post_head: h1, post_num: Some(a) }).compare(
                PostHeader { post_head: h2, post_num: Some(b) },
            ) == Ordering::Equal,
    {}

    /// The keyword never changes an outcome.
    pub proof fn keyword_ignored(a: Self, b: Self, h1: Option<PostHead>, h2: Option<PostHead>)
        ensures
            (PostHeader { post_head: h1, post_num: a.post_num }).compare(
                PostHeader { post_head: h2, post_num: b.post_num },
            ) == a.compare(b),
    {}

    /// Every segment compares `Equal` to itself.
    pub proof fn compare_reflexive(a: Self)
        ensures
            a.compare(a) == Ordering::Equal,
    {}

    /// Exchanging the sides reverses the outcome; two segments compare
    /// `Equal` exactly when they hold the same number.
    pub proof fn compare_antisymmetric(a: Self, b: Self)
        ensures
            b.compare(a) == reversed(a.compare(b)),
            a.compare(b) == Ordering::Equal <==> a.post_num == b.post_num,
    {}

    /// The order is transitive, and strict as soon as one step is.
    pub proof fn compare_transitive(a: Self, b: Self, c: Self)
        requires
            at_most(a.compare(b)),
            at_most(b.compare(c)),
        ensures
            at_most(a.compare(c)),
            a.compare(c) == Ordering::Equal ==> a.compare(b) == Ordering::Equal && b.compare(c)
                == Ordering::Equal,
    {}
}

impl PartialOrdSpecImpl for PostHeader {
    open spec fn obeys_partial_cmp_spec() -> bool {
        true
    }

    open spec fn partial_cmp_spec(&self, other: &Self) -> Option<Ordering> {
        Some(self.compare(*other))
    }
}

impl PartialOrd for PostHeader {
    fn partial_cmp(&self, other: &Self) -> (r: Option<Ordering>) {
        Some(self.cmp(other))
    }
}

} // verus!
