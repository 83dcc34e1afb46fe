//! Pre-release segment.

use crate::order::{
    at_most, chain, compare_numbers, compare_optional, lexicographic, number_order,
    optional_order, reversed,
};
use core::cmp::Ordering;
use vstd::prelude::*;
use vstd::std_specs::cmp::PartialOrdSpecImpl;

verus! {

/// Pre-release segment. Each kind carries the number written behind its
/// keyword, absent where the keyword stands alone.
#[derive(Clone, Copy, Debug, Hash, PartialEq, Eq, Structural)]
pub enum PreHeader {
    /// `1.1beta1` or `1.1b1`.
    Beta(Option<u32>),
    /// `1.0alpha2` or `1.0a2`.
    Alpha(Option<u32>),
    /// `1.1preview3` or `1.1pre3`.
    Preview(Option<u32>),
    /// `1.1-rc-4` or `1.1c4`.
    ReleaseCandidate(Option<u32>),
}

impl PreHeader {
    /// Place of the kind in the order of kinds: `Beta`, `Alpha`, `Preview`,
    /// `ReleaseCandidate`, lowest first.
    pub open spec fn rank(self) -> u32 {
        match self {
            PreHeader::Beta(_) => 0,
            PreHeader::Alpha(_) => 1,
            PreHeader::Preview(_) => 2,
            PreHeader::ReleaseCandidate(_) => 3,
        }
    }

    /// The number behind the keyword.
    pub open spec fn number(self) -> Option<u32> {
        match self {
            PreHeader::Beta(n) => n,
            PreHeader::Alpha(n) => n,
            PreHeader::Preview(n) => n,
            PreHeader::ReleaseCandidate(n) => n,
        }
    }

    /// The segment of the same kind with `number` behind the keyword.
    pub open spec fn numbered(self, number: Option<u32>) -> Self {
        match self {
            PreHeader::Beta(_) => PreHeader::Beta(number),
            PreHeader::Alpha(_) => PreHeader::Alpha(number),
            PreHeader::Preview(_) => PreHeader::Preview(number),
            PreHeader::ReleaseCandidate(_) => PreHeader::ReleaseCandidate(number),
        }
    }

    /// How `self` stands to `other`: by kind first; within one kind by
    /// number, a missing number below every present one.
    pub open spec fn compare(self, other: Self) -> Ordering {
        lexicographic(
            number_order(self.rank(), other.rank()),
            optional_order(self.number(), other.number()),
        )
    }

    /// How two optional segments stand to each other: no segment sorts below
    /// any segment.
    pub open spec fn compare_optional(a: Option<Self>, b: Option<Self>) -> Ordering {
        match (a, b) {
            (None, None) => Ordering::Equal,
            (None, Some(_)) => Ordering::Less,
            (Some(_), None) => Ordering::Greater,
            (Some(x), Some(y)) => x.compare(y),
        }
    }

    /// Place of the kind in the order of kinds.
    pub fn kind_rank(&self) -> (r: u32)
        ensures
            r == self.rank(),
    {
        match self {
            PreHeader::Beta(_) => 0,
            PreHeader::Alpha(_) => 1,
            PreHeader::Preview(_) => 2,
            PreHeader::ReleaseCandidate(_) => 3,
        }
    }

    /// The number behind the keyword.
    pub fn suffix(&self) -> (r: Option<u32>)
        ensures
            r == self.number(),
    {
        match self {
            PreHeader::Beta(n) => *n,
            PreHeader::Alpha(n) => *n,
            PreHeader::Preview(n) => *n,
            PreHeader::ReleaseCandidate(n) => *n,
        }
    }

    /// The segment of the same kind with `number` behind the keyword.
    pub fn with_number(&self, number: Option<u32>) -> (r: Self)
        ensures
            r == self.numbered(number),
            r.rank() == self.rank(),
            r.number() == number,
    {
        match self {
            PreHeader::Beta(_) => PreHeader::Beta(number),
            PreHeader::Alpha(_) => PreHeader::Alpha(number),
            PreHeader::Preview(_) => PreHeader::Preview(number),
            PreHeader::ReleaseCandidate(_) => PreHeader::ReleaseCandidate(number),
        }
    }

    /// Three-way comparison.
    pub fn cmp(&self, other: &Self) -> (r: Ordering)
        ensures
            r == self.compare(*other),
    {
        chain(
            compare_numbers(self.kind_rank(), other.kind_rank()),
            compare_optional(self.suffix(), other.suffix()),
        )
    }

    /// Three-way comparison of optional segments.
    pub fn cmp_optional(a: &Option<Self>, b: &Option<Self>) -> (r: Ordering)
        ensures
            r == Self::compare_optional(*a, *b),
    {
        match (a, b) {
            (None, None) => Ordering::Equal,
            (None, Some(_)) => Ordering::Less,
            (Some(_), None) => Ordering::Greater,
            (Some(x), Some(y)) => x.cmp(y),
        }
    }

    /// The kinds are ranked `Beta`, `Alpha`, `Preview`, `ReleaseCandidate`,
    /// and the rank decides before the numbers are looked at.
    pub proof fn kind_dominates(a: Self, b: Self)
        ensures
            PreHeader::Beta(a.number()).compare(PreHeader::Alpha(b.number())) == Ordering::Less,
            PreHeader::Alpha(a.number()).compare(PreHeader::Preview(b.number()))
                == Ordering::Less,
            PreHeader::Preview(a.number()).compare(PreHeader::ReleaseCandidate(b.number()))
                == Ordering::Less,
            a.rank() < b.rank() ==> a.compare(b) == Ordering::Less,
    {}

    /// Within one kind a missing number sorts below every present one, and
    /// present numbers sort by value.
    pub proof fn number_within_kind(a: Self, b: Self)
        requires
            a.rank() == b.rank(),
        ensures
            a.compare(b) == optional_order(a.number(), b.number()),
    {}

    /// Every segment compares `Equal` to itself.
    pub proof fn compare_reflexive(a: Self)
        ensures
            a.compare(a) == Ordering::Equal,
    {}

    /// Exchanging the sides reverses the outcome; two segments compare
    /// `Equal` exactly when they are the same.
    pub proof fn compare_antisymmetric(a: Self, b: Self)
        ensures
            b.compare(a) == reversed(a.compare(b)),
            a.compare(b) == Ordering::Equal <==> a == b,
    {}

    /// The order is transitive, and strict as soon as one step is.
    pub proof fn compare_transitive(a: Self, b: Self, c: Self)
        requires
            at_most(a.compare(b)),
            at_most(b.compare(c)),
        ensures
            at_most(a.compare(c)),
            a.compare(c) == Ordering::Equal ==> a.compare(b) == Ordering::Equal && b.compare(c)
                == Ordering::Equal,
    {}
}

impl PartialOrdSpecImpl for PreHeader {
    open spec fn obeys_partial_cmp_spec() -> bool {
        true
    }

    open spec fn partial_cmp_spec(&self, other: &Self) -> Option<Ordering> {
        Some(self.compare(*other))
    }
}

impl PartialOrd for PreHeader {
    fn partial_cmp(&self, other: &Self) -> (r: Option<Ordering>) {
        Some(self.cmp(other))
    }
}

} // verus!
