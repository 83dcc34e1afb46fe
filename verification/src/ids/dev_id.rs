//! Developmental-release segment.

use crate::order::{at_most, compare_optional, optional_order, reversed};
use core::cmp::Ordering;
use vstd::prelude::*;
use vstd::std_specs::cmp::PartialOrdSpecImpl;

verus! {

/// Developmental-release segment, as in `1.0.dev456` or `1.0rc1.dev1`.
///
/// `dev_num` is the number behind the keyword; it is absent where the keyword
/// stands alone.
#[derive(Clone, Copy, Debug, Hash, PartialEq, Eq, Structural)]
pub struct DevHead {
    pub dev_num: Option<u32>,
}

impl DevHead {
    /// How `self` stands to `other`: by number, a missing number below every
    /// present one.
    pub open spec fn compare(self, other: Self) -> Ordering {
        optional_order(self.dev_num, other.dev_num)
    }

    /// How two optional segments stand to each other: no segment sorts below
    /// any segment.
    pub open spec fn compare_optional(a: Option<Self>, b: Option<Self>) -> Ordering {
        match (a, b) {
            (None, None) => Ordering::Equal,
            (None, Some(_)) => Ordering::Less,
            (Some(_), None) => Ordering::Greater,
            (Some(x), Some(y)) => x.compare(y),
        }
    }

    /// Three-way comparison.
    pub fn cmp(&self, other: &Self) -> (r: Ordering)
        ensures
            r == self.compare(*other),
    {
        compare_optional(self.dev_num, other.dev_num)
    }

    /// Three-way comparison of optional segments.
    pub fn cmp_optional(a: &Option<Self>, b: &Option<Self>) -> (r: Ordering)
        ensures
            r == Self::compare_optional(*a, *b),
    {
        match (a, b) {
            (None, None) => Ordering::Equal,
            (None, Some(_)) => Ordering::Less,
            (Some(_), None) => Ordering::Greater,
            (Some(x), Some(y)) => x.cmp(y),
        }
    }

    /// A segment without a number sorts below one with any number.
    pub proof fn absent_below_present(n: u32)
        ensures
            (DevHead { dev_num: None }).compare(DevHead { dev_num: Some(n) }) == Ordering::Less,
    {}

    /// Segments with numbers sort as their numbers do.
    pub proof fn numbers_in_order(a: u32, b: u32)
        ensures
            a < b <==> (DevHead { dev_num: Some(a) }).compare(DevHead { dev_num: Some(b) })
                == Ordering::Less,
            a == b <==> (DevHead { dev_num: Some(a) }).compare(DevHead { dev_num: Some(b) })
                == Ordering::Equal,
    {}

    /// Every segment compares `Equal` to itself.
    pub proof fn compare_reflexive(a: Self)
        ensures
            a.compare(a) == Ordering::Equal,
    {}

    /// Exchanging the sides reverses the outcome; two segments that compare
    /// `Equal` hold the same number.
    pub proof fn compare_antisymmetric(a: Self, b: Self)
        ensures
            b.compare(a) == reversed(a.compare(b)),
            a.compare(b) == Ordering::Equal <==> a == b,
    {}

    /// The order is transitive, and strict as soon as one step is.
    pub proof fn compare_transitive(a: Self, b: Self, c: Self)
        requires
            at_most(a.compare(b)),
            at_most(b.compare(c)),
        ensures
            at_most(a.compare(c)),
            a.compare(c) == Ordering::Equal ==> a.compare(b) == Ordering::Equal && b.compare(c)
                == Ordering::Equal,
    {}
}

impl PartialOrdSpecImpl for DevHead {
    open spec fn obeys_partial_cmp_spec() -> bool {
        true
    }

    open spec fn partial_cmp_spec(&self, other: &Self) -> Option<Ordering> {
        Some(self.compare(*other))
    }
}

impl PartialOrd for DevHead {
    fn partial_cmp(&self, other: &Self) -> (r: Option<Ordering>) {
        Some(self.cmp(other))
    }
}

} // verus!
