//! Release segment.

use crate::order::{at_most, chain, compare_numbers, lexicographic, number_order, reversed};
use core::cmp::Ordering;
use vstd::prelude::*;
use vstd::std_specs::cmp::PartialOrdSpecImpl;

verus! {

/// Release numbers: the `1.0` of `1.0rc1`.
#[derive(Clone, Copy, Debug, Hash, PartialEq, Eq, Structural)]
pub struct ReleaseHeader {
    /// Major release number.
    pub major: u32,
    /// Minor release number; zero where the version names none.
    pub minor: u32,
}

impl ReleaseHeader {
    /// How `self` stands to `other`: by major number, then by minor number.
    pub open spec fn compare(self, other: Self) -> Ordering {
        lexicographic(number_order(self.major, other.major), number_order(self.minor, other.minor))
    }

    /// Three-way comparison.
    pub fn cmp(&self, other: &Self) -> (r: Ordering)
        ensures
            r == self.compare(*other),
    {
        chain(compare_numbers(self.major, other.major), compare_numbers(self.minor, other.minor))
    }

    /// A smaller major number sorts first, whatever the minor numbers; with
    /// the same major number the minor numbers decide.
    pub proof fn major_then_minor(a: Self, b: Self)
        ensures
            a.major < b.major ==> a.compare(b) == Ordering::Less,
            a.major == b.major && a.minor < b.minor ==> a.compare(b) == Ordering::Less,
            a.compare(b) == Ordering::Less ==> a.major < b.major || (a.major == b.major && a.minor
                < b.minor),
    {}

    /// Every release compares `Equal` to itself.
    pub proof fn compare_reflexive(a: Self)
        ensures
            a.compare(a) == Ordering::Equal,
    {}

    /// Exchanging the sides reverses the outcome; two releases compare
    /// `Equal` exactly when they are the same.
    pub proof fn compare_antisymmetric(a: Self, b: Self)
        ensures
            b.compare(a) == reversed(a.compare(b)),
            a.compare(b) == Ordering::Equal <==> a == b,
    {}

    /// The order is transitive, and strict as soon as one step is.
    pub proof fn compare_transitive(a: Self, b: Self, c: Self)
        requires
            at_most(a.compare(b)),
            at_most(b.compare(c)),
        ensures
            at_most(a.compare(c)),
            a.compare(c) == Ordering::Equal ==> a.compare(b) == Ordering::Equal && b.compare(c)
                == Ordering::Equal,
    {}
}

impl PartialOrdSpecImpl for ReleaseHeader {
    open spec fn obeys_partial_cmp_spec() -> bool {
        true
    }

    open spec fn partial_cmp_spec(&self, other: &Self) -> Option<Ordering> {
        Some(self.compare(*other))
    }
}

impl PartialOrd for ReleaseHeader {
    fn partial_cmp(&self, other: &Self) -> (r: Option<Ordering>) {
        Some(self.cmp(other))
    }
}

} // verus!
