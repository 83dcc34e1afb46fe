//! Three-way comparison of the numbers that version segments are made of.

use core::cmp::Ordering;
use vstd::prelude::*;

verus! {

/// How two numbers stand to each other.
pub open spec fn number_order(a: u32, b: u32) -> Ordering {
    if a < b {
        Ordering::Less
    } else if a == b {
        Ordering::Equal
    } else {
        Ordering::Greater
    }
}

/// How two optional numbers stand to each other: an absent number sorts below
/// every present one, zero included, and two present numbers sort by value.
pub open spec fn optional_order(a: Option<u32>, b: Option<u32>) -> Ordering {
    match (a, b) {
        (None, None) => Ordering::Equal,
        (None, Some(_)) => Ordering::Less,
        (Some(_), None) => Ordering::Greater,
        (Some(x), Some(y)) => number_order(x, y),
    }
}

/// Lexicographic combination: `first` decides unless it is `Equal`, in which
/// case `rest` does.
pub open spec fn lexicographic(first: Ordering, rest: Ordering) -> Ordering {
    match first {
        Ordering::Equal => rest,
        _ => first,
    }
}

/// The outcome of the same comparison with its sides exchanged.
pub open spec fn reversed(o: Ordering) -> Ordering {
    match o {
        Ordering::Less => Ordering::Greater,
        Ordering::Equal => Ordering::Equal,
        Ordering::Greater => Ordering::Less,
    }
}

/// Whether an outcome is `Less` or `Equal`.
pub open spec fn at_most(o: Ordering) -> bool {
    o != Ordering::Greater
}

pub fn compare_numbers(a: u32, b: u32) -> (r: Ordering)
    ensures
        r == number_order(a, b),
{
    if a < b {
        Ordering::Less
    } else if a == b {
        Ordering::Equal
    } else {
        Ordering::Greater
    }
}

pub fn compare_optional(a: Option<u32>, b: Option<u32>) -> (r: Ordering)
    ensures
        r == optional_order(a, b),
{
    match (a, b) {
        (None, None) => Ordering::Equal,
        (None, Some(_)) => Ordering::Less,
        (Some(_), None) => Ordering::Greater,
        (Some(x), Some(y)) => compare_numbers(x, y),
    }
}

pub fn chain(first: Ordering, rest: Ordering) -> (r: Ordering)
    ensures
        r == lexicographic(first, rest),
{
    match first {
        Ordering::Equal => rest,
        _ => first,
    }
}

} // verus!
