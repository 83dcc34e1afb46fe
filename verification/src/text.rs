//! Reading numbers from the pieces of a version string.

use vstd::prelude::*;

verus! {

/// Whether `c` is one of the ten decimal digits.
pub open spec fn is_digit(c: char) -> bool {
    '0' <= c && c <= '9'
}

/// The number a decimal digit stands for.
pub open spec fn digit_value(c: char) -> nat {
    (c as u32 - '0' as u32) as nat
}

/// Whether `s` is a non-empty run of decimal digits.
pub open spec fn is_digit_run(s: Seq<char>) -> bool {
    &&& s.len() > 0
    &&& forall|i: int| 0 <= i < s.len() ==> is_digit(#[trigger] s[i])
}

/// The number that a run of decimal digits denotes, most significant digit
/// first.
pub open spec fn decimal_value(s: Seq<char>) -> nat
    decreases s.len(),
{
    if s.len() == 0 {
        0
    } else {
        decimal_value(s.drop_last()) * 10 + digit_value(s.last())
    }
}

/// What reading a piece of text as a number gives.
#[derive(Clone, Copy, Debug, PartialEq, Eq, Structural)]
pub enum Number {
    /// The text is a run of digits and this is its value.
    Fits(u32),
    /// The text is a run of digits whose value is above `u32::MAX`.
    TooLarge,
    /// The text is empty or holds something that is no digit.
    NotDigits,
}

/// The reading of `s` as a number.
pub open spec fn read_number(s: Seq<char>) -> Number {
    if !is_digit_run(s) {
        Number::NotDigits
    } else if decimal_value(s) > u32::MAX {
        Number::TooLarge
    } else {
        Number::Fits(decimal_value(s) as u32)
    }
}

/// Where the dot-separated component that starts at `from` ends: the place
/// of the first `.` at or behind `from`, or the end of `s`.
pub open spec fn component_end(s: Seq<char>, from: int) -> int
    decreases s.len() - from,
{
    if 0 <= from < s.len() && s[from] != '.' {
        component_end(s, from + 1)
    } else {
        from
    }
}

/// The first dot-separated component of `s`.
pub open spec fn first_component(s: Seq<char>) -> Seq<char> {
    s.subrange(0, component_end(s, 0))
}

/// The second dot-separated component of `s`, where `s` holds a dot.
pub open spec fn second_component(s: Seq<char>) -> Option<Seq<char>> {
    let dot = component_end(s, 0);
    if dot < s.len() {
        Some(s.subrange(dot + 1, component_end(s, dot + 1)))
    } else {
        None
    }
}

/// A longer run of digits denotes no smaller number than the run without
/// its last digit.
proof fn decimal_value_grows(s: Seq<char>, i: int)
    requires
        0 <= i < s.len(),
        is_digit(s[i]),
    ensures
        decimal_value(s.take(i + 1)) == decimal_value(s.take(i)) * 10 + digit_value(s[i]),
        decimal_value(s.take(i + 1)) >= decimal_value(s.take(i)),
{
    assert(s.take(i + 1).drop_last() =~= s.take(i));
}

/// A component reaches from its start to the first dot behind it, or to
/// the end: it holds no dot, and what follows it is a dot or nothing.
pub proof fn component_end_is_first_dot(s: Seq<char>, from: int)
    requires
        0 <= from <= s.len(),
    ensures
        from <= component_end(s, from) <= s.len(),
        forall|i: int| from <= i < component_end(s, from) ==> s[i] != '.',
        component_end(s, from) < s.len() ==> s[component_end(s, from)] == '.',
    decreases s.len() - from,
{
    if from < s.len() && s[from] != '.' {
        component_end_is_first_dot(s, from + 1);
    }
}

/// Tells whether `c` is a decimal digit.
pub fn digit(c: char) -> (r: bool)
    ensures
        r == is_digit(c),
{
    '0' <= c && c <= '9'
}

/// The characters of `s`, in order.
pub fn chars_of(s: &str) -> (v: Vec<char>)
    ensures
        v@ == s@,
{
    broadcast use vstd::string::group_string_axioms;

    let mut v: Vec<char> = Vec::new();
    for c in it: s.chars()
        invariant
            it.seq() == s@,
            v@ == s@.take(it.index() as int),
    {
        v.push(c);
    }
    v
}

/// The reading of the characters of `s` from `from` up to `to` as a number;
/// places that are not in `s` hold no digits.
pub open spec fn read_number_between(s: Seq<char>, from: int, to: int) -> Number {
    if 0 <= from <= to <= s.len() {
        read_number(s.subrange(from, to))
    } else {
        Number::NotDigits
    }
}

/// Reads the characters of `chars` from `from` up to `to` as a number.
pub fn number_between(chars: &Vec<char>, from: usize, to: usize) -> (r: Number)
    ensures
        r == read_number_between(chars@, from as int, to as int),
{
    if from >= to || to > chars.len() {
        return Number::NotDigits;
    }
    let ghost run = chars@.subrange(from as int, to as int);
    let mut value: u64 = 0;
    let mut too_large = false;
    let mut i: usize = from;
    while i < to
        invariant
            from <= i <= to <= chars.len(),
            run == chars@.subrange(from as int, to as int),
            forall|j: int| 0 <= j < i - from ==> is_digit(#[trigger] run[j]),
            !too_large ==> value == decimal_value(run.take(i - from)) && value <= u32::MAX,
            too_large ==> decimal_value(run.take(i - from)) > u32::MAX,
        decreases to - i,
    {
        let c = chars[i];
        assert(run[i - from] == c);
        if !digit(c) {
            return Number::NotDigits;
        }
        proof {
            decimal_value_grows(run, i - from);
        }
        if !too_large {
            let units: u64 = (c as u32 - '0' as u32) as u64;
            value = value * 10 + units;
            if value > u32::MAX as u64 {
                too_large = true;
            }
        }
        i = i + 1;
    }
    assert(run.take(to - from) =~= run);
    if too_large {
        Number::TooLarge
    } else {
        Number::Fits(value as u32)
    }
}

/// Reads `s` as a number.
pub fn parse_number(s: &str) -> (r: Number)
    ensures
        r == read_number(s@),
{
    let chars = chars_of(s);
    assert(chars@.subrange(0, chars@.len() as int) =~= s@);
    number_between(&chars, 0, chars.len())
}

/// Finds where the dot-separated component that starts at `from` ends.
pub fn find_component_end(chars: &Vec<char>, from: usize) -> (end: usize)
    ensures
        end == component_end(chars@, from as int),
        from <= end,
        from <= chars.len() ==> end <= chars.len(),
{
    let mut i: usize = from;
    while i < chars.len() && chars[i] != '.'
        invariant
            from <= i,
            from <= chars.len() ==> i <= chars.len(),
            component_end(chars@, from as int) == component_end(chars@, i as int),
        decreases chars.len() - i,
    {
        i = i + 1;
    }
    i
}

/// Reads the first two dot-separated components of `s` as numbers; the
/// second reading is absent where `s` holds no dot.
pub fn parse_components(s: &str) -> (r: (Number, Option<Number>))
    ensures
        r.0 == read_number(first_component(s@)),
        r.1 == match second_component(s@) {
            Some(text) => Some(read_number(text)),
            None => None,
        },
{
    let chars = chars_of(s);
    let dot: usize = find_component_end(&chars, 0);
    let first = number_between(&chars, 0, dot);
    if dot < chars.len() {
        let end: usize = find_component_end(&chars, dot + 1);
        (first, Some(number_between(&chars, dot + 1, end)))
    } else {
        (first, None)
    }
}

} // verus!
