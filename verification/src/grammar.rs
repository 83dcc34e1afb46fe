//! The version grammar, and the check that the groups of a match follow it.
//!
//! ```text
//! version      := "v"? (epoch "!")? release pre_part? post_part? dev_part? local_part?
//! epoch        := digit+
//! release      := digit+ ("." digit+)*
//! pre_part     := sep? pre_keyword sep? digit*
//! post_part    := "-" digit+ | sep? post_keyword sep? digit*
//! dev_part     := sep? "dev" sep? digit*
//! local_part   := "+" alnum+ (sep alnum+)*
//! sep          := "-" | "_" | "."
//! ```
//!
//! Letters count in either case. The regular expression engine finds the
//! parts of a string; what it hands out is accepted only where the parts,
//! put together again, are the string, and each part has the shape that the
//! grammar gives it.

use crate::captures::{text_of, CaptureSet, CaptureSetView};
use crate::keywords::{
    is_keyword, letter_matches, post_head, post_head_of, pre_header, pre_header_of, same_letter,
    spells,
};
use crate::text::{
    chars_of, component_end, component_end_is_first_dot, digit, first_component, is_digit,
    is_digit_run, number_between, second_component, Number,
};
use vstd::prelude::*;

verus! {

/// Whether `c` is one of the separators `-`, `_` and `.`.
pub open spec fn is_separator(c: char) -> bool {
    c == '-' || c == '_' || c == '.'
}

/// Whether `c` is an ASCII letter, in either case, or a decimal digit.
pub open spec fn is_alphanumeric(c: char) -> bool {
    is_digit(c) || ('a' <= c && c <= 'z') || ('A' <= c && c <= 'Z')
}

/// Whether `s` is a release: runs of digits with single dots between them.
/// It starts with a digit, and every character is a digit or a dot with a
/// digit right behind it.
pub open spec fn is_release(s: Seq<char>) -> bool {
    &&& s.len() > 0
    &&& is_digit(s[0])
    &&& forall|i: int|
        0 <= i < s.len() ==> is_digit(#[trigger] s[i]) || (s[i] == '.' && i + 1 < s.len()
            && is_digit(s[i + 1]))
}

/// Whether `s` is a local version: runs of letters and digits with single
/// separators between them. It starts with a letter or digit, and every
/// character is a letter, a digit, or a separator with a letter or digit
/// right behind it.
pub open spec fn is_local(s: Seq<char>) -> bool {
    &&& s.len() > 0
    &&& is_alphanumeric(s[0])
    &&& forall|i: int|
        0 <= i < s.len() ==> is_alphanumeric(#[trigger] s[i]) || (is_separator(s[i]) && i + 1
            < s.len() && is_alphanumeric(s[i + 1]))
}

/// The number of separators that stand at place `at` of `s`: one or none.
pub open spec fn separators_at(s: Seq<char>, at: int) -> int {
    if 0 <= at < s.len() && is_separator(s[at]) {
        1
    } else {
        0
    }
}

/// The digits of an optional number: none for a missing one.
pub open spec fn digits_of(number: Option<Seq<char>>) -> Seq<char> {
    match number {
        Some(digits) => digits,
        None => Seq::empty(),
    }
}

/// Whether `part` is laid out as a keyword part: an optional separator,
/// `keyword`, an optional separator, and the digits of `number`, which are
/// a run of digits where the number is present.
pub open spec fn is_keyword_part(
    part: Seq<char>,
    keyword: Seq<char>,
    number: Option<Seq<char>>,
) -> bool {
    let start = separators_at(part, 0);
    let end = start + keyword.len();
    let digits = end + separators_at(part, end);
    &&& end <= part.len()
    &&& part.subrange(start, end) == keyword
    &&& part.subrange(digits, part.len() as int) == digits_of(number)
    &&& number matches Some(run) ==> is_digit_run(run)
}

/// Whether the pre-release groups are those of a pre-release part, or all
/// absent.
pub open spec fn pre_follows(caps: CaptureSetView) -> bool {
    match caps.pre {
        None => caps.pre_l is None && caps.pre_n is None,
        Some(part) => {
            &&& caps.pre_l matches Some(keyword)
            &&& pre_header_of(keyword, None) is Some
            &&& is_keyword_part(part, keyword, caps.pre_n)
        },
    }
}

/// Whether the post-release groups are those of a post-release part, in
/// one of its two forms, or all absent.
pub open spec fn post_follows(caps: CaptureSetView) -> bool {
    match caps.post {
        None => caps.post_n1 is None && caps.post_l is None && caps.post_n2 is None,
        Some(part) => match caps.post_n1 {
            Some(run) => {
                &&& caps.post_l is None
                &&& caps.post_n2 is None
                &&& is_digit_run(run)
                &&& part == seq!['-'] + run
            },
            None => {
                &&& caps.post_l matches Some(keyword)
                &&& post_head_of(keyword) is Some
                &&& is_keyword_part(part, keyword, caps.post_n2)
            },
        },
    }
}

/// Whether the developmental-release groups are those of a
/// developmental-release part, or all absent.
pub open spec fn dev_follows(caps: CaptureSetView) -> bool {
    match caps.dev {
        None => caps.dev_l is None && caps.dev_n is None,
        Some(part) => {
            &&& caps.dev_l matches Some(keyword)
            &&& spells(keyword, "dev"@)
            &&& is_keyword_part(part, keyword, caps.dev_n)
        },
    }
}

/// The text of an optional part: nothing for a missing one.
pub open spec fn part_of(part: Option<Seq<char>>) -> Seq<char> {
    match part {
        Some(text) => text,
        None => Seq::empty(),
    }
}

/// The epoch with its `!`, or nothing.
pub open spec fn epoch_part(caps: CaptureSetView) -> Seq<char> {
    match caps.epoch {
        Some(digits) => digits + seq!['!'],
        None => Seq::empty(),
    }
}

/// The local version with its `+`, or nothing.
pub open spec fn local_part(caps: CaptureSetView) -> Seq<char> {
    match caps.local {
        Some(text) => seq!['+'] + text,
        None => Seq::empty(),
    }
}

/// The parts of a version put together, without a leading `v`.
pub open spec fn spelled(caps: CaptureSetView) -> Seq<char> {
    epoch_part(caps) + part_of(caps.release) + part_of(caps.pre) + part_of(caps.post) + part_of(
        caps.dev,
    ) + local_part(caps)
}

/// Whether the groups `caps` take `input` apart as the grammar says: each
/// group has the shape of its part, and the parts put together are
/// `input`, but for a leading `v` or `V`.
pub open spec fn follows_grammar(input: Seq<char>, caps: CaptureSetView) -> bool {
    &&& caps.epoch matches Some(digits) ==> is_digit_run(digits)
    &&& caps.release matches Some(release) && is_release(release)
    &&& pre_follows(caps)
    &&& post_follows(caps)
    &&& dev_follows(caps)
    &&& caps.local matches Some(local) ==> is_local(local)
    &&& input == spelled(caps) || (input.len() > 0 && same_letter(input[0], 'v') && input.skip(1)
        == spelled(caps))
}

/// Whether `input` is in the version grammar: there are groups that take it
/// apart as the grammar says.
pub open spec fn in_grammar(input: Seq<char>) -> bool {
    exists|caps: CaptureSetView| follows_grammar(input, caps)
}

/// The first component of a release is a run of digits, and so is the
/// second, where there is one.
pub proof fn release_components_are_numbers(s: Seq<char>)
    requires
        is_release(s),
    ensures
        is_digit_run(first_component(s)),
        second_component(s) matches Some(second) ==> is_digit_run(second),
{
    let dot = component_end(s, 0);
    component_end_is_first_dot(s, 0);
    if dot < s.len() {
        component_end_is_first_dot(s, dot + 1);
    }
}

/// Tells whether `c` is a separator.
pub fn separator(c: char) -> (r: bool)
    ensures
        r == is_separator(c),
{
    c == '-' || c == '_' || c == '.'
}

/// Tells whether `c` is an ASCII letter or a decimal digit.
pub fn alphanumeric(c: char) -> (r: bool)
    ensures
        r == is_alphanumeric(c),
{
    digit(c) || ('a' <= c && c <= 'z') || ('A' <= c && c <= 'Z')
}

/// Tells whether `chars` is a non-empty run of digits.
pub fn check_digit_run(chars: &Vec<char>) -> (r: bool)
    ensures
        r == is_digit_run(chars@),
{
    assert(chars@.subrange(0, chars@.len() as int) =~= chars@);
    match number_between(chars, 0, chars.len()) {
        Number::NotDigits => false,
        _ => true,
    }
}

/// Tells whether `chars` is a release.
pub fn check_release(chars: &Vec<char>) -> (r: bool)
    ensures
        r == is_release(chars@),
{
    if chars.len() == 0 || !digit(chars[0]) {
        return false;
    }
    let mut i: usize = 0;
    while i < chars.len()
        invariant
            i <= chars.len(),
            forall|j: int|
                0 <= j < i ==> is_digit(#[trigger] chars@[j]) || (chars@[j] == '.' && j + 1
                    < chars@.len() && is_digit(chars@[j + 1])),
        decreases chars.len() - i,
    {
        let c = chars[i];
        if !digit(c) && !(c == '.' && i + 1 < chars.len() && digit(chars[i + 1])) {
            return false;
        }
        i = i + 1;
    }
    true
}

/// Tells whether `chars` is a local version.
pub fn check_local(chars: &Vec<char>) -> (r: bool)
    ensures
        r == is_local(chars@),
{
    if chars.len() == 0 || !alphanumeric(chars[0]) {
        return false;
    }
    let mut i: usize = 0;
    while i < chars.len()
        invariant
            i <= chars.len(),
            forall|j: int|
                0 <= j < i ==> is_alphanumeric(#[trigger] chars@[j]) || (is_separator(chars@[j])
                    && j + 1 < chars@.len() && is_alphanumeric(chars@[j + 1])),
        decreases chars.len() - i,
    {
        let c = chars[i];
        if !alphanumeric(c) && !(separator(c) && i + 1 < chars.len() && alphanumeric(
            chars[i + 1],
        )) {
            return false;
        }
        i = i + 1;
    }
    true
}

/// Whether the characters of `whole` from `from` up to `to` are those of
/// `piece`; places that are not in `whole` hold no characters.
pub open spec fn is_between(whole: Seq<char>, from: int, to: int, piece: Seq<char>) -> bool {
    0 <= from <= to <= whole.len() && whole.subrange(from, to) == piece
}

/// Tells whether the characters of `whole` from `from` up to `to` are those
/// of `piece`.
pub fn same_between(whole: &Vec<char>, from: usize, to: usize, piece: &Vec<char>) -> (r: bool)
    ensures
        r == is_between(whole@, from as int, to as int, piece@),
{
    if from > to || to > whole.len() || to - from != piece.len() {
        return false;
    }
    let ghost range = whole@.subrange(from as int, to as int);
    let mut i: usize = 0;
    while i < piece.len()
        invariant
            from <= to <= whole.len(),
            to - from == piece.len(),
            i <= piece.len(),
            range == whole@.subrange(from as int, to as int),
            forall|j: int| 0 <= j < i ==> range[j] == piece@[j],
        decreases piece.len() - i,
    {
        if whole[from + i] != piece[i] {
            return false;
        }
        i = i + 1;
    }
    assert(range =~= piece@);
    true
}

/// Tells whether `part` is laid out as a keyword part with `keyword` and
/// `number`.
pub fn check_keyword_part(part: &Vec<char>, keyword: &Vec<char>, number: &Option<String>) -> (r:
    bool)
    ensures
        r == is_keyword_part(part@, keyword@, text_of(*number)),
{
    let start: usize = if part.len() > 0 && separator(part[0]) {
        1
    } else {
        0
    };
    if keyword.len() > part.len() - start {
        return false;
    }
    let end: usize = start + keyword.len();
    if !same_between(part, start, end, keyword) {
        return false;
    }
    let digits: usize = if end < part.len() && separator(part[end]) {
        end + 1
    } else {
        end
    };
    match number {
        None => {
            let ghost tail = part@.subrange(digits as int, part@.len() as int);
            assert(tail.len() == part.len() - digits);
            assert(digits == part.len() ==> tail =~= Seq::<char>::empty());
            digits == part.len()
        },
        Some(text) => {
            let run = chars_of(text.as_str());
            check_digit_run(&run) && same_between(part, digits, part.len(), &run)
        },
    }
}

/// Appends the characters of `text` to `to`.
pub fn append_text(to: &mut Vec<char>, text: &str)
    ensures
        final(to)@ == old(to)@ + text@,
{
    let chars = chars_of(text);
    let mut i: usize = 0;
    while i < chars.len()
        invariant
            i <= chars.len(),
            chars@ == text@,
            to@ == old(to)@ + text@.take(i as int),
        decreases chars.len() - i,
    {
        to.push(chars[i]);
        i = i + 1;
    }
}

/// Appends the text of an optional part to `to`.
pub fn append_part(to: &mut Vec<char>, part: &Option<String>)
    ensures
        final(to)@ == old(to)@ + part_of(text_of(*part)),
{
    match part {
        Some(text) => append_text(to, text.as_str()),
        None => {},
    }
}

/// Puts the parts of a version together, without a leading `v`.
pub fn spell(caps: &CaptureSet) -> (r: Vec<char>)
    ensures
        r@ == spelled(caps@),
{
    let mut whole: Vec<char> = Vec::new();
    match &caps.epoch {
        Some(digits) => {
            append_text(&mut whole, digits.as_str());
            whole.push('!');
        },
        None => {},
    }
    append_part(&mut whole, &caps.release);
    append_part(&mut whole, &caps.pre);
    append_part(&mut whole, &caps.post);
    append_part(&mut whole, &caps.dev);
    match &caps.local {
        Some(text) => {
            whole.push('+');
            append_text(&mut whole, text.as_str());
        },
        None => {},
    }
    whole
}

/// Tells whether the pre-release groups follow the grammar.
pub fn check_pre(caps: &CaptureSet) -> (r: bool)
    ensures
        r == pre_follows(caps@),
{
    match (&caps.pre, &caps.pre_l) {
        (None, _) => caps.pre_l.is_none() && caps.pre_n.is_none(),
        (Some(_), None) => false,
        (Some(part), Some(keyword)) => pre_header(keyword.as_str(), None).is_some()
            && check_keyword_part(
            &chars_of(part.as_str()),
            &chars_of(keyword.as_str()),
            &caps.pre_n,
        ),
    }
}

/// Tells whether the post-release groups follow the grammar.
pub fn check_post(caps: &CaptureSet) -> (r: bool)
    ensures
        r == post_follows(caps@),
{
    match &caps.post {
        None => caps.post_n1.is_none() && caps.post_l.is_none() && caps.post_n2.is_none(),
        Some(part) => match &caps.post_n1 {
            Some(digits) => {
                if caps.post_l.is_some() || caps.post_n2.is_some() {
                    return false;
                }
                let run = chars_of(digits.as_str());
                let mut expected: Vec<char> = Vec::new();
                expected.push('-');
                append_text(&mut expected, digits.as_str());
                let whole = chars_of(part.as_str());
                assert(whole@.subrange(0, whole@.len() as int) =~= whole@);
                check_digit_run(&run) && same_between(&whole, 0, whole.len(), &expected)
            },
            None => match &caps.post_l {
                None => false,
                Some(keyword) => post_head(keyword.as_str()).is_some() && check_keyword_part(
                    &chars_of(part.as_str()),
                    &chars_of(keyword.as_str()),
                    &caps.post_n2,
                ),
            },
        },
    }
}

/// Tells whether the developmental-release groups follow the grammar.
pub fn check_dev(caps: &CaptureSet) -> (r: bool)
    ensures
        r == dev_follows(caps@),
{
    match (&caps.dev, &caps.dev_l) {
        (None, _) => caps.dev_l.is_none() && caps.dev_n.is_none(),
        (Some(_), None) => false,
        (Some(part), Some(keyword)) => {
            let word = chars_of(keyword.as_str());
            is_keyword(&word, "dev") && check_keyword_part(
                &chars_of(part.as_str()),
                &word,
                &caps.dev_n,
            )
        },
    }
}

/// Tells whether the groups `caps` take `version` apart as the grammar
/// says.
pub fn check(version: &str, caps: &CaptureSet) -> (r: bool)
    ensures
        r == follows_grammar(version@, caps@),
{
    let epoch_fits = match &caps.epoch {
        Some(digits) => check_digit_run(&chars_of(digits.as_str())),
        None => true,
    };
    let release_fits = match &caps.release {
        Some(text) => check_release(&chars_of(text.as_str())),
        None => false,
    };
    let local_fits = match &caps.local {
        Some(text) => check_local(&chars_of(text.as_str())),
        None => true,
    };
    if !(epoch_fits && release_fits && check_pre(caps) && check_post(caps) && check_dev(caps)
        && local_fits) {
        return false;
    }
    let input = chars_of(version);
    let whole = spell(caps);
    assert(input@.subrange(0, input@.len() as int) =~= input@);
    if same_between(&input, 0, input.len(), &whole) {
        return true;
    }
    if input.len() == 0 {
        return false;
    }
    letter_matches(input[0], 'v') && same_between(&input, 1, input.len(), &whole)
}

} // verus!
