//! Reading the fields of a version from the groups of a match.

use crate::captures::{text_of, CaptureSet, CaptureSetView};
use crate::error::{NumericField, ParseError, ParseErrorView};
use crate::ids::{DevHead, PostHeader, PreHeader, ReleaseHeader};
use crate::keywords::{post_head, post_head_of, pre_header, pre_header_of};
use crate::text::{
    first_component, parse_components, parse_number, read_number, second_component, Number,
};
use vstd::prelude::*;

verus! {

/// The number that the text of a numeric field denotes: a `NumericOverflow`
/// for `field` where the text is a run of digits above `u32::MAX`, and a
/// `GrammarMismatch` where it is no run of digits.
pub open spec fn number_of(input: Seq<char>, text: Seq<char>, field: NumericField) -> Result<
    u32,
    ParseErrorView,
> {
    match read_number(text) {
        Number::Fits(n) => Ok(n),
        Number::TooLarge => Err(ParseErrorView::NumericOverflow { input, field }),
        Number::NotDigits => Err(ParseErrorView::GrammarMismatch { input }),
    }
}

/// The number of a numeric field that may be missing.
pub open spec fn optional_number_of(
    input: Seq<char>,
    text: Option<Seq<char>>,
    field: NumericField,
) -> Result<Option<u32>, ParseErrorView> {
    match text {
        None => Ok(None),
        Some(text) => match number_of(input, text, field) {
            Ok(n) => Ok(Some(n)),
            Err(e) => Err(e),
        },
    }
}

/// The release numbers in the `release` group: its first two dot-separated
/// components, with zero for a missing second one. Further components are
/// not looked at.
pub open spec fn release_of(input: Seq<char>, caps: CaptureSetView) -> Result<
    ReleaseHeader,
    ParseErrorView,
> {
    match caps.release {
        None => Err(ParseErrorView::GrammarMismatch { input }),
        Some(text) => match number_of(input, first_component(text), NumericField::Major) {
            Err(e) => Err(e),
            Ok(major) => match second_component(text) {
                None => Ok(ReleaseHeader { major, minor: 0 }),
                Some(second) => match number_of(input, second, NumericField::Minor) {
                    Err(e) => Err(e),
                    Ok(minor) => Ok(ReleaseHeader { major, minor }),
                },
            },
        },
    }
}

/// The pre-release segment in the groups: none where the `pre` group is
/// absent; else the keyword of `pre_l` with the number of `pre_n`. A
/// missing or unknown keyword is a `GrammarMismatch`.
pub open spec fn pre_of(input: Seq<char>, caps: CaptureSetView) -> Result<
    Option<PreHeader>,
    ParseErrorView,
> {
    match caps.pre {
        None => Ok(None),
        Some(_) => match optional_number_of(input, caps.pre_n, NumericField::Pre) {
            Err(e) => Err(e),
            Ok(number) => match caps.pre_l {
                None => Err(ParseErrorView::GrammarMismatch { input }),
                Some(word) => match pre_header_of(word, number) {
                    None => Err(ParseErrorView::GrammarMismatch { input }),
                    Some(header) => Ok(Some(header)),
                },
            },
        },
    }
}

/// The number of the post-release segment: that of `post_n1` where the
/// group is present, else that of `post_n2`.
pub open spec fn post_number_of(input: Seq<char>, caps: CaptureSetView) -> Result<
    Option<u32>,
    ParseErrorView,
> {
    match caps.post_n1 {
        Some(text) => optional_number_of(input, Some(text), NumericField::Post),
        None => optional_number_of(input, caps.post_n2, NumericField::Post),
    }
}

/// The post-release segment in the groups: none where the `post` group is
/// absent; else the number of `post_n1` or `post_n2` with the keyword of
/// `post_l`, if there is one. An unknown keyword is a `GrammarMismatch`.
pub open spec fn post_of(input: Seq<char>, caps: CaptureSetView) -> Result<
    Option<PostHeader>,
    ParseErrorView,
> {
    match caps.post {
        None => Ok(None),
        Some(_) => match post_number_of(input, caps) {
            Err(e) => Err(e),
            Ok(post_num) => match caps.post_l {
                None => Ok(Some(PostHeader { post_head: None, post_num })),
                Some(word) => match post_head_of(word) {
                    None => Err(ParseErrorView::GrammarMismatch { input }),
                    Some(head) => Ok(Some(PostHeader { post_head: Some(head), post_num })),
                },
            },
        },
    }
}

/// The developmental-release segment in the groups: none where the `dev`
/// group is absent; else the number of `dev_n`. The keyword in `dev_l` is
/// not looked at.
pub open spec fn dev_of(input: Seq<char>, caps: CaptureSetView) -> Result<
    Option<DevHead>,
    ParseErrorView,
> {
    match caps.dev {
        None => Ok(None),
        Some(_) => match optional_number_of(input, caps.dev_n, NumericField::Dev) {
            Err(e) => Err(e),
            Ok(dev_num) => Ok(Some(DevHead { dev_num })),
        },
    }
}

/// Whether a result holds `expected`, the error taken by its view.
pub open spec fn holds<T>(r: Result<T, ParseError>, expected: Result<T, ParseErrorView>) -> bool {
    match expected {
        Ok(value) => r == Ok::<T, ParseError>(value),
        Err(e) => r matches Err(x) && x@ == e,
    }
}

/// Reads the text of a numeric field.
pub fn read_field(version: &str, text: &str, field: NumericField) -> (r: Result<u32, ParseError>)
    ensures
        holds(r, number_of(version@, text@, field)),
{
    match parse_number(text) {
        Number::Fits(n) => Ok(n),
        Number::TooLarge => Err(ParseError::overflow(version, field)),
        Number::NotDigits => Err(ParseError::mismatch(version)),
    }
}

/// Reads the text of a numeric field that may be missing.
pub fn read_optional_field(version: &str, text: &Option<String>, field: NumericField) -> (r:
    Result<Option<u32>, ParseError>)
    ensures
        holds(r, optional_number_of(version@, text_of(*text), field)),
{
    match text {
        None => Ok(None),
        Some(text) => match read_field(version, text.as_str(), field) {
            Ok(n) => Ok(Some(n)),
            Err(e) => Err(e),
        },
    }
}

/// Reads the release numbers from the groups of a match.
pub fn read_release(version: &str, caps: &CaptureSet) -> (r: Result<ReleaseHeader, ParseError>)
    ensures
        holds(r, release_of(version@, caps@)),
{
    match &caps.release {
        None => Err(ParseError::mismatch(version)),
        Some(text) => {
            let (first, second) = parse_components(text.as_str());
            match first {
                Number::TooLarge => Err(ParseError::overflow(version, NumericField::Major)),
                Number::NotDigits => Err(ParseError::mismatch(version)),
                Number::Fits(major) => match second {
                    None => Ok(ReleaseHeader { major, minor: 0 }),
                    Some(Number::TooLarge) => Err(
                        ParseError::overflow(version, NumericField::Minor),
                    ),
                    Some(Number::NotDigits) => Err(ParseError::mismatch(version)),
                    Some(Number::Fits(minor)) => Ok(ReleaseHeader { major, minor }),
                },
            }
        },
    }
}

/// Reads the pre-release segment from the groups of a match.
pub fn read_pre(version: &str, caps: &CaptureSet) -> (r: Result<Option<PreHeader>, ParseError>)
    ensures
        holds(r, pre_of(version@, caps@)),
{
    if caps.pre.is_none() {
        return Ok(None);
    }
    match read_optional_field(version, &caps.pre_n, NumericField::Pre) {
        Err(e) => Err(e),
        Ok(number) => match &caps.pre_l {
            None => Err(ParseError::mismatch(version)),
            Some(word) => match pre_header(word.as_str(), number) {
                None => Err(ParseError::mismatch(version)),
                Some(header) => Ok(Some(header)),
            },
        },
    }
}

/// Reads the post-release segment from the groups of a match.
pub fn read_post(version: &str, caps: &CaptureSet) -> (r: Result<Option<PostHeader>, ParseError>)
    ensures
        holds(r, post_of(version@, caps@)),
{
    if caps.post.is_none() {
        return Ok(None);
    }
    let number = if caps.post_n1.is_some() {
        read_optional_field(version, &caps.post_n1, NumericField::Post)
    } else {
        read_optional_field(version, &caps.post_n2, NumericField::Post)
    };
    match number {
        Err(e) => Err(e),
        Ok(post_num) => match &caps.post_l {
            None => Ok(Some(PostHeader { post_head: None, post_num })),
            Some(word) => match post_head(word.as_str()) {
                None => Err(ParseError::mismatch(version)),
                Some(head) => Ok(Some(PostHeader { post_head: Some(head), post_num })),
            },
        },
    }
}

/// Reads the developmental-release segment from the groups of a match.
pub fn read_dev(version: &str, caps: &CaptureSet) -> (r: Result<Option<DevHead>, ParseError>)
    ensures
        holds(r, dev_of(version@, caps@)),
{
    if caps.dev.is_none() {
        return Ok(None);
    }
    match read_optional_field(version, &caps.dev_n, NumericField::Dev) {
        Err(e) => Err(e),
        Ok(dev_num) => Ok(Some(DevHead { dev_num })),
    }
}
} // verus!
