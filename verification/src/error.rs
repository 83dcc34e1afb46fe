//! Why a string was not accepted as a version.

use vstd::prelude::*;

verus! {

/// The numeric fields of a version.
#[derive(Clone, Copy, Debug, Hash, PartialEq, Eq, Structural)]
pub enum NumericField {
    Epoch,
    Major,
    Minor,
    Pre,
    Post,
    Dev,
}

/// Why a string was not accepted as a version. Either way the error carries
/// the string as it was given.
#[derive(Debug, PartialEq, Eq)]
pub enum ParseError {
    /// The string is not a version.
    GrammarMismatch { input: String },
    /// The string is a version, but the number in `field` is above
    /// `u32::MAX`.
    NumericOverflow { input: String, field: NumericField },
}

/// What a [`ParseError`] holds, with the input as a sequence of characters.
pub enum ParseErrorView {
    GrammarMismatch { input: Seq<char> },
    NumericOverflow { input: Seq<char>, field: NumericField },
}

impl View for ParseError {
    type V = ParseErrorView;

    open spec fn view(&self) -> ParseErrorView {
        match *self {
            ParseError::GrammarMismatch { input } => ParseErrorView::GrammarMismatch {
                input: input@,
            },
            ParseError::NumericOverflow { input, field } => ParseErrorView::NumericOverflow {
                input: input@,
                field,
            },
        }
    }
}

impl Clone for ParseError {
    fn clone(&self) -> (r: Self)
        ensures
            r@ == self@,
    {
        match self {
            ParseError::GrammarMismatch { input } => ParseError::GrammarMismatch {
                input: input.clone(),
            },
            ParseError::NumericOverflow { input, field } => ParseError::NumericOverflow {
                input: input.clone(),
                field: *field,
            },
        }
    }
}

impl ParseError {
    /// The error for a string that is no version.
    pub fn mismatch(input: &str) -> (e: ParseError)
        ensures
            e@ == (ParseErrorView::GrammarMismatch { input: input@ }),
    {
        ParseError::GrammarMismatch { input: input.to_owned() }
    }

    /// The error for a version whose number in `field` is too large.
    pub fn overflow(input: &str, field: NumericField) -> (e: ParseError)
        ensures
            e@ == (ParseErrorView::NumericOverflow { input: input@, field }),
    {
        ParseError::NumericOverflow { input: input.to_owned(), field }
    }

    /// The string that was refused.
    pub fn input(&self) -> (s: &str)
        ensures
            s@ == match self@ {
                ParseErrorView::GrammarMismatch { input } => input,
                ParseErrorView::NumericOverflow { input, .. } => input,
            },
    {
        match self {
            ParseError::GrammarMismatch { input } => input.as_str(),
            ParseError::NumericOverflow { input, .. } => input.as_str(),
        }
    }
}

} // verus!
