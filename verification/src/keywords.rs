//! The keywords of the version grammar and what they stand for.

use crate::ids::{PostHead, PreHeader};
use crate::text::chars_of;
use vstd::prelude::*;

verus! {

/// Whether `c` is `letter`, or the upper-case ASCII letter of which
/// `letter` is the lower-case form.
pub open spec fn same_letter(c: char, letter: char) -> bool {
    c == letter || ('A' <= c && c <= 'Z' && c as u32 + 32 == letter as u32)
}

/// Whether `word` spells `keyword`, letter by letter, where an upper-case
/// ASCII letter of `word` also stands for its lower-case form.
pub open spec fn spells(word: Seq<char>, keyword: Seq<char>) -> bool {
    &&& word.len() == keyword.len()
    &&& forall|i: int| 0 <= i < word.len() ==> same_letter(#[trigger] word[i], keyword[i])
}

/// The first entry of `table` whose keyword `word` spells, the case of
/// ASCII letters ignored.
pub open spec fn found_in<T>(table: Seq<(&'static str, T)>, word: Seq<char>) -> Option<T>
    decreases table.len(),
{
    if table.len() == 0 {
        None
    } else if spells(word, table[0].0@) {
        Some(table[0].1)
    } else {
        found_in(table.drop_first(), word)
    }
}

/// The pre-release keywords, each with the kind it stands for: `alpha` and
/// `a` for `Alpha`, `beta` and `b` for `Beta`, `rc` and `c` for
/// `ReleaseCandidate`, `preview` and `pre` for `Preview`.
pub open spec fn pre_keywords() -> Seq<(&'static str, PreHeader)> {
    seq![
        ("alpha", PreHeader::Alpha(None)),
        ("a", PreHeader::Alpha(None)),
        ("beta", PreHeader::Beta(None)),
        ("b", PreHeader::Beta(None)),
        ("rc", PreHeader::ReleaseCandidate(None)),
        ("c", PreHeader::ReleaseCandidate(None)),
        ("preview", PreHeader::Preview(None)),
        ("pre", PreHeader::Preview(None)),
    ]
}

/// The post-release keywords, each with what it stands for: `post` for
/// `Post`, `rev` and `r` for `Rev`.
pub open spec fn post_keywords() -> Seq<(&'static str, PostHead)> {
    seq![("post", PostHead::Post), ("rev", PostHead::Rev), ("r", PostHead::Rev)]
}

/// The pre-release segment that a keyword and a number make, or nothing
/// where the word is no pre-release keyword.
pub open spec fn pre_header_of(word: Seq<char>, number: Option<u32>) -> Option<PreHeader> {
    match found_in(pre_keywords(), word) {
        Some(kind) => Some(kind.numbered(number)),
        None => None,
    }
}

/// The post-release keyword that a word stands for, or nothing where the
/// word is no post-release keyword.
pub open spec fn post_head_of(word: Seq<char>) -> Option<PostHead> {
    found_in(post_keywords(), word)
}

/// Tells whether `c` is `letter` or the upper-case form of it.
pub fn letter_matches(c: char, letter: char) -> (r: bool)
    ensures
        r == same_letter(c, letter),
{
    c == letter || ('A' <= c && c <= 'Z' && c as u32 + 32 == letter as u32)
}

/// Tells whether `word` spells `keyword`, the case of ASCII letters ignored.
pub fn is_keyword(word: &Vec<char>, keyword: &str) -> (r: bool)
    ensures
        r == spells(word@, keyword@),
{
    let letters = chars_of(keyword);
    if word.len() != letters.len() {
        return false;
    }
    let mut i: usize = 0;
    while i < word.len()
        invariant
            i <= word.len() == letters.len(),
            letters@ == keyword@,
            forall|j: int| 0 <= j < i ==> same_letter(#[trigger] word@[j], keyword@[j]),
        decreases word.len() - i,
    {
        if !letter_matches(word[i], letters[i]) {
            return false;
        }
        i = i + 1;
    }
    true
}

/// Looks `word` up in a table of keywords.
pub fn look_up<T: Copy, const N: usize>(table: &[(&'static str, T); N], word: &str) -> (r: Option<
    T,
>)
    ensures
        r == found_in(table@, word@),
{
    let letters = chars_of(word);
    let mut i: usize = 0;
    assert(table@.skip(0) =~= table@);
    while i < N
        invariant
            i <= N,
            N == table@.len(),
            letters@ == word@,
            found_in(table@, word@) == found_in(table@.skip(i as int), word@),
        decreases N - i,
    {
        if is_keyword(&letters, table[i].0) {
            return Some(table[i].1);
        }
        assert(table@.skip(i as int).drop_first() =~= table@.skip(i + 1));
        i = i + 1;
    }
    None
}

/// The table of the pre-release keywords.
pub fn pre_keyword_table() -> (table: [(&'static str, PreHeader); 8])
    ensures
        table@ == pre_keywords(),
{
    [
        ("alpha", PreHeader::Alpha(None)),
        ("a", PreHeader::Alpha(None)),
        ("beta", PreHeader::Beta(None)),
        ("b", PreHeader::Beta(None)),
        ("rc", PreHeader::ReleaseCandidate(None)),
        ("c", PreHeader::ReleaseCandidate(None)),
        ("preview", PreHeader::Preview(None)),
        ("pre", PreHeader::Preview(None)),
    ]
}

/// The table of the post-release keywords.
pub fn post_keyword_table() -> (table: [(&'static str, PostHead); 3])
    ensures
        table@ == post_keywords(),
{
    [("post", PostHead::Post), ("rev", PostHead::Rev), ("r", PostHead::Rev)]
}

/// Makes a pre-release segment of a keyword and a number.
pub fn pre_header(word: &str, number: Option<u32>) -> (r: Option<PreHeader>)
    ensures
        r == pre_header_of(word@, number),
{
    match look_up(&pre_keyword_table(), word) {
        Some(kind) => Some(kind.with_number(number)),
        None => None,
    }
}

/// Tells which post-release keyword a word stands for.
pub fn post_head(word: &str) -> (r: Option<PostHead>)
    ensures
        r == post_head_of(word@),
{
    look_up(&post_keyword_table(), word)
}

/// The entry that is found is the first whose keyword the word spells.
pub proof fn found_in_is_first_match<T>(table: Seq<(&'static str, T)>, word: Seq<char>, at: int)
    requires
        0 <= at < table.len(),
        spells(word, table[at].0@),
        forall|i: int| 0 <= i < at ==> !spells(word, (#[trigger] table[i]).0@),
    ensures
        found_in(table, word) == Some(table[at].1),
    decreases at,
{
    if at > 0 {
        found_in_is_first_match(table.drop_first(), word, at - 1);
    }
}

/// Nothing is found exactly where the word spells no keyword of the table.
pub proof fn found_in_nothing<T>(table: Seq<(&'static str, T)>, word: Seq<char>)
    ensures
        found_in(table, word) is None <==> forall|i: int|
            0 <= i < table.len() ==> !spells(word, (#[trigger] table[i]).0@),
    decreases table.len(),
{
    if table.len() > 0 {
        let rest = table.drop_first();
        found_in_nothing(rest, word);
        if !spells(word, table[0].0@) && found_in(rest, word) is None {
            assert forall|i: int| 0 <= i < table.len() implies !spells(
                word,
                (#[trigger] table[i]).0@,
            ) by {
                if i > 0 {
                    assert(rest[i - 1] == table[i]);
                }
            }
        }
    }
}

/// Each pre-release keyword gives its kind, in either case of the letters,
/// and the two spellings of a kind give the same segment.
pub proof fn pre_keywords_fold(word: Seq<char>, number: Option<u32>)
    ensures
        spells(word, "alpha"@) || spells(word, "a"@) ==> pre_header_of(word, number) == Some(
            PreHeader::Alpha(number),
        ),
        spells(word, "beta"@) || spells(word, "b"@) ==> pre_header_of(word, number) == Some(
            PreHeader::Beta(number),
        ),
        spells(word, "rc"@) || spells(word, "c"@) ==> pre_header_of(word, number) == Some(
            PreHeader::ReleaseCandidate(number),
        ),
        spells(word, "preview"@) || spells(word, "pre"@) ==> pre_header_of(word, number) == Some(
            PreHeader::Preview(number),
        ),
{
    reveal_strlit("alpha");
    reveal_strlit("a");
    reveal_strlit("beta");
    reveal_strlit("b");
    reveal_strlit("rc");
    reveal_strlit("c");
    reveal_strlit("preview");
    reveal_strlit("pre");
    let table = pre_keywords();
    if word.len() == 1 {
        // The keywords of one letter are told apart by that letter.
        let first = word[0];
        assert(same_letter(first, 'a') ==> !same_letter(first, 'b') && !same_letter(first, 'c'));
        assert(same_letter(first, 'b') ==> !same_letter(first, 'c'));
    }
    if spells(word, "alpha"@) {
        found_in_is_first_match(table, word, 0);
    } else if spells(word, "a"@) {
        found_in_is_first_match(table, word, 1);
    } else if spells(word, "beta"@) {
        found_in_is_first_match(table, word, 2);
    } else if spells(word, "b"@) {
        found_in_is_first_match(table, word, 3);
    } else if spells(word, "rc"@) {
        found_in_is_first_match(table, word, 4);
    } else if spells(word, "c"@) {
        found_in_is_first_match(table, word, 5);
    } else if spells(word, "preview"@) {
        found_in_is_first_match(table, word, 6);
    } else if spells(word, "pre"@) {
        found_in_is_first_match(table, word, 7);
    }
}

/// A word that spells none of the eight pre-release keywords gives no
/// segment.
pub proof fn other_words_give_no_pre_release(word: Seq<char>, number: Option<u32>)
    requires
        !spells(word, "alpha"@) && !spells(word, "a"@),
        !spells(word, "beta"@) && !spells(word, "b"@),
        !spells(word, "rc"@) && !spells(word, "c"@),
        !spells(word, "preview"@) && !spells(word, "pre"@),
    ensures
        pre_header_of(word, number) is None,
{
    found_in_nothing(pre_keywords(), word);
}

/// Each post-release keyword gives its kind, in either case of the
/// letters: `rev` and `r` give the same one. Any other word gives nothing.
pub proof fn post_keywords_fold(word: Seq<char>)
    ensures
        spells(word, "post"@) ==> post_head_of(word) == Some(PostHead::Post),
        spells(word, "rev"@) || spells(word, "r"@) ==> post_head_of(word) == Some(PostHead::Rev),
        !spells(word, "post"@) && !spells(word, "rev"@) && !spells(word, "r"@) ==> post_head_of(
            word,
        ) is None,
{
    reveal_strlit("post");
    reveal_strlit("rev");
    reveal_strlit("r");
    let table = post_keywords();
    found_in_nothing(table, word);
    if spells(word, "post"@) {
        found_in_is_first_match(table, word, 0);
    } else if spells(word, "rev"@) {
        found_in_is_first_match(table, word, 1);
    } else if spells(word, "r"@) {
        found_in_is_first_match(table, word, 2);
    }
}

} // verus!
