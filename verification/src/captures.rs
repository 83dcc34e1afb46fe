//! The groups of a match against the version grammar.

use vstd::prelude::*;

verus! {

/// Number of groups that a match of the version grammar yields: the whole
/// match and the thirteen named groups.
pub const GROUP_COUNT: usize = 14;

/// The text of an optional string.
pub open spec fn text_of(s: Option<String>) -> Option<Seq<char>> {
    match s {
        Some(s) => Some(s@),
        None => None,
    }
}

/// The texts of a list of optional strings.
pub open spec fn texts_of(groups: Seq<Option<String>>) -> Seq<Option<Seq<char>>> {
    groups.map_values(|s: Option<String>| text_of(s))
}

/// The named groups of a match against the version grammar, each with the
/// text it matched, or absent where it took no part in the match.
#[derive(Debug, PartialEq, Eq)]
pub struct CaptureSet {
    /// The digits before `!`.
    pub epoch: Option<String>,
    /// The dot-separated release numbers.
    pub release: Option<String>,
    /// The whole pre-release part.
    pub pre: Option<String>,
    /// The pre-release keyword.
    pub pre_l: Option<String>,
    /// The digits behind the pre-release keyword.
    pub pre_n: Option<String>,
    /// The whole post-release part.
    pub post: Option<String>,
    /// The digits of a post-release part written as `-` and a number.
    pub post_n1: Option<String>,
    /// The post-release keyword.
    pub post_l: Option<String>,
    /// The digits behind the post-release keyword.
    pub post_n2: Option<String>,
    /// The whole developmental-release part.
    pub dev: Option<String>,
    /// The developmental-release keyword.
    pub dev_l: Option<String>,
    /// The digits behind the developmental-release keyword.
    pub dev_n: Option<String>,
    /// The local version behind `+`.
    pub local: Option<String>,
}

/// What a [`CaptureSet`] holds, with each text as a sequence of characters.
pub struct CaptureSetView {
    pub epoch: Option<Seq<char>>,
    pub release: Option<Seq<char>>,
    pub pre: Option<Seq<char>>,
    pub pre_l: Option<Seq<char>>,
    pub pre_n: Option<Seq<char>>,
    pub post: Option<Seq<char>>,
    pub post_n1: Option<Seq<char>>,
    pub post_l: Option<Seq<char>>,
    pub post_n2: Option<Seq<char>>,
    pub dev: Option<Seq<char>>,
    pub dev_l: Option<Seq<char>>,
    pub dev_n: Option<Seq<char>>,
    pub local: Option<Seq<char>>,
}

impl View for CaptureSet {
    type V = CaptureSetView;

    open spec fn view(&self) -> CaptureSetView {
        CaptureSetView {
            epoch: text_of(self.epoch),
            release: text_of(self.release),
            pre: text_of(self.pre),
            pre_l: text_of(self.pre_l),
            pre_n: text_of(self.pre_n),
            post: text_of(self.post),
            post_n1: text_of(self.post_n1),
            post_l: text_of(self.post_l),
            post_n2: text_of(self.post_n2),
            dev: text_of(self.dev),
            dev_l: text_of(self.dev_l),
            dev_n: text_of(self.dev_n),
            local: text_of(self.local),
        }
    }
}

/// A copy of an optional string.
pub fn clone_text(s: &Option<String>) -> (r: Option<String>)
    ensures
        text_of(r) == text_of(*s),
{
    match s {
        Some(s) => Some(s.clone()),
        None => None,
    }
}

impl Clone for CaptureSet {
    fn clone(&self) -> (r: Self)
        ensures
            r@ == self@,
    {
        CaptureSet {
            epoch: clone_text(&self.epoch),
            release: clone_text(&self.release),
            pre: clone_text(&self.pre),
            pre_l: clone_text(&self.pre_l),
            pre_n: clone_text(&self.pre_n),
            post: clone_text(&self.post),
            post_n1: clone_text(&self.post_n1),
            post_l: clone_text(&self.post_l),
            post_n2: clone_text(&self.post_n2),
            dev: clone_text(&self.dev),
            dev_l: clone_text(&self.dev_l),
            dev_n: clone_text(&self.dev_n),
            local: clone_text(&self.local),
        }
    }
}

/// The named groups among the groups of a match: the groups behind the
/// whole match, by position. A list of any other length than
/// [`GROUP_COUNT`] is no match of the version grammar.
pub open spec fn named_groups(groups: Seq<Option<Seq<char>>>) -> Option<CaptureSetView> {
    if groups.len() == GROUP_COUNT {
        Some(
            CaptureSetView {
                epoch: groups[1],
                release: groups[2],
                pre: groups[3],
                pre_l: groups[4],
                pre_n: groups[5],
                post: groups[6],
                post_n1: groups[7],
                post_l: groups[8],
                post_n2: groups[9],
                dev: groups[10],
                dev_l: groups[11],
                dev_n: groups[12],
                local: groups[13],
            },
        )
    } else {
        None
    }
}

impl CaptureSet {
    /// Sorts the groups of a match into a capture set.
    pub fn from_groups(groups: Vec<Option<String>>) -> (r: Option<CaptureSet>)
        ensures
            match named_groups(texts_of(groups@)) {
                Some(named) => r matches Some(set) && set@ == named,
                None => r is None,
            },
    {
        if groups.len() != GROUP_COUNT {
            return None;
        }
        let mut rest = groups;
        let local = rest.pop().unwrap();
        let dev_n = rest.pop().unwrap();
        let dev_l = rest.pop().unwrap();
        let dev = rest.pop().unwrap();
        let post_n2 = rest.pop().unwrap();
        let post_l = rest.pop().unwrap();
        let post_n1 = rest.pop().unwrap();
        let post = rest.pop().unwrap();
        let pre_n = rest.pop().unwrap();
        let pre_l = rest.pop().unwrap();
        let pre = rest.pop().unwrap();
        let release = rest.pop().unwrap();
        let epoch = rest.pop().unwrap();
        Some(
            CaptureSet {
                epoch,
                release,
                pre,
                pre_l,
                pre_n,
                post,
                post_n1,
                post_l,
                post_n2,
                dev,
                dev_l,
                dev_n,
                local,
            },
        )
    }
}

} // verus!
