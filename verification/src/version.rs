//! The version as a whole: reading it from a string, and its equality,
//! order and hash.

use crate::captures::{clone_text, text_of, CaptureSet, CaptureSetView};
use crate::error::{NumericField, ParseError, ParseErrorView};
use crate::fields::{
    dev_of, optional_number_of, post_of, pre_of, read_dev, read_optional_field, read_post,
    read_pre, read_release, release_of,
};
use crate::grammar::{follows_grammar, in_grammar, release_components_are_numbers};
use crate::ids::{DevHead, PostHeader, PreHeader, ReleaseHeader};
use crate::order::{at_most, chain, compare_numbers, lexicographic, number_order, reversed};
use crate::validator::{validate_440_version, validated};
use core::cmp::Ordering;
use core::hash::{Hash, Hasher};
use vstd::prelude::*;
use vstd::std_specs::cmp::{PartialEqSpecImpl, PartialOrdSpecImpl};

verus! {

/// A version: the string it was read from and the segments found in it.
///
/// Equality, order and hash go by `epoch` (a missing epoch counts as zero),
/// `release`, `pre`, `post` and `dev`. `original` and `local` play no part
/// in them.
#[derive(Debug)]
pub struct PackageVersion {
    /// The string as it was given, kept as it is for display.
    pub original: String,
    /// Local version: the text behind `+`, kept as it is.
    pub local: Option<String>,
    /// Developmental-release segment.
    pub dev: Option<DevHead>,
    /// Post-release segment.
    pub post: Option<PostHeader>,
    /// Pre-release segment.
    pub pre: Option<PreHeader>,
    /// Release numbers.
    pub release: ReleaseHeader,
    /// Epoch.
    pub epoch: Option<u32>,
}

/// What a [`PackageVersion`] holds, with each text as a sequence of
/// characters.
pub struct PackageVersionView {
    pub original: Seq<char>,
    pub local: Option<Seq<char>>,
    pub dev: Option<DevHead>,
    pub post: Option<PostHeader>,
    pub pre: Option<PreHeader>,
    pub release: ReleaseHeader,
    pub epoch: Option<u32>,
}

impl View for PackageVersion {
    type V = PackageVersionView;

    open spec fn view(&self) -> PackageVersionView {
        PackageVersionView {
            original: self.original@,
            local: text_of(self.local),
            dev: self.dev,
            post: self.post,
            pre: self.pre,
            release: self.release,
            epoch: self.epoch,
        }
    }
}

/// The fields that equality and hash go by: the epoch, with zero for a
/// missing one, then release, pre-release, post-release and developmental
/// release.
pub type Key = (u32, ReleaseHeader, Option<PreHeader>, Option<PostHeader>, Option<DevHead>);

/// The version that the groups of a match make, or the first error met
/// when the fields are read in the order epoch, release, pre-release,
/// post-release, developmental release.
pub open spec fn assembled(input: Seq<char>, caps: CaptureSetView) -> Result<
    PackageVersionView,
    ParseErrorView,
> {
    match optional_number_of(input, caps.epoch, NumericField::Epoch) {
        Err(e) => Err(e),
        Ok(epoch) => match release_of(input, caps) {
            Err(e) => Err(e),
            Ok(release) => match pre_of(input, caps) {
                Err(e) => Err(e),
                Ok(pre) => match post_of(input, caps) {
                    Err(e) => Err(e),
                    Ok(post) => match dev_of(input, caps) {
                        Err(e) => Err(e),
                        Ok(dev) => Ok(
                            PackageVersionView {
                                original: input,
                                local: caps.local,
                                dev,
                                post,
                                pre,
                                release,
                                epoch,
                            },
                        ),
                    },
                },
            },
        },
    }
}

/// What reading `input` as a version gives.
pub open spec fn parsed(input: Seq<char>) -> Result<PackageVersionView, ParseErrorView> {
    match validated(input) {
        None => Err(ParseErrorView::GrammarMismatch { input }),
        Some(caps) => assembled(input, caps),
    }
}

/// What a result of reading a version holds.
pub open spec fn outcome(r: Result<PackageVersion, ParseError>) -> Result<
    PackageVersionView,
    ParseErrorView,
> {
    match r {
        Ok(version) => Ok(version@),
        Err(e) => Err(e@),
    }
}

impl PackageVersion {
    /// Reads `version`.
    ///
    /// The string is taken apart by [`validate_440_version`], and the
    /// fields are read from the groups by [`PackageVersion::from_captures`].
    /// Fails with `GrammarMismatch` where the string cannot be taken apart,
    /// and with `NumericOverflow` where it can and one of its numbers is
    /// above `u32::MAX`. Else the result holds `version` as it was given
    /// and the segments found in it. A string that is read is always in the
    /// grammar.
    pub fn new(version: &str) -> (r: Result<Self, ParseError>)
        ensures
            outcome(r) == parsed(version@),
            r matches Ok(read) ==> in_grammar(version@) && displayed(read@) == version@,
    {
        match validate_440_version(version) {
            Err(e) => Err(e),
            Ok(caps) => Self::from_captures(version, &caps),
        }
    }

    /// Makes the version that was given as `version` and matched with the
    /// groups `caps`.
    ///
    /// Fails with `NumericOverflow` where a group that holds a number is a
    /// run of digits with a value above `u32::MAX`, and with
    /// `GrammarMismatch` where the groups are none that a match of the
    /// version grammar yields: no release, something other than digits in a
    /// number, an unknown keyword, or a pre-release part without one.
    pub fn from_captures(version: &str, caps: &CaptureSet) -> (r: Result<Self, ParseError>)
        ensures
            outcome(r) == assembled(version@, caps@),
    {
        let epoch = read_optional_field(version, &caps.epoch, NumericField::Epoch)?;
        let release = read_release(version, caps)?;
        let pre = read_pre(version, caps)?;
        let post = read_post(version, caps)?;
        let dev = read_dev(version, caps)?;
        let local = clone_text(&caps.local);
        Ok(PackageVersion { original: version.to_owned(), local, dev, post, pre, release, epoch })
    }

    /// The version as text: the string it was read from, unchanged.
    pub fn to_string(&self) -> (s: String)
        ensures
            s@ == displayed(self@),
    {
        self.original.clone()
    }
}

/// Hands `key` to `core::hash::Hash::hash`, which feeds it to `state`.
///
/// Nothing is claimed of the hasher afterwards: what it makes of the key is
/// its own matter.
#[verifier::external_body]
fn feed<H: Hasher>(key: &Key, state: &mut H) {
    key.hash(state)
}

impl PackageVersion {
    /// The epoch, with zero for a missing one.
    pub open spec fn epoch_number(&self) -> u32 {
        match self.epoch {
            Some(epoch) => epoch,
            None => 0,
        }
    }

    /// The fields that equality and hash go by.
    pub open spec fn key(&self) -> Key {
        (self.epoch_number(), self.release, self.pre, self.post, self.dev)
    }

    /// Whether `self` and `other` are the same version: they agree in
    /// epoch, a missing one counted as zero, and in their release,
    /// pre-release, post-release and developmental-release segments.
    pub open spec fn equals(&self, other: &Self) -> bool {
        &&& self.epoch_number() == other.epoch_number()
        &&& self.release == other.release
        &&& self.pre == other.pre
        &&& self.post == other.post
        &&& self.dev == other.dev
    }

    /// How `self` stands to `other`. The epochs decide first, a missing one
    /// counted as zero: a higher epoch outranks whatever else the versions
    /// hold. Within one epoch the release is the primary key. Where the
    /// releases are the same too, the pre-release, post-release and
    /// developmental-release segments decide, in this order, each by its
    /// own comparison; a missing segment sorts below any segment of its
    /// kind.
    pub open spec fn compare(&self, other: &Self) -> Ordering {
        lexicographic(
            number_order(self.epoch_number(), other.epoch_number()),
            lexicographic(
                self.release.compare(other.release),
                lexicographic(
                    PreHeader::compare_optional(self.pre, other.pre),
                    lexicographic(
                        PostHeader::compare_optional(self.post, other.post),
                        DevHead::compare_optional(self.dev, other.dev),
                    ),
                ),
            ),
        )
    }

    /// The epoch, with zero for a missing one.
    pub fn epoch_or_zero(&self) -> (r: u32)
        ensures
            r == self.epoch_number(),
    {
        match self.epoch {
            Some(epoch) => epoch,
            None => 0,
        }
    }

    /// The fields that equality and hash go by.
    pub fn hash_key(&self) -> (r: Key)
        ensures
            r == self.key(),
    {
        (self.epoch_or_zero(), self.release, self.pre, self.post, self.dev)
    }

    /// Three-way comparison.
    pub fn cmp(&self, other: &Self) -> (r: Ordering)
        ensures
            r == self.compare(other),
    {
        let by_epoch = compare_numbers(self.epoch_or_zero(), other.epoch_or_zero());
        let by_release = self.release.cmp(&other.release);
        let by_pre = PreHeader::cmp_optional(&self.pre, &other.pre);
        let by_post = PostHeader::cmp_optional(&self.post, &other.post);
        let by_dev = DevHead::cmp_optional(&self.dev, &other.dev);
        chain(by_epoch, chain(by_release, chain(by_pre, chain(by_post, by_dev))))
    }
}

impl Clone for PackageVersion {
    fn clone(&self) -> (r: Self)
        ensures
            r@ == self@,
    {
        PackageVersion {
            original: self.original.clone(),
            local: clone_text(&self.local),
            dev: self.dev,
            post: self.post,
            pre: self.pre,
            release: self.release,
            epoch: self.epoch,
        }
    }
}

impl PartialEqSpecImpl for PackageVersion {
    open spec fn obeys_eq_spec() -> bool {
        true
    }

    open spec fn eq_spec(&self, other: &Self) -> bool {
        self.equals(other)
    }
}

impl PartialEq for PackageVersion {
    fn eq(&self, other: &Self) -> (r: bool) {
        self.epoch_or_zero() == other.epoch_or_zero() && self.release == other.release
            && self.pre == other.pre && self.post == other.post && self.dev == other.dev
    }
}

impl Eq for PackageVersion {}

impl PartialOrdSpecImpl for PackageVersion {
    open spec fn obeys_partial_cmp_spec() -> bool {
        true
    }

    open spec fn partial_cmp_spec(&self, other: &Self) -> Option<Ordering> {
        Some(self.compare(other))
    }
}

impl PartialOrd for PackageVersion {
    fn partial_cmp(&self, other: &Self) -> (r: Option<Ordering>) {
        Some(self.cmp(other))
    }
}

impl Hash for PackageVersion {
    /// Feeds the hasher the fields that equality goes by, and nothing else.
    fn hash<H: Hasher>(&self, state: &mut H) {
        let key = self.hash_key();
        feed(&key, state);
    }
}

/// What a version shows as text: the string it was read from.
pub open spec fn displayed(version: PackageVersionView) -> Seq<char> {
    version.original
}

impl PackageVersion {
    /// A string that is read as a version is shown again as it was given.
    pub proof fn display_round_trip(input: Seq<char>)
        ensures
            parsed(input) matches Ok(version) ==> displayed(version) == input,
    {}

    /// Whatever the groups, a version made of them shows the string it was
    /// made with, and its local version is the `local` group as it stands.
    pub proof fn text_kept_verbatim(input: Seq<char>, caps: CaptureSetView)
        ensures
            assembled(input, caps) matches Ok(version) ==> displayed(version) == input
                && version.local == caps.local,
    {}

    /// A string is read as a version only where it is in the grammar, with
    /// the groups it was made of as its parts.
    pub proof fn read_versions_follow_grammar(input: Seq<char>)
        ensures
            parsed(input) is Ok ==> (validated(input) matches Some(caps) && follows_grammar(
                input,
                caps,
            ) && parsed(input) == assembled(input, caps)),
    {}

    /// Every string that is read as a version is in the grammar.
    pub proof fn read_versions_are_in_grammar(input: Seq<char>)
        ensures
            parsed(input) is Ok ==> in_grammar(input),
    {
        Self::read_versions_follow_grammar(input);
    }

    /// Groups that follow the grammar are refused for a number above
    /// `u32::MAX` and for nothing else.
    pub proof fn grammar_fails_on_overflow_alone(input: Seq<char>, caps: CaptureSetView)
        requires
            follows_grammar(input, caps),
        ensures
            assembled(input, caps) matches Err(e) ==> e is NumericOverflow,
    {
        release_components_are_numbers(caps.release->0);
    }

    /// A string is refused as no version exactly where it cannot be taken
    /// apart; one that can is refused only for a number above `u32::MAX`.
    pub proof fn mismatch_is_no_match(input: Seq<char>)
        ensures
            parsed(input) is Err && parsed(input)->Err_0 is GrammarMismatch <==> validated(input)
                is None,
    {
        match validated(input) {
            Some(caps) => Self::grammar_fails_on_overflow_alone(input, caps),
            None => {},
        }
    }

    /// Every error carries the string that was refused.
    pub proof fn error_carries_input(input: Seq<char>)
        ensures
            parsed(input) matches Err(e) ==> e == (ParseErrorView::GrammarMismatch { input })
                || exists|field: NumericField|
                e == (ParseErrorView::NumericOverflow { input, field }),
    {}

    /// Equality is reflexive, symmetric and transitive.
    pub proof fn eq_is_equivalence(a: &Self, b: &Self, c: &Self)
        ensures
            a.equals(a),
            a.equals(b) == b.equals(a),
            a.equals(b) && b.equals(c) ==> a.equals(c),
    {}

    /// Two versions that were read from the same string are equal, hash
    /// alike and compare `Equal`.
    pub proof fn read_twice(input: Seq<char>, a: &Self, b: &Self)
        ensures
            parsed(input) == Ok::<PackageVersionView, ParseErrorView>(a@) && parsed(input) == Ok::<
                PackageVersionView,
                ParseErrorView,
            >(b@) ==> a.equals(b) && a.key() == b.key() && a.compare(b) == Ordering::Equal,
    {}

    /// Two versions are equal exactly when the hasher is fed the same key
    /// for both: equal versions hash alike.
    pub proof fn equal_versions_hash_alike(a: &Self, b: &Self)
        ensures
            a.equals(b) <==> a.key() == b.key(),
    {}

    /// The string a version was read from and its local version play no
    /// part: with any others in their place the version is equal to what it
    /// was, hashes alike and compares `Equal`.
    pub proof fn text_plays_no_part(a: &Self, original: String, local: Option<String>)
        ensures
            ({
                let b = PackageVersion {
                    original,
                    local,
                    dev: a.dev,
                    post: a.post,
                    pre: a.pre,
                    release: a.release,
                    epoch: a.epoch,
                };
                a.equals(&b) && a.key() == b.key() && a.compare(&b) == Ordering::Equal
            }),
    {}

    /// A missing epoch is the epoch zero.
    pub proof fn missing_epoch_is_zero(a: &Self, b: &Self)
        requires
            a.epoch is None,
            b.epoch == Some(0u32),
            a.release == b.release,
            a.pre == b.pre,
            a.post == b.post,
            a.dev == b.dev,
        ensures
            a.equals(b),
            a.compare(b) == Ordering::Equal,
    {}

    /// Equal versions compare `Equal`. The converse fails where two
    /// post-release segments differ in their keyword alone.
    pub proof fn equal_versions_compare_equal(a: &Self, b: &Self)
        requires
            a.equals(b),
        ensures
            a.compare(b) == Ordering::Equal,
    {}

    /// Two versions compare `Equal` exactly where they agree in all that
    /// equality goes by but the keyword of the post-release segment.
    pub proof fn compare_equal_up_to_keyword(a: &Self, b: &Self)
        ensures
            a.compare(b) == Ordering::Equal <==> {
                &&& a.epoch_number() == b.epoch_number()
                &&& a.release == b.release
                &&& a.pre == b.pre
                &&& a.dev == b.dev
                &&& a.post is None <==> b.post is None
                &&& a.post is Some ==> a.post->0.post_num == b.post->0.post_num
            },
    {}

    /// A higher epoch outranks whatever else the versions hold.
    pub proof fn epoch_outranks(a: &Self, b: &Self)
        requires
            a.epoch_number() < b.epoch_number(),
        ensures
            a.compare(b) == Ordering::Less,
    {}

    /// Within one epoch the release is the primary key: where the releases
    /// differ, they decide, whatever the other segments are.
    pub proof fn release_is_primary(a: &Self, b: &Self)
        requires
            a.epoch_number() == b.epoch_number(),
            a.release != b.release,
        ensures
            a.compare(b) == a.release.compare(b.release),
            a.compare(b) != Ordering::Equal,
    {}

    /// With the same epoch and release, the pre-release segments decide
    /// before the post-release segments, and these before the
    /// developmental-release segments.
    pub proof fn segments_modify_in_order(a: &Self, b: &Self)
        requires
            a.epoch_number() == b.epoch_number(),
            a.release == b.release,
        ensures
            a.compare(b) == lexicographic(
                PreHeader::compare_optional(a.pre, b.pre),
                lexicographic(
                    PostHeader::compare_optional(a.post, b.post),
                    DevHead::compare_optional(a.dev, b.dev),
                ),
            ),
    {}

    /// Every version compares `Equal` to itself.
    pub proof fn compare_reflexive(a: &Self)
        ensures
            a.compare(a) == Ordering::Equal,
    {}

    /// Exchanging the sides reverses the outcome.
    pub proof fn compare_antisymmetric(a: &Self, b: &Self)
        ensures
            b.compare(a) == reversed(a.compare(b)),
    {}

    /// The order is transitive, and strict as soon as one step is.
    pub proof fn compare_transitive(a: &Self, b: &Self, c: &Self)
        requires
            at_most(a.compare(b)),
            at_most(b.compare(c)),
        ensures
            at_most(a.compare(c)),
            a.compare(c) == Ordering::Equal ==> a.compare(b) == Ordering::Equal && b.compare(c)
                == Ordering::Equal,
    {}
}

} // verus!
