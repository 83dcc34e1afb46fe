use pyver::keywords::{
    letter_matches, look_up, post_head, post_keyword_table, pre_header, pre_keyword_table,
};
use pyver::ids::{DevHead, PostHead, PostHeader, PreHeader, ReleaseHeader};
use pyver::order::{chain, compare_numbers, compare_optional};
use std::cmp::Ordering;

#[test]
fn test_dev_ordering() {
    assert!(DevHead { dev_num: Some(0) } > DevHead { dev_num: None });
    assert!(DevHead { dev_num: Some(1) } > DevHead { dev_num: Some(0) });
}

#[test]
fn test_post_ordering() {
    assert!(
        PostHeader {
            post_head: Some(PostHead::Post),
            post_num: Some(0),
        } > PostHeader {
            post_head: Some(PostHead::Post),
            post_num: None,
        }
    );
    assert!(
        PostHeader {
            post_head: Some(PostHead::Post),
            post_num: Some(1),
        } > PostHeader {
            post_head: Some(PostHead::Post),
            post_num: Some(0),
        }
    );
}

#[test]
fn test_pre_ordering() {
    assert!(PreHeader::ReleaseCandidate(None) > PreHeader::Preview(None));
    assert!(PreHeader::Preview(None) > PreHeader::Alpha(None));
    assert!(PreHeader::Alpha(None) > PreHeader::Beta(None));

    assert!(PreHeader::ReleaseCandidate(Some(2)) > PreHeader::ReleaseCandidate(Some(1)));
    assert!(PreHeader::Preview(Some(50)) > PreHeader::Preview(Some(3)));
    assert!(PreHeader::Alpha(Some(504)) > PreHeader::Alpha(Some(0)));
    assert!(PreHeader::Beta(Some(1234)) > PreHeader::Beta(Some(1)));

    assert!(PreHeader::ReleaseCandidate(Some(1)) > PreHeader::Beta(Some(45067885)));
}

#[test]
fn test_release_ordering() {
    assert!(ReleaseHeader { major: 1, minor: 0 } > ReleaseHeader { major: 0, minor: 0 });
    assert!(ReleaseHeader { major: 1, minor: 1 } > ReleaseHeader { major: 1, minor: 0 });
    assert!(
        ReleaseHeader { major: 2, minor: 1 }
            > ReleaseHeader {
                major: 1,
                minor: 52,
            }
    );
}

#[test]
fn segment_without_number_sorts_below_zero() {
    assert!(DevHead { dev_num: None } < DevHead { dev_num: Some(0) });
    assert!(DevHead { dev_num: Some(0) } < DevHead { dev_num: Some(1) });
    assert!(DevHead { dev_num: None } < DevHead { dev_num: Some(u32::MAX) });
    assert_eq!(DevHead { dev_num: None }.cmp(&DevHead { dev_num: Some(0) }), Ordering::Less);
    assert_eq!(DevHead { dev_num: Some(4) }.cmp(&DevHead { dev_num: Some(4) }), Ordering::Equal);
    assert_eq!(DevHead { dev_num: None }.cmp(&DevHead { dev_num: None }), Ordering::Equal);
    assert_eq!(DevHead { dev_num: Some(5) }.cmp(&DevHead { dev_num: Some(4) }), Ordering::Greater);
    assert_eq!(DevHead { dev_num: Some(0) }.cmp(&DevHead { dev_num: None }), Ordering::Greater);
}

#[test]
fn post_release_sorts_by_number_whatever_the_keyword() {
    let heads = [None, Some(PostHead::Post), Some(PostHead::Rev)];
    for h1 in heads {
        for h2 in heads {
            let none = PostHeader { post_head: h1, post_num: None };
            let zero = PostHeader { post_head: h2, post_num: Some(0) };
            let one = PostHeader { post_head: h1, post_num: Some(1) };
            let other_one = PostHeader { post_head: h2, post_num: Some(1) };
            assert!(none < zero);
            assert!(zero < one);
            assert!(none < one);
            assert_eq!(one.cmp(&other_one), Ordering::Equal);
            assert_eq!(one.partial_cmp(&other_one), Some(Ordering::Equal));
            assert_eq!(none.cmp(&zero), Ordering::Less);
            assert_eq!(one.cmp(&zero), Ordering::Greater);
            assert_eq!(zero.cmp(&none), Ordering::Greater);
        }
    }
}

#[test]
fn post_release_keywords_compare_equal() {
    assert_eq!(PostHead::Post.cmp(&PostHead::Rev), Ordering::Equal);
    assert_eq!(PostHead::Rev.cmp(&PostHead::Post), Ordering::Equal);
    assert_eq!(PostHead::Post.partial_cmp(&PostHead::Rev), Some(Ordering::Equal));
    assert!(!(PostHead::Post < PostHead::Rev));
    assert!(!(PostHead::Post > PostHead::Rev));
    assert_ne!(PostHead::Post, PostHead::Rev);
    assert_ne!(
        PostHeader { post_head: Some(PostHead::Post), post_num: Some(1) },
        PostHeader { post_head: Some(PostHead::Rev), post_num: Some(1) }
    );
}

#[test]
fn release_sorts_by_major_then_minor() {
    assert!(ReleaseHeader { major: 1, minor: 0 } < ReleaseHeader { major: 1, minor: 1 });
    assert!(ReleaseHeader { major: 1, minor: 1 } < ReleaseHeader { major: 2, minor: 1 });
    assert!(ReleaseHeader { major: 1, minor: 52 } < ReleaseHeader { major: 2, minor: 1 });
    assert!(ReleaseHeader { major: 1, minor: u32::MAX } < ReleaseHeader { major: 2, minor: 0 });
    assert_eq!(
        ReleaseHeader { major: 3, minor: 9 }.cmp(&ReleaseHeader { major: 3, minor: 9 }),
        Ordering::Equal
    );
    assert_eq!(
        ReleaseHeader { major: 3, minor: 9 }.cmp(&ReleaseHeader { major: 3, minor: 8 }),
        Ordering::Greater
    );
    assert_eq!(
        ReleaseHeader { major: 2, minor: 9 }.cmp(&ReleaseHeader { major: 3, minor: 8 }),
        Ordering::Less
    );
}

#[test]
fn pre_release_kinds_are_ranked() {
    assert!(PreHeader::Beta(None) < PreHeader::Alpha(None));
    assert!(PreHeader::Alpha(None) < PreHeader::Preview(None));
    assert!(PreHeader::Preview(None) < PreHeader::ReleaseCandidate(None));
    assert_eq!(PreHeader::Beta(None).kind_rank(), 0);
    assert_eq!(PreHeader::Alpha(Some(9)).kind_rank(), 1);
    assert_eq!(PreHeader::Preview(None).kind_rank(), 2);
    assert_eq!(PreHeader::ReleaseCandidate(Some(0)).kind_rank(), 3);
    assert_eq!(PreHeader::Beta(Some(7)).suffix(), Some(7));
    assert_eq!(PreHeader::Alpha(None).suffix(), None);
    assert_eq!(PreHeader::Preview(Some(0)).suffix(), Some(0));
    assert_eq!(PreHeader::ReleaseCandidate(Some(u32::MAX)).suffix(), Some(u32::MAX));
}

#[test]
fn pre_release_kind_goes_before_number() {
    assert!(PreHeader::Beta(Some(u32::MAX)) < PreHeader::Alpha(None));
    assert!(PreHeader::Alpha(Some(u32::MAX)) < PreHeader::Preview(None));
    assert!(PreHeader::Preview(Some(u32::MAX)) < PreHeader::ReleaseCandidate(None));
    assert!(PreHeader::ReleaseCandidate(Some(1)) > PreHeader::Beta(Some(45067885)));
    assert!(PreHeader::Alpha(None) < PreHeader::Alpha(Some(0)));
    assert!(PreHeader::Alpha(Some(0)) < PreHeader::Alpha(Some(1)));
    assert_eq!(PreHeader::Beta(Some(3)).cmp(&PreHeader::Beta(Some(3))), Ordering::Equal);
    assert_eq!(PreHeader::Beta(Some(3)).cmp(&PreHeader::Alpha(Some(2))), Ordering::Less);
    assert_eq!(PreHeader::Preview(None).cmp(&PreHeader::Alpha(Some(2))), Ordering::Greater);
}

#[test]
fn no_segment_sorts_below_any_segment() {
    let dev = Some(DevHead { dev_num: None });
    assert_eq!(DevHead::cmp_optional(&None, &dev), Ordering::Less);
    assert_eq!(DevHead::cmp_optional(&dev, &None), Ordering::Greater);
    assert_eq!(DevHead::cmp_optional(&None, &None), Ordering::Equal);
    assert_eq!(DevHead::cmp_optional(&dev, &Some(DevHead { dev_num: Some(0) })), Ordering::Less);
    let post = Some(PostHeader { post_head: None, post_num: None });
    assert_eq!(PostHeader::cmp_optional(&None, &post), Ordering::Less);
    assert_eq!(PostHeader::cmp_optional(&post, &None), Ordering::Greater);
    assert_eq!(PostHeader::cmp_optional(&None, &None), Ordering::Equal);
    assert_eq!(
        PostHeader::cmp_optional(&post, &Some(PostHeader { post_head: Some(PostHead::Rev), post_num: None })),
        Ordering::Equal
    );
    let pre = Some(PreHeader::Beta(None));
    assert_eq!(PreHeader::cmp_optional(&None, &pre), Ordering::Less);
    assert_eq!(PreHeader::cmp_optional(&pre, &None), Ordering::Greater);
    assert_eq!(PreHeader::cmp_optional(&None, &None), Ordering::Equal);
    assert_eq!(PreHeader::cmp_optional(&pre, &Some(PreHeader::Alpha(None))), Ordering::Less);
}

#[test]
fn numbers_compare_three_ways() {
    assert_eq!(compare_numbers(1, 2), Ordering::Less);
    assert_eq!(compare_numbers(2, 2), Ordering::Equal);
    assert_eq!(compare_numbers(3, 2), Ordering::Greater);
    assert_eq!(compare_numbers(0, u32::MAX), Ordering::Less);
    assert_eq!(compare_optional(None, None), Ordering::Equal);
    assert_eq!(compare_optional(None, Some(0)), Ordering::Less);
    assert_eq!(compare_optional(Some(0), None), Ordering::Greater);
    assert_eq!(compare_optional(Some(0), Some(1)), Ordering::Less);
    assert_eq!(compare_optional(Some(1), Some(1)), Ordering::Equal);
    assert_eq!(compare_optional(Some(2), Some(1)), Ordering::Greater);
}

#[test]
fn first_difference_decides_in_a_chain() {
    let all = [Ordering::Less, Ordering::Equal, Ordering::Greater];
    for rest in all {
        assert_eq!(chain(Ordering::Less, rest), Ordering::Less);
        assert_eq!(chain(Ordering::Greater, rest), Ordering::Greater);
        assert_eq!(chain(Ordering::Equal, rest), rest);
    }
}

#[test]
fn keywords_give_their_segments() {
    assert_eq!(pre_header("alpha", Some(1)), Some(PreHeader::Alpha(Some(1))));
    assert_eq!(pre_header("a", None), Some(PreHeader::Alpha(None)));
    assert_eq!(pre_header("beta", Some(2)), Some(PreHeader::Beta(Some(2))));
    assert_eq!(pre_header("b", Some(2)), Some(PreHeader::Beta(Some(2))));
    assert_eq!(pre_header("rc", Some(3)), Some(PreHeader::ReleaseCandidate(Some(3))));
    assert_eq!(pre_header("c", Some(3)), Some(PreHeader::ReleaseCandidate(Some(3))));
    assert_eq!(pre_header("preview", Some(4)), Some(PreHeader::Preview(Some(4))));
    assert_eq!(pre_header("pre", Some(4)), Some(PreHeader::Preview(Some(4))));
    assert_eq!(pre_header("PRE", Some(4)), Some(PreHeader::Preview(Some(4))));
    assert_eq!(pre_header("Rc", None), Some(PreHeader::ReleaseCandidate(None)));
    assert_eq!(pre_header("", Some(1)), None);
    assert_eq!(pre_header("gamma", Some(1)), None);
    assert_eq!(pre_header("alph", Some(1)), None);
    assert_eq!(pre_header("prev", Some(1)), None);
    assert_eq!(pre_header("post", Some(1)), None);
    assert_eq!(post_head("post"), Some(PostHead::Post));
    assert_eq!(post_head("rev"), Some(PostHead::Rev));
    assert_eq!(post_head("r"), Some(PostHead::Rev));
    assert_eq!(post_head("POST"), Some(PostHead::Post));
    assert_eq!(post_head("Rev"), Some(PostHead::Rev));
    assert_eq!(post_head("R"), Some(PostHead::Rev));
    assert_eq!(post_head(""), None);
    assert_eq!(post_head("p"), None);
    assert_eq!(post_head("revision"), None);
    assert_eq!(post_head("dev"), None);
}

#[test]
fn tables_hold_every_keyword_with_its_kind() {
    assert_eq!(
        pre_keyword_table(),
        [
            ("alpha", PreHeader::Alpha(None)),
            ("a", PreHeader::Alpha(None)),
            ("beta", PreHeader::Beta(None)),
            ("b", PreHeader::Beta(None)),
            ("rc", PreHeader::ReleaseCandidate(None)),
            ("c", PreHeader::ReleaseCandidate(None)),
            ("preview", PreHeader::Preview(None)),
            ("pre", PreHeader::Preview(None)),
        ]
    );
    assert_eq!(
        post_keyword_table(),
        [("post", PostHead::Post), ("rev", PostHead::Rev), ("r", PostHead::Rev)]
    );
}

#[test]
fn first_entry_that_matches_is_found() {
    let table = [("one", 1), ("two", 2), ("ONE", 3), ("one", 4), ("", 5)];
    assert_eq!(look_up(&table, "one"), Some(1));
    assert_eq!(look_up(&table, "One"), Some(1));
    assert_eq!(look_up(&table, "TWO"), Some(2));
    assert_eq!(look_up(&table, ""), Some(5));
    assert_eq!(look_up(&table, "three"), None);
    assert_eq!(look_up(&table, "on"), None);
    let empty: [(&str, u8); 0] = [];
    assert_eq!(look_up(&empty, "one"), None);
    assert_eq!(look_up(&empty, ""), None);
}

#[test]
fn letters_match_in_either_case() {
    for (lower, upper) in ('a'..='z').zip('A'..='Z') {
        assert!(letter_matches(lower, lower));
        assert!(letter_matches(upper, lower));
        assert!(!letter_matches(lower, upper));
    }
    assert!(letter_matches('1', '1'));
    assert!(!letter_matches('1', 'Q'));
    assert!(!letter_matches('@', '`'));
    assert!(!letter_matches('[', '{'));
    assert!(!letter_matches('\u{017f}', 's'));
    assert!(!letter_matches('\u{212a}', 'k'));
}

#[test]
fn number_is_put_behind_the_same_kind() {
    assert_eq!(PreHeader::Alpha(None).with_number(Some(3)), PreHeader::Alpha(Some(3)));
    assert_eq!(PreHeader::Beta(Some(1)).with_number(Some(2)), PreHeader::Beta(Some(2)));
    assert_eq!(PreHeader::Preview(Some(1)).with_number(None), PreHeader::Preview(None));
    assert_eq!(
        PreHeader::ReleaseCandidate(None).with_number(Some(0)),
        PreHeader::ReleaseCandidate(Some(0))
    );
}
