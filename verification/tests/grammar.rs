use pyver::grammar::{
    alphanumeric, append_part, append_text, check, check_dev, check_digit_run, check_keyword_part,
    check_local, check_post, check_pre, check_release, same_between, separator, spell,
};
use pyver::text::{chars_of, digit};
use pyver::{validate_440_version, CaptureSet};

fn text(s: &str) -> Option<String> {
    Some(s.to_string())
}

fn release_only(release: &str) -> CaptureSet {
    CaptureSet {
        epoch: None,
        release: text(release),
        pre: None,
        pre_l: None,
        pre_n: None,
        post: None,
        post_n1: None,
        post_l: None,
        post_n2: None,
        dev: None,
        dev_l: None,
        dev_n: None,
        local: None,
    }
}

fn full() -> CaptureSet {
    CaptureSet {
        epoch: text("1"),
        release: text("1.0"),
        pre: text("-preview-921"),
        pre_l: text("preview"),
        pre_n: text("921"),
        post: text(".post-516"),
        post_n1: None,
        post_l: text("post"),
        post_n2: text("516"),
        dev: text(".dev-241"),
        dev_l: text("dev"),
        dev_n: text("241"),
        local: text("yeah.this"),
    }
}

#[test]
fn characters_fall_into_their_classes() {
    for c in '0'..='9' {
        assert!(digit(c) && alphanumeric(c) && !separator(c));
    }
    for c in ('a'..='z').chain('A'..='Z') {
        assert!(!digit(c) && alphanumeric(c) && !separator(c));
    }
    for c in ['-', '_', '.'] {
        assert!(!digit(c) && !alphanumeric(c) && separator(c));
    }
    for c in ['/', ':', '@', '[', '`', '{', ' ', '+', '!', '\u{0663}', '\u{00e9}', '\u{ff11}'] {
        assert!(!digit(c) && !alphanumeric(c) && !separator(c));
    }
}

#[test]
fn digit_runs_are_told_from_other_text() {
    assert!(check_digit_run(&chars_of("0")));
    assert!(check_digit_run(&chars_of("0123456789")));
    assert!(check_digit_run(&chars_of("99999999999999999999999999")));
    assert!(!check_digit_run(&chars_of("")));
    assert!(!check_digit_run(&chars_of("1a")));
    assert!(!check_digit_run(&chars_of("1.0")));
}

#[test]
fn releases_are_dotted_runs_of_digits() {
    for s in ["0", "1", "1.0", "2013.10", "1.0.15", "1.2.3.4.5.6", "007.08", "99999999999.1"] {
        assert!(check_release(&chars_of(s)), "{}", s);
    }
    for s in ["", ".", "1.", ".1", "1..0", "1.0.", "a", "1.a", "1-0", "1 .0", "v1", "1.0a"] {
        assert!(!check_release(&chars_of(s)), "{}", s);
    }
}

#[test]
fn local_versions_are_separated_runs_of_letters_and_digits() {
    for s in ["a", "5", "abc.5", "Ubuntu-22_04.x", "a.b-c_d", "ABC", "yeah.this.is.it"] {
        assert!(check_local(&chars_of(s)), "{}", s);
    }
    for s in ["", ".", "-a", "a-", "a..b", "a.-b", "a b", "a+b", "a!", "\u{00e9}", "a.\u{00e9}"] {
        assert!(!check_local(&chars_of(s)), "{}", s);
    }
}

#[test]
fn a_piece_is_found_where_it_stands() {
    let whole = chars_of("1.0rc1");
    assert!(same_between(&whole, 3, 5, &chars_of("rc")));
    assert!(same_between(&whole, 0, 6, &chars_of("1.0rc1")));
    assert!(same_between(&whole, 2, 2, &chars_of("")));
    assert!(same_between(&whole, 6, 6, &chars_of("")));
    assert!(!same_between(&whole, 3, 5, &chars_of("RC")));
    assert!(!same_between(&whole, 3, 5, &chars_of("r")));
    assert!(!same_between(&whole, 3, 5, &chars_of("rc1")));
    assert!(!same_between(&whole, 2, 4, &chars_of("rc")));
    assert!(!same_between(&whole, 0, 0, &chars_of("1")));
    // Places that are not in the text hold no characters.
    assert!(!same_between(&whole, 5, 3, &chars_of("")));
    assert!(!same_between(&whole, 5, 7, &chars_of("1")));
    assert!(!same_between(&whole, 7, 7, &chars_of("")));
}

#[test]
fn keyword_parts_have_their_layout() {
    let kw = chars_of("rc");
    for (part, number) in [
        ("rc", None),
        ("rc1", text("1")),
        (".rc1", text("1")),
        ("-rc-1", text("1")),
        ("_rc_007", text("007")),
        (".rc.", None),
        ("rc-", None),
        ("-rc", None),
    ] {
        assert!(check_keyword_part(&chars_of(part), &kw, &number), "{}", part);
    }
    for (part, number) in [
        ("", None),
        ("rc1", None),
        ("rc", text("1")),
        ("rc", text("")),
        ("rc1", text("2")),
        ("rc12", text("1")),
        ("..rc1", text("1")),
        ("rc..1", text("1")),
        ("rc--", None),
        ("xrc1", text("1")),
        ("r", None),
        ("rcx", text("x")),
        ("RC1", text("1")),
        ("rc1 ", text("1")),
        ("+rc1", text("1")),
    ] {
        assert!(!check_keyword_part(&chars_of(part), &kw, &number), "{}", part);
    }
}

#[test]
fn text_is_appended_in_order() {
    let mut v = chars_of("1.0");
    append_text(&mut v, "rc1");
    assert_eq!(v, chars_of("1.0rc1"));
    append_text(&mut v, "");
    assert_eq!(v, chars_of("1.0rc1"));
    append_part(&mut v, &text(".dev2"));
    assert_eq!(v, chars_of("1.0rc1.dev2"));
    append_part(&mut v, &None);
    assert_eq!(v, chars_of("1.0rc1.dev2"));
}

#[test]
fn parts_are_put_together_in_their_order() {
    assert_eq!(spell(&release_only("1.0")), chars_of("1.0"));
    assert_eq!(spell(&full()), chars_of("1!1.0-preview-921.post-516.dev-241+yeah.this"));
    let caps = CaptureSet { epoch: text("7"), local: text("x"), ..release_only("3") };
    assert_eq!(spell(&caps), chars_of("7!3+x"));
    let caps = CaptureSet { post: text("-3"), post_n1: text("3"), ..release_only("1.0") };
    assert_eq!(spell(&caps), chars_of("1.0-3"));
    // The groups inside a part add nothing of their own.
    let caps = CaptureSet { pre_l: text("a"), pre_n: text("1"), dev_n: text("2"), ..release_only("1.0") };
    assert_eq!(spell(&caps), chars_of("1.0"));
}

#[test]
fn groups_of_a_match_follow_the_grammar() {
    assert!(check("1.0", &release_only("1.0")));
    assert!(check("v1.0", &release_only("1.0")));
    assert!(check("V1.0", &release_only("1.0")));
    assert!(check("1!1.0-preview-921.post-516.dev-241+yeah.this", &full()));
    assert!(check("v1!1.0-preview-921.post-516.dev-241+yeah.this", &full()));
    let caps = CaptureSet { post: text("-3"), post_n1: text("3"), ..release_only("1.0") };
    assert!(check("1.0-3", &caps));
    let caps = CaptureSet { pre: text("RC1"), pre_l: text("RC"), pre_n: text("1"), ..release_only("1.0") };
    assert!(check("1.0RC1", &caps));
    let caps = CaptureSet { dev: text("_DeV_"), dev_l: text("DeV"), ..release_only("1.0") };
    assert!(check("1.0_DeV_", &caps));
}

#[test]
fn groups_must_spell_the_string() {
    let caps = release_only("1.0");
    for input in ["", "1.1", "1.0 ", " 1.0", "1.0.0", "1", "w1.0", "vv1.0", "v 1.0", "1.0v", "v", "\u{ff56}1.0"] {
        assert!(!check(input, &caps), "{}", input);
    }
    assert!(!check("1.0-preview-921.post-516.dev-241+yeah.this", &full()));
    assert!(!check("v1!1.0-preview-921.post-516.dev-241+yeah", &full()));
    assert!(!check("v1!1.0-preview-921.dev-241.post-516+yeah.this", &full()));
}

#[test]
fn each_group_must_have_its_shape() {
    let ok = full();
    let input = "1!1.0-preview-921.post-516.dev-241+yeah.this";
    assert!(check(input, &ok));
    assert!(!check(input, &CaptureSet { epoch: None, ..ok.clone() }));
    assert!(!check(input, &CaptureSet { release: None, ..ok.clone() }));
    assert!(!check(input, &CaptureSet { pre_l: None, ..ok.clone() }));
    assert!(!check(input, &CaptureSet { pre_l: text("pre"), ..ok.clone() }));
    assert!(!check(input, &CaptureSet { pre_n: None, ..ok.clone() }));
    assert!(!check(input, &CaptureSet { pre_n: text("92"), ..ok.clone() }));
    assert!(!check(input, &CaptureSet { post_l: None, ..ok.clone() }));
    assert!(!check(input, &CaptureSet { post_n1: text("516"), ..ok.clone() }));
    assert!(!check(input, &CaptureSet { post_n2: None, ..ok.clone() }));
    assert!(!check(input, &CaptureSet { dev_l: None, ..ok.clone() }));
    assert!(!check(input, &CaptureSet { dev_n: text("24"), ..ok.clone() }));
    assert!(!check(input, &CaptureSet { local: None, ..ok.clone() }));
    assert!(!check("x!1.0", &CaptureSet { epoch: text("x"), ..release_only("1.0") }));
    assert!(!check("1.", &release_only("1.")));
    assert!(!check("1.0+a..b", &CaptureSet { local: text("a..b"), ..release_only("1.0") }));
    assert!(!check("1.0gamma", &CaptureSet { pre: text("gamma"), pre_l: text("gamma"), ..release_only("1.0") }));
    assert!(!check("1.0later", &CaptureSet { post: text("later"), post_l: text("later"), ..release_only("1.0") }));
    assert!(!check("1.0devel", &CaptureSet { dev: text("devel"), dev_l: text("devel"), ..release_only("1.0") }));
}

#[test]
fn groups_without_their_part_are_refused() {
    let base = release_only("1.0");
    assert!(check_pre(&base) && check_post(&base) && check_dev(&base));
    assert!(!check_pre(&CaptureSet { pre_l: text("a"), ..base.clone() }));
    assert!(!check_pre(&CaptureSet { pre_n: text("1"), ..base.clone() }));
    assert!(!check_post(&CaptureSet { post_l: text("post"), ..base.clone() }));
    assert!(!check_post(&CaptureSet { post_n1: text("1"), ..base.clone() }));
    assert!(!check_post(&CaptureSet { post_n2: text("1"), ..base.clone() }));
    assert!(!check_dev(&CaptureSet { dev_l: text("dev"), ..base.clone() }));
    assert!(!check_dev(&CaptureSet { dev_n: text("1"), ..base.clone() }));
}

#[test]
fn post_release_part_has_one_of_two_forms() {
    let base = release_only("1.0");
    assert!(check_post(&CaptureSet { post: text("-3"), post_n1: text("3"), ..base.clone() }));
    assert!(check_post(&CaptureSet { post: text(".post3"), post_l: text("post"), post_n2: text("3"), ..base.clone() }));
    assert!(check_post(&CaptureSet { post: text("r"), post_l: text("r"), ..base.clone() }));
    assert!(check_post(&CaptureSet { post: text("-Rev-"), post_l: text("Rev"), ..base.clone() }));
    assert!(!check_post(&CaptureSet { post: text("-3"), ..base.clone() }));
    assert!(!check_post(&CaptureSet { post: text("_3"), post_n1: text("3"), ..base.clone() }));
    assert!(!check_post(&CaptureSet { post: text("-"), post_n1: text(""), ..base.clone() }));
    assert!(!check_post(&CaptureSet { post: text("-3"), post_n1: text("4"), ..base.clone() }));
    assert!(!check_post(&CaptureSet { post: text("-x"), post_n1: text("x"), ..base.clone() }));
    assert!(!check_post(&CaptureSet { post: text("-3"), post_n1: text("3"), post_l: text("post"), ..base.clone() }));
    assert!(!check_post(&CaptureSet { post: text("-3"), post_n1: text("3"), post_n2: text("3"), ..base.clone() }));
    assert!(!check_post(&CaptureSet { post: text("c1"), post_l: text("c"), post_n2: text("1"), ..base.clone() }));
}

#[test]
fn what_the_match_hands_out_follows_the_grammar() {
    for s in [
        "1.0", "v1.1", "2013.10", "1!1.0", "2!1.0.pre0", "1.0.dev456", "1.0a1", "1.0a12.dev456",
        "1.0b2.post345.dev456", "1.0rc1", "1.0+abc.5", "1.0+5", "1.0.post456.dev34", "1.0.15",
        "1.0-3", "1.0a-1", "1.0a-1-2", "1.0_ALPHA_7", "V1.0", "1.0a.post.dev", "1.0c.r.dev",
        "v1!1.0-preview-921.post-516.dev-241+yeah.this.is.the.problem.with.local.versions",
        "0", "00.00", "1.0-0", "1.0.post-0", "1.0+A-b_C.d", "1.0pre.RC..",
    ] {
        match validate_440_version(s) {
            Ok(caps) => assert!(check(s, &caps), "{}", s),
            Err(_) => assert!(s == "1.0pre.RC..", "{}", s),
        }
    }
}
