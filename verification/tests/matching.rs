//! Engine-backed checks: assembled fragments compiled by the external engine
//! and matched against concrete text.

use human_regex::Fragment;
use human_regex::HumanRegex;
use human_regex::PatternError;
use human_regex::capture;
use human_regex::case_insensitive;
use human_regex::digit;
use human_regex::direct_regex;
use human_regex::exactly;
use human_regex::one_or_more;
use human_regex::or;
use human_regex::text;
use human_regex::whitespace;

fn chain(parts: Vec<Fragment>) -> Fragment {
    let mut parts = parts;
    let mut joined = parts.remove(0);
    for part in &parts {
        joined = human_regex::concatenate(&joined, part);
    }
    joined
}

#[test]
fn escaped_literal_matches_itself_and_not_a_wildcard() {
    let fragment = text("a.b");
    assert_eq!(fragment.is_match("a.b").unwrap(), true);
    assert_eq!(fragment.is_match("axb").unwrap(), false);
}

#[test]
fn date_captures_report_three_groups() {
    let date = chain(vec![
        capture(&exactly(4, &digit())),
        text("-"),
        capture(&exactly(2, &digit())),
        text("-"),
        capture(&exactly(2, &digit())),
    ]);
    let compiled = date.to_regex().unwrap();
    let caps = compiled.captures("2010-03-14").unwrap();
    assert_eq!(caps.get(1).unwrap().as_str(), "2010");
    assert_eq!(caps.get(2).unwrap().as_str(), "03");
    assert_eq!(caps.get(3).unwrap().as_str(), "14");
}

#[test]
fn named_captures_report_their_groups() {
    let date = chain(vec![
        human_regex::named_capture(&exactly(4, &digit()), "year"),
        text("-"),
        human_regex::named_capture(&exactly(2, &digit()), "month"),
        text("-"),
        human_regex::named_capture(&exactly(2, &digit()), "day"),
    ]);
    let compiled = date.to_regex().unwrap();
    let caps = compiled.captures("2010-03-14").unwrap();
    assert_eq!(&caps["year"], "2010");
    assert_eq!(&caps["month"], "03");
    assert_eq!(&caps["day"], "14");
}

#[test]
fn case_insensitive_scope_matches_any_case() {
    let fragment = case_insensitive(&text("spongebob"));
    assert_eq!(fragment.is_match("SpOnGeBoB").unwrap(), true);
    assert_eq!(fragment.is_match("spongebob").unwrap(), true);
    assert_eq!(fragment.is_match("patrick").unwrap(), false);
}

#[test]
fn alternation_between_literals_accepts_each_option() {
    let options = vec![String::from("up"), String::from("going on"), String::from("good")];
    let filler = or(&options).unwrap();
    let question = chain(vec![text("what's "), filler, text("?")]);
    assert_eq!(question.is_match("what's up?").unwrap(), true);
    assert_eq!(question.is_match("what's going on?").unwrap(), true);
    assert_eq!(question.is_match("what's good?").unwrap(), true);
    assert_eq!(question.is_match("what's wrong?").unwrap(), false);
}

#[test]
fn quantifier_binds_to_the_whole_wrapped_chain() {
    let pair = human_regex::concatenate(&text("ab"), &digit());
    let repeated = chain(vec![
        human_regex::shorthand::begin(),
        exactly(2, &pair),
        human_regex::shorthand::end(),
    ]);
    assert_eq!(repeated.is_match("ab1ab2").unwrap(), true);
    assert_eq!(repeated.is_match("ab12").unwrap(), false);
}

#[test]
fn anchored_repetition_counts_whitespace() {
    let spaced = chain(vec![text("at"), one_or_more(&whitespace()), text("least")]);
    assert_eq!(spaced.is_match("at least").unwrap(), true);
    assert_eq!(spaced.is_match("at    least").unwrap(), true);
    assert_eq!(spaced.is_match("atleast").unwrap(), false);
}

#[test]
fn class_intersection_matches_only_the_overlap() {
    let overlap = human_regex::and(&vec![
        Fragment::CustomClass(String::from("a-y")),
        Fragment::CustomClass(String::from("xyz")),
    ])
    .unwrap();
    assert_eq!(overlap.is_match("x").unwrap(), true);
    assert_eq!(overlap.is_match("y").unwrap(), true);
    assert_eq!(overlap.is_match("z").unwrap(), false);
}

#[test]
fn class_difference_removes_the_subtrahend() {
    let thinned = human_regex::subtract(
        &Fragment::CustomClass(String::from("0-9")),
        &Fragment::CustomClass(String::from("4")),
    )
    .unwrap();
    assert_eq!(thinned.is_match("3").unwrap(), true);
    assert_eq!(thinned.is_match("9").unwrap(), true);
    assert_eq!(thinned.is_match("4").unwrap(), false);
}

#[test]
fn negated_literal_matches_positionwise_differences() {
    let negated = text("ab").negate().unwrap();
    assert_eq!(negated.is_match("xy").unwrap(), true);
    assert_eq!(negated.is_match("ab").unwrap(), false);
}

#[test]
fn invalid_pattern_error_carries_the_offending_text() {
    let broken = direct_regex("(unclosed");
    match broken.is_match("anything") {
        Err(PatternError::Engine { pattern, message }) => {
            assert_eq!(pattern, "(unclosed");
            assert!(!message.is_empty());
        },
        _ => panic!("an unbalanced group must fail to compile"),
    }
    match broken.to_regex() {
        Err(PatternError::Engine { pattern, .. }) => assert_eq!(pattern, "(unclosed"),
        _ => panic!("an unbalanced group must fail to compile"),
    }
}

#[test]
fn builder_assembles_and_matches_a_date() {
    let hr = HumanRegex::new()
        .begin()
        .exactly(4, "\\d")
        .text("-")
        .exactly(2, "\\d")
        .text("-")
        .exactly(2, "\\d")
        .end();
    assert_eq!(hr.get_regex_string(), "^(?:\\d){4}\\-(?:\\d){2}\\-(?:\\d){2}$");
    assert_eq!(hr.is_match("2014-01-01").unwrap(), true);
    assert_eq!(hr.is_match("2014-1-1").unwrap(), false);
}

#[test]
fn builder_from_regex_string_keeps_the_text() {
    let hr = HumanRegex::from_regex_string("^\\d{2}$");
    assert_eq!(hr.get_regex_string(), "^\\d{2}$");
    assert_eq!(hr.is_match("21").unwrap(), true);
    assert_eq!(hr.is_match("007").unwrap(), false);
}

#[test]
fn builder_is_match_surfaces_engine_failures() {
    let hr = HumanRegex::from_regex_string("(unclosed");
    assert!(matches!(hr.is_match("x"), Err(PatternError::Engine { .. })));
}

#[test]
fn posix_class_matches_through_the_engine() {
    let fragment = human_regex::alphanumeric();
    assert_eq!(fragment.is_match("a").unwrap(), true);
    assert_eq!(fragment.is_match("!").unwrap(), false);
    let negated = human_regex::non_alphanumeric();
    assert_eq!(negated.is_match("!").unwrap(), true);
    assert_eq!(negated.is_match("a").unwrap(), false);
}

#[test]
fn lazy_quantifier_still_matches() {
    let minimal = one_or_more(&digit()).lazy();
    assert_eq!(minimal.is_match("123").unwrap(), true);
    assert_eq!(minimal.is_match("abc").unwrap(), false);
}

#[test]
fn multi_line_scope_lets_anchors_match_line_ends() {
    let line = chain(vec![
        human_regex::shorthand::begin(),
        text("b"),
        human_regex::shorthand::end(),
    ]);
    let scoped = human_regex::multi_line_mode(&line);
    assert_eq!(scoped.is_match("a\nb").unwrap(), true);
    let unscoped = chain(vec![
        human_regex::shorthand::begin(),
        text("b"),
        human_regex::shorthand::end(),
    ]);
    assert_eq!(unscoped.is_match("a\nb").unwrap(), false);
}

#[test]
fn dot_scope_lets_any_match_a_line_terminator() {
    let scoped = human_regex::dot_matches_newline_too(&human_regex::any());
    assert_eq!(scoped.is_match("\n").unwrap(), true);
    assert_eq!(human_regex::any().is_match("\n").unwrap(), false);
}

#[test]
fn unicode_scope_restricts_the_word_class() {
    let ascii_only = human_regex::disable_unicode(&human_regex::word());
    assert_eq!(ascii_only.is_match("w").unwrap(), true);
    assert_eq!(ascii_only.is_match("é").unwrap(), false);
    assert_eq!(human_regex::word().is_match("é").unwrap(), true);
}

#[test]
fn anchors_constrain_the_match_to_the_ends() {
    let hex = chain(vec![human_regex::beginning(), text("hex")]);
    assert_eq!(hex.is_match("hexagon").unwrap(), true);
    assert_eq!(hex.is_match("chlorhexadine").unwrap(), false);
    let tail = chain(vec![text("end"), human_regex::end()]);
    assert_eq!(tail.is_match("mend").unwrap(), true);
    assert_eq!(tail.is_match("endocrinologist").unwrap(), false);
    let absolute = chain(vec![human_regex::beginning_of_text(), text("hex")]);
    assert_eq!(absolute.is_match("hexagon").unwrap(), true);
    let absolute_tail = chain(vec![text("end"), human_regex::end_of_text()]);
    assert_eq!(absolute_tail.is_match("mend").unwrap(), true);
}
