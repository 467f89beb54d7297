use octerm::chars::{is_alphanumeric, is_ascii_digit, is_whitespace};
use octerm::parsec::{and, any, literal, many0, many1, peek, pred, ParseResult};
use octerm::parser::{uint, word};

#[test]
fn uint_fails_with_the_predicate_message() {
    let parse = uint();
    assert_eq!(parse("x1"), Err("predicate not matched"));
    assert_eq!(parse(""), Err("predicate not matched"));
    assert_eq!(parse(" 7"), Err("predicate not matched"));
}

#[test]
fn whitespace_agrees_with_std_on_every_char() {
    for code in 0u32..=0x10FFFF {
        if let Some(c) = char::from_u32(code) {
            assert_eq!(is_whitespace(c), c.is_whitespace(), "{code:#x}");
        }
    }
}

#[test]
fn ascii_digit_agrees_with_std_on_every_char() {
    for code in 0u32..=0x10FFFF {
        if let Some(c) = char::from_u32(code) {
            assert_eq!(is_ascii_digit(c), c.is_ascii_digit(), "{code:#x}");
        }
    }
}

#[test]
fn alphanumeric_on_ascii_is_letters_and_digits() {
    for code in 0u32..0x80 {
        let c = char::from_u32(code).unwrap();
        assert_eq!(is_alphanumeric(c), c.is_ascii_alphanumeric(), "{code:#x}");
    }
    assert!(is_alphanumeric('é'));
    assert!(!is_alphanumeric('\u{3000}'));
}

#[test]
fn word_stops_at_punctuation() {
    let parse = word();
    assert_eq!(parse("pr-open"), Ok(("-open", String::from("pr"))));
    assert_eq!(parse("-pr"), Err("predicate not matched"));
}

#[test]
fn many1_agrees_with_many0_where_the_parser_succeeds() {
    let one = many1(pred(|ch| ch.is_ascii_digit()));
    let zero = many0(pred(|ch| ch.is_ascii_digit()));
    for input in ["123", "12q3", "9"] {
        assert_eq!(one(input), zero(input));
    }
    assert_eq!(one("q3"), Err("predicate not matched"));
    assert_eq!(zero("q3"), Ok(("q3", vec![])));
}

#[test]
fn many0_stops_at_the_first_failure() {
    let parse = many0(literal("ab"));
    assert_eq!(parse("ababa"), Ok(("a", vec!["ab", "ab"])));
    assert_eq!(parse(""), Ok(("", vec![])));
}

#[test]
fn any_answers_the_first_success() {
    let parsers = [literal("op"), literal("open"), literal("done")];
    let parse = any(&parsers);
    assert_eq!(parse("open"), Ok(("en", "op")));
    assert_eq!(parse("done"), Ok(("", "done")));
    assert_eq!(parse("list"), Err("Did not match any parser"));
    let none: Vec<fn(&str) -> ParseResult<u8>> = Vec::new();
    let parse_none = any(&none);
    assert_eq!(parse_none("anything"), Err("Did not match any parser"));
}

#[test]
fn and_fails_where_either_part_fails() {
    let parse = and(literal("list"), literal(" pr"));
    assert_eq!(parse("list pr"), Ok(("", ("list", " pr"))));
    assert_eq!(parse("done pr"), Err("Could not parse literal"));
    assert_eq!(parse("list is"), Err("Could not parse literal"));
    let digits_then_letter = and(many1(pred(|ch| ch.is_ascii_digit())), pred(|ch| ch.is_ascii_alphabetic()));
    assert_eq!(digits_then_letter("12"), Err("predicate not matched"));
}

#[test]
fn map_identity_and_composition() {
    let plain = literal("ab");
    let same = octerm::parsec::map(literal("ab"), |s: &str| s);
    for input in ["abc", "b", ""] {
        assert_eq!(plain(input), same(input));
    }
    let twice = octerm::parsec::map(octerm::parsec::map(many0(literal("ab")), |v: Vec<&str>| v.len()), |n: usize| n * 10);
    let once = octerm::parsec::map(many0(literal("ab")), |v: Vec<&str>| v.len() * 10);
    for input in ["abab!", "x", ""] {
        assert_eq!(twice(input), once(input));
    }
    assert_eq!(twice("abab!"), Ok(("!", 20)));
    let failing = octerm::parsec::map(literal("ab"), |s: &str| s.len());
    assert_eq!(failing("x"), Err("Could not parse literal"));
}

#[test]
fn peek_and_pred_agree() {
    let look = peek(|ch| ch.is_ascii_digit());
    let take = pred(|ch| ch.is_ascii_digit());
    assert_eq!(look("7a"), Ok(("7a", '7')));
    assert_eq!(take("7a"), Ok(("a", '7')));
    assert_eq!(look("a7"), Err("peek not matched"));
    assert_eq!(take("a7"), Err("predicate not matched"));
    assert_eq!(look(""), Err("peek not matched"));
    assert_eq!(take(""), Err("predicate not matched"));
}
