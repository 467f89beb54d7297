use octerm::parsec::{
    and, any, left, literal, many0, many1, maybe, peek, pred, right, whitespace0, whitespace1,
};

#[test]
fn test_literal() {
    let parse = literal("list");
    assert_eq!(parse("list pr open"), Ok((" pr open", "list")));
    assert!(parse("open 1 2").is_err());
    assert!(parse("lis").is_err());
}

#[test]
fn test_pred() {
    let parse = pred(|ch| ch.is_ascii_digit());
    assert_eq!(parse("123"), Ok(("23", '1')));
    assert!(parse("a12").is_err());
}

#[test]
fn test_peek() {
    let parse = peek(|ch| ch.is_ascii_digit());
    assert_eq!(parse("123"), Ok(("123", '1')));
    assert!(parse("a12").is_err());
}

#[test]
fn test_many1() {
    let parse = many1(pred(|ch| ch.is_ascii_digit()));
    assert_eq!(parse("123"), Ok(("", vec!['1', '2', '3'])));
    assert_eq!(parse("12q3"), Ok(("q3", vec!['1', '2'])));
    assert!(parse("q3").is_err());
}

#[test]
fn test_many0() {
    let parse = many0(pred(|ch| ch.is_ascii_digit()));
    assert_eq!(parse("123"), Ok(("", vec!['1', '2', '3'])));
    assert_eq!(parse("12q3"), Ok(("q3", vec!['1', '2'])));
    assert_eq!(parse("q3"), Ok(("q3", vec![])));
}

#[test]
fn test_whitespace1() {
    let parse = whitespace1();
    assert_eq!(parse("  1"), Ok(("1", vec![' ', ' '])));
    assert_eq!(parse("  "), Ok(("", vec![' ', ' '])));
    assert_eq!(parse("\n "), Ok(("", vec!['\n', ' '])));
    assert!(parse("q").is_err());
}

#[test]
fn test_whitespace0() {
    let parse = whitespace0();
    assert_eq!(parse("  1"), Ok(("1", vec![' ', ' '])));
    assert_eq!(parse("  "), Ok(("", vec![' ', ' '])));
    assert_eq!(parse("\n "), Ok(("", vec!['\n', ' '])));
    assert_eq!(parse("q"), Ok(("q", vec![])));
}

#[test]
fn test_any() {
    let cmds = [literal("open"), literal("done")];
    let parse = any(&cmds);
    assert_eq!(parse("open 1 2"), Ok((" 1 2", "open")));
    assert_eq!(parse("done"), Ok(("", "done")));
    assert!(parse("list").is_err());
}

#[test]
fn test_and() {
    let parse = and(literal("list"), whitespace1());
    assert_eq!(parse("list  "), Ok(("", ("list", vec![' ', ' ']))));
    let parse = and(and(literal("list"), whitespace1()), literal("pr"));
    assert_eq!(parse("list pr"), Ok(("", (("list", vec![' ']), "pr"))));
}

#[test]
fn test_left() {
    let list_and_whitespace = and(literal("list"), whitespace1());
    let parse = and(left(list_and_whitespace), literal("pr"));
    assert_eq!(parse("list pr"), Ok(("", ("list", "pr"))));
}

#[test]
fn test_right() {
    let pipe_and_sort = and(literal("|"), literal("sort"));
    let parse = and(right(pipe_and_sort), literal("|open"));
    assert_eq!(parse("|sort|open"), Ok(("", ("sort", "|open"))));
}

#[test]
fn test_map() {
    let parse = octerm::parsec::map(whitespace1(), |v| v.len());
    assert_eq!(parse("   "), Ok(("", 3)));
}

#[test]
fn test_maybe() {
    let parse = maybe(literal("wow"));
    assert_eq!(parse("wow"), Ok(("", Some("wow"))));
    assert_eq!(parse("ow"), Ok(("ow", None)));
}
