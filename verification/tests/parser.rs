use octerm::parser::types::{
    Adapter, AdapterWithArgs, Command, Consumer, ConsumerWithArgs, Parsed, Producer, ProducerExpr,
    ProducerWithArgs,
};
use octerm::parser::{
    args, command, consumer, consumer_with_args, parser, producer_expr, producer_with_args, uint,
    uint_args, word,
};

fn s(string: &str) -> String {
    String::from(string)
}

fn strings(args: &[&str]) -> Vec<String> {
    args.iter().map(ToString::to_string).collect()
}

/// Builds a producer expression from a producer, its arguments, the adapters
/// with theirs and an optional consumer.
fn pexpr(
    producer: Producer,
    producer_args: &[&str],
    adapters: &[(Adapter, &[&str])],
    consumer: Option<Consumer>,
) -> ProducerExpr {
    ProducerExpr {
        producer: ProducerWithArgs {
            producer,
            args: strings(producer_args),
        },
        adapters: adapters
            .iter()
            .map(|(adapter, args)| AdapterWithArgs {
                adapter: match adapter {
                    Adapter::Confirm => Adapter::Confirm,
                },
                args: strings(args),
            })
            .collect(),
        consumer,
    }
}

#[test]
fn test_word() {
    let parse = word();
    assert_eq!(parse("list"), Ok(("", s("list"))));
    assert_eq!(parse("list pr"), Ok((" pr", s("list"))));
    assert!(parse("").is_err())
}

#[test]
fn test_args() {
    let parse = args();
    assert_eq!(
        parse("list pr open"),
        Ok(("", vec![s("list"), s("pr"), s("open")]))
    );
    assert_eq!(parse("list pr "), Ok(("", vec![s("list"), s("pr")])));
    assert_eq!(
        parse("list pr | open"),
        Ok(("| open", vec![s("list"), s("pr")]))
    );
    assert_eq!(
        parse("list pr| open"),
        Ok(("| open", vec![s("list"), s("pr")]))
    );
    assert_eq!(parse(""), Ok(("", vec![])));
    assert_eq!(parse("  "), Ok(("  ", vec![])));
}

#[test]
fn test_uint() {
    let parse = uint();
    assert_eq!(parse("124"), Ok(("", 124)));
    assert_eq!(parse("1 | done"), Ok((" | done", 1)));
    assert!(parse("").is_err())
}

#[test]
fn test_uint_args() {
    let parse = uint_args();
    assert_eq!(parse("12 23 345"), Ok(("", vec![12, 23, 345])));
    assert_eq!(parse("12 23 "), Ok(("", vec![12, 23])));
    assert_eq!(parse("12 23 | open"), Ok(("| open", vec![12, 23])));
    assert_eq!(parse("12 23| open"), Ok(("| open", vec![12, 23])));
    assert_eq!(parse(""), Ok(("", vec![])));
    assert_eq!(parse("  "), Ok(("  ", vec![])));
}

#[test]
fn test_command() {
    let parse = command();
    assert_eq!(parse("reload"), Ok(("", Command::Reload)));
    assert!(parse("list").is_err());
}

#[test]
fn test_consumer() {
    let parse = consumer();
    assert_eq!(parse("done"), Ok(("", Consumer::Done)));
    assert_eq!(parse("open"), Ok(("", Consumer::Open)));
    assert_eq!(parse("open 1 2"), Ok((" 1 2", Consumer::Open)));
    assert!(parse("list").is_err());
}

#[test]
fn test_producer_with_args() {
    let parse = producer_with_args();
    let test = |input, prod, args: &[&str], next_input| {
        assert_eq!(
            parse(input),
            Ok((
                next_input,
                ProducerWithArgs {
                    producer: prod,
                    args: args.iter().map(ToString::to_string).collect(),
                }
            ))
        );
    };
    test("list pr open", Producer::List, &["pr", "open"], "");
    test("list pr | done", Producer::List, &["pr"], "| done");
    test("list pr|done", Producer::List, &["pr"], "|done");
    test("list | done", Producer::List, &[], "| done");
    test("list|done", Producer::List, &[], "|done");
    test("list", Producer::List, &[], "");
    // This is expected when using this parser; the top level parser
    // rejects it.
    test("listed", Producer::List, &[], "ed");
}

#[test]
fn test_consumer_with_args() {
    let parse = consumer_with_args();
    let test = |input, cons, args: &[usize], next_input| {
        assert_eq!(
            parse(input),
            Ok((
                next_input,
                ConsumerWithArgs {
                    consumer: cons,
                    args: args.to_vec(),
                }
            ))
        );
    };
    test("done 1 12", Consumer::Done, &[1, 12], "");
    test("done", Consumer::Done, &[], "");
    // Fake syntax
    test("open 1 ; done", Consumer::Open, &[1], "; done");
}

#[test]
fn test_producer_expr() {
    let parse = producer_expr();
    let test = |input: &str, expected: ProducerExpr, msg: &str| {
        assert_eq!(parse(input), Ok(("", expected)), "{}: {}", input, msg);
    };

    test("list", pexpr(Producer::List, &[], &[], None), "bare producer");
    test(
        "list pr open",
        pexpr(Producer::List, &["pr", "open"], &[], None),
        "producer with args",
    );
    test(
        "list pr open ",
        pexpr(Producer::List, &["pr", "open"], &[], None),
        "producer with args with trailing whitespace",
    );
    test(
        "list|confirm",
        pexpr(Producer::List, &[], &[(Adapter::Confirm, &[])], None),
        "bare producer and bare adapter",
    );
    test(
        "list pr|confirm",
        pexpr(Producer::List, &["pr"], &[(Adapter::Confirm, &[])], None),
        "producer with args and bare adapter",
    );
    test(
        "list pr|confirm smt",
        pexpr(Producer::List, &["pr"], &[(Adapter::Confirm, &["smt"])], None),
        "producer with args and adapter with args",
    );
    test(
        "list|confirm smt",
        pexpr(Producer::List, &[], &[(Adapter::Confirm, &["smt"])], None),
        "bare producer and adapter with args",
    );
    test(
        "list|confirm|confirm",
        pexpr(
            Producer::List,
            &[],
            &[(Adapter::Confirm, &[]), (Adapter::Confirm, &[])],
            None,
        ),
        "bare producer and bare adapter and bare adapter",
    );
    test(
        "list|confirm|done",
        pexpr(
            Producer::List,
            &[],
            &[(Adapter::Confirm, &[])],
            Some(Consumer::Done),
        ),
        "bare producer and bare adapter and bare consumer",
    );
    test(
        "list|confirm smt|done",
        pexpr(
            Producer::List,
            &[],
            &[(Adapter::Confirm, &["smt"])],
            Some(Consumer::Done),
        ),
        "bare producer and adapter with args and bare consumer",
    );
    test(
        "list|confirm|confirm|done",
        pexpr(
            Producer::List,
            &[],
            &[(Adapter::Confirm, &[]), (Adapter::Confirm, &[])],
            Some(Consumer::Done),
        ),
        "bare producer and bare adapter*s* and bare consumer",
    );

    // Expected because eof is not enforced in the producer_expr parser
    // but rather in the top level parser.
    assert_eq!(
        parse("lister"),
        Ok(("er", pexpr(Producer::List, &[], &[], None))),
        "parses partial input with data remanining in input stream"
    );
}

#[test]
fn test_parser() {
    let parse = parser();

    assert_eq!(parse("reload"), Ok(("", Parsed::Command(Command::Reload))));
    assert_eq!(
        parse("list"),
        Ok((
            "",
            Parsed::ProducerExpr(pexpr(Producer::List, &[], &[], None))
        ))
    );
    assert_eq!(
        parse("list pr|confirm smt|done"),
        Ok((
            "",
            Parsed::ProducerExpr(pexpr(
                Producer::List,
                &["pr"],
                &[(Adapter::Confirm, &["smt"])],
                Some(Consumer::Done)
            ))
        )),
    );
    assert_eq!(
        parse("done 1 2"),
        Ok((
            "",
            Parsed::ConsumerWithArgs(ConsumerWithArgs {
                consumer: Consumer::Done,
                args: vec![1, 2]
            })
        ))
    );
    assert!(parse("lister").is_err());
}
