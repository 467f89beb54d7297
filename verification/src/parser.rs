//! Contains parsers that use the parser combinators from
//! [`crate::parsec`] to parse the command line syntax.
use vstd::prelude::*;

pub mod types;

use self::types::{
    string_view, Adapter, AdapterWithArgs, AdapterWithArgsModel, Command, Consumer, ConsumerWithArgs, ConsumerWithArgsModel,
    Producer, ProducerWithArgs, ProducerWithArgsModel, Parsed, ParsedModel, ProducerExpr, ProducerExprModel,
    producer_with_args_view, adapter_with_args_view, consumer_with_args_view, producer_expr_view, parsed_view,
};

use vstd::std_specs::convert::TryFromSpec;

use crate::chars::{char_is_alphanumeric, char_is_ascii_digit, char_is_whitespace, is_alphanumeric, is_ascii_digit, is_whitespace, string_from_chars};
use crate::parsec::{
    always, and, any, any_result, behaves_as_any, char_view, fails, literal, parser_fn, parses, spec_literal, str_view, may_parse,
    decides, dom_and, dom_many, dom_map, dom_repeat, everywhere, fn_implements, implements, leading,
    left, lemma_and, lemma_dom_repeat_total, lemma_implements_congruent, lemma_leading, lemma_left, lemma_many0,
    lemma_many1, lemma_map, lemma_repeat_pred, many0, many1, pair_view, pred, spec_and, spec_first, spec_identity,
    spec_many0, spec_many1, spec_map, spec_pred, spec_repeat, spec_whitespace0, vec_view, whitespace0, ParseResult,
    maybe, right, whitespace1, lemma_repeat_shrinks, eof, or, lemma_eof, lemma_or, spec_eof, spec_or, dom_or, lemma_right, lemma_maybe, spec_maybe, spec_second, spec_whitespace1, option_view, ws_test,
};

verus! {

pub open spec fn alnum_test() -> spec_fn(char) -> bool {
    |c: char| char_is_alphanumeric(c)
}

/// A maximal non-empty run of alphanumeric characters.
pub open spec fn spec_word() -> spec_fn(Seq<char>) -> Option<(Seq<char>, Seq<char>)> {
    |s: Seq<char>| {
        let n = leading(alnum_test(), s) as int;
        if n > 0 { Some((s.skip(n), s.take(n))) } else { None }
    }
}

proof fn lemma_char_vec_view(v: Vec<char>)
    ensures
        vec_view(char_view())(v) == v@,
{
    assert(v@.map_values(char_view()) =~= v@);
}

fn alnum_char() -> (res: impl Fn(&str) -> ParseResult<char>)
    ensures
        implements(res, everywhere(), spec_pred(alnum_test()), char_view()),
{
    let cond = |ch: char| -> (b: bool) ensures b == char_is_alphanumeric(ch) { is_alphanumeric(ch) };
    assert(decides(cond, alnum_test()));
    pred(cond)
}

pub fn word() -> (res: impl Fn(&str) -> ParseResult<String>)
    ensures
        implements(res, everywhere(), spec_word(), string_view()),
{
    let c = alnum_char();
    let chars = many1(c);
    let collect = |cs: Vec<char>| -> (s: String) ensures s@ == cs@ { string_from_chars(&cs) };
    let ghost gchars = chars;
    let ghost gcollect = collect;
    proof {
        lemma_many1(&chars, &c, everywhere(), spec_pred(alnum_test()), char_view());
        assert forall|a: Vec<char>, b: String| #[trigger] gcollect.ensures((a,), b) implies
            string_view()(b) == spec_identity()(vec_view(char_view())(a)) by {
            lemma_char_vec_view(a);
        }
        assert(fn_implements(gcollect, everywhere(), spec_identity(), vec_view(char_view()), string_view()));
    }
    let res = crate::parsec::map(chars, collect);
    proof {
        lemma_map(&res, &gchars, &gcollect, dom_many(everywhere(), spec_pred(alnum_test())),
            spec_many1(spec_pred(alnum_test())), vec_view(char_view()), everywhere(), spec_identity(), string_view());
        assert forall|s: Seq<char>| #[trigger] spec_map(spec_many1(spec_pred(alnum_test())), spec_identity())(s) == spec_word()(s) by {
            lemma_repeat_pred(alnum_test(), s);
        }
        assert forall|s: Seq<char>| #[trigger] everywhere()(s) implies
            dom_map(dom_many(everywhere(), spec_pred(alnum_test())), spec_many1(spec_pred(alnum_test())), everywhere())(s) by {
            lemma_repeat_pred(alnum_test(), s);
        }
        lemma_implements_congruent(&res,
            dom_map(dom_many(everywhere(), spec_pred(alnum_test())), spec_many1(spec_pred(alnum_test())), everywhere()),
            spec_map(spec_many1(spec_pred(alnum_test())), spec_identity()), everywhere(), spec_word(), string_view());
    }
    res
}

/// A word and the whitespace after it; yields the word.
pub open spec fn spec_arg() -> spec_fn(Seq<char>) -> Option<(Seq<char>, Seq<char>)> {
    spec_map(spec_and(spec_word(), spec_whitespace0()), spec_first())
}

/// Words separated and followed by optional whitespace, as many as there are.
pub open spec fn spec_args() -> spec_fn(Seq<char>) -> Option<(Seq<char>, Seq<Seq<char>>)> {
    spec_many0(spec_arg())
}

proof fn lemma_arg_consumes(t: Seq<char>)
    ensures
        spec_arg()(t) matches Some((rem, w)) ==> rem.len() < t.len() && w.len() > 0,
{
    lemma_leading(alnum_test(), t);
    let n = leading(alnum_test(), t) as int;
    if n > 0 {
        lemma_leading(crate::parsec::ws_test(), t.skip(n));
    }
}

pub fn args() -> (res: impl Fn(&str) -> ParseResult<Vec<String>>)
    ensures
        implements(res, everywhere(), spec_args(), vec_view(string_view())),
{
    let w = word();
    let ws = whitespace0();
    let ghost gw = w;
    let ghost gws = ws;
    let pair = and(w, ws);
    let ghost gpair = pair;
    proof {
        lemma_and(&pair, &gw, &gws, everywhere(), spec_word(), string_view(), everywhere(), spec_whitespace0(), vec_view(char_view()));
    }
    let arg = left(pair);
    let ghost garg = arg;
    proof {
        lemma_left(&arg, &gpair, dom_and(everywhere(), spec_word(), everywhere()), spec_and(spec_word(), spec_whitespace0()),
            string_view(), vec_view(char_view()));
        lemma_implements_congruent(&arg, dom_and(everywhere(), spec_word(), everywhere()), spec_arg(), everywhere(), spec_arg(), string_view());
    }
    let res = many0(arg);
    proof {
        lemma_many0(&res, &garg, everywhere(), spec_arg(), string_view());
        assert forall|t: Seq<char>| (#[trigger] spec_arg()(t) matches Some((rem, _)) ==> rem.len() < t.len()) by {
            lemma_arg_consumes(t);
        }
        assert forall|s: Seq<char>| #[trigger] everywhere()(s) implies dom_many(everywhere(), spec_arg())(s) by {
            lemma_dom_repeat_total(spec_arg(), s);
        }
        lemma_implements_congruent(&res, dom_many(everywhere(), spec_arg()), spec_many0(spec_arg()), everywhere(), spec_args(), vec_view(string_view()));
    }
    res
}

pub open spec fn digit_test() -> spec_fn(char) -> bool {
    |c: char| char_is_ascii_digit(c)
}

pub open spec fn digit_value(c: char) -> nat {
    (c as int - '0' as int) as nat
}

/// The number that the decimal digits `ds` denote.
pub open spec fn decimal_value(ds: Seq<char>) -> nat
    decreases ds.len(),
{
    if ds.len() == 0 {
        0
    } else {
        decimal_value(ds.drop_last()) * 10 + digit_value(ds.last())
    }
}

pub open spec fn all_digits(ds: Seq<char>) -> bool {
    forall|k: int| 0 <= k < ds.len() ==> #[trigger] char_is_ascii_digit(ds[k])
}

pub open spec fn usize_view() -> spec_fn(usize) -> nat {
    |n: usize| n as nat
}

/// A maximal non-empty run of decimal digits; yields the number it denotes.
pub open spec fn spec_uint() -> spec_fn(Seq<char>) -> Option<(Seq<char>, nat)> {
    spec_map(spec_many1(spec_pred(digit_test())), |ds: Seq<char>| decimal_value(ds))
}

/// The run of digits at the start of `s` denotes a number that fits in a `usize`.
pub open spec fn uint_fits() -> spec_fn(Seq<char>) -> bool {
    |s: Seq<char>| decimal_value(s.take(leading(digit_test(), s) as int)) <= usize::MAX
}

proof fn lemma_decimal_prefix(ds: Seq<char>, i: int)
    requires
        0 <= i <= ds.len(),
        all_digits(ds),
    ensures
        decimal_value(ds.take(i)) <= decimal_value(ds),
    decreases ds.len() - i,
{
    if i < ds.len() {
        lemma_decimal_prefix(ds, i + 1);
        assert(ds.take(i + 1).drop_last() =~= ds.take(i));
        assert(char_is_ascii_digit(ds[i]));
    } else {
        assert(ds.take(i) =~= ds);
    }
}

/// The number that the decimal digits `ds` denote.
fn digits_to_usize(ds: &Vec<char>) -> (n: usize)
    requires
        all_digits(ds@),
        decimal_value(ds@) <= usize::MAX,
    ensures
        n as nat == decimal_value(ds@),
{
    let mut acc: usize = 0;
    let mut i: usize = 0;
    assert(ds@.take(0) =~= Seq::<char>::empty());
    while i < ds.len()
        invariant
            i <= ds@.len(),
            all_digits(ds@),
            decimal_value(ds@) <= usize::MAX,
            acc as nat == decimal_value(ds@.take(i as int)),
        decreases ds@.len() - i,
    {
        let c = ds[i];
        assert(char_is_ascii_digit(ds@[i as int]));
        proof {
            lemma_decimal_prefix(ds@, i + 1);
            assert(ds@.take(i + 1).drop_last() =~= ds@.take(i as int));
        }
        let d = (c as u32 - '0' as u32) as usize;
        acc = acc * 10 + d;
        i += 1;
    }
    assert(ds@.take(i as int) =~= ds@);
    acc
}

fn digit_char() -> (res: impl Fn(&str) -> ParseResult<char>)
    ensures
        implements(res, everywhere(), spec_pred(digit_test()), char_view()),
        forall|i: &str, e: &'static str| #[trigger] res.ensures((i,), Err(e)) ==> e == "predicate not matched",
{
    let cond = |ch: char| -> (b: bool) ensures b == char_is_ascii_digit(ch) { is_ascii_digit(ch) };
    assert(decides(cond, digit_test()));
    pred(cond)
}

proof fn lemma_uint_runs(s: Seq<char>)
    ensures
        dom_repeat(everywhere(), spec_pred(digit_test()), s),
        spec_many1(spec_pred(digit_test()))(s) matches Some((_, ds)) ==> all_digits(ds),
        spec_uint()(s) matches Some((rem, _)) ==> rem.len() < s.len(),
{
    lemma_repeat_pred(digit_test(), s);
    lemma_leading(digit_test(), s);
    let n = leading(digit_test(), s) as int;
    assert forall|k: int| 0 <= k < s.take(n).len() implies #[trigger] char_is_ascii_digit(s.take(n)[k]) by {
        assert(digit_test()(s[k]));
    }
}

pub fn uint() -> (res: impl Fn(&str) -> ParseResult<usize>)
    ensures
        implements(res, uint_fits(), spec_uint(), usize_view()),
        forall|i: &str, e: &'static str| #[trigger] res.ensures((i,), Err(e)) ==> e == "predicate not matched",
{
    let d = digit_char();
    let ghost gd = d;
    let digits = many1(d);
    let to_usize = |ds: Vec<char>| -> (n: usize)
        requires
            all_digits(ds@),
            decimal_value(ds@) <= usize::MAX,
        ensures
            n as nat == decimal_value(ds@),
    {
        digits_to_usize(&ds)
    };
    let ghost gdigits = digits;
    let ghost gto = to_usize;
    let ghost fdom = |ds: Seq<char>| all_digits(ds) && decimal_value(ds) <= usize::MAX;
    let ghost g = |ds: Seq<char>| decimal_value(ds);
    proof {
        lemma_many1(&digits, &d, everywhere(), spec_pred(digit_test()), char_view());
        assert forall|a: Vec<char>| fdom(vec_view(char_view())(a)) implies #[trigger] gto.requires((a,)) by {
            lemma_char_vec_view(a);
        }
        assert forall|a: Vec<char>, b: usize| #[trigger] gto.ensures((a,), b) implies
            usize_view()(b) == g(vec_view(char_view())(a)) by {
            lemma_char_vec_view(a);
        }
        assert(fn_implements(gto, fdom, g, vec_view(char_view()), usize_view()));
    }
    let res = crate::parsec::map(digits, to_usize);
    proof {
        let dom0 = dom_many(everywhere(), spec_pred(digit_test()));
        let run0 = spec_many1(spec_pred(digit_test()));
        lemma_map(&res, &gdigits, &gto, dom0, run0, vec_view(char_view()), fdom, g, usize_view());
        assert forall|s: Seq<char>| #[trigger] uint_fits()(s) implies dom_map(dom0, run0, fdom)(s) by {
            lemma_uint_runs(s);
            lemma_repeat_pred(digit_test(), s);
            if let Some((_, v)) = run0(s) {
                assert(v == s.take(leading(digit_test(), s) as int));
                assert(fdom(v));
            }
        }
        assert forall|s: Seq<char>| #[trigger] spec_map(run0, g)(s) == spec_uint()(s) by {}
        lemma_implements_congruent(&res, dom_map(dom0, run0, fdom), spec_map(run0, g), uint_fits(), spec_uint(), usize_view());
        assert forall|i: &str, e: &'static str| #[trigger] res.ensures((i,), Err(e)) implies e == "predicate not matched" by {
            assert(parses(&res, i, Err(e)));
            assert(parses(&gdigits, i, Err(e)));
            assert(parses(&gd, i, Err(e)));
        }
    }
    res
}

/// A number and the whitespace after it; yields the number.
pub open spec fn spec_uint_arg() -> spec_fn(Seq<char>) -> Option<(Seq<char>, nat)> {
    spec_map(spec_and(spec_uint(), spec_whitespace0()), spec_first())
}

/// Numbers separated and followed by optional whitespace, as many as there are.
pub open spec fn spec_uint_args() -> spec_fn(Seq<char>) -> Option<(Seq<char>, Seq<nat>)> {
    spec_many0(spec_uint_arg())
}

/// Every number that `spec_uint_args` reads from `s` fits in a `usize`.
pub open spec fn uint_args_fit() -> spec_fn(Seq<char>) -> bool {
    dom_many(uint_fits(), spec_uint_arg())
}

pub fn uint_args() -> (res: impl Fn(&str) -> ParseResult<Vec<usize>>)
    ensures
        implements(res, uint_args_fit(), spec_uint_args(), vec_view(usize_view())),
{
    let n = uint();
    let ws = whitespace0();
    let ghost gn = n;
    let ghost gws = ws;
    let pair = and(n, ws);
    let ghost gpair = pair;
    proof {
        lemma_and(&pair, &gn, &gws, uint_fits(), spec_uint(), usize_view(), everywhere(), spec_whitespace0(), vec_view(char_view()));
    }
    let arg = left(pair);
    let ghost garg = arg;
    proof {
        lemma_left(&arg, &gpair, dom_and(uint_fits(), spec_uint(), everywhere()), spec_and(spec_uint(), spec_whitespace0()),
            usize_view(), vec_view(char_view()));
        lemma_implements_congruent(&arg, dom_and(uint_fits(), spec_uint(), everywhere()), spec_uint_arg(), uint_fits(),
            spec_uint_arg(), usize_view());
    }
    let res = many0(arg);
    proof {
        lemma_many0(&res, &garg, uint_fits(), spec_uint_arg(), usize_view());
    }
    res
}

/// The index of the first of `lits`, from the `k`-th on, that `s` starts with.
pub open spec fn first_prefix(lits: Seq<&'static str>, s: Seq<char>, k: int) -> Option<int>
    decreases lits.len() - k,
{
    if k < 0 || k >= lits.len() {
        None
    } else if lits[k]@.is_prefix_of(s) {
        Some(k)
    } else {
        first_prefix(lits, s, k + 1)
    }
}

proof fn lemma_first_prefix(lits: Seq<&'static str>, s: Seq<char>, k: int, m: int)
    requires
        0 <= k <= m <= lits.len(),
        forall|j: int| k <= j < m ==> !(#[trigger] lits[j]@).is_prefix_of(s),
    ensures
        first_prefix(lits, s, k) == first_prefix(lits, s, m),
    decreases m - k,
{
    if k < m {
        lemma_first_prefix(lits, s, k + 1, m);
    }
}

/// The first of `lits` that starts `s`, turned into an `E`.
pub open spec fn spec_literal_enum<E: TryFromSpec<&'static str, Error = &'static str>>(lits: Seq<&'static str>) -> spec_fn(Seq<char>) -> Option<(Seq<char>, E)> {
    |s: Seq<char>|
        match first_prefix(lits, s, 0) {
            Some(k) => match E::try_from_spec(lits[k]) {
                Ok(e) => Some((s.skip(lits[k]@.len() as int), e)),
                Err(_) => None,
            },
            None => None,
        }
}

/// `p` returns `lit` whenever it succeeds.
pub open spec fn yields_literal<P: Fn(&str) -> ParseResult<&'static str>>(p: P, lit: &'static str) -> bool {
    forall|i: &str, r: ParseResult<&'static str>| #[trigger] p.ensures((i,), r) ==> (r matches Ok((_, o)) ==> o == lit)
}

/// Parses any of the given literals into an enum.
fn literal_to_enum<E, const N: usize>(lits: [&'static str; N]) -> (res: impl Fn(&str) -> ParseResult<E>)
    where
        E: TryFrom<&'static str, Error = &'static str> + TryFromSpec<&'static str, Error = &'static str>,
    requires
        E::obeys_try_from_spec(),
    ensures
        implements(res, everywhere(), spec_literal_enum::<E>(lits@), spec_identity()),
{
    parser_fn(move |input: &str| -> (r: ParseResult<E>)
        requires
            E::obeys_try_from_spec(),
        ensures
            match r {
                Ok((rem, e)) => spec_literal_enum::<E>(lits@)(input@) == Some((rem@, e)),
                Err(_) => spec_literal_enum::<E>(lits@)(input@) is None,
            },
    {
        let mut lits_parser = Vec::new();
        let mut k: usize = 0;
        while k < N
            invariant
                k <= N,
                N == lits@.len(),
                lits_parser@.len() == k,
                forall|j: int| 0 <= j < k ==> implements(#[trigger] lits_parser@[j], everywhere(), spec_literal(lits@[j]@), str_view()),
                forall|j: int| 0 <= j < k ==> yields_literal(#[trigger] lits_parser@[j], lits@[j]),
            decreases N - k,
        {
            lits_parser.push(literal(lits[k]));
            k += 1;
        }
        let any_lit = any(lits_parser.as_slice());
        let ghost ps = lits_parser@;
        assert forall|j: int| 0 <= j < ps.len() && crate::parsec::all_fail_before(ps, input, j) implies #[trigger] may_parse(&ps[j], input) by {
            assert(implements(ps[j], everywhere(), spec_literal(lits@[j]@), str_view()));
        }
        assert(crate::parsec::any_callable(ps, input));
        assert(may_parse(&any_lit, input));
        let parsed = any_lit(input);
        assert(parses(&any_lit, input, parsed));
        assert(any_result(ps, input, parsed));
        match parsed {
            Ok((rem, prod)) => {
                let ghost k = choose|k: int| 0 <= k < ps.len() && #[trigger] parses(&ps[k], input, parsed)
                    && crate::parsec::all_fail_before(ps, input, k);
                proof {
                    assert(implements(ps[k], everywhere(), spec_literal(lits@[k]@), str_view()));
                    assert(yields_literal(ps[k], lits@[k]));
                    assert(ps[k].ensures((input,), parsed));
                    assert forall|j: int| 0 <= j < k implies !(#[trigger] lits@[j]@).is_prefix_of(input@) by {
                        assert(fails(&ps[j], input));
                        let e = choose|e: &'static str| parses(&ps[j], input, Err(e));
                        assert(implements(ps[j], everywhere(), spec_literal(lits@[j]@), str_view()));
                        assert(ps[j].ensures((input,), Err(e)));
                    }
                    lemma_first_prefix(lits@, input@, 0, k);
                }
                match E::try_from(prod) {
                    Ok(e) => Ok((rem, e)),
                    Err(err) => Err(err),
                }
            },
            Err(e) => {
                proof {
                    assert forall|j: int| 0 <= j < N implies !(#[trigger] lits@[j]@).is_prefix_of(input@) by {
                        assert(fails(&ps[j], input));
                        let e = choose|e: &'static str| parses(&ps[j], input, Err(e));
                        assert(implements(ps[j], everywhere(), spec_literal(lits@[j]@), str_view()));
                        assert(ps[j].ensures((input,), Err(e)));
                    }
                    lemma_first_prefix(lits@, input@, 0, N as int);
                }
                Err(e)
            },
        }
    })
}

/// The literal `name` at the start of the input, as `value`.
pub open spec fn spec_keyword<E>(name: Seq<char>, value: E) -> spec_fn(Seq<char>) -> Option<(Seq<char>, E)> {
    |s: Seq<char>| if name.is_prefix_of(s) { Some((s.skip(name.len() as int), value)) } else { None }
}

pub open spec fn spec_command() -> spec_fn(Seq<char>) -> Option<(Seq<char>, Command)> {
    spec_keyword("reload"@, Command::Reload)
}

pub open spec fn spec_producer() -> spec_fn(Seq<char>) -> Option<(Seq<char>, Producer)> {
    spec_keyword("list"@, Producer::List)
}

pub open spec fn spec_adapter() -> spec_fn(Seq<char>) -> Option<(Seq<char>, Adapter)> {
    spec_keyword("confirm"@, Adapter::Confirm)
}

pub open spec fn spec_consumer() -> spec_fn(Seq<char>) -> Option<(Seq<char>, Consumer)> {
    |s: Seq<char>|
        if "open"@.is_prefix_of(s) {
            Some((s.skip(4), Consumer::Open))
        } else if "done"@.is_prefix_of(s) {
            Some((s.skip(4), Consumer::Done))
        } else {
            None
        }
}

pub fn command() -> (res: impl Fn(&str) -> ParseResult<Command>)
    ensures
        implements(res, everywhere(), spec_command(), spec_identity()),
{
    let lits = Command::all();
    let res = literal_to_enum(lits);
    proof {
        reveal_strlit("reload");
        assert forall|s: Seq<char>| #[trigger] spec_literal_enum::<Command>(lits@)(s) == spec_command()(s) by {
            assert(lits@[0] == "reload");
            assert(first_prefix(lits@, s, 1) is None);
            assert(<Command as TryFromSpec<&'static str>>::try_from_spec(lits@[0]) is Ok);
        }
        lemma_implements_congruent(&res, everywhere(), spec_literal_enum::<Command>(lits@), everywhere(), spec_command(), spec_identity());
    }
    res
}

pub fn producer() -> (res: impl Fn(&str) -> ParseResult<Producer>)
    ensures
        implements(res, everywhere(), spec_producer(), spec_identity()),
{
    let lits = Producer::all();
    let res = literal_to_enum(lits);
    proof {
        reveal_strlit("list");
        assert forall|s: Seq<char>| #[trigger] spec_literal_enum::<Producer>(lits@)(s) == spec_producer()(s) by {
            assert(lits@[0] == "list");
            assert(first_prefix(lits@, s, 1) is None);
            assert(<Producer as TryFromSpec<&'static str>>::try_from_spec(lits@[0]) is Ok);
        }
        lemma_implements_congruent(&res, everywhere(), spec_literal_enum::<Producer>(lits@), everywhere(), spec_producer(), spec_identity());
    }
    res
}

pub fn adapter() -> (res: impl Fn(&str) -> ParseResult<Adapter>)
    ensures
        implements(res, everywhere(), spec_adapter(), spec_identity()),
{
    let lits = Adapter::all();
    let res = literal_to_enum(lits);
    proof {
        reveal_strlit("confirm");
        assert forall|s: Seq<char>| #[trigger] spec_literal_enum::<Adapter>(lits@)(s) == spec_adapter()(s) by {
            assert(lits@[0] == "confirm");
            assert(first_prefix(lits@, s, 1) is None);
            assert(<Adapter as TryFromSpec<&'static str>>::try_from_spec(lits@[0]) is Ok);
        }
        lemma_implements_congruent(&res, everywhere(), spec_literal_enum::<Adapter>(lits@), everywhere(), spec_adapter(), spec_identity());
    }
    res
}

pub fn consumer() -> (res: impl Fn(&str) -> ParseResult<Consumer>)
    ensures
        implements(res, everywhere(), spec_consumer(), spec_identity()),
{
    let lits = Consumer::all();
    let res = literal_to_enum(lits);
    proof {
        reveal_strlit("open");
        reveal_strlit("done");
        assert forall|s: Seq<char>| #[trigger] spec_literal_enum::<Consumer>(lits@)(s) == spec_consumer()(s) by {
            assert(lits@[0] == "open");
            assert(lits@[1] == "done");
            assert("done"@ != "open"@) by {
                assert("done"@[0] != "open"@[0]);
            }
            assert(first_prefix(lits@, s, 2) is None);
            assert(first_prefix(lits@, s, 1) == (if "done"@.is_prefix_of(s) { Some(1int) } else { None }));
            assert(<Consumer as TryFromSpec<&'static str>>::try_from_spec(lits@[0]) == Ok::<Consumer, &'static str>(Consumer::Open));
            assert(<Consumer as TryFromSpec<&'static str>>::try_from_spec(lits@[1]) == Ok::<Consumer, &'static str>(Consumer::Done));
        }
        lemma_implements_congruent(&res, everywhere(), spec_literal_enum::<Consumer>(lits@), everywhere(), spec_consumer(), spec_identity());
    }
    res
}

pub open spec fn unit_view<O>() -> spec_fn(O) -> () {
    |o: O| ()
}

pub open spec fn spec_pipe() -> spec_fn(Seq<char>) -> Option<(Seq<char>, ())> {
    spec_keyword("|"@, ())
}

pub fn pipe() -> (res: impl Fn(&str) -> ParseResult<()>)
    ensures
        implements(res, everywhere(), spec_pipe(), unit_view()),
{
    let bar = literal("|");
    let to_unit = |s: &str| -> (u: ()) { () };
    let ghost gbar = bar;
    let ghost gto = to_unit;
    proof {
        assert(fn_implements(gto, everywhere(), unit_view(), str_view(), unit_view()));
    }
    let res = crate::parsec::map(bar, to_unit);
    proof {
        lemma_map(&res, &gbar, &gto, everywhere(), spec_literal("|"@), str_view(), everywhere(), unit_view(), unit_view());
        lemma_implements_congruent(&res, dom_map(everywhere(), spec_literal("|"@), everywhere()), spec_map(spec_literal("|"@), unit_view()),
            everywhere(), spec_pipe(), unit_view());
    }
    res
}

pub open spec fn or_empty<V>(o: Option<Seq<V>>) -> Seq<V> {
    match o {
        Some(v) => v,
        None => Seq::empty(),
    }
}

/// Whitespace, then what `run` parses; yields the latter.
pub open spec fn spec_after_whitespace<V>(run: spec_fn(Seq<char>) -> Option<(Seq<char>, V)>) -> spec_fn(Seq<char>) -> Option<(Seq<char>, V)> {
    spec_map(spec_and(spec_whitespace1(), run), spec_second())
}

/// A producer, then optionally whitespace and words.
pub open spec fn spec_producer_with_args() -> spec_fn(Seq<char>) -> Option<(Seq<char>, ProducerWithArgsModel)> {
    spec_map(
        spec_and(spec_producer(), spec_maybe(spec_after_whitespace(spec_args()))),
        |p: (Producer, Option<Seq<Seq<char>>>)| ProducerWithArgsModel { producer: p.0, args: or_empty(p.1) },
    )
}

/// An adapter, then optionally whitespace and words.
pub open spec fn spec_adapter_with_args() -> spec_fn(Seq<char>) -> Option<(Seq<char>, AdapterWithArgsModel)> {
    spec_map(
        spec_and(spec_adapter(), spec_maybe(spec_after_whitespace(spec_args()))),
        |p: (Adapter, Option<Seq<Seq<char>>>)| AdapterWithArgsModel { adapter: p.0, args: or_empty(p.1) },
    )
}

/// A consumer, then optionally whitespace and numbers.
pub open spec fn spec_consumer_with_args() -> spec_fn(Seq<char>) -> Option<(Seq<char>, ConsumerWithArgsModel)> {
    spec_map(
        spec_and(spec_consumer(), spec_maybe(spec_after_whitespace(spec_uint_args()))),
        |p: (Consumer, Option<Seq<nat>>)| ConsumerWithArgsModel { consumer: p.0, args: or_empty(p.1) },
    )
}

/// Every number that `spec_consumer_with_args` reads from `s` fits in a `usize`.
pub open spec fn consumer_args_fit() -> spec_fn(Seq<char>) -> bool {
    |s: Seq<char>|
        spec_consumer()(s) matches Some((rest, _)) ==> (spec_whitespace1()(rest) matches Some((after, _)) ==> uint_args_fit()(after))
}

/// Optionally whitespace and words, as parsed after a producer or adapter.
fn optional_args() -> (res: impl Fn(&str) -> ParseResult<Option<Vec<String>>>)
    ensures
        implements(res, everywhere(), spec_maybe(spec_after_whitespace(spec_args())), option_view(vec_view(string_view()))),
{
    let ws1 = whitespace1();
    let a = args();
    let ghost (gws1, ga) = (ws1, a);
    let p1 = and(ws1, a);
    let ghost gp1 = p1;
    let ghost d1 = dom_and(everywhere(), spec_whitespace1(), everywhere());
    proof {
        lemma_and(&p1, &gws1, &ga, everywhere(), spec_whitespace1(), vec_view(char_view()), everywhere(), spec_args(), vec_view(string_view()));
    }
    let p2 = right(p1);
    let ghost gp2 = p2;
    proof {
        lemma_right(&p2, &gp1, d1, spec_and(spec_whitespace1(), spec_args()), vec_view(char_view()), vec_view(string_view()));
    }
    let res = maybe(p2);
    proof {
        lemma_maybe(&res, &gp2, d1, spec_after_whitespace(spec_args()), vec_view(string_view()));
        lemma_implements_congruent(&res, d1, spec_maybe(spec_after_whitespace(spec_args())), everywhere(),
            spec_maybe(spec_after_whitespace(spec_args())), option_view(vec_view(string_view())));
    }
    res
}

pub fn producer_with_args() -> (res: impl Fn(&str) -> ParseResult<ProducerWithArgs>)
    ensures
        implements(res, everywhere(), spec_producer_with_args(), producer_with_args_view()),
{
    let kw = producer();
    let opt = optional_args();
    let ghost (gkw, gopt) = (kw, opt);
    let both = and(kw, opt);
    let ghost gboth = both;
    let ghost run_opt = spec_maybe(spec_after_whitespace(spec_args()));
    let ghost view_opt = option_view(vec_view(string_view()));
    proof {
        lemma_and(&both, &gkw, &gopt, everywhere(), spec_producer(), spec_identity(), everywhere(), run_opt, view_opt);
    }
    let build = |pair: (Producer, Option<Vec<String>>)| -> (r: ProducerWithArgs)
        ensures
            r@ == (ProducerWithArgsModel { producer: pair.0, args: or_empty(option_view(vec_view(string_view()))(pair.1)) }),
    {
        let (producer, args) = pair;
        let args = match args {
            Some(args) => args,
            None => {
                let empty: Vec<String> = Vec::new();
                assert(empty@.map_values(string_view()) =~= Seq::<Seq<char>>::empty());
                empty
            },
        };
        ProducerWithArgs { producer, args }
    };
    let ghost gbuild = build;
    let ghost g = |p: (Producer, Option<Seq<Seq<char>>>)| ProducerWithArgsModel { producer: p.0, args: or_empty(p.1) };
    proof {
        assert(fn_implements(gbuild, always(), g, pair_view(spec_identity(), view_opt), producer_with_args_view()));
    }
    let res = crate::parsec::map(both, build);
    proof {
        let d = dom_and(everywhere(), spec_producer(), everywhere());
        lemma_map(&res, &gboth, &gbuild, d, spec_and(spec_producer(), run_opt), pair_view(spec_identity(), view_opt),
            always(), g, producer_with_args_view());
        lemma_implements_congruent(&res, dom_map(d, spec_and(spec_producer(), run_opt), always()),
            spec_map(spec_and(spec_producer(), run_opt), g), everywhere(), spec_producer_with_args(), producer_with_args_view());
    }
    res
}

pub fn adapter_with_args() -> (res: impl Fn(&str) -> ParseResult<AdapterWithArgs>)
    ensures
        implements(res, everywhere(), spec_adapter_with_args(), adapter_with_args_view()),
{
    let kw = adapter();
    let opt = optional_args();
    let ghost (gkw, gopt) = (kw, opt);
    let both = and(kw, opt);
    let ghost gboth = both;
    let ghost run_opt = spec_maybe(spec_after_whitespace(spec_args()));
    let ghost view_opt = option_view(vec_view(string_view()));
    proof {
        lemma_and(&both, &gkw, &gopt, everywhere(), spec_adapter(), spec_identity(), everywhere(), run_opt, view_opt);
    }
    let build = |pair: (Adapter, Option<Vec<String>>)| -> (r: AdapterWithArgs)
        ensures
            r@ == (AdapterWithArgsModel { adapter: pair.0, args: or_empty(option_view(vec_view(string_view()))(pair.1)) }),
    {
        let (adapter, args) = pair;
        let args = match args {
            Some(args) => args,
            None => {
                let empty: Vec<String> = Vec::new();
                assert(empty@.map_values(string_view()) =~= Seq::<Seq<char>>::empty());
                empty
            },
        };
        AdapterWithArgs { adapter, args }
    };
    let ghost gbuild = build;
    let ghost g = |p: (Adapter, Option<Seq<Seq<char>>>)| AdapterWithArgsModel { adapter: p.0, args: or_empty(p.1) };
    proof {
        assert(fn_implements(gbuild, always(), g, pair_view(spec_identity(), view_opt), adapter_with_args_view()));
    }
    let res = crate::parsec::map(both, build);
    proof {
        let d = dom_and(everywhere(), spec_adapter(), everywhere());
        lemma_map(&res, &gboth, &gbuild, d, spec_and(spec_adapter(), run_opt), pair_view(spec_identity(), view_opt),
            always(), g, adapter_with_args_view());
        lemma_implements_congruent(&res, dom_map(d, spec_and(spec_adapter(), run_opt), always()),
            spec_map(spec_and(spec_adapter(), run_opt), g), everywhere(), spec_adapter_with_args(), adapter_with_args_view());
    }
    res
}

/// Optionally whitespace and numbers, as parsed after a consumer.
fn optional_uint_args() -> (res: impl Fn(&str) -> ParseResult<Option<Vec<usize>>>)
    ensures
        implements(res, dom_and(everywhere(), spec_whitespace1(), uint_args_fit()),
            spec_maybe(spec_after_whitespace(spec_uint_args())), option_view(vec_view(usize_view()))),
{
    let ws1 = whitespace1();
    let a = uint_args();
    let ghost (gws1, ga) = (ws1, a);
    let p1 = and(ws1, a);
    let ghost gp1 = p1;
    let ghost d1 = dom_and(everywhere(), spec_whitespace1(), uint_args_fit());
    proof {
        lemma_and(&p1, &gws1, &ga, everywhere(), spec_whitespace1(), vec_view(char_view()), uint_args_fit(), spec_uint_args(), vec_view(usize_view()));
    }
    let p2 = right(p1);
    let ghost gp2 = p2;
    proof {
        lemma_right(&p2, &gp1, d1, spec_and(spec_whitespace1(), spec_uint_args()), vec_view(char_view()), vec_view(usize_view()));
    }
    let res = maybe(p2);
    proof {
        lemma_maybe(&res, &gp2, d1, spec_after_whitespace(spec_uint_args()), vec_view(usize_view()));
    }
    res
}

pub fn consumer_with_args() -> (res: impl Fn(&str) -> ParseResult<ConsumerWithArgs>)
    ensures
        implements(res, consumer_args_fit(), spec_consumer_with_args(), consumer_with_args_view()),
{
    let kw = consumer();
    let opt = optional_uint_args();
    let ghost (gkw, gopt) = (kw, opt);
    let both = and(kw, opt);
    let ghost gboth = both;
    let ghost dom_opt = dom_and(everywhere(), spec_whitespace1(), uint_args_fit());
    let ghost run_opt = spec_maybe(spec_after_whitespace(spec_uint_args()));
    let ghost view_opt = option_view(vec_view(usize_view()));
    proof {
        lemma_and(&both, &gkw, &gopt, everywhere(), spec_consumer(), spec_identity(), dom_opt, run_opt, view_opt);
    }
    let build = |pair: (Consumer, Option<Vec<usize>>)| -> (r: ConsumerWithArgs)
        ensures
            r@ == (ConsumerWithArgsModel { consumer: pair.0, args: or_empty(option_view(vec_view(usize_view()))(pair.1)) }),
    {
        let (consumer, args) = pair;
        let args = match args {
            Some(args) => {
                assert(args@.map_values(|n: usize| n as nat) =~= args@.map_values(usize_view()));
                args
            },
            None => {
                let empty: Vec<usize> = Vec::new();
                assert(empty@.map_values(|n: usize| n as nat) =~= Seq::<nat>::empty());
                empty
            },
        };
        ConsumerWithArgs { consumer, args }
    };
    let ghost gbuild = build;
    let ghost g = |p: (Consumer, Option<Seq<nat>>)| ConsumerWithArgsModel { consumer: p.0, args: or_empty(p.1) };
    proof {
        assert(fn_implements(gbuild, always(), g, pair_view(spec_identity(), view_opt), consumer_with_args_view()));
    }
    let res = crate::parsec::map(both, build);
    proof {
        let d = dom_and(everywhere(), spec_consumer(), dom_opt);
        lemma_map(&res, &gboth, &gbuild, d, spec_and(spec_consumer(), run_opt), pair_view(spec_identity(), view_opt),
            always(), g, consumer_with_args_view());
        lemma_implements_congruent(&res, dom_map(d, spec_and(spec_consumer(), run_opt), always()),
            spec_map(spec_and(spec_consumer(), run_opt), g), consumer_args_fit(), spec_consumer_with_args(), consumer_with_args_view());
    }
    res
}

/// A pipe, then an adapter with its arguments.
pub open spec fn spec_piped_adapter() -> spec_fn(Seq<char>) -> Option<(Seq<char>, AdapterWithArgsModel)> {
    spec_map(spec_and(spec_pipe(), spec_adapter_with_args()), spec_second())
}

/// A pipe, then a consumer.
pub open spec fn spec_piped_consumer() -> spec_fn(Seq<char>) -> Option<(Seq<char>, Consumer)> {
    spec_map(spec_and(spec_pipe(), spec_consumer()), spec_second())
}

/// A producer with its arguments, any number of piped adapters, and optionally a piped consumer.
pub open spec fn spec_producer_expr() -> spec_fn(Seq<char>) -> Option<(Seq<char>, ProducerExprModel)> {
    spec_map(
        spec_and(spec_and(spec_producer_with_args(), spec_many0(spec_piped_adapter())), spec_maybe(spec_piped_consumer())),
        |t: ((ProducerWithArgsModel, Seq<AdapterWithArgsModel>), Option<Consumer>)|
            ProducerExprModel { producer: t.0.0, adapters: t.0.1, consumer: t.1 },
    )
}

proof fn lemma_optional_args_shrinks(s: Seq<char>)
    ensures
        spec_maybe(spec_after_whitespace(spec_args()))(s) matches Some((rem, _)) ==> rem.len() <= s.len(),
{
    lemma_leading(crate::parsec::ws_test(), s);
    let n = leading(crate::parsec::ws_test(), s) as int;
    lemma_repeat_shrinks(spec_arg(), s.skip(n));
}

proof fn lemma_adapter_with_args_suffix(s: Seq<char>)
    ensures
        spec_adapter_with_args()(s) matches Some((rem, _)) ==> rem.len() <= s.len(),
{
    if let Some((mid, _)) = spec_adapter()(s) {
        lemma_optional_args_shrinks(mid);
    }
}

fn piped_adapters() -> (res: impl Fn(&str) -> ParseResult<Vec<AdapterWithArgs>>)
    ensures
        implements(res, everywhere(), spec_many0(spec_piped_adapter()), vec_view(adapter_with_args_view())),
{
    let bar = pipe();
    let ad = adapter_with_args();
    let ghost (gbar, gad) = (bar, ad);
    let both = and(bar, ad);
    let ghost gboth = both;
    let ghost d = dom_and(everywhere(), spec_pipe(), everywhere());
    proof {
        lemma_and(&both, &gbar, &gad, everywhere(), spec_pipe(), unit_view(), everywhere(), spec_adapter_with_args(), adapter_with_args_view());
    }
    let piped = right(both);
    let ghost gpiped = piped;
    proof {
        lemma_right(&piped, &gboth, d, spec_and(spec_pipe(), spec_adapter_with_args()), unit_view(), adapter_with_args_view());
        lemma_implements_congruent(&piped, d, spec_piped_adapter(), everywhere(), spec_piped_adapter(), adapter_with_args_view());
    }
    let res = many0(piped);
    proof {
        lemma_many0(&res, &gpiped, everywhere(), spec_piped_adapter(), adapter_with_args_view());
        assert forall|t: Seq<char>| (#[trigger] spec_piped_adapter()(t) matches Some((rem, _)) ==> rem.len() < t.len()) by {
            reveal_strlit("|");
            if let Some((mid, _)) = spec_pipe()(t) {
                if let Some((rem, _)) = spec_adapter_with_args()(mid) {
                    lemma_adapter_with_args_suffix(mid);
                }
            }
        }
        assert forall|s: Seq<char>| #[trigger] everywhere()(s) implies dom_many(everywhere(), spec_piped_adapter())(s) by {
            lemma_dom_repeat_total(spec_piped_adapter(), s);
        }
        lemma_implements_congruent(&res, dom_many(everywhere(), spec_piped_adapter()), spec_many0(spec_piped_adapter()),
            everywhere(), spec_many0(spec_piped_adapter()), vec_view(adapter_with_args_view()));
    }
    res
}

fn piped_consumer() -> (res: impl Fn(&str) -> ParseResult<Consumer>)
    ensures
        implements(res, everywhere(), spec_piped_consumer(), spec_identity()),
{
    let bar = pipe();
    let cons = consumer();
    let ghost (gbar, gcons) = (bar, cons);
    let both = and(bar, cons);
    let ghost gboth = both;
    let ghost d = dom_and(everywhere(), spec_pipe(), everywhere());
    proof {
        lemma_and(&both, &gbar, &gcons, everywhere(), spec_pipe(), unit_view(), everywhere(), spec_consumer(), spec_identity());
    }
    let res = right(both);
    proof {
        lemma_right(&res, &gboth, d, spec_and(spec_pipe(), spec_consumer()), unit_view(), spec_identity());
        lemma_implements_congruent(&res, d, spec_piped_consumer(), everywhere(), spec_piped_consumer(), spec_identity());
    }
    res
}

pub fn producer_expr() -> (res: impl Fn(&str) -> ParseResult<ProducerExpr>)
    ensures
        implements(res, everywhere(), spec_producer_expr(), producer_expr_view()),
{
    let head = producer_with_args();
    let adapters = piped_adapters();
    let ghost (ghead, gadapters) = (head, adapters);
    let p1 = and(head, adapters);
    let ghost gp1 = p1;
    let ghost run1 = spec_and(spec_producer_with_args(), spec_many0(spec_piped_adapter()));
    let ghost view1 = pair_view(producer_with_args_view(), vec_view(adapter_with_args_view()));
    let ghost d1 = dom_and(everywhere(), spec_producer_with_args(), everywhere());
    proof {
        lemma_and(&p1, &ghead, &gadapters, everywhere(), spec_producer_with_args(), producer_with_args_view(),
            everywhere(), spec_many0(spec_piped_adapter()), vec_view(adapter_with_args_view()));
    }
    let pc = piped_consumer();
    let ghost gpc = pc;
    let tail = maybe(pc);
    let ghost gtail = tail;
    proof {
        lemma_maybe(&tail, &gpc, everywhere(), spec_piped_consumer(), spec_identity());
    }
    let p2 = and(p1, tail);
    let ghost gp2 = p2;
    let ghost run2 = spec_and(run1, spec_maybe(spec_piped_consumer()));
    let ghost view2 = pair_view(view1, option_view(spec_identity()));
    let ghost d2 = dom_and(d1, run1, everywhere());
    proof {
        assert(implements(gtail, everywhere(), spec_maybe(spec_piped_consumer()), option_view(spec_identity::<Consumer>())));
        lemma_and(&p2, &gp1, &gtail, d1, run1, view1, everywhere(), spec_maybe(spec_piped_consumer()), option_view(spec_identity()));
    }
    let build = |t: ((ProducerWithArgs, Vec<AdapterWithArgs>), Option<Consumer>)| -> (e: ProducerExpr)
        ensures
            e@ == (ProducerExprModel {
                producer: t.0.0@,
                adapters: t.0.1@.map_values(adapter_with_args_view()),
                consumer: t.1,
            }),
    {
        let ((producer, adapters), consumer) = t;
        ProducerExpr { producer, adapters, consumer }
    };
    let ghost gbuild = build;
    let ghost g = |t: ((ProducerWithArgsModel, Seq<AdapterWithArgsModel>), Option<Consumer>)|
        ProducerExprModel { producer: t.0.0, adapters: t.0.1, consumer: t.1 };
    proof {
        assert forall|a: ((ProducerWithArgs, Vec<AdapterWithArgs>), Option<Consumer>), b: ProducerExpr| #[trigger] gbuild.ensures((a,), b)
            implies producer_expr_view()(b) == g(view2(a)) by {
            assert(option_view(spec_identity::<Consumer>())(a.1) == a.1);
        }
        assert(fn_implements(gbuild, always(), g, view2, producer_expr_view()));
    }
    let res = crate::parsec::map(p2, build);
    proof {
        lemma_map(&res, &gp2, &gbuild, d2, run2, view2, always(), g, producer_expr_view());
        lemma_implements_congruent(&res, dom_map(d2, run2, always()), spec_map(run2, g), everywhere(), spec_producer_expr(), producer_expr_view());
    }
    res
}

/// The whole input is a command.
pub open spec fn spec_whole_command() -> spec_fn(Seq<char>) -> Option<(Seq<char>, ParsedModel)> {
    spec_map(spec_eof(spec_command()), |c: Command| ParsedModel::Command(c))
}

/// The whole input is a producer expression.
pub open spec fn spec_whole_producer_expr() -> spec_fn(Seq<char>) -> Option<(Seq<char>, ParsedModel)> {
    spec_map(spec_eof(spec_producer_expr()), |e: ProducerExprModel| ParsedModel::ProducerExpr(e))
}

/// The whole input is a consumer with its arguments.
pub open spec fn spec_whole_consumer_with_args() -> spec_fn(Seq<char>) -> Option<(Seq<char>, ParsedModel)> {
    spec_map(spec_eof(spec_consumer_with_args()), |c: ConsumerWithArgsModel| ParsedModel::ConsumerWithArgs(c))
}

/// The command line syntax: a command, a producer expression or a consumer
/// with arguments, each spanning the whole input, tried in this order.
pub open spec fn spec_parser() -> spec_fn(Seq<char>) -> Option<(Seq<char>, ParsedModel)> {
    spec_or(spec_or(spec_whole_command(), spec_whole_producer_expr()), spec_whole_consumer_with_args())
}

/// The inputs on which parsing does not overflow a `usize`: those on which a
/// consumer's numbers are read only if they fit.
pub open spec fn parser_input_fits() -> spec_fn(Seq<char>) -> bool {
    |s: Seq<char>|
        spec_or(spec_whole_command(), spec_whole_producer_expr())(s) is None ==> consumer_args_fit()(s)
}

/// Parses a whole command line.
pub fn parser() -> (res: impl Fn(&str) -> ParseResult<Parsed>)
    ensures
        implements(res, parser_input_fits(), spec_parser(), parsed_view()),
{
    let cmd = command();
    let ghost gcmd = cmd;
    let c = eof(cmd);
    let ghost gc = c;
    proof {
        lemma_eof(&c, &gcmd, everywhere(), spec_command(), spec_identity());
    }
    let to_cmd = |c: Command| -> (p: Parsed) ensures p@ == ParsedModel::Command(c) { Parsed::Command(c) };
    let ghost gto_cmd = to_cmd;
    proof {
        assert(fn_implements(gto_cmd, always(), |c: Command| ParsedModel::Command(c), spec_identity(), parsed_view()));
    }
    let command = crate::parsec::map(c, to_cmd);
    let ghost gcommand = command;

    let pe = producer_expr();
    let ghost gpe = pe;
    let e = eof(pe);
    let ghost ge = e;
    proof {
        lemma_eof(&e, &gpe, everywhere(), spec_producer_expr(), producer_expr_view());
    }
    let to_expr = |e: ProducerExpr| -> (p: Parsed) ensures p@ == ParsedModel::ProducerExpr(e@) { Parsed::ProducerExpr(e) };
    let ghost gto_expr = to_expr;
    proof {
        assert(fn_implements(gto_expr, always(), |e: ProducerExprModel| ParsedModel::ProducerExpr(e), producer_expr_view(), parsed_view()));
    }
    let prod_expr = crate::parsec::map(e, to_expr);
    let ghost gprod_expr = prod_expr;

    let cw = consumer_with_args();
    let ghost gcw = cw;
    let w = eof(cw);
    let ghost gw = w;
    proof {
        lemma_eof(&w, &gcw, consumer_args_fit(), spec_consumer_with_args(), consumer_with_args_view());
    }
    let to_cons = |c: ConsumerWithArgs| -> (p: Parsed) ensures p@ == ParsedModel::ConsumerWithArgs(c@) { Parsed::ConsumerWithArgs(c) };
    let ghost gto_cons = to_cons;
    proof {
        assert(fn_implements(gto_cons, always(), |c: ConsumerWithArgsModel| ParsedModel::ConsumerWithArgs(c), consumer_with_args_view(), parsed_view()));
    }
    let cons_with_args = crate::parsec::map(w, to_cons);
    let ghost gcons = cons_with_args;
    proof {
        // what each alternative implements
        lemma_map(&gcommand, &gc, &gto_cmd, everywhere(), spec_eof(spec_command()), spec_identity(), always(),
            |c: Command| ParsedModel::Command(c), parsed_view());
        lemma_implements_congruent(&gcommand, dom_map(everywhere(), spec_eof(spec_command()), always()),
            spec_whole_command(), everywhere(), spec_whole_command(), parsed_view());
        lemma_map(&gprod_expr, &ge, &gto_expr, everywhere(), spec_eof(spec_producer_expr()), producer_expr_view(), always(),
            |e: ProducerExprModel| ParsedModel::ProducerExpr(e), parsed_view());
        lemma_implements_congruent(&gprod_expr, dom_map(everywhere(), spec_eof(spec_producer_expr()), always()),
            spec_whole_producer_expr(), everywhere(), spec_whole_producer_expr(), parsed_view());
        lemma_map(&gcons, &gw, &gto_cons, consumer_args_fit(), spec_eof(spec_consumer_with_args()), consumer_with_args_view(), always(),
            |c: ConsumerWithArgsModel| ParsedModel::ConsumerWithArgs(c), parsed_view());
        lemma_implements_congruent(&gcons, dom_map(consumer_args_fit(), spec_eof(spec_consumer_with_args()), always()),
            spec_whole_consumer_with_args(), consumer_args_fit(), spec_whole_consumer_with_args(), parsed_view());
    }
    let first_two = or(command, prod_expr);
    let ghost gfirst_two = first_two;
    proof {
        lemma_or(&gfirst_two, &gcommand, &gprod_expr, everywhere(), spec_whole_command(), everywhere(), spec_whole_producer_expr(), parsed_view());
        lemma_implements_congruent(&gfirst_two, dom_or(everywhere(), spec_whole_command(), everywhere()),
            spec_or(spec_whole_command(), spec_whole_producer_expr()), everywhere(), spec_or(spec_whole_command(), spec_whole_producer_expr()), parsed_view());
    }
    let res = or(first_two, cons_with_args);
    proof {
        lemma_or(&res, &gfirst_two, &gcons, everywhere(), spec_or(spec_whole_command(), spec_whole_producer_expr()),
            consumer_args_fit(), spec_whole_consumer_with_args(), parsed_view());
        lemma_implements_congruent(&res, dom_or(everywhere(), spec_or(spec_whole_command(), spec_whole_producer_expr()), consumer_args_fit()),
            spec_parser(), parser_input_fits(), spec_parser(), parsed_view());
    }
    res
}

} // verus!

verus! {

proof fn lemma_leading_exact(test: spec_fn(char) -> bool, s: Seq<char>, m: int)
    requires
        0 <= m <= s.len(),
        forall|q: int| 0 <= q < m ==> #[trigger] test(s[q]),
        m == s.len() || !test(s[m]),
    ensures
        leading(test, s) == m,
    decreases m,
{
    if m > 0 {
        lemma_leading_exact(test, s.drop_first(), m - 1);
        assert forall|q: int| 0 <= q < m - 1 implies #[trigger] test(s.drop_first()[q]) by {
            assert(test(s[q + 1]));
        }
    }
}

/// Whether every number that `uint_args` would read from `s` fits in a `usize`.
fn uint_args_fit_check(s: &str) -> (b: bool)
    ensures
        b == uint_args_fit()(s@),
{
    let n = s.unicode_len();
    let mut p: usize = 0;
    assert(s@.skip(0) =~= s@);
    while p < n
        invariant
            p <= n,
            n == s@.len(),
            uint_args_fit()(s@) == dom_repeat(uint_fits(), spec_uint_arg(), s@.skip(p as int)),
        decreases n - p,
    {
        let ghost t = s@.skip(p as int);
        let mut j = p;
        let mut acc: usize = 0;
        let mut fits = true;
        assert(t.take(0) =~= Seq::<char>::empty());
        while j < n
            invariant_except_break
                fits,
                acc as nat == decimal_value(t.take(j - p)),
            invariant
                p <= j <= n,
                n == s@.len(),
                t == s@.skip(p as int),
                forall|q: int| 0 <= q < j - p ==> #[trigger] char_is_ascii_digit(t[q]),
            ensures
                p <= j <= n,
                forall|q: int| 0 <= q < j - p ==> #[trigger] char_is_ascii_digit(t[q]),
                fits ==> acc as nat == decimal_value(t.take(j - p)),
                fits ==> (j == n || !char_is_ascii_digit(t[j - p])),
                !fits ==> decimal_value(t.take(j - p)) > usize::MAX,
            decreases n - j,
        {
            let c = s.get_char(j);
            assert(t[j - p] == c);
            if !is_ascii_digit(c) {
                break;
            }
            assert(t.take(j - p + 1).drop_last() =~= t.take(j - p));
            assert(t.take(j - p + 1).last() == c);
            let d = (c as u32 - '0' as u32) as usize;
            assert(d as nat == digit_value(c));
            let next = match acc.checked_mul(10) {
                Some(a10) => a10.checked_add(d),
                None => None,
            };
            j += 1;
            match next {
                Some(v) => acc = v,
                None => {
                    fits = false;
                    break;
                },
            }
        }
        let k = j - p;
        proof {
            lemma_leading(digit_test(), t);
        }
        if !fits {
            proof {
                let l = leading(digit_test(), t) as int;
                if k > l {
                    assert(char_is_ascii_digit(t[l]));
                    assert(digit_test()(t[l]));
                }
                let ds = t.take(l);
                assert forall|q: int| 0 <= q < ds.len() implies #[trigger] char_is_ascii_digit(ds[q]) by {
                    assert(digit_test()(t[q]));
                }
                lemma_decimal_prefix(ds, k as int);
                assert(ds.take(k as int) =~= t.take(k as int));
                assert(!uint_fits()(t));
            }
            return false;
        }
        proof {
            lemma_leading_exact(digit_test(), t, k as int);
        }
        if k == 0 {
            assert(spec_pred(digit_test())(t) is None);
            assert(spec_uint_arg()(t) is None);
            return true;
        }
        let mut q = j;
        while q < n
            invariant
                j <= q <= n,
                n == s@.len(),
                forall|r: int| j <= r < q ==> #[trigger] char_is_whitespace(s@[r]),
            ensures
                j <= q <= n,
                forall|r: int| j <= r < q ==> #[trigger] char_is_whitespace(s@[r]),
                q == n || !char_is_whitespace(s@[q as int]),
            decreases n - q,
        {
            if !is_whitespace(s.get_char(q)) {
                break;
            }
            q += 1;
        }
        proof {
            let after = t.skip(k as int);
            let w = q - j;
            assert forall|r: int| 0 <= r < w implies #[trigger] ws_test()(after[r]) by {
                assert(after[r] == s@[j + r]);
                assert(char_is_whitespace(s@[j + r]));
            }
            if q < n {
                assert(after[w as int] == s@[q as int]);
            }
            lemma_leading_exact(ws_test(), after, w as int);
            lemma_repeat_pred(digit_test(), t);
            assert(after.skip(w as int) =~= s@.skip(q as int));
            assert(spec_uint_arg()(t) == Some((s@.skip(q as int), decimal_value(t.take(k as int)))));
        }
        p = q;
    }
    proof {
        let e = s@.skip(p as int);
        assert(e.len() == 0);
        assert(spec_pred(digit_test())(e) is None);
        assert(e.take(0) =~= Seq::<char>::empty());
        assert(leading(digit_test(), e) == 0);
    }
    true
}

/// Whether `parser` may be called on `line`: whether every number that
/// parsing it would read fits in a `usize`.
pub fn parser_input_fits_check(line: &str) -> (b: bool)
    ensures
        b == parser_input_fits()(line@),
{
    let cmd = command();
    let ghost gcmd = cmd;
    let whole_cmd = eof(cmd);
    proof {
        lemma_eof(&whole_cmd, &gcmd, everywhere(), spec_command(), spec_identity());
    }
    assert(everywhere()(line@));
    if whole_cmd(line).is_ok() {
        return true;
    }
    let pe = producer_expr();
    let ghost gpe = pe;
    let whole_pe = eof(pe);
    proof {
        lemma_eof(&whole_pe, &gpe, everywhere(), spec_producer_expr(), producer_expr_view());
    }
    if whole_pe(line).is_ok() {
        return true;
    }
    assert(spec_or(spec_whole_command(), spec_whole_producer_expr())(line@) is None);
    let cons = consumer();
    match cons(line) {
        Err(_) => true,
        Ok((rest, _)) => {
            let ws = whitespace1();
            match ws(rest) {
                Err(_) => true,
                Ok((after, _)) => uint_args_fit_check(after),
            }
        },
    }
}

} // verus!
