//! Parser combinators used to parse the command line syntax.
//!
//! Every parser is a closure from the remaining input to either the
//! input left over together with what was parsed, or an error message.
//! Each combinator states what its closure returns in terms of what the
//! closures it was built from return; `implements` then lifts such a
//! statement to a plain function on character sequences.
use vstd::prelude::*;

use crate::chars::{char_is_whitespace, is_whitespace};

verus! {

pub type ParseResult<'inp, Output> = Result<(&'inp str, Output), &'static str>;

/// `p` may be called on every input accepted by `dom`, and on each such
/// input it returns exactly what `run` says (through `view` on the output);
/// `Err` when `run` gives `None`.
pub open spec fn implements<O, V, P: Fn(&str) -> ParseResult<O>>(
    p: P,
    dom: spec_fn(Seq<char>) -> bool,
    run: spec_fn(Seq<char>) -> Option<(Seq<char>, V)>,
    view: spec_fn(O) -> V,
) -> bool {
    &&& forall|i: &str| dom(i@) ==> #[trigger] p.requires((i,))
    &&& forall|i: &str, r: ParseResult<O>| #[trigger] p.ensures((i,), r) ==>
        match r {
            Ok((rem, o)) => run(i@) == Some((rem@, view(o))),
            Err(_) => run(i@) is None,
        }
}

/// `p` may be called on `i`.
pub open spec fn may_parse<O, P: Fn(&str) -> ParseResult<O>>(p: &P, i: &str) -> bool {
    p.requires((i,))
}

/// `p` may return `r` on `i`.
pub open spec fn parses<O, P: Fn(&str) -> ParseResult<O>>(p: &P, i: &str, r: ParseResult<O>) -> bool {
    p.ensures((i,), r)
}

/// `p` may fail on `i`.
pub open spec fn fails<O, P: Fn(&str) -> ParseResult<O>>(p: &P, i: &str) -> bool {
    exists|e: &'static str| parses(p, i, Err(e))
}

/// Every success of `run` leaves a proper suffix of its input.
pub open spec fn consumes<V>(run: spec_fn(Seq<char>) -> Option<(Seq<char>, V)>) -> bool {
    forall|s: Seq<char>| #[trigger] run(s) matches Some((rem, _)) ==>
        rem.len() < s.len() && rem == s.skip(s.len() - rem.len())
}

/// Every success of `run` leaves a suffix of its input.
pub open spec fn suffixing<V>(run: spec_fn(Seq<char>) -> Option<(Seq<char>, V)>) -> bool {
    forall|s: Seq<char>| #[trigger] run(s) matches Some((rem, _)) ==>
        rem.len() <= s.len() && rem == s.skip(s.len() - rem.len())
}

pub open spec fn everywhere() -> spec_fn(Seq<char>) -> bool {
    |s: Seq<char>| true
}

pub open spec fn always<V>() -> spec_fn(V) -> bool {
    |v: V| true
}

pub open spec fn spec_identity<V>() -> spec_fn(V) -> V {
    |v: V| v
}

pub open spec fn str_view<'a>() -> spec_fn(&'a str) -> Seq<char> {
    |s: &'a str| s@
}

pub open spec fn char_view() -> spec_fn(char) -> char {
    |c: char| c
}

/// Fixes the type of a parser closure to one that accepts every lifetime.
pub(crate) fn parser_fn<O, P: Fn(&str) -> ParseResult<O>>(p: P) -> (r: P)
    ensures
        r == p,
{
    p
}

// ------------------------------------------------------------------------
// literal

pub open spec fn spec_literal(lit: Seq<char>) -> spec_fn(Seq<char>) -> Option<(Seq<char>, Seq<char>)> {
    |s: Seq<char>| if lit.is_prefix_of(s) { Some((s.skip(lit.len() as int), lit)) } else { None }
}

fn starts_with(input: &str, lit: &str) -> (r: bool)
    ensures
        r == lit@.is_prefix_of(input@),
{
    let n = lit.unicode_len();
    let m = input.unicode_len();
    if n > m {
        return false;
    }
    let mut i: usize = 0;
    while i < n
        invariant
            i <= n,
            n == lit@.len(),
            m == input@.len(),
            n <= m,
            forall|j: int| 0 <= j < i ==> input@[j] == lit@[j],
        decreases n - i,
    {
        if input.get_char(i) != lit.get_char(i) {
            return false;
        }
        i += 1;
    }
    true
}

/// Parses `lit` at the start of the input and returns it.
pub fn literal<'a>(lit: &'a str) -> (res: impl Fn(&str) -> ParseResult<&'a str>)
    ensures
        implements(res, everywhere(), spec_literal(lit@), str_view()),
        forall|i: &str, r: ParseResult<&'a str>| #[trigger] res.ensures((i,), r) ==>
            (r matches Ok((_, o)) ==> o == lit) && (r matches Err(e) ==> e == "Could not parse literal"),
{
    move |input: &str| -> (r: ParseResult<&'a str>)
        ensures
            match r {
                Ok((rem, o)) => spec_literal(lit@)(input@) == Some((rem@, o@)) && o == lit,
                Err(e) => spec_literal(lit@)(input@) is None && e == "Could not parse literal",
            },
    {
        if starts_with(input, lit) {
            let n = lit.unicode_len();
            let m = input.unicode_len();
            Ok((input.substring_char(n, m), lit))
        } else {
            Err("Could not parse literal")
        }
    }
}

// ------------------------------------------------------------------------
// pred, peek

/// The closure `cond` may be called on every character and answers `test`.
pub open spec fn decides<F: Fn(char) -> bool>(cond: F, test: spec_fn(char) -> bool) -> bool {
    &&& forall|c: char| #[trigger] cond.requires((c,))
    &&& forall|c: char, b: bool| #[trigger] cond.ensures((c,), b) ==> b == test(c)
}

/// `cond` may be called on `c`.
pub open spec fn callable_on<F: Fn(char) -> bool>(cond: &F, c: char) -> bool {
    cond.requires((c,))
}

/// `cond` may answer `b` on `c`.
pub open spec fn answers<F: Fn(char) -> bool>(cond: &F, c: char, b: bool) -> bool {
    cond.ensures((c,), b)
}

pub open spec fn spec_pred(test: spec_fn(char) -> bool) -> spec_fn(Seq<char>) -> Option<(Seq<char>, char)> {
    |s: Seq<char>| if s.len() > 0 && test(s[0]) { Some((s.drop_first(), s[0])) } else { None }
}

pub open spec fn spec_peek(test: spec_fn(char) -> bool) -> spec_fn(Seq<char>) -> Option<(Seq<char>, char)> {
    |s: Seq<char>| if s.len() > 0 && test(s[0]) { Some((s, s[0])) } else { None }
}

/// What `pred(cond)` may return on `i`: the first character, with the rest
/// of the input, where `cond` holds on it; otherwise "predicate not matched".
pub open spec fn pred_result<F: Fn(char) -> bool>(cond: &F, i: &str, r: ParseResult<char>) -> bool {
    match r {
        Ok((rem, c)) => i@.len() > 0 && c == i@[0] && answers(cond, c, true) && rem@ == i@.drop_first(),
        Err(e) => e == "predicate not matched" && (i@.len() == 0 || answers(cond, i@[0], false)),
    }
}

/// What `peek(cond)` may return on `i`: the first character, with the whole
/// input, where `cond` holds on it; otherwise "peek not matched".
pub open spec fn peek_result<F: Fn(char) -> bool>(cond: &F, i: &str, r: ParseResult<char>) -> bool {
    match r {
        Ok((rem, c)) => i@.len() > 0 && c == i@[0] && answers(cond, c, true) && rem == i,
        Err(e) => e == "peek not matched" && (i@.len() == 0 || answers(cond, i@[0], false)),
    }
}

/// Parses one character on which `cond` holds and returns it.
pub fn pred<F: Fn(char) -> bool>(cond: F) -> (res: impl Fn(&str) -> ParseResult<char>)
    ensures
        forall|i: &str| (i@.len() > 0 ==> callable_on(&cond, i@[0])) ==> #[trigger] res.requires((i,)),
        forall|i: &str, r: ParseResult<char>| #[trigger] res.ensures((i,), r) ==> pred_result(&cond, i, r),
        forall|test: spec_fn(char) -> bool| #[trigger] decides(cond, test) ==>
            implements(res, everywhere(), spec_pred(test), char_view()),
{
    let res = parser_fn(move |input: &str| -> (r: ParseResult<char>)
        requires
            input@.len() > 0 ==> callable_on(&cond, input@[0]),
        ensures
            pred_result(&cond, input, r),
    {
        let n = input.unicode_len();
        if n == 0 {
            return Err("predicate not matched");
        }
        let ch = input.get_char(0);
        if cond(ch) {
            Ok((input.substring_char(1, n), ch))
        } else {
            Err("predicate not matched")
        }
    });
    proof {
        assert forall|test: spec_fn(char) -> bool| #[trigger] decides(cond, test) implies
            implements(res, everywhere(), spec_pred(test), char_view()) by {
            assert forall|i: &str, r: ParseResult<char>| #[trigger] res.ensures((i,), r) implies
                match r {
                    Ok((rem, o)) => spec_pred(test)(i@) == Some((rem@, char_view()(o))),
                    Err(_) => spec_pred(test)(i@) is None,
                } by {
                if i@.len() > 0 {
                    assert(cond.ensures((i@[0],), true) ==> test(i@[0]));
                    assert(answers(&cond, i@[0], false) ==> !test(i@[0]));
                }
            }
        }
    }
    res
}

// ------------------------------------------------------------------------
// and

pub open spec fn spec_and<V1, V2>(
    run1: spec_fn(Seq<char>) -> Option<(Seq<char>, V1)>,
    run2: spec_fn(Seq<char>) -> Option<(Seq<char>, V2)>,
) -> spec_fn(Seq<char>) -> Option<(Seq<char>, (V1, V2))> {
    |s: Seq<char>|
        match run1(s) {
            Some((mid, v1)) => match run2(mid) {
                Some((rem, v2)) => Some((rem, (v1, v2))),
                None => None,
            },
            None => None,
        }
}

pub open spec fn dom_and<V1>(
    dom1: spec_fn(Seq<char>) -> bool,
    run1: spec_fn(Seq<char>) -> Option<(Seq<char>, V1)>,
    dom2: spec_fn(Seq<char>) -> bool,
) -> spec_fn(Seq<char>) -> bool {
    |s: Seq<char>| dom1(s) && (run1(s) matches Some((mid, _)) ==> dom2(mid))
}

pub open spec fn pair_view<O1, O2, V1, V2>(view1: spec_fn(O1) -> V1, view2: spec_fn(O2) -> V2) -> spec_fn((O1, O2)) -> (V1, V2) {
    |o: (O1, O2)| (view1(o.0), view2(o.1))
}

/// `p2` may be called wherever `p1` may leave the input after succeeding on `i`.
pub open spec fn and_callable<O1, O2, P1: Fn(&str) -> ParseResult<O1>, P2: Fn(&str) -> ParseResult<O2>>(
    p1: &P1,
    p2: &P2,
    i: &str,
) -> bool {
    &&& may_parse(p1, i)
    &&& forall|mid: &str, o1: O1| #[trigger] parses(p1, i, Ok((mid, o1))) ==> may_parse(p2, mid)
}

pub open spec fn and_result<O1, O2, P1: Fn(&str) -> ParseResult<O1>, P2: Fn(&str) -> ParseResult<O2>>(
    p1: &P1,
    p2: &P2,
    i: &str,
    r: ParseResult<(O1, O2)>,
) -> bool {
    match r {
        Ok((rem, o)) => exists|mid: &str| #[trigger]
            parses(p1, i, Ok((mid, o.0))) && parses(p2, mid, Ok((rem, o.1))),
        Err(e) => parses(p1, i, Err(e)) || exists|mid: &str, o1: O1| #[trigger]
            parses(p1, i, Ok((mid, o1))) && parses(p2, mid, Err(e)),
    }
}

/// `res` behaves as `and(p1, p2)`.
pub open spec fn behaves_as_and<O1, O2, P1, P2, R>(res: &R, p1: &P1, p2: &P2) -> bool
    where
        P1: Fn(&str) -> ParseResult<O1>,
        P2: Fn(&str) -> ParseResult<O2>,
        R: Fn(&str) -> ParseResult<(O1, O2)>,
{
    &&& forall|i: &str| and_callable(p1, p2, i) ==> #[trigger] may_parse(res, i)
    &&& forall|i: &str, r: ParseResult<(O1, O2)>| #[trigger] parses(res, i, r) ==> and_result(p1, p2, i, r)
}

/// Runs `p1`, then `p2` on what `p1` left, and returns both outputs.
pub fn and<P1, P2, O1, O2>(p1: P1, p2: P2) -> (res: impl Fn(&str) -> ParseResult<(O1, O2)>)
    where
        P1: Fn(&str) -> ParseResult<O1>,
        P2: Fn(&str) -> ParseResult<O2>,
    ensures
        behaves_as_and(&res, &p1, &p2),
{
    let res = parser_fn(move |input: &str| -> (r: ParseResult<(O1, O2)>)
        requires
            and_callable(&p1, &p2, input),
        ensures
            and_result(&p1, &p2, input, r),
    {
        match p1(input) {
            Ok((mid, o1)) => {
                assert(parses(&p1, input, Ok((mid, o1))));
                match p2(mid) {
                    Ok((rem, o2)) => {
                        assert(parses(&p2, mid, Ok((rem, o2))));
                        let r: ParseResult<(O1, O2)> = Ok((rem, (o1, o2)));
                        assert(parses(&p1, input, Ok((mid, r->Ok_0.1.0))));
                        assert(parses(&p2, mid, Ok((r->Ok_0.0, r->Ok_0.1.1))));
                        r
                    },
                    Err(e) => {
                        assert(parses(&p2, mid, Err(e)));
                        Err(e)
                    },
                }
            },
            Err(e) => Err(e),
        }
    });
    res
}

/// What `and` returns, stated over what its two parsers implement.
pub proof fn lemma_and<O1, O2, V1, V2, P1, P2, R>(
    res: &R,
    p1: &P1,
    p2: &P2,
    dom1: spec_fn(Seq<char>) -> bool,
    run1: spec_fn(Seq<char>) -> Option<(Seq<char>, V1)>,
    view1: spec_fn(O1) -> V1,
    dom2: spec_fn(Seq<char>) -> bool,
    run2: spec_fn(Seq<char>) -> Option<(Seq<char>, V2)>,
    view2: spec_fn(O2) -> V2,
)
    where
        P1: Fn(&str) -> ParseResult<O1>,
        P2: Fn(&str) -> ParseResult<O2>,
        R: Fn(&str) -> ParseResult<(O1, O2)>,
    requires
        behaves_as_and(res, p1, p2),
        implements(*p1, dom1, run1, view1),
        implements(*p2, dom2, run2, view2),
    ensures
        implements(*res, dom_and(dom1, run1, dom2), spec_and(run1, run2), pair_view(view1, view2)),
{
    assert forall|i: &str| dom_and(dom1, run1, dom2)(i@) implies #[trigger] res.requires((i,)) by {
        assert forall|mid: &str, o1: O1| #[trigger] parses(p1, i, Ok((mid, o1))) implies may_parse(p2, mid) by {
            assert(p1.ensures((i,), Ok((mid, o1))));
        }
        assert(and_callable(p1, p2, i));
        assert(may_parse(res, i));
    }
    assert forall|i: &str, r: ParseResult<(O1, O2)>| #[trigger] res.ensures((i,), r) implies
        match r {
            Ok((rem, o)) => spec_and(run1, run2)(i@) == Some((rem@, pair_view(view1, view2)(o))),
            Err(_) => spec_and(run1, run2)(i@) is None,
        } by {
        assert(parses(res, i, r));
        assert(and_result(p1, p2, i, r));
        match r {
            Ok((rem, o)) => {
                let mid = choose|mid: &str| #[trigger] parses(p1, i, Ok((mid, o.0))) && parses(p2, mid, Ok((rem, o.1)));
                assert(p1.ensures((i,), Ok((mid, o.0))));
                assert(p2.ensures((mid,), Ok((rem, o.1))));
            }
            Err(e) => {
                if parses(p1, i, Err(e)) {
                    assert(p1.ensures((i,), Err(e)));
                } else {
                    let (mid, o1) = choose|mid: &str, o1: O1| #[trigger] parses(p1, i, Ok((mid, o1))) && parses(p2, mid, Err(e));
                    assert(p1.ensures((i,), Ok((mid, o1))));
                    assert(p2.ensures((mid,), Err(e)));
                }
            }
        }
    }
}

// ------------------------------------------------------------------------
// many0, many1

/// `steps[k + 1]` is what `p` left after returning `outs[k]` on `steps[k]`,
/// and each step consumed some input.
pub open spec fn repeats<O, P: Fn(&str) -> ParseResult<O>>(p: &P, steps: Seq<&str>, outs: Seq<O>) -> bool {
    &&& steps.len() == outs.len() + 1
    &&& forall|k: int| #![trigger outs[k]] 0 <= k < outs.len() ==> {
        &&& parses(p, steps[k], Ok((steps[k + 1], outs[k])))
        &&& steps[k + 1]@.len() < steps[k]@.len()
    }
}

/// `p` succeeded `outs.len()` times in a row from `i` and left `s`.
pub open spec fn reaches<O, P: Fn(&str) -> ParseResult<O>>(p: &P, i: &str, s: &str, outs: Seq<O>) -> bool {
    exists|steps: Seq<&str>| #[trigger] repeats(p, steps, outs) && steps[0] == i && steps.last() == s
}

/// `p` succeeded `outs.len()` times in a row from `i`, left `rem`, and then failed on `rem`.
pub open spec fn repeated_until_failure<O, P: Fn(&str) -> ParseResult<O>>(p: &P, i: &str, rem: &str, outs: Seq<O>) -> bool {
    reaches(p, i, rem, outs) && fails(p, rem)
}

/// `p` may be called wherever repeating it from `i` leads, and each success there consumes input.
pub open spec fn many_callable<O, P: Fn(&str) -> ParseResult<O>>(p: &P, i: &str) -> bool {
    forall|s: &str, outs: Seq<O>| #[trigger] reaches(p, i, s, outs) ==> {
        &&& may_parse(p, s)
        &&& forall|r: ParseResult<O>| #[trigger] parses(p, s, r) ==> (r matches Ok((rem, _)) ==> rem@.len() < s@.len())
    }
}

/// `res` behaves as `many0(p)`.
pub open spec fn behaves_as_many0<O, P, R>(res: &R, p: &P) -> bool
    where
        P: Fn(&str) -> ParseResult<O>,
        R: Fn(&str) -> ParseResult<Vec<O>>,
{
    &&& forall|i: &str| many_callable(p, i) ==> #[trigger] may_parse(res, i)
    &&& forall|i: &str, r: ParseResult<Vec<O>>| #[trigger] parses(res, i, r) ==>
        (r matches Ok((rem, outs)) && repeated_until_failure(p, i, rem, outs@))
}

/// `res` behaves as `many1(p)`.
pub open spec fn behaves_as_many1<O, P, R>(res: &R, p: &P) -> bool
    where
        P: Fn(&str) -> ParseResult<O>,
        R: Fn(&str) -> ParseResult<Vec<O>>,
{
    &&& forall|i: &str| many_callable(p, i) ==> #[trigger] may_parse(res, i)
    &&& forall|i: &str, r: ParseResult<Vec<O>>| #[trigger] parses(res, i, r) ==>
        match r {
            Ok((rem, outs)) => outs@.len() > 0 && repeated_until_failure(p, i, rem, outs@),
            Err(e) => parses(p, i, Err(e)),
        }
}

/// Applies `parse` on `input` as long as it succeeds.
fn repeat<'i, O, P: Fn(&str) -> ParseResult<O>>(parse: &P, input: &'i str, output: &mut Vec<O>, Ghost(steps0): Ghost<Seq<&'i str>>) -> (r: &'i str)
    requires
        many_callable(parse, steps0[0]),
        repeats(parse, steps0, old(output)@),
        steps0.last() == input,
    ensures
        exists|steps: Seq<&str>| #[trigger] repeats(parse, steps, final(output)@) && steps[0] == steps0[0] && steps.last() == r,
        fails(parse, r),
        final(output)@.len() >= old(output)@.len(),
{
    let mut cur = input;
    let ghost mut steps: Seq<&str> = steps0;
    loop
        invariant
            many_callable(parse, steps0[0]),
            repeats(parse, steps, output@),
            steps[0] == steps0[0],
            steps.last() == cur,
            output@.len() >= old(output)@.len(),
        decreases cur@.len(),
    {
        assert(reaches(parse, steps0[0], cur, output@));
        match parse(cur) {
            Ok((inp, out)) => {
                assert(parses(parse, cur, Ok((inp, out))));
                let ghost prev = output@;
                output.push(out);
                proof {
                    steps = steps.push(inp);
                    assert forall|k: int| #![trigger output@[k]] 0 <= k < output@.len() implies {
                        &&& parses(parse, steps[k], Ok((steps[k + 1], output@[k])))
                        &&& steps[k + 1]@.len() < steps[k]@.len()
                    } by {
                        if k < prev.len() {
                            assert(prev[k] == output@[k]);
                        }
                    }
                }
                cur = inp;
            },
            Err(e) => {
                assert(parses(parse, cur, Err(e)));
                return cur;
            },
        }
    }
}

/// Applies `parse` as long as it succeeds and returns all outputs; never fails.
pub fn many0<O, P: Fn(&str) -> ParseResult<O>>(parse: P) -> (res: impl Fn(&str) -> ParseResult<Vec<O>>)
    ensures
        behaves_as_many0(&res, &parse),
{
    parser_fn(move |input: &str| -> (r: ParseResult<Vec<O>>)
        requires
            many_callable(&parse, input),
        ensures
            r matches Ok((rem, outs)) && repeated_until_failure(&parse, input, rem, outs@),
    {
        let mut output: Vec<O> = Vec::new();
        let ghost start: Seq<&str> = seq![input];
        assert(repeats(&parse, start, output@));
        let rem = repeat(&parse, input, &mut output, Ghost(start));
        Ok((rem, output))
    })
}

/// Applies `parse` as long as it succeeds and returns all outputs; fails when
/// the first application fails.
pub fn many1<O, P: Fn(&str) -> ParseResult<O>>(parse: P) -> (res: impl Fn(&str) -> ParseResult<Vec<O>>)
    ensures
        behaves_as_many1(&res, &parse),
{
    parser_fn(move |input: &str| -> (r: ParseResult<Vec<O>>)
        requires
            many_callable(&parse, input),
        ensures
            match r {
                Ok((rem, outs)) => outs@.len() > 0 && repeated_until_failure(&parse, input, rem, outs@),
                Err(e) => parses(&parse, input, Err(e)),
            },
    {
        let ghost start: Seq<&str> = seq![input];
        assert(reaches(&parse, input, input, Seq::<O>::empty())) by {
            assert(repeats(&parse, start, Seq::<O>::empty()));
        }
        match parse(input) {
            Ok((next, out)) => {
                assert(parses(&parse, input, Ok((next, out))));
                let mut output: Vec<O> = Vec::new();
                output.push(out);
                let ghost steps = seq![input, next];
                assert(repeats(&parse, steps, output@)) by {
                    assert forall|k: int| #![trigger output@[k]] 0 <= k < output@.len() implies {
                        &&& parses(&parse, steps[k], Ok((steps[k + 1], output@[k])))
                        &&& steps[k + 1]@.len() < steps[k]@.len()
                    } by {
                        assert(k == 0);
                    }
                }
                let rem = repeat(&parse, next, &mut output, Ghost(steps));
                Ok((rem, output))
            },
            Err(e) => Err(e),
        }
    })
}

/// Applies `run` as long as it succeeds and consumes input; returns what is
/// left and all outputs.
pub open spec fn spec_repeat<V>(run: spec_fn(Seq<char>) -> Option<(Seq<char>, V)>, s: Seq<char>) -> (Seq<char>, Seq<V>)
    decreases s.len(),
{
    match run(s) {
        Some((rem, v)) => if rem.len() < s.len() {
            let (r, vs) = spec_repeat(run, rem);
            (r, seq![v] + vs)
        } else {
            (s, Seq::empty())
        },
        None => (s, Seq::empty()),
    }
}

/// Every input that repeating `run` from `s` reaches lies in `dom`, and every
/// success on the way consumes input.
pub open spec fn dom_repeat<V>(dom: spec_fn(Seq<char>) -> bool, run: spec_fn(Seq<char>) -> Option<(Seq<char>, V)>, s: Seq<char>) -> bool
    decreases s.len(),
{
    &&& dom(s)
    &&& match run(s) {
        Some((rem, _)) => rem.len() < s.len() && dom_repeat(dom, run, rem),
        None => true,
    }
}

pub open spec fn spec_many0<V>(run: spec_fn(Seq<char>) -> Option<(Seq<char>, V)>) -> spec_fn(Seq<char>) -> Option<(Seq<char>, Seq<V>)> {
    |s: Seq<char>| Some(spec_repeat(run, s))
}

pub open spec fn spec_many1<V>(run: spec_fn(Seq<char>) -> Option<(Seq<char>, V)>) -> spec_fn(Seq<char>) -> Option<(Seq<char>, Seq<V>)> {
    |s: Seq<char>| if run(s) is Some { Some(spec_repeat(run, s)) } else { None }
}

pub open spec fn dom_many<V>(dom: spec_fn(Seq<char>) -> bool, run: spec_fn(Seq<char>) -> Option<(Seq<char>, V)>) -> spec_fn(Seq<char>) -> bool {
    |s: Seq<char>| dom_repeat(dom, run, s)
}

pub open spec fn vec_view<O, V>(view: spec_fn(O) -> V) -> spec_fn(Vec<O>) -> Seq<V> {
    |v: Vec<O>| v@.map_values(view)
}

proof fn lemma_reach_dom<O, V, P: Fn(&str) -> ParseResult<O>>(
    p: &P,
    dom: spec_fn(Seq<char>) -> bool,
    run: spec_fn(Seq<char>) -> Option<(Seq<char>, V)>,
    view: spec_fn(O) -> V,
    steps: Seq<&str>,
    outs: Seq<O>,
    k: int,
)
    requires
        implements(*p, dom, run, view),
        repeats(p, steps, outs),
        dom_repeat(dom, run, steps[0]@),
        0 <= k <= outs.len(),
    ensures
        dom_repeat(dom, run, steps[k]@),
    decreases k,
{
    if k > 0 {
        lemma_reach_dom(p, dom, run, view, steps, outs, k - 1);
        let o = outs[k - 1];
        assert(p.ensures((steps[k - 1],), Ok((steps[k], o))));
    }
}

proof fn lemma_repeat_result<O, V, P: Fn(&str) -> ParseResult<O>>(
    p: &P,
    dom: spec_fn(Seq<char>) -> bool,
    run: spec_fn(Seq<char>) -> Option<(Seq<char>, V)>,
    view: spec_fn(O) -> V,
    steps: Seq<&str>,
    outs: Seq<O>,
    k: int,
)
    requires
        implements(*p, dom, run, view),
        repeats(p, steps, outs),
        fails(p, steps.last()),
        0 <= k <= outs.len(),
    ensures
        spec_repeat(run, steps[k]@) == (steps.last()@, outs.subrange(k, outs.len() as int).map_values(view)),
    decreases outs.len() - k,
{
    if k == outs.len() {
        let e = choose|e: &'static str| parses(p, steps.last(), Err(e));
        assert(p.ensures((steps.last(),), Err(e)));
        assert(outs.subrange(k, outs.len() as int).map_values(view) =~= Seq::<V>::empty());
    } else {
        lemma_repeat_result(p, dom, run, view, steps, outs, k + 1);
        let o = outs[k];
        assert(p.ensures((steps[k],), Ok((steps[k + 1], o))));
        assert(outs.subrange(k, outs.len() as int).map_values(view)
            =~= seq![view(o)] + outs.subrange(k + 1, outs.len() as int).map_values(view));
    }
}

proof fn lemma_many_callable<O, V, P: Fn(&str) -> ParseResult<O>>(
    p: &P,
    dom: spec_fn(Seq<char>) -> bool,
    run: spec_fn(Seq<char>) -> Option<(Seq<char>, V)>,
    view: spec_fn(O) -> V,
    i: &str,
)
    requires
        implements(*p, dom, run, view),
        dom_repeat(dom, run, i@),
    ensures
        many_callable(p, i),
{
    assert forall|s: &str, outs: Seq<O>| #[trigger] reaches(p, i, s, outs) implies {
        &&& may_parse(p, s)
        &&& forall|r: ParseResult<O>| #[trigger] parses(p, s, r) ==> (r matches Ok((rem, _)) ==> rem@.len() < s@.len())
    } by {
        let steps = choose|steps: Seq<&str>| #[trigger] repeats(p, steps, outs) && steps[0] == i && steps.last() == s;
        lemma_reach_dom(p, dom, run, view, steps, outs, outs.len() as int);
        assert forall|r: ParseResult<O>| #[trigger] parses(p, s, r) implies (r matches Ok((rem, _)) ==> rem@.len() < s@.len()) by {
            assert(p.ensures((s,), r));
        }
    }
}

/// What `many0` returns, stated over what its parser implements.
pub proof fn lemma_many0<O, V, P, R>(
    res: &R,
    p: &P,
    dom: spec_fn(Seq<char>) -> bool,
    run: spec_fn(Seq<char>) -> Option<(Seq<char>, V)>,
    view: spec_fn(O) -> V,
)
    where
        P: Fn(&str) -> ParseResult<O>,
        R: Fn(&str) -> ParseResult<Vec<O>>,
    requires
        behaves_as_many0(res, p),
        implements(*p, dom, run, view),
    ensures
        implements(*res, dom_many(dom, run), spec_many0(run), vec_view(view)),
{
    assert forall|i: &str| dom_many(dom, run)(i@) implies #[trigger] res.requires((i,)) by {
        lemma_many_callable(p, dom, run, view, i);
        assert(may_parse(res, i));
    }
    assert forall|i: &str, r: ParseResult<Vec<O>>| #[trigger] res.ensures((i,), r) implies
        match r {
            Ok((rem, o)) => spec_many0(run)(i@) == Some((rem@, vec_view(view)(o))),
            Err(_) => spec_many0(run)(i@) is None,
        } by {
        assert(parses(res, i, r));
        let rem = r->Ok_0.0;
        let outs = r->Ok_0.1;
        let steps = choose|steps: Seq<&str>| #[trigger] repeats(p, steps, outs@) && steps[0] == i && steps.last() == rem;
        lemma_repeat_result(p, dom, run, view, steps, outs@, 0);
        assert(outs@.subrange(0, outs@.len() as int) =~= outs@);
    }
}

/// What `many1` returns, stated over what its parser implements.
pub proof fn lemma_many1<O, V, P, R>(
    res: &R,
    p: &P,
    dom: spec_fn(Seq<char>) -> bool,
    run: spec_fn(Seq<char>) -> Option<(Seq<char>, V)>,
    view: spec_fn(O) -> V,
)
    where
        P: Fn(&str) -> ParseResult<O>,
        R: Fn(&str) -> ParseResult<Vec<O>>,
    requires
        behaves_as_many1(res, p),
        implements(*p, dom, run, view),
    ensures
        implements(*res, dom_many(dom, run), spec_many1(run), vec_view(view)),
{
    assert forall|i: &str| dom_many(dom, run)(i@) implies #[trigger] res.requires((i,)) by {
        lemma_many_callable(p, dom, run, view, i);
        assert(may_parse(res, i));
    }
    assert forall|i: &str, r: ParseResult<Vec<O>>| #[trigger] res.ensures((i,), r) implies
        match r {
            Ok((rem, o)) => spec_many1(run)(i@) == Some((rem@, vec_view(view)(o))),
            Err(_) => spec_many1(run)(i@) is None,
        } by {
        assert(parses(res, i, r));
        match r {
            Ok((rem, outs)) => {
                let steps = choose|steps: Seq<&str>| #[trigger] repeats(p, steps, outs@) && steps[0] == i && steps.last() == rem;
                lemma_repeat_result(p, dom, run, view, steps, outs@, 0);
                assert(outs@.subrange(0, outs@.len() as int) =~= outs@);
                let o = outs@[0];
                assert(p.ensures((steps[0],), Ok((steps[1], o))));
            },
            Err(e) => {
                assert(p.ensures((i,), Err(e)));
            },
        }
    }
}

// ------------------------------------------------------------------------
// map, left, right

/// `f` may be called on `a`.
pub open spec fn fn_callable<A, B, F: Fn(A) -> B>(f: &F, a: A) -> bool {
    f.requires((a,))
}

/// `f` may return `b` on `a`.
pub open spec fn maps_to<A, B, F: Fn(A) -> B>(f: &F, a: A, b: B) -> bool {
    f.ensures((a,), b)
}

/// `f` may be called on every value whose view lies in `fdom`, and returns
/// what `g` says of its argument's view.
pub open spec fn fn_implements<A, B, VA, VB, F: Fn(A) -> B>(
    f: F,
    fdom: spec_fn(VA) -> bool,
    g: spec_fn(VA) -> VB,
    view_a: spec_fn(A) -> VA,
    view_b: spec_fn(B) -> VB,
) -> bool {
    &&& forall|a: A| fdom(view_a(a)) ==> #[trigger] f.requires((a,))
    &&& forall|a: A, b: B| #[trigger] f.ensures((a,), b) ==> view_b(b) == g(view_a(a))
}

pub open spec fn map_callable<O1, O2, P: Fn(&str) -> ParseResult<O1>, F: Fn(O1) -> O2>(p: &P, f: &F, i: &str) -> bool {
    &&& may_parse(p, i)
    &&& forall|rem: &str, o1: O1| #[trigger] parses(p, i, Ok((rem, o1))) ==> fn_callable(f, o1)
}

pub open spec fn map_result<O1, O2, P: Fn(&str) -> ParseResult<O1>, F: Fn(O1) -> O2>(p: &P, f: &F, i: &str, r: ParseResult<O2>) -> bool {
    match r {
        Ok((rem, o2)) => exists|o1: O1| #[trigger] parses(p, i, Ok((rem, o1))) && maps_to(f, o1, o2),
        Err(e) => parses(p, i, Err(e)),
    }
}

/// `res` behaves as `map(p, f)`.
pub open spec fn behaves_as_map<O1, O2, P, F, R>(res: &R, p: &P, f: &F) -> bool
    where
        P: Fn(&str) -> ParseResult<O1>,
        F: Fn(O1) -> O2,
        R: Fn(&str) -> ParseResult<O2>,
{
    &&& forall|i: &str| map_callable(p, f, i) ==> #[trigger] may_parse(res, i)
    &&& forall|i: &str, r: ParseResult<O2>| #[trigger] parses(res, i, r) ==> map_result(p, f, i, r)
}

/// Runs `parser` and applies `f` to its output.
pub fn map<P, O1, O2, F: Fn(O1) -> O2>(parser: P, f: F) -> (res: impl Fn(&str) -> ParseResult<O2>)
    where
        P: Fn(&str) -> ParseResult<O1>,
    ensures
        behaves_as_map(&res, &parser, &f),
{
    parser_fn(move |input: &str| -> (r: ParseResult<O2>)
        requires
            map_callable(&parser, &f, input),
        ensures
            map_result(&parser, &f, input, r),
    {
        match parser(input) {
            Ok((rem, o1)) => {
                assert(parses(&parser, input, Ok((rem, o1))));
                let ghost g1 = o1;
                let o2 = f(o1);
                let r: ParseResult<O2> = Ok((rem, o2));
                assert(parses(&parser, input, Ok((r->Ok_0.0, g1))));
                assert(maps_to(&f, g1, r->Ok_0.1));
                r
            },
            Err(e) => Err(e),
        }
    })
}

pub open spec fn spec_map<V1, V2>(run: spec_fn(Seq<char>) -> Option<(Seq<char>, V1)>, g: spec_fn(V1) -> V2) -> spec_fn(Seq<char>) -> Option<(Seq<char>, V2)> {
    |s: Seq<char>|
        match run(s) {
            Some((rem, v)) => Some((rem, g(v))),
            None => None,
        }
}

pub open spec fn dom_map<V1>(dom: spec_fn(Seq<char>) -> bool, run: spec_fn(Seq<char>) -> Option<(Seq<char>, V1)>, fdom: spec_fn(V1) -> bool) -> spec_fn(Seq<char>) -> bool {
    |s: Seq<char>| dom(s) && (run(s) matches Some((_, v)) ==> fdom(v))
}

/// What `map` returns, stated over what its parser and function implement.
pub proof fn lemma_map<O1, O2, V1, V2, P, F, R>(
    res: &R,
    p: &P,
    f: &F,
    dom: spec_fn(Seq<char>) -> bool,
    run: spec_fn(Seq<char>) -> Option<(Seq<char>, V1)>,
    view1: spec_fn(O1) -> V1,
    fdom: spec_fn(V1) -> bool,
    g: spec_fn(V1) -> V2,
    view2: spec_fn(O2) -> V2,
)
    where
        P: Fn(&str) -> ParseResult<O1>,
        F: Fn(O1) -> O2,
        R: Fn(&str) -> ParseResult<O2>,
    requires
        behaves_as_map(res, p, f),
        implements(*p, dom, run, view1),
        fn_implements(*f, fdom, g, view1, view2),
    ensures
        implements(*res, dom_map(dom, run, fdom), spec_map(run, g), view2),
{
    assert forall|i: &str| dom_map(dom, run, fdom)(i@) implies #[trigger] res.requires((i,)) by {
        assert forall|rem: &str, o1: O1| #[trigger] parses(p, i, Ok((rem, o1))) implies fn_callable(f, o1) by {
            assert(p.ensures((i,), Ok((rem, o1))));
        }
        assert(map_callable(p, f, i));
        assert(may_parse(res, i));
    }
    assert forall|i: &str, r: ParseResult<O2>| #[trigger] res.ensures((i,), r) implies
        match r {
            Ok((rem, o)) => spec_map(run, g)(i@) == Some((rem@, view2(o))),
            Err(_) => spec_map(run, g)(i@) is None,
        } by {
        assert(parses(res, i, r));
        match r {
            Ok((rem, o2)) => {
                let o1 = choose|o1: O1| #[trigger] parses(p, i, Ok((rem, o1))) && maps_to(f, o1, o2);
                assert(p.ensures((i,), Ok((rem, o1))));
                assert(f.ensures((o1,), o2));
            },
            Err(e) => {
                assert(p.ensures((i,), Err(e)));
            },
        }
    }
}

pub open spec fn spec_first<V1, V2>() -> spec_fn((V1, V2)) -> V1 {
    |v: (V1, V2)| v.0
}

pub open spec fn spec_second<V1, V2>() -> spec_fn((V1, V2)) -> V2 {
    |v: (V1, V2)| v.1
}

/// `res` behaves as `left(p)`.
pub open spec fn behaves_as_left<O1, O2, P, R>(res: &R, p: &P) -> bool
    where
        P: Fn(&str) -> ParseResult<(O1, O2)>,
        R: Fn(&str) -> ParseResult<O1>,
{
    &&& forall|i: &str| may_parse(p, i) ==> #[trigger] may_parse(res, i)
    &&& forall|i: &str, r: ParseResult<O1>| #[trigger] parses(res, i, r) ==>
        match r {
            Ok((rem, o)) => exists|pair: (O1, O2)| #[trigger] parses(p, i, Ok((rem, pair))) && o == pair.0,
            Err(e) => parses(p, i, Err(e)),
        }
}

/// `res` behaves as `right(p)`.
pub open spec fn behaves_as_right<O1, O2, P, R>(res: &R, p: &P) -> bool
    where
        P: Fn(&str) -> ParseResult<(O1, O2)>,
        R: Fn(&str) -> ParseResult<O2>,
{
    &&& forall|i: &str| may_parse(p, i) ==> #[trigger] may_parse(res, i)
    &&& forall|i: &str, r: ParseResult<O2>| #[trigger] parses(res, i, r) ==>
        match r {
            Ok((rem, o)) => exists|pair: (O1, O2)| #[trigger] parses(p, i, Ok((rem, pair))) && o == pair.1,
            Err(e) => parses(p, i, Err(e)),
        }
}

/// Runs a parser of pairs and keeps the first half of its output.
pub fn left<P, O1, O2>(parser: P) -> (res: impl Fn(&str) -> ParseResult<O1>)
    where
        P: Fn(&str) -> ParseResult<(O1, O2)>,
    ensures
        behaves_as_left(&res, &parser),
{
    parser_fn(move |input: &str| -> (r: ParseResult<O1>)
        requires
            may_parse(&parser, input),
        ensures
            match r {
                Ok((rem, o)) => exists|pair: (O1, O2)| #[trigger] parses(&parser, input, Ok((rem, pair))) && o == pair.0,
                Err(e) => parses(&parser, input, Err(e)),
            },
    {
        match parser(input) {
            Ok((rem, pair)) => {
                let ghost gp = pair;
                let r: ParseResult<O1> = Ok((rem, pair.0));
                assert(parses(&parser, input, Ok((r->Ok_0.0, gp))));
                assert(r->Ok_0.1 == gp.0);
                r
            },
            Err(e) => Err(e),
        }
    })
}

/// Runs a parser of pairs and keeps the second half of its output.
pub fn right<P, O1, O2>(parser: P) -> (res: impl Fn(&str) -> ParseResult<O2>)
    where
        P: Fn(&str) -> ParseResult<(O1, O2)>,
    ensures
        behaves_as_right(&res, &parser),
{
    parser_fn(move |input: &str| -> (r: ParseResult<O2>)
        requires
            may_parse(&parser, input),
        ensures
            match r {
                Ok((rem, o)) => exists|pair: (O1, O2)| #[trigger] parses(&parser, input, Ok((rem, pair))) && o == pair.1,
                Err(e) => parses(&parser, input, Err(e)),
            },
    {
        match parser(input) {
            Ok((rem, pair)) => {
                let ghost gp = pair;
                let r: ParseResult<O2> = Ok((rem, pair.1));
                assert(parses(&parser, input, Ok((r->Ok_0.0, gp))));
                assert(r->Ok_0.1 == gp.1);
                r
            },
            Err(e) => Err(e),
        }
    })
}

/// What `left` returns, stated over what its parser implements.
pub proof fn lemma_left<O1, O2, V1, V2, P, R>(
    res: &R,
    p: &P,
    dom: spec_fn(Seq<char>) -> bool,
    run: spec_fn(Seq<char>) -> Option<(Seq<char>, (V1, V2))>,
    view1: spec_fn(O1) -> V1,
    view2: spec_fn(O2) -> V2,
)
    where
        P: Fn(&str) -> ParseResult<(O1, O2)>,
        R: Fn(&str) -> ParseResult<O1>,
    requires
        behaves_as_left(res, p),
        implements(*p, dom, run, pair_view(view1, view2)),
    ensures
        implements(*res, dom, spec_map(run, spec_first()), view1),
{
    assert forall|i: &str| dom(i@) implies #[trigger] res.requires((i,)) by {
        assert(may_parse(res, i));
    }
    assert forall|i: &str, r: ParseResult<O1>| #[trigger] res.ensures((i,), r) implies
        match r {
            Ok((rem, o)) => spec_map(run, spec_first())(i@) == Some((rem@, view1(o))),
            Err(_) => spec_map(run, spec_first())(i@) is None,
        } by {
        assert(parses(res, i, r));
        match r {
            Ok((rem, o)) => {
                let pair = choose|pair: (O1, O2)| #[trigger] parses(p, i, Ok((rem, pair))) && o == pair.0;
                assert(p.ensures((i,), Ok((rem, pair))));
            },
            Err(e) => {
                assert(p.ensures((i,), Err(e)));
            },
        }
    }
}

/// What `right` returns, stated over what its parser implements.
pub proof fn lemma_right<O1, O2, V1, V2, P, R>(
    res: &R,
    p: &P,
    dom: spec_fn(Seq<char>) -> bool,
    run: spec_fn(Seq<char>) -> Option<(Seq<char>, (V1, V2))>,
    view1: spec_fn(O1) -> V1,
    view2: spec_fn(O2) -> V2,
)
    where
        P: Fn(&str) -> ParseResult<(O1, O2)>,
        R: Fn(&str) -> ParseResult<O2>,
    requires
        behaves_as_right(res, p),
        implements(*p, dom, run, pair_view(view1, view2)),
    ensures
        implements(*res, dom, spec_map(run, spec_second()), view2),
{
    assert forall|i: &str| dom(i@) implies #[trigger] res.requires((i,)) by {
        assert(may_parse(res, i));
    }
    assert forall|i: &str, r: ParseResult<O2>| #[trigger] res.ensures((i,), r) implies
        match r {
            Ok((rem, o)) => spec_map(run, spec_second())(i@) == Some((rem@, view2(o))),
            Err(_) => spec_map(run, spec_second())(i@) is None,
        } by {
        assert(parses(res, i, r));
        match r {
            Ok((rem, o)) => {
                let pair = choose|pair: (O1, O2)| #[trigger] parses(p, i, Ok((rem, pair))) && o == pair.1;
                assert(p.ensures((i,), Ok((rem, pair))));
            },
            Err(e) => {
                assert(p.ensures((i,), Err(e)));
            },
        }
    }
}

// ------------------------------------------------------------------------
// maybe

/// `res` behaves as `maybe(p)`.
pub open spec fn behaves_as_maybe<O, P, R>(res: &R, p: &P) -> bool
    where
        P: Fn(&str) -> ParseResult<O>,
        R: Fn(&str) -> ParseResult<Option<O>>,
{
    &&& forall|i: &str| may_parse(p, i) ==> #[trigger] may_parse(res, i)
    &&& forall|i: &str, r: ParseResult<Option<O>>| #[trigger] parses(res, i, r) ==>
        match r {
            Ok((rem, Some(o))) => parses(p, i, Ok((rem, o))),
            Ok((rem, None)) => rem == i && fails(p, i),
            Err(_) => false,
        }
}

/// Runs `parser`; when it fails, succeeds with `None` without consuming input.
pub fn maybe<P, O>(parser: P) -> (res: impl Fn(&str) -> ParseResult<Option<O>>)
    where
        P: Fn(&str) -> ParseResult<O>,
    ensures
        behaves_as_maybe(&res, &parser),
{
    parser_fn(move |input: &str| -> (r: ParseResult<Option<O>>)
        requires
            may_parse(&parser, input),
        ensures
            match r {
                Ok((rem, Some(o))) => parses(&parser, input, Ok((rem, o))),
                Ok((rem, None)) => rem == input && fails(&parser, input),
                Err(_) => false,
            },
    {
        match parser(input) {
            Ok((next_input, output)) => Ok((next_input, Some(output))),
            Err(e) => {
                assert(parses(&parser, input, Err(e)));
                Ok((input, None))
            },
        }
    })
}

pub open spec fn spec_maybe<V>(run: spec_fn(Seq<char>) -> Option<(Seq<char>, V)>) -> spec_fn(Seq<char>) -> Option<(Seq<char>, Option<V>)> {
    |s: Seq<char>|
        match run(s) {
            Some((rem, v)) => Some((rem, Some(v))),
            None => Some((s, None)),
        }
}

pub open spec fn option_view<O, V>(view: spec_fn(O) -> V) -> spec_fn(Option<O>) -> Option<V> {
    |o: Option<O>|
        match o {
            Some(x) => Some(view(x)),
            None => None,
        }
}

/// What `maybe` returns, stated over what its parser implements.
pub proof fn lemma_maybe<O, V, P, R>(
    res: &R,
    p: &P,
    dom: spec_fn(Seq<char>) -> bool,
    run: spec_fn(Seq<char>) -> Option<(Seq<char>, V)>,
    view: spec_fn(O) -> V,
)
    where
        P: Fn(&str) -> ParseResult<O>,
        R: Fn(&str) -> ParseResult<Option<O>>,
    requires
        behaves_as_maybe(res, p),
        implements(*p, dom, run, view),
    ensures
        implements(*res, dom, spec_maybe(run), option_view(view)),
{
    assert forall|i: &str| dom(i@) implies #[trigger] res.requires((i,)) by {
        assert(may_parse(res, i));
    }
    assert forall|i: &str, r: ParseResult<Option<O>>| #[trigger] res.ensures((i,), r) implies
        match r {
            Ok((rem, o)) => spec_maybe(run)(i@) == Some((rem@, option_view(view)(o))),
            Err(_) => spec_maybe(run)(i@) is None,
        } by {
        assert(parses(res, i, r));
        match r {
            Ok((rem, Some(o))) => {
                assert(p.ensures((i,), Ok((rem, o))));
            },
            Ok((rem, None)) => {
                let e = choose|e: &'static str| parses(p, i, Err(e));
                assert(p.ensures((i,), Err(e)));
            },
            Err(_) => {},
        }
    }
}

// ------------------------------------------------------------------------
// eof, or

/// `res` behaves as `eof(p)`.
pub open spec fn behaves_as_eof<O, P, R>(res: &R, p: &P) -> bool
    where
        P: Fn(&str) -> ParseResult<O>,
        R: Fn(&str) -> ParseResult<O>,
{
    &&& forall|i: &str| may_parse(p, i) ==> #[trigger] may_parse(res, i)
    &&& forall|i: &str, r: ParseResult<O>| #[trigger] parses(res, i, r) ==>
        match r {
            Ok((rem, o)) => rem@.len() == 0 && parses(p, i, Ok((rem, o))),
            Err(e) => parses(p, i, Err(e)) || (e == "Expected end of input"
                && exists|rest: &str, out: O| #[trigger] parses(p, i, Ok((rest, out))) && rest@.len() > 0),
        }
}

/// Runs `parser` and fails unless it used up all of the input.
pub fn eof<P, O>(parser: P) -> (res: impl Fn(&str) -> ParseResult<O>)
    where
        P: Fn(&str) -> ParseResult<O>,
    ensures
        behaves_as_eof(&res, &parser),
{
    parser_fn(move |input: &str| -> (r: ParseResult<O>)
        requires
            may_parse(&parser, input),
        ensures
            match r {
                Ok((rem, o)) => rem@.len() == 0 && parses(&parser, input, Ok((rem, o))),
                Err(e) => parses(&parser, input, Err(e)) || (e == "Expected end of input"
                    && exists|rest: &str, out: O| #[trigger] parses(&parser, input, Ok((rest, out))) && rest@.len() > 0),
            },
    {
        match parser(input) {
            Ok((rem, o)) => {
                assert(parses(&parser, input, Ok((rem, o))));
                if rem.unicode_len() == 0 {
                    Ok((rem, o))
                } else {
                    Err("Expected end of input")
                }
            },
            Err(e) => Err(e),
        }
    })
}

pub open spec fn spec_eof<V>(run: spec_fn(Seq<char>) -> Option<(Seq<char>, V)>) -> spec_fn(Seq<char>) -> Option<(Seq<char>, V)> {
    |s: Seq<char>|
        match run(s) {
            Some((rem, v)) => if rem.len() == 0 { Some((rem, v)) } else { None },
            None => None,
        }
}

/// What `eof` returns, stated over what its parser implements.
pub proof fn lemma_eof<O, V, P, R>(
    res: &R,
    p: &P,
    dom: spec_fn(Seq<char>) -> bool,
    run: spec_fn(Seq<char>) -> Option<(Seq<char>, V)>,
    view: spec_fn(O) -> V,
)
    where
        P: Fn(&str) -> ParseResult<O>,
        R: Fn(&str) -> ParseResult<O>,
    requires
        behaves_as_eof(res, p),
        implements(*p, dom, run, view),
    ensures
        implements(*res, dom, spec_eof(run), view),
{
    assert forall|i: &str| dom(i@) implies #[trigger] res.requires((i,)) by {
        assert(may_parse(res, i));
    }
    assert forall|i: &str, r: ParseResult<O>| #[trigger] res.ensures((i,), r) implies
        match r {
            Ok((rem, o)) => spec_eof(run)(i@) == Some((rem@, view(o))),
            Err(_) => spec_eof(run)(i@) is None,
        } by {
        assert(parses(res, i, r));
        match r {
            Ok((rem, o)) => {
                assert(p.ensures((i,), Ok((rem, o))));
            },
            Err(e) => {
                if parses(p, i, Err(e)) {
                    assert(p.ensures((i,), Err(e)));
                } else {
                    let (rest, out) = choose|rest: &str, out: O| #[trigger] parses(p, i, Ok((rest, out))) && rest@.len() > 0;
                    assert(p.ensures((i,), Ok((rest, out))));
                }
            },
        }
    }
}

pub open spec fn or_callable<O, P1: Fn(&str) -> ParseResult<O>, P2: Fn(&str) -> ParseResult<O>>(p1: &P1, p2: &P2, i: &str) -> bool {
    &&& may_parse(p1, i)
    &&& fails(p1, i) ==> may_parse(p2, i)
}

/// `res` behaves as `or(p1, p2)`.
pub open spec fn behaves_as_or<O, P1, P2, R>(res: &R, p1: &P1, p2: &P2) -> bool
    where
        P1: Fn(&str) -> ParseResult<O>,
        P2: Fn(&str) -> ParseResult<O>,
        R: Fn(&str) -> ParseResult<O>,
{
    &&& forall|i: &str| or_callable(p1, p2, i) ==> #[trigger] may_parse(res, i)
    &&& forall|i: &str, r: ParseResult<O>| #[trigger] parses(res, i, r) ==>
        match r {
            Ok(_) => parses(p1, i, r) || (fails(p1, i) && parses(p2, i, r)),
            Err(_) => fails(p1, i) && parses(p2, i, r),
        }
}

/// Runs `p1`; when it fails, runs `p2` on the same input instead.
pub fn or<P1, P2, O>(p1: P1, p2: P2) -> (res: impl Fn(&str) -> ParseResult<O>)
    where
        P1: Fn(&str) -> ParseResult<O>,
        P2: Fn(&str) -> ParseResult<O>,
    ensures
        behaves_as_or(&res, &p1, &p2),
{
    parser_fn(move |input: &str| -> (r: ParseResult<O>)
        requires
            or_callable(&p1, &p2, input),
        ensures
            match r {
                Ok(_) => parses(&p1, input, r) || (fails(&p1, input) && parses(&p2, input, r)),
                Err(_) => fails(&p1, input) && parses(&p2, input, r),
            },
    {
        match p1(input) {
            Ok(x) => Ok(x),
            Err(e) => {
                assert(parses(&p1, input, Err(e)));
                p2(input)
            },
        }
    })
}

pub open spec fn spec_or<V>(
    run1: spec_fn(Seq<char>) -> Option<(Seq<char>, V)>,
    run2: spec_fn(Seq<char>) -> Option<(Seq<char>, V)>,
) -> spec_fn(Seq<char>) -> Option<(Seq<char>, V)> {
    |s: Seq<char>| if run1(s) is Some { run1(s) } else { run2(s) }
}

pub open spec fn dom_or<V>(
    dom1: spec_fn(Seq<char>) -> bool,
    run1: spec_fn(Seq<char>) -> Option<(Seq<char>, V)>,
    dom2: spec_fn(Seq<char>) -> bool,
) -> spec_fn(Seq<char>) -> bool {
    |s: Seq<char>| dom1(s) && (run1(s) is None ==> dom2(s))
}

/// What `or` returns, stated over what its parsers implement.
pub proof fn lemma_or<O, V, P1, P2, R>(
    res: &R,
    p1: &P1,
    p2: &P2,
    dom1: spec_fn(Seq<char>) -> bool,
    run1: spec_fn(Seq<char>) -> Option<(Seq<char>, V)>,
    dom2: spec_fn(Seq<char>) -> bool,
    run2: spec_fn(Seq<char>) -> Option<(Seq<char>, V)>,
    view: spec_fn(O) -> V,
)
    where
        P1: Fn(&str) -> ParseResult<O>,
        P2: Fn(&str) -> ParseResult<O>,
        R: Fn(&str) -> ParseResult<O>,
    requires
        behaves_as_or(res, p1, p2),
        implements(*p1, dom1, run1, view),
        implements(*p2, dom2, run2, view),
    ensures
        implements(*res, dom_or(dom1, run1, dom2), spec_or(run1, run2), view),
{
    assert forall|i: &str| dom_or(dom1, run1, dom2)(i@) implies #[trigger] res.requires((i,)) by {
        if fails(p1, i) {
            let e = choose|e: &'static str| parses(p1, i, Err(e));
            assert(p1.ensures((i,), Err(e)));
        }
        assert(or_callable(p1, p2, i));
        assert(may_parse(res, i));
    }
    assert forall|i: &str, r: ParseResult<O>| #[trigger] res.ensures((i,), r) implies
        match r {
            Ok((rem, o)) => spec_or(run1, run2)(i@) == Some((rem@, view(o))),
            Err(_) => spec_or(run1, run2)(i@) is None,
        } by {
        assert(parses(res, i, r));
        if fails(p1, i) {
            let e = choose|e: &'static str| parses(p1, i, Err(e));
            assert(p1.ensures((i,), Err(e)));
        }
        if parses(p1, i, r) {
            assert(p1.ensures((i,), r));
        } else {
            assert(p2.ensures((i,), r));
        }
    }
}

// ------------------------------------------------------------------------
// any

/// Each parser of `parsers` before the `k`-th fails on `i`.
pub open spec fn all_fail_before<O, P: Fn(&str) -> ParseResult<O>>(parsers: Seq<P>, i: &str, k: int) -> bool {
    forall|j: int| 0 <= j < k ==> #[trigger] fails(&parsers[j], i)
}

pub open spec fn any_callable<O, P: Fn(&str) -> ParseResult<O>>(parsers: Seq<P>, i: &str) -> bool {
    forall|k: int| 0 <= k < parsers.len() && all_fail_before(parsers, i, k) ==> #[trigger] may_parse(&parsers[k], i)
}

pub open spec fn any_result<O, P: Fn(&str) -> ParseResult<O>>(parsers: Seq<P>, i: &str, r: ParseResult<O>) -> bool {
    match r {
        Ok(_) => exists|k: int| 0 <= k < parsers.len() && #[trigger] parses(&parsers[k], i, r) && all_fail_before(parsers, i, k),
        Err(e) => e == "Did not match any parser" && all_fail_before(parsers, i, parsers.len() as int),
    }
}

/// `res` behaves as `any(parsers)`.
pub open spec fn behaves_as_any<O, P, R>(res: &R, parsers: Seq<P>) -> bool
    where
        P: Fn(&str) -> ParseResult<O>,
        R: Fn(&str) -> ParseResult<O>,
{
    &&& forall|i: &str| any_callable(parsers, i) ==> #[trigger] may_parse(res, i)
    &&& forall|i: &str, r: ParseResult<O>| #[trigger] parses(res, i, r) ==> any_result(parsers, i, r)
}

/// Returns what the first of `parsers` that succeeds returns.
pub fn any<'p, O, P: Fn(&str) -> ParseResult<O>>(parsers: &'p [P]) -> (res: impl Fn(&str) -> ParseResult<O> + 'p)
    ensures
        behaves_as_any(&res, parsers@),
{
    parser_fn(move |input: &str| -> (r: ParseResult<O>)
        requires
            any_callable(parsers@, input),
        ensures
            any_result(parsers@, input, r),
    {
        let mut k: usize = 0;
        while k < parsers.len()
            invariant
                k <= parsers@.len(),
                any_callable(parsers@, input),
                all_fail_before(parsers@, input, k as int),
            decreases parsers@.len() - k,
        {
            let p = &parsers[k];
            assert(may_parse(&parsers@[k as int], input));
            match p(input) {
                Ok(x) => {
                    let r: ParseResult<O> = Ok(x);
                    assert(parses(&parsers@[k as int], input, r));
                    return r;
                },
                Err(e) => {
                    assert(parses(&parsers@[k as int], input, Err(e)));
                    assert forall|j: int| 0 <= j < k + 1 implies #[trigger] fails(&parsers@[j], input) by {
                        if j < k {
                            assert(all_fail_before(parsers@, input, k as int));
                        }
                    }
                },
            }
            k += 1;
        }
        Err("Did not match any parser")
    })
}

/// The first success among `runs`, starting at the `k`-th.
pub open spec fn first_success<V>(runs: Seq<spec_fn(Seq<char>) -> Option<(Seq<char>, V)>>, s: Seq<char>, k: int) -> Option<(Seq<char>, V)>
    decreases runs.len() - k,
{
    if k < 0 || k >= runs.len() {
        None
    } else if runs[k](s) is Some {
        runs[k](s)
    } else {
        first_success(runs, s, k + 1)
    }
}

pub open spec fn spec_any<V>(runs: Seq<spec_fn(Seq<char>) -> Option<(Seq<char>, V)>>) -> spec_fn(Seq<char>) -> Option<(Seq<char>, V)> {
    |s: Seq<char>| first_success(runs, s, 0)
}

/// Skipping parsers that fail does not change the first success.
pub proof fn lemma_first_success<V>(runs: Seq<spec_fn(Seq<char>) -> Option<(Seq<char>, V)>>, s: Seq<char>, k: int, m: int)
    requires
        0 <= k <= m <= runs.len(),
        forall|j: int| k <= j < m ==> #[trigger] runs[j](s) is None,
    ensures
        first_success(runs, s, k) == first_success(runs, s, m),
    decreases m - k,
{
    if k < m {
        lemma_first_success(runs, s, k + 1, m);
    }
}

/// What `any` returns, stated over what each of its parsers implements.
pub proof fn lemma_any<O, V, P, R>(
    res: &R,
    parsers: Seq<P>,
    runs: Seq<spec_fn(Seq<char>) -> Option<(Seq<char>, V)>>,
    view: spec_fn(O) -> V,
)
    where
        P: Fn(&str) -> ParseResult<O>,
        R: Fn(&str) -> ParseResult<O>,
    requires
        behaves_as_any(res, parsers),
        runs.len() == parsers.len(),
        forall|k: int| 0 <= k < parsers.len() ==> implements(#[trigger] parsers[k], everywhere(), runs[k], view),
    ensures
        implements(*res, everywhere(), spec_any(runs), view),
{
    assert forall|i: &str| everywhere()(i@) implies #[trigger] res.requires((i,)) by {
        assert forall|k: int| 0 <= k < parsers.len() && all_fail_before(parsers, i, k) implies #[trigger] may_parse(&parsers[k], i) by {
            assert(implements(parsers[k], everywhere(), runs[k], view));
        }
        assert(may_parse(res, i));
    }
    assert forall|i: &str, r: ParseResult<O>| #[trigger] res.ensures((i,), r) implies
        match r {
            Ok((rem, o)) => spec_any(runs)(i@) == Some((rem@, view(o))),
            Err(_) => spec_any(runs)(i@) is None,
        } by {
        assert(parses(res, i, r));
        let m = match r {
            Ok(_) => choose|k: int| 0 <= k < parsers.len() && #[trigger] parses(&parsers[k], i, r) && all_fail_before(parsers, i, k),
            Err(_) => parsers.len() as int,
        };
        assert forall|j: int| 0 <= j < m implies #[trigger] runs[j](i@) is None by {
            assert(fails(&parsers[j], i));
            let e = choose|e: &'static str| parses(&parsers[j], i, Err(e));
            assert(implements(parsers[j], everywhere(), runs[j], view));
            assert(parsers[j].ensures((i,), Err(e)));
        }
        lemma_first_success(runs, i@, 0, m);
        if m < parsers.len() {
            assert(implements(parsers[m], everywhere(), runs[m], view));
            assert(parsers[m].ensures((i,), r));
        }
    }
}

// ------------------------------------------------------------------------
// peek

/// Returns the first character when `cond` holds on it, without consuming it.
pub fn peek<F: Fn(char) -> bool>(cond: F) -> (res: impl Fn(&str) -> ParseResult<char>)
    ensures
        forall|i: &str| (i@.len() > 0 ==> callable_on(&cond, i@[0])) ==> #[trigger] res.requires((i,)),
        forall|i: &str, r: ParseResult<char>| #[trigger] res.ensures((i,), r) ==> peek_result(&cond, i, r),
        forall|test: spec_fn(char) -> bool| #[trigger] decides(cond, test) ==>
            implements(res, everywhere(), spec_peek(test), char_view()),
{
    let res = parser_fn(move |input: &str| -> (r: ParseResult<char>)
        requires
            input@.len() > 0 ==> callable_on(&cond, input@[0]),
        ensures
            peek_result(&cond, input, r),
    {
        let n = input.unicode_len();
        if n == 0 {
            return Err("peek not matched");
        }
        let ch = input.get_char(0);
        if cond(ch) {
            Ok((input, ch))
        } else {
            Err("peek not matched")
        }
    });
    proof {
        assert forall|test: spec_fn(char) -> bool| #[trigger] decides(cond, test) implies
            implements(res, everywhere(), spec_peek(test), char_view()) by {
            assert forall|i: &str, r: ParseResult<char>| #[trigger] res.ensures((i,), r) implies
                match r {
                    Ok((rem, o)) => spec_peek(test)(i@) == Some((rem@, char_view()(o))),
                    Err(_) => spec_peek(test)(i@) is None,
                } by {
                if i@.len() > 0 {
                    assert(answers(&cond, i@[0], true) ==> test(i@[0]));
                    assert(answers(&cond, i@[0], false) ==> !test(i@[0]));
                }
            }
        }
    }
    res
}

// ------------------------------------------------------------------------
// general facts

/// `implements` only depends on what its domain admits and what its run returns.
pub proof fn lemma_implements_congruent<O, V, P: Fn(&str) -> ParseResult<O>>(
    p: &P,
    dom1: spec_fn(Seq<char>) -> bool,
    run1: spec_fn(Seq<char>) -> Option<(Seq<char>, V)>,
    dom2: spec_fn(Seq<char>) -> bool,
    run2: spec_fn(Seq<char>) -> Option<(Seq<char>, V)>,
    view: spec_fn(O) -> V,
)
    requires
        implements(*p, dom1, run1, view),
        forall|s: Seq<char>| #[trigger] dom2(s) ==> dom1(s),
        forall|s: Seq<char>| #[trigger] run1(s) == run2(s),
    ensures
        implements(*p, dom2, run2, view),
{
    assert forall|i: &str| dom2(i@) implies #[trigger] p.requires((i,)) by {
        assert(dom1(i@));
    }
    assert forall|i: &str, r: ParseResult<O>| #[trigger] p.ensures((i,), r) implies
        match r {
            Ok((rem, o)) => run2(i@) == Some((rem@, view(o))),
            Err(_) => run2(i@) is None,
        } by {
        assert(run1(i@) == run2(i@));
    }
}

/// When every success of `run` consumes input, repeating it from any input
/// stays inside a domain that admits everything.
pub proof fn lemma_dom_repeat_total<V>(run: spec_fn(Seq<char>) -> Option<(Seq<char>, V)>, s: Seq<char>)
    requires
        forall|t: Seq<char>| #[trigger] run(t) matches Some((rem, _)) ==> rem.len() < t.len(),
    ensures
        dom_repeat(everywhere(), run, s),
    decreases s.len(),
{
    if let Some((rem, _)) = run(s) {
        lemma_dom_repeat_total(run, rem);
    }
}

/// Repeating a consuming `run` never leaves more than it was given.
pub proof fn lemma_repeat_shrinks<V>(run: spec_fn(Seq<char>) -> Option<(Seq<char>, V)>, s: Seq<char>)
    ensures
        spec_repeat(run, s).0.len() <= s.len(),
    decreases s.len(),
{
    if let Some((rem, _)) = run(s) {
        if rem.len() < s.len() {
            lemma_repeat_shrinks(run, rem);
        }
    }
}

/// Number of characters at the start of `s` on which `test` holds.
pub open spec fn leading(test: spec_fn(char) -> bool, s: Seq<char>) -> nat
    decreases s.len(),
{
    if s.len() > 0 && test(s[0]) {
        1 + leading(test, s.drop_first())
    } else {
        0
    }
}

pub proof fn lemma_leading(test: spec_fn(char) -> bool, s: Seq<char>)
    ensures
        leading(test, s) <= s.len(),
        forall|k: int| 0 <= k < leading(test, s) ==> #[trigger] test(s[k]),
        leading(test, s) < s.len() ==> !test(s[leading(test, s) as int]),
    decreases s.len(),
{
    if s.len() > 0 && test(s[0]) {
        lemma_leading(test, s.drop_first());
        assert forall|k: int| 0 <= k < leading(test, s) implies #[trigger] test(s[k]) by {
            if k > 0 {
                assert(s[k] == s.drop_first()[k - 1]);
            }
        }
    }
}

/// Repeating a one-character parser takes the longest prefix on which its test holds.
pub proof fn lemma_repeat_pred(test: spec_fn(char) -> bool, s: Seq<char>)
    ensures
        spec_repeat(spec_pred(test), s) == (s.skip(leading(test, s) as int), s.take(leading(test, s) as int)),
        dom_repeat(everywhere(), spec_pred(test), s),
    decreases s.len(),
{
    if s.len() > 0 && test(s[0]) {
        lemma_repeat_pred(test, s.drop_first());
        lemma_leading(test, s);
        let n = leading(test, s);
        assert(n - 1 == leading(test, s.drop_first()));
        assert(s.drop_first().skip(n - 1) =~= s.skip(n as int));
        assert(seq![s[0]] + s.drop_first().take(n - 1) =~= s.take(n as int));
    } else {
        assert(s.skip(0) =~= s);
        assert(s.take(0) =~= Seq::<char>::empty());
    }
}

pub open spec fn ws_test() -> spec_fn(char) -> bool {
    |c: char| char_is_whitespace(c)
}

/// The leading whitespace of `s`, possibly none.
pub open spec fn spec_whitespace0() -> spec_fn(Seq<char>) -> Option<(Seq<char>, Seq<char>)> {
    |s: Seq<char>| {
        let n = leading(ws_test(), s) as int;
        Some((s.skip(n), s.take(n)))
    }
}

/// The leading whitespace of `s`, when there is some.
pub open spec fn spec_whitespace1() -> spec_fn(Seq<char>) -> Option<(Seq<char>, Seq<char>)> {
    |s: Seq<char>| {
        let n = leading(ws_test(), s) as int;
        if n > 0 { Some((s.skip(n), s.take(n))) } else { None }
    }
}

fn whitespace_char() -> (res: impl Fn(&str) -> ParseResult<char>)
    ensures
        implements(res, everywhere(), spec_pred(ws_test()), char_view()),
{
    let cond = |ch: char| -> (b: bool) ensures b == char_is_whitespace(ch) { is_whitespace(ch) };
    assert(decides(cond, ws_test()));
    pred(cond)
}

/// Parses one or more whitespace characters.
pub fn whitespace1() -> (res: impl Fn(&str) -> ParseResult<Vec<char>>)
    ensures
        implements(res, everywhere(), spec_whitespace1(), vec_view(char_view())),
{
    let ws = whitespace_char();
    let res = many1(ws);
    proof {
        lemma_many1(&res, &ws, everywhere(), spec_pred(ws_test()), char_view());
        assert forall|s: Seq<char>| #[trigger] spec_many1(spec_pred(ws_test()))(s) == spec_whitespace1()(s) by {
            lemma_repeat_pred(ws_test(), s);
        }
        assert forall|s: Seq<char>| #[trigger] everywhere()(s) implies dom_many(everywhere(), spec_pred(ws_test()))(s) by {
            lemma_repeat_pred(ws_test(), s);
        }
        lemma_implements_congruent(&res, dom_many(everywhere(), spec_pred(ws_test())), spec_many1(spec_pred(ws_test())),
            everywhere(), spec_whitespace1(), vec_view(char_view()));
    }
    res
}

/// Parses zero or more whitespace characters.
pub fn whitespace0() -> (res: impl Fn(&str) -> ParseResult<Vec<char>>)
    ensures
        implements(res, everywhere(), spec_whitespace0(), vec_view(char_view())),
{
    let ws = whitespace_char();
    let res = many0(ws);
    proof {
        lemma_many0(&res, &ws, everywhere(), spec_pred(ws_test()), char_view());
        assert forall|s: Seq<char>| #[trigger] spec_many0(spec_pred(ws_test()))(s) == spec_whitespace0()(s) by {
            lemma_repeat_pred(ws_test(), s);
        }
        assert forall|s: Seq<char>| #[trigger] everywhere()(s) implies dom_many(everywhere(), spec_pred(ws_test()))(s) by {
            lemma_repeat_pred(ws_test(), s);
        }
        lemma_implements_congruent(&res, dom_many(everywhere(), spec_pred(ws_test())), spec_many0(spec_pred(ws_test())),
            everywhere(), spec_whitespace0(), vec_view(char_view()));
    }
    res
}

} // verus!