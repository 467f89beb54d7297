//! What holds of the library across its functions.
use vstd::prelude::*;

use crate::actions::{
    goto_begin_state, goto_end_state, last_index, quit_state, scroll_down_state, scroll_up_state,
};
use crate::app::{
    first_with_id, notif_view_step, responded, AppState, Model, NotificationsViewMsg, ServerResponse,
};
use crate::app::index_in_bounds;
use crate::commands::{
    count_true, list_flags, max_index, removable, remove_from_largest, selected, selected_positions,
    lemma_max_index,
};
use crate::github::events::{Event, EventKind};
use crate::github::{irrelevance, recency_key, Notification};
use crate::keybind::actions::next_item_state;
use crate::parsec::{
    all_fail_before, and_result, any_result, behaves_as_and, behaves_as_any, behaves_as_many0, behaves_as_many1,
    behaves_as_map, behaves_as_maybe, fails, implements, leading, lemma_leading, lemma_repeat_pred, map_result, maps_to,
    parses, peek_result, pred_result, answers, reaches, repeated_until_failure, spec_many0, spec_many1, spec_maybe, spec_peek, spec_pred, ParseResult,
};
use crate::parsec::{
    dom_and, dom_many, dom_map, everywhere, first_success, fn_implements, lemma_and, lemma_any, lemma_first_success, lemma_many0,
    lemma_many1, lemma_map, may_parse, pair_view, spec_and, spec_any, spec_identity, spec_map, spec_repeat, vec_view,
};
use crate::commands::{has_arg, kind_selected, state_selected, ListFlags};
use crate::github::{
    issue_state_of, pull_request_state_of, DiscussionState, IssueClosedReason, IssueState, NotificationTarget,
    PullRequestState,
};
use crate::text::Color;
use crate::timeline::{at, bold, BlockView};
use crate::views::{discussion_state_label, issue_state_label, page_color, pull_request_state_label};
use crate::util::{target_color, NotifColor};
use crate::views::{notification_item, page_title, table_offset, unread_only, with_description};
use crate::github::body_or_placeholder;
use crate::github::target_icon;
use crate::commands::{kinds_conflict, states_conflict};
use crate::parser::parser_input_fits;
use crate::parser::types::parsed_view;
use crate::parser::{
    all_digits, decimal_value, digit_test, digit_value, spec_parser, spec_whole_command, spec_whole_consumer_with_args,
    spec_whole_producer_expr, spec_uint, uint_fits,
};
use crate::text::{decimal, digit};
use crate::timeline::{event_view, hidden, merged_among, timeline_view};

verus! {

// ---------------------------------------------------------------- parsing

/// Repeating a parser zero or more times never fails; one or more times
/// fails exactly when the first try fails, and otherwise gives the same.
pub proof fn law_many(run: spec_fn(Seq<char>) -> Option<(Seq<char>, char)>, s: Seq<char>)
    ensures
        spec_many0(run)(s) is Some,
        spec_many1(run)(s) is None <==> run(s) is None,
        run(s) is Some ==> spec_many1(run)(s) == spec_many0(run)(s),
{
}

/// An optional parser never fails, and where the parser fails it leaves the
/// input as it was.
pub proof fn law_maybe(run: spec_fn(Seq<char>) -> Option<(Seq<char>, char)>, s: Seq<char>)
    ensures
        spec_maybe(run)(s) is Some,
        run(s) is None ==> spec_maybe(run)(s) == Some((s, None::<char>)),
{
}

/// Peeking at a character takes nothing from the input.
pub proof fn law_peek_keeps_input(test: spec_fn(char) -> bool, s: Seq<char>)
    ensures
        spec_peek(test)(s) matches Some((rem, _)) ==> rem == s,
        spec_peek(test)(s) is Some <==> spec_pred(test)(s) is Some,
{
}

proof fn lemma_digit_value(d: nat)
    requires
        d < 10,
    ensures
        '0' <= digit(d) <= '9',
        digit_value(digit(d)) == d,
{
}

proof fn lemma_decimal_digits(n: nat)
    ensures
        decimal(n).len() > 0,
        all_digits(decimal(n)),
        decimal_value(decimal(n)) == n,
    decreases n,
{
    if n < 10 {
        lemma_digit_value(n);
        let ds = decimal(n);
        assert(ds.drop_last() =~= Seq::<char>::empty());
        assert(ds.last() == digit(n));
        assert(decimal_value(ds) == decimal_value(ds.drop_last()) * 10 + digit_value(ds.last()));
    } else {
        lemma_decimal_digits(n / 10);
        lemma_digit_value(n % 10);
        let ds = decimal(n);
        assert(ds.drop_last() =~= decimal(n / 10));
        assert(ds.last() == digit(n % 10));
        assert(decimal_value(ds) == decimal_value(ds.drop_last()) * 10 + digit_value(ds.last()));
        assert(n == (n / 10) * 10 + n % 10);
        assert forall|k: int| 0 <= k < ds.len() implies #[trigger] crate::chars::char_is_ascii_digit(ds[k]) by {
            if k < ds.len() - 1 {
                assert(ds[k] == decimal(n / 10)[k]);
            }
        }
    }
}

/// A number written in decimal reads back as the same number: `uint` takes
/// all of it and gives `n`.
pub proof fn law_uint_reads_decimal(n: usize)
    ensures
        uint_fits()(decimal(n as nat)),
        spec_uint()(decimal(n as nat)) == Some((Seq::<char>::empty(), n as nat)),
{
    let ds = decimal(n as nat);
    lemma_decimal_digits(n as nat);
    lemma_repeat_pred(digit_test(), ds);
    lemma_leading(digit_test(), ds);
    let k = leading(digit_test(), ds);
    if k < ds.len() {
        assert(digit_test()(ds[k as int]));
    }
    assert(k == ds.len());
    assert(ds.take(k as int) =~= ds);
    assert(ds.skip(k as int) =~= Seq::<char>::empty());
    assert(digit_test()(ds[0]));
}

/// A command line parses only as a whole: what the parser accepts leaves
/// nothing over.
pub proof fn law_parser_takes_whole_line(s: Seq<char>)
    ensures
        spec_parser()(s) matches Some((rem, _)) ==> rem.len() == 0,
        spec_whole_command()(s) matches Some((rem, _)) ==> rem.len() == 0,
        spec_whole_producer_expr()(s) matches Some((rem, _)) ==> rem.len() == 0,
        spec_whole_consumer_with_args()(s) matches Some((rem, _)) ==> rem.len() == 0,
{
}

// ---------------------------------------------------------------- commands

/// No more flags are set than there are.
pub proof fn law_count_true_bounded(bools: Seq<bool>)
    ensures
        count_true(bools) <= bools.len(),
    decreases bools.len(),
{
    if bools.len() > 0 {
        law_count_true_bounded(bools.drop_last());
    }
}

/// A listing gives, in increasing order, exactly the positions of the
/// notifications that its flags select.
pub proof fn law_list_positions(ns: Seq<crate::github::Notification>, f: crate::commands::ListFlags, len: nat)
    requires
        len <= ns.len(),
        len <= usize::MAX,
    ensures
        forall|p: usize| #[trigger] selected_positions(ns, f, len).contains(p) <==> p < len && selected(f, ns[p as int]),
        forall|i: int, j: int| 0 <= i < j < selected_positions(ns, f, len).len()
            ==> selected_positions(ns, f, len)[i] < selected_positions(ns, f, len)[j],
        forall|i: int| 0 <= i < selected_positions(ns, f, len).len() ==> selected_positions(ns, f, len)[i] < len,
    decreases len,
{
    if len > 0 {
        law_list_positions(ns, f, (len - 1) as nat);
        let before = selected_positions(ns, f, (len - 1) as nat);
        let after = selected_positions(ns, f, len);
        let last = (len - 1) as usize;
        assert forall|p: usize| #[trigger] after.contains(p) <==> p < len && selected(f, ns[p as int]) by {
            if after.contains(p) {
                let w = choose|w: int| 0 <= w < after.len() && after[w] == p;
                if w < before.len() {
                    assert(before[w] == p);
                    assert(before.contains(p));
                }
            }
            if p < len && selected(f, ns[p as int]) {
                if p < last {
                    assert(before.contains(p));
                    let w = choose|w: int| 0 <= w < before.len() && before[w] == p;
                    assert(after[w] == p);
                } else {
                    assert(after[before.len() as int] == p);
                }
            }
        }
    }
}

/// With no words, a listing selects every notification.
pub proof fn law_list_without_words(ns: Seq<crate::github::Notification>, len: nat)
    requires
        len <= ns.len(),
    ensures
        selected_positions(ns, list_flags(Seq::empty()), len) == Seq::new(len, |i: int| i as usize),
    decreases len,
{
    if len > 0 {
        law_list_without_words(ns, (len - 1) as nat);
        assert(selected_positions(ns, list_flags(Seq::empty()), len) =~= Seq::new(len, |i: int| i as usize));
    }
}

/// Marking as done takes exactly as many notifications off the list as
/// were marked.
pub proof fn law_done_removes_marked<T>(items: Seq<T>, positions: Seq<usize>)
    requires
        removable(items.len(), positions),
    ensures
        remove_from_largest(items, positions).len() == items.len() - positions.len(),
    decreases positions.len(),
{
    if positions.len() > 0 {
        lemma_max_index(positions);
        let k = max_index(positions);
        law_done_removes_marked(items.remove(positions[k] as int), positions.remove(k));
    }
}

// ---------------------------------------------------------------- ranking

/// `a` comes after `b` in the order of tuples.
pub open spec fn key_above(a: (u32, u64), b: (u32, u64)) -> bool {
    a.0 > b.0 || (a.0 == b.0 && a.1 > b.1)
}

/// In descending order of the sorting key, notifications that need less
/// attention come first, and within one rank the older ones.
pub proof fn law_sorter_order(a: Notification, b: Notification)
    ensures
        irrelevance(a.target) > irrelevance(b.target)
            ==> key_above((irrelevance(a.target), recency_key(a.updated_at)), (irrelevance(b.target), recency_key(b.updated_at))),
        irrelevance(a.target) == irrelevance(b.target) && a.updated_at < b.updated_at
            ==> key_above((irrelevance(a.target), recency_key(a.updated_at)), (irrelevance(b.target), recency_key(b.updated_at))),
{
}

// ---------------------------------------------------------------- timeline

/// Mentions and subscriptions never show on a timeline.
pub proof fn law_timeline_hides_mentions(events: Seq<Event>, e: Event)
    requires
        e.kind is Mentioned || e.kind is Subscribed,
    ensures
        timeline_view(events.push(e)) == timeline_view(events),
{
    assert(events.push(e).drop_last() =~= events);
}

/// How many of `events` a timeline shows.
pub open spec fn shown_count(events: Seq<Event>) -> nat
    decreases events.len(),
{
    if events.len() == 0 {
        0
    } else {
        let before = events.drop_last();
        shown_count(before) + if hidden(events.last().kind, merged_among(before)) { 0nat } else { 1nat }
    }
}

/// A timeline shows each shown event followed by a blank line: it has two
/// blocks per shown event, the blank lines at the odd positions and never
/// elsewhere.
pub proof fn law_timeline_blank_after_each(events: Seq<Event>)
    ensures
        timeline_view(events).len() == 2 * shown_count(events),
        shown_count(events) <= events.len(),
        forall|i: int| 0 <= i < timeline_view(events).len() ==>
            ((#[trigger] timeline_view(events)[i] is Blank) <==> i % 2 == 1),
    decreases events.len(),
{
    if events.len() > 0 {
        let before = events.drop_last();
        law_timeline_blank_after_each(before);
        let e = events.last();
        if !hidden(e.kind, merged_among(before)) {
            let t = timeline_view(before);
            let v = event_view(e.actor, e.kind);
            assert(!(v is Blank));
            assert forall|i: int| 0 <= i < timeline_view(events).len() implies
                ((#[trigger] timeline_view(events)[i] is Blank) <==> i % 2 == 1) by {
                if i < t.len() {
                    assert(timeline_view(events)[i] == t[i]);
                }
            }
        }
    }
}

/// Once a pull request was merged, a closing adds nothing to the timeline.
pub proof fn law_timeline_hides_close_after_merge(events: Seq<Event>, e: Event)
    requires
        merged_among(events),
        e.kind is Closed,
    ensures
        timeline_view(events.push(e)) == timeline_view(events),
{
    assert(events.push(e).drop_last() =~= events);
}

// ---------------------------------------------------------------- browser

/// Marking the notification under the cursor as read moves the cursor on;
/// when the network side then reports it read, it leaves the list and the
/// cursor is back at its position, now on the notification that followed.
pub proof fn law_mark_as_read_round_trip(m: Model, after_mark: Model, after_reply: Model)
    requires
        m.wf(),
        m.selected + 1 < m.notifs@.len(),
        first_with_id(m.notifs@, m.current().id, m.selected as int),
        after_mark == notif_view_step(m, NotificationsViewMsg::MarkAsRead).0,
        responded(after_mark, after_reply, ServerResponse::MarkedNotifAsRead(m.current())),
    ensures
        after_reply.notifs@ == m.notifs@.remove(m.selected as int),
        after_reply.selected == m.selected,
        after_reply.current() == m.notifs@[m.selected + 1],
{
    assert(m.notifs.len() == m.notifs@.len());
    assert(after_mark.notifs == m.notifs);
    assert(after_mark.selected == m.selected + 1);
    let n = m.current();
    let p = m.selected as int;
    assert(first_with_id(after_mark.notifs@, n.id, p));
    assert(responded(after_mark, after_reply, ServerResponse::MarkedNotifAsRead(n)));
    assert(after_reply.notifs@ == after_mark.notifs@.remove(p));
    assert(after_mark.selected > 0);
    assert(after_reply.selected == after_mark.selected - 1);
    assert(after_reply.notifs@[p] == m.notifs@[p + 1]);
}

// ---------------------------------------------------------------- keys

/// Moving down and then up returns the cursor to where it was, unless it
/// stood at the end of the list.
pub proof fn law_scroll_down_up(s: AppState, len: nat)
    requires
        s.route is Notifications,
        s.selected_notification_index + 1 <= last_index(len),
    ensures
        scroll_up_state(scroll_down_state(s, len)) == s,
{
}

/// Going to the beginning twice is going there once.
pub proof fn law_goto_begin_idempotent(s: AppState)
    ensures
        goto_begin_state(goto_begin_state(s)) == goto_begin_state(s),
{
}

/// Leaving a target and then quitting on the list ends the browser.
pub proof fn law_quit_twice(s: AppState)
    requires
        s.route is NotifTarget,
    ensures
        quit_state(s).route is Notifications,
        quit_state(quit_state(s)).should_quit,
{
}

/// The moves of the cursor keep it on the list.
pub proof fn law_moves_keep_cursor(s: AppState, len: nat)
    requires
        index_in_bounds(s, len),
    ensures
        index_in_bounds(scroll_down_state(s, len), len),
        index_in_bounds(scroll_up_state(s), len),
        index_in_bounds(goto_begin_state(s), len),
        index_in_bounds(goto_end_state(s, len), len),
        index_in_bounds(next_item_state(s, len), len),
{
}

} // verus!

verus! {

/// The items of `items` at the positions that `marked` does not hold of, in order.
pub open spec fn keep_unmarked<T>(items: Seq<T>, marked: spec_fn(int) -> bool) -> Seq<T>
    decreases items.len(),
{
    if items.len() == 0 {
        Seq::empty()
    } else {
        let rest = keep_unmarked(items.drop_last(), marked);
        if marked(items.len() - 1) { rest } else { rest.push(items.last()) }
    }
}

proof fn lemma_keep_agree<T>(items: Seq<T>, a: spec_fn(int) -> bool, b: spec_fn(int) -> bool)
    requires
        forall|i: int| 0 <= i < items.len() ==> #[trigger] a(i) == b(i),
    ensures
        keep_unmarked(items, a) == keep_unmarked(items, b),
    decreases items.len(),
{
    if items.len() > 0 {
        lemma_keep_agree(items.drop_last(), a, b);
    }
}

/// Taking out a marked item behind which nothing is marked leaves the
/// unmarked items as they were.
proof fn lemma_keep_remove_last_marked<T>(items: Seq<T>, marked: spec_fn(int) -> bool, m: int)
    requires
        0 <= m < items.len(),
        marked(m),
        forall|q: int| m < q < items.len() ==> !#[trigger] marked(q),
    ensures
        keep_unmarked(items.remove(m), |i: int| i < m && marked(i)) == keep_unmarked(items, marked),
    decreases items.len(),
{
    let below = |i: int| i < m && marked(i);
    if m == items.len() - 1 {
        assert(items.remove(m) =~= items.drop_last());
        lemma_keep_agree(items.drop_last(), below, marked);
    } else {
        let shorter = items.drop_last();
        lemma_keep_remove_last_marked(shorter, marked, m);
        assert(items.remove(m).drop_last() =~= shorter.remove(m));
        assert(items.remove(m).last() == items.last());
        assert(!marked(items.len() - 1));
        assert(!below(items.remove(m).len() - 1));
    }
}

pub open spec fn no_duplicates(positions: Seq<usize>) -> bool {
    forall|i: int, j: int| 0 <= i < j < positions.len() ==> positions[i] != positions[j]
}

/// Removing distinct positions from the largest down takes out exactly the
/// items at those positions, and keeps the others in their order.
pub proof fn law_done_keeps_the_rest<T>(items: Seq<T>, positions: Seq<usize>)
    requires
        no_duplicates(positions),
        forall|i: int| 0 <= i < positions.len() ==> positions[i] < items.len(),
        items.len() <= usize::MAX,
    ensures
        removable(items.len(), positions),
        remove_from_largest(items, positions) == keep_unmarked(items, |i: int| 0 <= i <= usize::MAX && positions.contains(i as usize)),
    decreases positions.len(),
{
    let marked = |i: int| 0 <= i <= usize::MAX && positions.contains(i as usize);
    if positions.len() == 0 {
        assert(keep_unmarked(items, marked) == items) by {
            lemma_keep_none(items, marked);
        }
    } else {
        lemma_max_index(positions);
        let k = max_index(positions);
        let m = positions[k] as int;
        lemma_max_index_is_max(positions);
        let rest = positions.remove(k);
        assert forall|i: int, j: int| 0 <= i < j < rest.len() implies rest[i] != rest[j] by {
            let i0 = if i < k { i } else { i + 1 };
            let j0 = if j < k { j } else { j + 1 };
            assert(rest[i] == positions[i0] && rest[j] == positions[j0]);
        }
        assert forall|i: int| 0 <= i < rest.len() implies rest[i] < items.remove(m).len() by {
            let i0 = if i < k { i } else { i + 1 };
            assert(rest[i] == positions[i0]);
            assert(positions[i0] <= positions[k]);
        }
        law_done_keeps_the_rest(items.remove(m), rest);
        assert(marked(m)) by {
            assert(positions[k] == m as usize);
        }
        assert forall|q: int| m < q < items.len() implies !#[trigger] marked(q) by {
            assert(q <= usize::MAX);
            if positions.contains(q as usize) {
                let w = choose|w: int| 0 <= w < positions.len() && positions[w] == q as usize;
                assert(positions[w] <= positions[k]);
            }
        }
        lemma_keep_remove_last_marked(items, marked, m);
        let rest_marked = |i: int| 0 <= i <= usize::MAX && rest.contains(i as usize);
        assert forall|i: int| 0 <= i < items.remove(m).len() implies (i < m && marked(i)) == #[trigger] rest_marked(i) by {
            assert(i <= usize::MAX);
            if rest.contains(i as usize) {
                let w = choose|w: int| 0 <= w < rest.len() && rest[w] == i as usize;
                let w0 = if w < k { w } else { w + 1 };
                assert(positions[w0] == i as usize);
                assert(w0 != k);
                assert(positions[w0] != positions[k]);
                assert(positions[w0] <= positions[k]);
                assert(positions.contains(i as usize));
                assert(i < m);
            }
            if i < m && marked(i) {
                assert(positions.contains(i as usize));
                let w = choose|w: int| 0 <= w < positions.len() && positions[w] == i as usize;
                assert(w != k);
                let w1 = if w < k { w } else { w - 1 };
                assert(rest[w1] == i as usize);
                assert(rest.contains(i as usize));
            }
        }
        lemma_keep_agree(items.remove(m), |i: int| i < m && marked(i), rest_marked);
    }
}

proof fn lemma_keep_none<T>(items: Seq<T>, marked: spec_fn(int) -> bool)
    requires
        forall|i: int| 0 <= i < items.len() ==> !#[trigger] marked(i),
    ensures
        keep_unmarked(items, marked) == items,
    decreases items.len(),
{
    if items.len() > 0 {
        lemma_keep_none(items.drop_last(), marked);
        assert(items.drop_last().push(items.last()) =~= items);
    }
}

proof fn lemma_max_index_is_max(s: Seq<usize>)
    requires
        s.len() > 0,
    ensures
        0 <= max_index(s) < s.len(),
        forall|j: int| 0 <= j < s.len() ==> #[trigger] s[j] <= s[max_index(s)],
    decreases s.len(),
{
    if s.len() > 1 {
        lemma_max_index_is_max(s.drop_last());
        lemma_max_index(s.drop_last());
        lemma_max_index(s);
        assert forall|j: int| 0 <= j < s.len() implies #[trigger] s[j] <= s[max_index(s)] by {
            if j < s.len() - 1 {
                assert(s.drop_last()[j] == s[j]);
            }
        }
    }
}

} // verus!

verus! {

/// `maybe(p)` never fails; when it answers `None` it has taken nothing.
pub proof fn law_maybe_closure<O, P, R>(res: &R, p: &P)
    where
        P: Fn(&str) -> ParseResult<O>,
        R: Fn(&str) -> ParseResult<Option<O>>,
    requires
        behaves_as_maybe(res, p),
    ensures
        forall|i: &str, r: ParseResult<Option<O>>| #[trigger] parses(res, i, r) ==> {
            &&& r is Ok
            &&& (r matches Ok((rem, None)) ==> rem == i && fails(p, i))
            &&& (r matches Ok((rem, Some(o))) ==> parses(p, i, Ok((rem, o))))
        },
{
}

/// `many0(p)` never fails: it applies `p` as long as `p` succeeds and stops
/// at the first failure.
pub proof fn law_many0_closure<O, P, R>(res: &R, p: &P)
    where
        P: Fn(&str) -> ParseResult<O>,
        R: Fn(&str) -> ParseResult<Vec<O>>,
    requires
        behaves_as_many0(res, p),
    ensures
        forall|i: &str, r: ParseResult<Vec<O>>| #[trigger] parses(res, i, r) ==>
            (r matches Ok((rem, outs)) && reaches(p, i, rem, outs@) && fails(p, rem)),
{
}

/// `many1(p)` fails with `p`'s error exactly when `p` fails first; otherwise
/// it gives at least one output, applying `p` until it fails.
pub proof fn law_many1_closure<O, P, R>(res: &R, p: &P)
    where
        P: Fn(&str) -> ParseResult<O>,
        R: Fn(&str) -> ParseResult<Vec<O>>,
    requires
        behaves_as_many1(res, p),
    ensures
        forall|i: &str, e: &'static str| #[trigger] parses(res, i, Err(e)) ==> parses(p, i, Err(e)),
        forall|i: &str, rem: &str, outs: Vec<O>| #[trigger] parses(res, i, Ok((rem, outs))) ==>
            outs@.len() > 0 && reaches(p, i, rem, outs@) && fails(p, rem),
{
    assert forall|i: &str, rem: &str, outs: Vec<O>| #[trigger] parses(res, i, Ok((rem, outs))) implies
        outs@.len() > 0 && reaches(p, i, rem, outs@) && fails(p, rem) by {
        assert(repeated_until_failure(p, i, rem, outs@));
    }
}

/// `and(p1, p2)` runs `p2` on what `p1` left; it does not backtrack: an
/// error is `p1`'s, or `p2`'s after `p1` succeeded.
pub proof fn law_and_closure<O1, O2, P1, P2, R>(res: &R, p1: &P1, p2: &P2)
    where
        P1: Fn(&str) -> ParseResult<O1>,
        P2: Fn(&str) -> ParseResult<O2>,
        R: Fn(&str) -> ParseResult<(O1, O2)>,
    requires
        behaves_as_and(res, p1, p2),
    ensures
        forall|i: &str, rem: &str, o: (O1, O2)| #[trigger] parses(res, i, Ok((rem, o))) ==>
            exists|mid: &str| #[trigger] parses(p1, i, Ok((mid, o.0))) && parses(p2, mid, Ok((rem, o.1))),
        forall|i: &str, e: &'static str| #[trigger] parses(res, i, Err(e)) ==>
            parses(p1, i, Err(e)) || exists|mid: &str, o1: O1| #[trigger] parses(p1, i, Ok((mid, o1))) && parses(p2, mid, Err(e)),
{
    assert forall|i: &str, rem: &str, o: (O1, O2)| #[trigger] parses(res, i, Ok((rem, o))) implies
        exists|mid: &str| #[trigger] parses(p1, i, Ok((mid, o.0))) && parses(p2, mid, Ok((rem, o.1))) by {
        assert(and_result(p1, p2, i, Ok((rem, o))));
    }
    assert forall|i: &str, e: &'static str| #[trigger] parses(res, i, Err(e)) implies
        parses(p1, i, Err(e)) || exists|mid: &str, o1: O1| #[trigger] parses(p1, i, Ok((mid, o1))) && parses(p2, mid, Err(e)) by {
        assert(and_result(p1, p2, i, Err(e)));
    }
}

/// `map(p, f)` passes `p`'s error on unchanged, and on success gives what
/// `f` makes of `p`'s output.
pub proof fn law_map_closure<O1, O2, P, F, R>(res: &R, p: &P, f: &F)
    where
        P: Fn(&str) -> ParseResult<O1>,
        F: Fn(O1) -> O2,
        R: Fn(&str) -> ParseResult<O2>,
    requires
        behaves_as_map(res, p, f),
    ensures
        forall|i: &str, e: &'static str| #[trigger] parses(res, i, Err(e)) ==> parses(p, i, Err(e)),
        forall|i: &str, rem: &str, o2: O2| #[trigger] parses(res, i, Ok((rem, o2))) ==>
            exists|o1: O1| #[trigger] parses(p, i, Ok((rem, o1))) && maps_to(f, o1, o2),
{
    assert forall|i: &str, e: &'static str| #[trigger] parses(res, i, Err(e)) implies parses(p, i, Err(e)) by {
        assert(map_result(p, f, i, Err(e)));
    }
    assert forall|i: &str, rem: &str, o2: O2| #[trigger] parses(res, i, Ok((rem, o2))) implies
        exists|o1: O1| #[trigger] parses(p, i, Ok((rem, o1))) && maps_to(f, o1, o2) by {
        assert(map_result(p, f, i, Ok((rem, o2))));
    }
}

/// `any(parsers)` answers what the first parser that succeeds answers, after
/// all before it failed; it fails with "Did not match any parser" exactly
/// when every parser fails, in particular when there are none.
pub proof fn law_any_closure<O, P, R>(res: &R, parsers: Seq<P>)
    where
        P: Fn(&str) -> ParseResult<O>,
        R: Fn(&str) -> ParseResult<O>,
    requires
        behaves_as_any(res, parsers),
    ensures
        forall|i: &str, r: ParseResult<O>| #[trigger] parses(res, i, r) ==> match r {
            Ok(_) => exists|k: int| 0 <= k < parsers.len() && #[trigger] parses(&parsers[k], i, r)
                && all_fail_before(parsers, i, k),
            Err(e) => e == "Did not match any parser" && all_fail_before(parsers, i, parsers.len() as int),
        },
{
    assert forall|i: &str, r: ParseResult<O>| #[trigger] parses(res, i, r) implies match r {
            Ok(_) => exists|k: int| 0 <= k < parsers.len() && #[trigger] parses(&parsers[k], i, r)
                && all_fail_before(parsers, i, k),
            Err(e) => e == "Did not match any parser" && all_fail_before(parsers, i, parsers.len() as int),
        } by {
        assert(any_result(parsers, i, r));
    }
}

/// Whatever the command-line parser accepts, it accepts whole: nothing is
/// left over.
pub proof fn law_parser_closure_takes_whole_line<R>(res: &R)
    where
        R: Fn(&str) -> ParseResult<crate::parser::types::Parsed>,
    requires
        implements(*res, parser_input_fits(), spec_parser(), parsed_view()),
    ensures
        forall|i: &str, rem: &str, o: crate::parser::types::Parsed| #[trigger] parses(res, i, Ok((rem, o))) ==> rem@.len() == 0,
{
    assert forall|i: &str, rem: &str, o: crate::parser::types::Parsed| #[trigger] parses(res, i, Ok((rem, o))) implies rem@.len() == 0 by {
        assert(res.ensures((i,), Ok((rem, o))));
        law_parser_takes_whole_line(i@);
    }
}

} // verus!

verus! {

/// Peeking and taking a character under the same condition agree, for a
/// condition that answers each character one way: both succeed or both
/// fail, on the same character; peeking leaves the input whole and taking
/// leaves the rest; each fails with its own message.
pub proof fn law_peek_pred_closure<F, PK, PD>(pk: &PK, pd: &PD, cond: &F)
    where
        F: Fn(char) -> bool,
        PK: Fn(&str) -> ParseResult<char>,
        PD: Fn(&str) -> ParseResult<char>,
    requires
        forall|i: &str, r: ParseResult<char>| #[trigger] parses(pk, i, r) ==> peek_result(cond, i, r),
        forall|i: &str, r: ParseResult<char>| #[trigger] parses(pd, i, r) ==> pred_result(cond, i, r),
        forall|c: char, b1: bool, b2: bool| #[trigger] answers(cond, c, b1) && #[trigger] answers(cond, c, b2) ==> b1 == b2,
    ensures
        forall|i: &str, r1: ParseResult<char>, r2: ParseResult<char>|
            #[trigger] parses(pk, i, r1) && #[trigger] parses(pd, i, r2) ==> {
                &&& (r1 is Ok <==> r2 is Ok)
                &&& (r1 matches Ok((rem1, c1)) ==> rem1 == i
                    && (r2 matches Ok((rem2, c2)) && c1 == c2 && rem2@ == i@.drop_first()))
                &&& (r1 matches Err(e) ==> e == "peek not matched")
                &&& (r2 matches Err(e) ==> e == "predicate not matched")
            },
{
    assert forall|i: &str, r1: ParseResult<char>, r2: ParseResult<char>|
        #[trigger] parses(pk, i, r1) && #[trigger] parses(pd, i, r2) implies {
            &&& (r1 is Ok <==> r2 is Ok)
            &&& (r1 matches Ok((rem1, c1)) ==> rem1 == i
                && (r2 matches Ok((rem2, c2)) && c1 == c2 && rem2@ == i@.drop_first()))
            &&& (r1 matches Err(e) ==> e == "peek not matched")
            &&& (r2 matches Err(e) ==> e == "predicate not matched")
        } by {
        assert(peek_result(cond, i, r1));
        assert(pred_result(cond, i, r2));
        if i@.len() > 0 {
            let c = i@[0];
            if r1 is Ok && r2 is Err {
                assert(answers(cond, c, true) && answers(cond, c, false));
            }
            if r1 is Err && r2 is Ok {
                assert(answers(cond, c, false) && answers(cond, c, true));
            }
        }
    }
}

} // verus!

verus! {

// ------------------------------------------------ equations of the combinators

/// For a parser that gives one answer per input, `many1(p)` fails exactly
/// where `p` fails, with an error that `p` gives there; elsewhere it gives
/// what `many0(p)` gives, and at least one output.
pub proof fn law_many1_agrees_with_many0<O, V, P, R1, R0>(
    res1: &R1,
    res0: &R0,
    p: &P,
    dom: spec_fn(Seq<char>) -> bool,
    run: spec_fn(Seq<char>) -> Option<(Seq<char>, V)>,
    view: spec_fn(O) -> V,
)
    where
        P: Fn(&str) -> ParseResult<O>,
        R1: Fn(&str) -> ParseResult<Vec<O>>,
        R0: Fn(&str) -> ParseResult<Vec<O>>,
    requires
        behaves_as_many1(res1, p),
        behaves_as_many0(res0, p),
        implements(*p, dom, run, view),
    ensures
        forall|i: &str| #[trigger] dom_many(dom, run)(i@) ==> may_parse(res1, i) && may_parse(res0, i),
        forall|i: &str, r1: ParseResult<Vec<O>>, r0: ParseResult<Vec<O>>|
            #[trigger] parses(res1, i, r1) && #[trigger] parses(res0, i, r0) ==> {
                &&& (r1 is Err <==> run(i@) is None)
                &&& (r1 matches Ok((rem1, o1)) ==> (r0 matches Ok((rem0, o0)) && rem1@ == rem0@
                    && vec_view(view)(o1) == vec_view(view)(o0) && o1@.len() > 0))
            },
        forall|i: &str, e: &'static str| #[trigger] parses(res1, i, Err(e)) ==> parses(p, i, Err(e)),
        forall|i: &str, e: &'static str, r1: ParseResult<Vec<O>>|
            #[trigger] parses(p, i, Err(e)) && #[trigger] parses(res1, i, r1) ==> r1 is Err,
{
    lemma_many1(res1, p, dom, run, view);
    lemma_many0(res0, p, dom, run, view);
    assert forall|i: &str| #[trigger] dom_many(dom, run)(i@) implies may_parse(res1, i) && may_parse(res0, i) by {
        assert(res1.requires((i,)));
        assert(res0.requires((i,)));
    }
    assert forall|i: &str, r1: ParseResult<Vec<O>>, r0: ParseResult<Vec<O>>|
        #[trigger] parses(res1, i, r1) && #[trigger] parses(res0, i, r0) implies {
            &&& (r1 is Err <==> run(i@) is None)
            &&& (r1 matches Ok((rem1, o1)) ==> (r0 matches Ok((rem0, o0)) && rem1@ == rem0@
                && vec_view(view)(o1) == vec_view(view)(o0) && o1@.len() > 0))
        } by {
        assert(res1.ensures((i,), r1));
        assert(res0.ensures((i,), r0));
    }
    assert forall|i: &str, e: &'static str, r1: ParseResult<Vec<O>>|
        #[trigger] parses(p, i, Err(e)) && #[trigger] parses(res1, i, r1) implies r1 is Err by {
        assert(p.ensures((i,), Err(e)));
        assert(res1.ensures((i,), r1));
    }
}

/// `run` takes `steps[j]` to `steps[j + 1]` with output `vs[j]`, for every step.
pub open spec fn run_chain<V>(run: spec_fn(Seq<char>) -> Option<(Seq<char>, V)>, steps: Seq<Seq<char>>, vs: Seq<V>) -> bool {
    &&& steps.len() == vs.len() + 1
    &&& forall|j: int| 0 <= j < vs.len() ==> #[trigger] run(steps[j]) == Some((steps[j + 1], vs[j]))
}

/// When every success of `run` consumes input, `many0` never fails: it
/// applies `run` step by step from `s` and stops at the first input on
/// which `run` fails.
pub proof fn law_many0_greedy<V>(run: spec_fn(Seq<char>) -> Option<(Seq<char>, V)>, s: Seq<char>)
    requires
        forall|t: Seq<char>| #[trigger] run(t) matches Some((rem, _)) ==> rem.len() < t.len(),
    ensures
        spec_many0(run)(s) == Some(spec_repeat(run, s)),
        run(spec_repeat(run, s).0) is None,
        exists|steps: Seq<Seq<char>>| #[trigger] run_chain(run, steps, spec_repeat(run, s).1)
            && steps[0] == s && steps.last() == spec_repeat(run, s).0,
    decreases s.len(),
{
    match run(s) {
        Some((r, v)) => {
            law_many0_greedy(run, r);
            let (rem, vs) = spec_repeat(run, r);
            let steps = choose|steps: Seq<Seq<char>>| #[trigger] run_chain(run, steps, vs) && steps[0] == r && steps.last() == rem;
            let steps2 = seq![s] + steps;
            let vs2 = seq![v] + vs;
            assert(spec_repeat(run, s) == (rem, vs2));
            assert forall|j: int| 0 <= j < vs2.len() implies #[trigger] run(steps2[j]) == Some((steps2[j + 1], vs2[j])) by {
                if j > 0 {
                    assert(steps2[j] == steps[j - 1]);
                    assert(steps2[j + 1] == steps[j]);
                    assert(vs2[j] == vs[j - 1]);
                    assert(run(steps[j - 1]) == Some((steps[j], vs[j - 1])));
                }
            }
            assert(run_chain(run, steps2, vs2));
            assert(steps2[0] == s);
            assert(steps2.last() == steps.last());
            assert(spec_many0(run)(s) == Some((rem, vs2)));
            assert(run_chain(run, steps2, spec_repeat(run, s).1));
            assert(steps2.last() == spec_repeat(run, s).0);
        },
        None => {
            let steps = seq![s];
            assert(run_chain(run, steps, Seq::<V>::empty()));
            assert(steps[0] == s && steps.last() == s);
            assert(spec_many0(run)(s) == Some((s, Seq::<V>::empty())));
            assert(run_chain(run, steps, spec_repeat(run, s).1));
        },
    }
}

/// `any` gives what the first of its parsers that succeeds gives; it fails
/// exactly when all of them fail, in particular when there are none.
pub proof fn law_any_first_success<V>(runs: Seq<spec_fn(Seq<char>) -> Option<(Seq<char>, V)>>, s: Seq<char>)
    ensures
        spec_any(runs)(s) is None <==> forall|j: int| 0 <= j < runs.len() ==> #[trigger] runs[j](s) is None,
        forall|k: int| 0 <= k < runs.len() && #[trigger] runs[k](s) is Some
            && (forall|j: int| 0 <= j < k ==> #[trigger] runs[j](s) is None) ==> spec_any(runs)(s) == runs[k](s),
{
    lemma_first_success_none(runs, s, 0);
    assert forall|k: int| 0 <= k < runs.len() && #[trigger] runs[k](s) is Some
        && (forall|j: int| 0 <= j < k ==> #[trigger] runs[j](s) is None) implies spec_any(runs)(s) == runs[k](s) by {
        lemma_first_success(runs, s, 0, k);
    }
}

proof fn lemma_first_success_none<V>(runs: Seq<spec_fn(Seq<char>) -> Option<(Seq<char>, V)>>, s: Seq<char>, k: int)
    requires
        0 <= k <= runs.len(),
    ensures
        first_success(runs, s, k) is None <==> forall|j: int| k <= j < runs.len() ==> #[trigger] runs[j](s) is None,
    decreases runs.len() - k,
{
    if k < runs.len() {
        lemma_first_success_none(runs, s, k + 1);
    }
}

/// For parsers that give one answer per input, `any(parsers)` gives what the
/// first parser that succeeds gives, and "Did not match any parser" exactly
/// when every parser fails.
pub proof fn law_any_first_success_closure<O, V, P, R>(
    res: &R,
    parsers: Seq<P>,
    runs: Seq<spec_fn(Seq<char>) -> Option<(Seq<char>, V)>>,
    view: spec_fn(O) -> V,
)
    where
        P: Fn(&str) -> ParseResult<O>,
        R: Fn(&str) -> ParseResult<O>,
    requires
        behaves_as_any(res, parsers),
        runs.len() == parsers.len(),
        forall|k: int| 0 <= k < parsers.len() ==> implements(#[trigger] parsers[k], everywhere(), runs[k], view),
    ensures
        forall|i: &str| may_parse(res, i),
        forall|i: &str, r: ParseResult<O>| #[trigger] parses(res, i, r) ==> match r {
            Ok((rem, o)) => exists|k: int| 0 <= k < runs.len() && #[trigger] runs[k](i@) == Some((rem@, view(o)))
                && forall|j: int| 0 <= j < k ==> #[trigger] runs[j](i@) is None,
            Err(e) => e == "Did not match any parser" && forall|j: int| 0 <= j < runs.len() ==> #[trigger] runs[j](i@) is None,
        },
{
    lemma_any(res, parsers, runs, view);
    assert forall|i: &str| may_parse(res, i) by {
        assert(res.requires((i,)));
    }
    assert forall|i: &str, r: ParseResult<O>| #[trigger] parses(res, i, r) implies match r {
            Ok((rem, o)) => exists|k: int| 0 <= k < runs.len() && #[trigger] runs[k](i@) == Some((rem@, view(o)))
                && forall|j: int| 0 <= j < k ==> #[trigger] runs[j](i@) is None,
            Err(e) => e == "Did not match any parser" && forall|j: int| 0 <= j < runs.len() ==> #[trigger] runs[j](i@) is None,
        } by {
        assert(any_result(parsers, i, r));
        assert(res.ensures((i,), r));
        law_any_first_success(runs, i@);
        if let Ok((rem, o)) = r {
            let k = choose|k: int| 0 <= k < parsers.len() && #[trigger] parses(&parsers[k], i, r) && all_fail_before(parsers, i, k);
            assert(implements(parsers[k], everywhere(), runs[k], view));
            assert(parsers[k].ensures((i,), r));
            assert forall|j: int| 0 <= j < k implies #[trigger] runs[j](i@) is None by {
                assert(fails(&parsers[j], i));
                let e = choose|e: &'static str| parses(&parsers[j], i, Err(e));
                assert(implements(parsers[j], everywhere(), runs[j], view));
                assert(parsers[j].ensures((i,), Err(e)));
            }
        }
    }
}

/// `and` succeeds with `(v1, v2)` exactly when the first parser succeeds
/// with `v1` and the second succeeds with `v2` on what the first left; it
/// fails when the first fails, and when the second fails there.
pub proof fn law_and_equivalence<V1, V2>(
    run1: spec_fn(Seq<char>) -> Option<(Seq<char>, V1)>,
    run2: spec_fn(Seq<char>) -> Option<(Seq<char>, V2)>,
    s: Seq<char>,
    rem: Seq<char>,
    v1: V1,
    v2: V2,
)
    ensures
        spec_and(run1, run2)(s) == Some((rem, (v1, v2))) <==>
            exists|mid: Seq<char>| run1(s) == Some((mid, v1)) && #[trigger] run2(mid) == Some((rem, v2)),
        run1(s) is None ==> spec_and(run1, run2)(s) is None,
        run1(s) matches Some((mid, _)) && run2(mid) is None ==> spec_and(run1, run2)(s) is None,
{
    if spec_and(run1, run2)(s) == Some((rem, (v1, v2))) {
        let (mid, _w) = run1(s).unwrap();
        assert(run2(mid) == Some((rem, v2)));
    }
}

/// For parsers that give one answer per input, `and(p1, p2)` succeeds
/// exactly as `p1` followed by `p2` on what `p1` left; its error is `p1`'s
/// when `p1` fails, and otherwise comes where `p2` fails after `p1`.
pub proof fn law_and_closure_equivalence<O1, O2, V1, V2, P1, P2, R>(
    res: &R,
    p1: &P1,
    p2: &P2,
    dom1: spec_fn(Seq<char>) -> bool,
    run1: spec_fn(Seq<char>) -> Option<(Seq<char>, V1)>,
    view1: spec_fn(O1) -> V1,
    dom2: spec_fn(Seq<char>) -> bool,
    run2: spec_fn(Seq<char>) -> Option<(Seq<char>, V2)>,
    view2: spec_fn(O2) -> V2,
)
    where
        P1: Fn(&str) -> ParseResult<O1>,
        P2: Fn(&str) -> ParseResult<O2>,
        R: Fn(&str) -> ParseResult<(O1, O2)>,
    requires
        behaves_as_and(res, p1, p2),
        implements(*p1, dom1, run1, view1),
        implements(*p2, dom2, run2, view2),
    ensures
        forall|i: &str| #[trigger] dom_and(dom1, run1, dom2)(i@) ==> may_parse(res, i),
        forall|i: &str, r: ParseResult<(O1, O2)>| #[trigger] parses(res, i, r) ==> match r {
            Ok((rem, o)) => exists|mid: Seq<char>| run1(i@) == Some((mid, view1(o.0))) && #[trigger] run2(mid) == Some((rem@, view2(o.1))),
            Err(e) => (run1(i@) is None && parses(p1, i, Err(e))) || (run1(i@) matches Some((mid, _)) && run2(mid) is None),
        },
{
    lemma_and(res, p1, p2, dom1, run1, view1, dom2, run2, view2);
    assert forall|i: &str| #[trigger] dom_and(dom1, run1, dom2)(i@) implies may_parse(res, i) by {
        assert(res.requires((i,)));
    }
    assert forall|i: &str, r: ParseResult<(O1, O2)>| #[trigger] parses(res, i, r) implies match r {
            Ok((rem, o)) => exists|mid: Seq<char>| run1(i@) == Some((mid, view1(o.0))) && #[trigger] run2(mid) == Some((rem@, view2(o.1))),
            Err(e) => (run1(i@) is None && parses(p1, i, Err(e))) || (run1(i@) matches Some((mid, _)) && run2(mid) is None),
        } by {
        assert(res.ensures((i,), r));
        assert(and_result(p1, p2, i, r));
        match r {
            Ok((rem, o)) => {
                law_and_equivalence(run1, run2, i@, rem@, view1(o.0), view2(o.1));
            },
            Err(e) => {
                if run1(i@) is None {
                    if !parses(p1, i, Err(e)) {
                        let (mid, o1) = choose|mid: &str, o1: O1| #[trigger] parses(p1, i, Ok((mid, o1))) && parses(p2, mid, Err(e));
                        assert(p1.ensures((i,), Ok((mid, o1))));
                    }
                }
            },
        }
    }
}

/// Mapping the identity over a parser changes nothing.
pub proof fn law_map_identity<V>(run: spec_fn(Seq<char>) -> Option<(Seq<char>, V)>)
    ensures
        spec_map(run, spec_identity::<V>()) == run,
{
    assert forall|s: Seq<char>| #[trigger] spec_map(run, spec_identity::<V>())(s) == run(s) by {}
    assert(spec_map(run, spec_identity::<V>()) =~= run);
}

/// `g` after `f`.
pub open spec fn spec_compose<A, B, C>(f: spec_fn(A) -> B, g: spec_fn(B) -> C) -> spec_fn(A) -> C {
    |a: A| g(f(a))
}

/// Mapping `f` and then `g` is mapping `g` after `f`.
pub proof fn law_map_compose<V1, V2, V3>(
    run: spec_fn(Seq<char>) -> Option<(Seq<char>, V1)>,
    f: spec_fn(V1) -> V2,
    g: spec_fn(V2) -> V3,
)
    ensures
        spec_map(spec_map(run, f), g) == spec_map(run, spec_compose(f, g)),
{
    assert forall|s: Seq<char>| #[trigger] spec_map(spec_map(run, f), g)(s) == spec_map(run, spec_compose(f, g))(s) by {}
    assert(spec_map(spec_map(run, f), g) =~= spec_map(run, spec_compose(f, g)));
}

/// For a parser and a function that give one answer each, `map(p, f)` is
/// `p` with `f` applied to its output: `p`'s error passes on unchanged,
/// and a success leaves what `p` left.
pub proof fn law_map_equation<O1, O2, V1, V2, P, F, R>(
    res: &R,
    p: &P,
    f: &F,
    dom: spec_fn(Seq<char>) -> bool,
    run: spec_fn(Seq<char>) -> Option<(Seq<char>, V1)>,
    view1: spec_fn(O1) -> V1,
    fdom: spec_fn(V1) -> bool,
    g: spec_fn(V1) -> V2,
    view2: spec_fn(O2) -> V2,
)
    where
        P: Fn(&str) -> ParseResult<O1>,
        F: Fn(O1) -> O2,
        R: Fn(&str) -> ParseResult<O2>,
    requires
        behaves_as_map(res, p, f),
        implements(*p, dom, run, view1),
        fn_implements(*f, fdom, g, view1, view2),
    ensures
        forall|i: &str| #[trigger] dom_map(dom, run, fdom)(i@) ==> may_parse(res, i),
        forall|i: &str, r: ParseResult<O2>| #[trigger] parses(res, i, r) ==> match r {
            Ok((rem, o)) => run(i@) matches Some((rem1, v)) && rem1 == rem@ && view2(o) == g(v),
            Err(e) => run(i@) is None && parses(p, i, Err(e)),
        },
{
    lemma_map(res, p, f, dom, run, view1, fdom, g, view2);
    assert forall|i: &str| #[trigger] dom_map(dom, run, fdom)(i@) implies may_parse(res, i) by {
        assert(res.requires((i,)));
    }
    assert forall|i: &str, r: ParseResult<O2>| #[trigger] parses(res, i, r) implies match r {
            Ok((rem, o)) => run(i@) matches Some((rem1, v)) && rem1 == rem@ && view2(o) == g(v),
            Err(e) => run(i@) is None && parses(p, i, Err(e)),
        } by {
        assert(res.ensures((i,), r));
        assert(map_result(p, f, i, r));
    }
}

} // verus!

verus! {

// ------------------------------------------------ states, ranks and labels

/// A pull request is merged whenever GitHub gives it a merge time, whatever
/// its close time (GitHub sets both on a merge); it is closed exactly when
/// it has a close time and no merge time, and open when it has neither.
pub proof fn law_pull_request_state(merged_at: Option<i64>, closed_at: Option<i64>)
    ensures
        merged_at is Some ==> pull_request_state_of(merged_at, closed_at) == PullRequestState::Merged,
        pull_request_state_of(merged_at, closed_at) == PullRequestState::Merged <==> merged_at is Some,
        pull_request_state_of(merged_at, closed_at) == PullRequestState::Closed <==> (merged_at is None && closed_at is Some),
        pull_request_state_of(merged_at, closed_at) == PullRequestState::Open <==> (merged_at is None && closed_at is None),
{
}

/// An issue is open exactly when GitHub's state is `open`; a closed issue is
/// completed exactly when its reason is `completed`, and not planned otherwise.
pub proof fn law_issue_state(state: Seq<char>, reason: Option<Seq<char>>)
    ensures
        issue_state_of(state, reason) == IssueState::Open <==> state == "open"@,
        state == "closed"@ && reason == Some("completed"@)
            ==> issue_state_of(state, reason) == IssueState::Closed(IssueClosedReason::Completed),
        issue_state_of(state, reason) == IssueState::Closed(IssueClosedReason::Completed)
            ==> state == "closed"@ && reason == Some("completed"@),
{
    reveal_strlit("open");
    reveal_strlit("closed");
    assert("closed"@.len() != "open"@.len());
}

/// The rank of a notification is fixed by the kind and state of its target:
/// a release 100, a merged pull request 90, an answered discussion 85, a
/// closed pull request 80, an issue closed as not planned 70, a completed
/// issue 65, an unanswered discussion 60, an open issue 50, an open pull
/// request 40, a CI build 30, anything else 0. So a merged pull request
/// ranks above an open one, and every rank set lies in this order.
pub proof fn law_notification_ranks(t: NotificationTarget)
    ensures
        t is Release ==> irrelevance(t) == 100,
        t is CiBuild ==> irrelevance(t) == 30,
        t is Unknown ==> irrelevance(t) == 0,
        t matches NotificationTarget::PullRequest(p) ==> irrelevance(t) == (if p.state is Merged {
            90u32
        } else if p.state is Closed {
            80u32
        } else {
            40u32
        }),
        t matches NotificationTarget::Discussion(d) ==> irrelevance(t) == (if d.state is Answered { 85u32 } else { 60u32 }),
        t matches NotificationTarget::Issue(i) ==> irrelevance(t) == (if i.state is Open {
            50u32
        } else if i.state == IssueState::Closed(IssueClosedReason::NotPlanned) {
            70u32
        } else {
            65u32
        }),
{
}

/// A merged pull request always ranks above an open issue, which ranks above
/// an open pull request; a closed pull request ranks between them and a
/// merged one.
pub proof fn law_merged_ranks_above_open(merged: NotificationTarget, closed: NotificationTarget, open: NotificationTarget, issue: NotificationTarget)
    requires
        merged matches NotificationTarget::PullRequest(p) && p.state is Merged,
        closed matches NotificationTarget::PullRequest(p) && p.state is Closed,
        open matches NotificationTarget::PullRequest(p) && p.state is Open,
        issue matches NotificationTarget::Issue(i) && i.state is Open,
    ensures
        irrelevance(merged) > irrelevance(closed),
        irrelevance(closed) > irrelevance(issue),
        irrelevance(issue) > irrelevance(open),
{
}

/// The state word of a `list` selects by state: `open` the open issues and
/// pull requests; `closed` the issues closed for either reason and the
/// closed pull requests; `merged` the merged pull requests; none of them
/// every notification. Releases, discussions and the rest have no state.
pub proof fn law_state_selection(f: ListFlags, t: NotificationTarget)
    ensures
        f.open ==> (state_selected(f, t) <==> (
            (t matches NotificationTarget::Issue(i) && i.state is Open)
            || (t matches NotificationTarget::PullRequest(p) && p.state is Open))),
        !f.open && f.closed ==> (state_selected(f, t) <==> (
            (t matches NotificationTarget::Issue(i) && (i.state == IssueState::Closed(IssueClosedReason::Completed)
                || i.state == IssueState::Closed(IssueClosedReason::NotPlanned)))
            || (t matches NotificationTarget::PullRequest(p) && p.state == PullRequestState::Closed))),
        !f.open && !f.closed && f.merged ==> (state_selected(f, t) <==> (
            t matches NotificationTarget::PullRequest(p) && p.state == PullRequestState::Merged)),
        !f.open && !f.closed && !f.merged ==> state_selected(f, t),
{
}

/// The kind word of a `list` selects by kind: `pr` the pull requests,
/// `issue` the issues, `release` the releases, `discussion` the
/// discussions; none of them every kind.
pub proof fn law_kind_selection(f: ListFlags, t: NotificationTarget)
    ensures
        f.pr ==> (kind_selected(f, t) <==> t is PullRequest),
        !f.pr && f.issue ==> (kind_selected(f, t) <==> t is Issue),
        !f.pr && !f.issue && f.release ==> (kind_selected(f, t) <==> t is Release),
        !f.pr && !f.issue && !f.release && f.discussion ==> (kind_selected(f, t) <==> t is Discussion),
        !f.pr && !f.issue && !f.release && !f.discussion ==> kind_selected(f, t),
{
}

/// `list closed` (or `list issue closed`) lists every issue that was closed,
/// whether completed or not planned.
pub proof fn law_list_closed_issues(ns: Seq<Notification>, args: Seq<String>, p: usize)
    requires
        has_arg(args, "closed"@),
        !has_arg(args, "open"@),
        !has_arg(args, "pr"@),
        !has_arg(args, "release"@),
        !has_arg(args, "discussion"@),
        p < ns.len() <= usize::MAX,
        ns[p as int].target matches NotificationTarget::Issue(i) && i.state is Closed,
    ensures
        selected_positions(ns, list_flags(args), ns.len()).contains(p),
{
    law_list_positions(ns, list_flags(args), ns.len());
}

/// A pull request's page is headed by a label that names its state:
/// " Open " on green, " Closed " on red, " Merged " on purple; different
/// states have different labels.
pub proof fn law_pull_request_labels(a: PullRequestState, b: PullRequestState)
    ensures
        pull_request_state_label(PullRequestState::Open) == (" Open "@, Color::Green),
        pull_request_state_label(PullRequestState::Closed) == (" Closed "@, Color::Red),
        pull_request_state_label(PullRequestState::Merged) == (" Merged "@, Color::Purple),
        a != b ==> pull_request_state_label(a) != pull_request_state_label(b),
{
    reveal_strlit(" Open ");
    reveal_strlit(" Closed ");
    reveal_strlit(" Merged ");
    assert(" Open "@.len() != " Closed "@.len());
    assert(" Open "@.len() != " Merged "@.len());
    assert(" Closed "@[1] != " Merged "@[1]);
}

/// An issue's page is headed by " Open " on green when open, and by
/// " Closed " when closed: on purple when completed, on red when not planned.
pub proof fn law_issue_labels(a: IssueState, b: IssueState)
    ensures
        issue_state_label(IssueState::Open) == (" Open "@, Color::Green),
        issue_state_label(IssueState::Closed(IssueClosedReason::Completed)) == (" Closed "@, Color::Purple),
        issue_state_label(IssueState::Closed(IssueClosedReason::NotPlanned)) == (" Closed "@, Color::Red),
        a != b ==> issue_state_label(a) != issue_state_label(b),
{
    reveal_strlit(" Open ");
    reveal_strlit(" Closed ");
    assert(" Open "@.len() != " Closed "@.len());
}

/// A discussion's page is headed by " Answered " on green or " Unanswered "
/// on white.
pub proof fn law_discussion_labels()
    ensures
        discussion_state_label(DiscussionState::Answered) == (" Answered "@, Color::Green),
        discussion_state_label(DiscussionState::Unanswered) == (" Unanswered "@, Color::White),
{
}

/// Every event other than a mention, a subscription, or a closing after a
/// merge shows on the timeline: adding it adds its own view and a blank line.
pub proof fn law_timeline_shows_other_events(events: Seq<Event>, e: Event)
    requires
        !(e.kind is Mentioned),
        !(e.kind is Subscribed),
        !(e.kind is Closed && merged_among(events)),
    ensures
        timeline_view(events.push(e)) == timeline_view(events).push(event_view(e.actor, e.kind)).push(BlockView::Blank),
{
    assert(events.push(e).drop_last() =~= events);
}

/// Adding or removing a label shows as one line: the icon, the actor, "added"
/// or "removed", the label's name in bold, and the word "label".
pub proof fn law_label_events(actor: crate::github::User, label: crate::github::events::Label)
    ensures
        event_view(actor, EventKind::Labeled { label }) == BlockView::Text(seq![seq![
            (" \u{f412} "@, crate::text::plain()),
            (at(actor), crate::text::plain()),
            (" added "@, crate::text::plain()),
            (label.name@, bold()),
            (" label"@, crate::text::plain()),
        ]]),
        event_view(actor, EventKind::Unlabeled { label }) == BlockView::Text(seq![seq![
            (" \u{f412} "@, crate::text::plain()),
            (at(actor), crate::text::plain()),
            (" removed "@, crate::text::plain()),
            (label.name@, bold()),
            (" label"@, crate::text::plain()),
        ]]),
{
}

} // verus!

verus! {

/// The color of a notification in the list: green for an open issue or pull
/// request, purple for a completed issue, a merged pull request or an
/// answered discussion, red for an issue closed as not planned, a closed
/// pull request or a CI build, yellow for an unanswered discussion, blue for
/// a release, white for anything else.
pub proof fn law_target_colors(t: NotificationTarget)
    ensures
        t matches NotificationTarget::Issue(i) ==> target_color(t) == (if i.state is Open {
            NotifColor::Green
        } else if i.state == IssueState::Closed(IssueClosedReason::Completed) {
            NotifColor::Purple
        } else {
            NotifColor::Red
        }),
        t matches NotificationTarget::PullRequest(p) ==> target_color(t) == (if p.state is Open {
            NotifColor::Green
        } else if p.state is Merged {
            NotifColor::Purple
        } else {
            NotifColor::Red
        }),
        t matches NotificationTarget::Discussion(d) ==> target_color(t) == (if d.state is Answered {
            NotifColor::Purple
        } else {
            NotifColor::Yellow
        }),
        t is Release ==> target_color(t) == NotifColor::Blue,
        t is CiBuild ==> target_color(t) == NotifColor::Red,
        t is Unknown ==> target_color(t) == NotifColor::White,
{
}

/// The color of a notification's full page: light green for an open issue,
/// red for a closed one; green, magenta or red for an open, merged or
/// closed pull request; red for a CI build, blue for a release, yellow for
/// a discussion, white for anything else.
pub proof fn law_page_colors(t: NotificationTarget)
    ensures
        t matches NotificationTarget::Issue(i) ==> page_color(t) == (if i.state is Open { Color::LightGreen } else { Color::Red }),
        t matches NotificationTarget::PullRequest(p) ==> page_color(t) == (if p.state is Open {
            Color::Green
        } else if p.state is Merged {
            Color::Magenta
        } else {
            Color::Red
        }),
        t is CiBuild ==> page_color(t) == Color::Red,
        t is Release ==> page_color(t) == Color::Blue,
        t is Discussion ==> page_color(t) == Color::Yellow,
        t is Unknown ==> page_color(t) == Color::White,
{
}

/// The icon of a notification: an open or a closed issue icon, the merge
/// icon for a merged pull request and the pull request icon otherwise, and
/// one icon each for releases, discussions, CI builds and the rest.
pub proof fn law_target_icons(t: NotificationTarget)
    ensures
        t matches NotificationTarget::Issue(i) ==> target_icon(t)@ == (if i.state is Open { "\u{f41b}"@ } else { "\u{f41d}"@ }),
        t matches NotificationTarget::PullRequest(p) ==> target_icon(t)@ == (if p.state is Merged { "\u{f419}"@ } else { "\u{f407}"@ }),
        t is Release ==> target_icon(t)@ == "\u{f412}"@,
        t is Discussion ==> target_icon(t)@ == "\u{f442}"@,
        t is CiBuild ==> target_icon(t)@ == "\u{f467}"@,
        t is Unknown ==> target_icon(t)@ == "\u{f420}"@,
{
}

/// Asking `list` for two kinds, or for two states, is a conflict; one of
/// each is not.
pub proof fn law_list_conflicts(f: ListFlags)
    ensures
        kinds_conflict(f) <==> (
            (f.pr && (f.issue || f.release || f.discussion)) || (f.issue && (f.release || f.discussion))
            || (f.release && f.discussion)),
        states_conflict(f) <==> ((f.open && (f.closed || f.merged)) || (f.closed && f.merged)),
{
    reveal_with_fuel(crate::commands::count_true, 5);
    let k = seq![f.pr, f.issue, f.release, f.discussion];
    assert(k.drop_last() =~= seq![f.pr, f.issue, f.release]);
    assert(k.drop_last().drop_last() =~= seq![f.pr, f.issue]);
    assert(k.drop_last().drop_last().drop_last() =~= seq![f.pr]);
    assert(k.drop_last().drop_last().drop_last().drop_last() =~= Seq::<bool>::empty());
    let st = seq![f.open, f.closed, f.merged];
    assert(st.drop_last() =~= seq![f.open, f.closed]);
    assert(st.drop_last().drop_last() =~= seq![f.open]);
    assert(st.drop_last().drop_last().drop_last() =~= Seq::<bool>::empty());
}

/// The merge, closing and reopening of an issue or pull request each show
/// as one line with the actor and a badge naming what happened: " Merged "
/// on purple, " Closed " on red, " Reopened " on green.
pub proof fn law_state_change_lines(actor: crate::github::User, base: String, closer: Option<crate::github::events::IssueCloser>)
    ensures
        event_view(actor, EventKind::Merged { base_branch: base }) is Text,
        event_view(actor, EventKind::Merged { base_branch: base })->Text_0 == seq![seq![
            (" \u{f419} "@, crate::text::with_fg(Color::Purple)),
            (" Merged "@, crate::text::badge(Color::Purple, Color::Black)),
            (" by "@, crate::text::plain()),
            (at(actor), crate::text::plain()),
            (" into "@, crate::text::plain()),
            (base@, crate::text::plain()),
        ]],
        event_view(actor, EventKind::Closed { closer })->Text_0[0].subrange(0, 4) == seq![
            (" \u{f41d} "@, crate::text::with_fg(Color::Red)),
            (" Closed "@, crate::text::badge(Color::Red, Color::Black)),
            (" by "@, crate::text::plain()),
            (at(actor), crate::text::plain()),
        ],
        event_view(actor, EventKind::Reopened) == BlockView::Text(seq![seq![
            (" \u{f41c} "@, crate::text::with_fg(Color::Green)),
            (" Reopened "@, crate::text::badge(Color::Green, Color::Black)),
            (" by "@, crate::text::plain()),
            (at(actor), crate::text::plain()),
        ]]),
{
    let line = event_view(actor, EventKind::Closed { closer })->Text_0[0];
    assert(line.subrange(0, 4) =~= seq![
        (" \u{f41d} "@, crate::text::with_fg(Color::Red)),
        (" Closed "@, crate::text::badge(Color::Red, Color::Black)),
        (" by "@, crate::text::plain()),
        (at(actor), crate::text::plain()),
    ]);
}

} // verus!

verus! {

/// The table lists exactly the unread notifications, in their order.
pub proof fn law_unread_only(ns: Seq<Notification>)
    ensures
        unread_only(ns) == ns.filter(|n: Notification| n.unread),
    decreases ns.len(),
{
    reveal(Seq::filter);
    if ns.len() > 0 {
        law_unread_only(ns.drop_last());
    }
}

/// The table scrolls just enough to keep the cursor in view: it shows the
/// rows from the top while the cursor is within the room that the border,
/// header and padding leave (its height less six), and otherwise keeps the
/// cursor on the last row of that room.
pub proof fn law_table_keeps_cursor_in_view(selected: usize, height: u16)
    requires
        height >= 6,
    ensures
        0 <= table_offset(selected, height) <= selected,
        selected - table_offset(selected, height) <= height - 6,
        selected <= height - 6 ==> table_offset(selected, height) == 0,
        selected > height - 6 ==> selected - table_offset(selected, height) == height - 6,
{
}

/// In the list, a read notification is all gray; an unread one shows its
/// repository plainly and its glyph and title in the color of its target.
pub proof fn law_notification_item_colors(n: Notification)
    ensures
        notification_item(n).len() == 2,
        !n.unread ==> notification_item(n)[0].1 == crate::text::with_fg(Color::Gray)
            && notification_item(n)[1].1 == crate::text::with_fg(Color::Gray),
        n.unread ==> notification_item(n)[0].1 == crate::text::plain()
            && notification_item(n)[1].1 == crate::text::with_fg(crate::text::notif_color(target_color(n.target))),
        notification_item(n)[1].0 == target_icon(n.target)@ + " "@ + n.title@,
{
}

/// The page of an issue or a pull request ends with a badge that names its
/// state ("Open", "Closed" or "Merged") on the page's color.
pub proof fn law_page_title_states(n: Notification)
    ensures
        n.target matches NotificationTarget::Issue(i) ==> page_title(n).last() == (
            if i.state is Open { "Open"@ } else { "Closed"@ },
            crate::text::badge(page_color(n.target), Color::Black)),
        n.target matches NotificationTarget::PullRequest(p) ==> page_title(n).last() == (
            if p.state is Open { "Open"@ } else if p.state is Merged { "Merged"@ } else { "Closed"@ },
            crate::text::badge(page_color(n.target), Color::Black)),
{
}

} // verus!

verus! {

/// A missing description reads "No description provided."; a given one is
/// kept as it is.
pub proof fn law_description_placeholder(body: Option<Seq<char>>)
    ensures
        body matches Some(b) ==> body_or_placeholder(body) == b,
        body is None ==> body_or_placeholder(body) == "No description provided."@,
{
}

/// The timeline of an issue or pull request starts with its description, as
/// a comment by its author at its creation, and then has its own events in
/// their order.
pub proof fn law_description_first(body: String, author: crate::github::User, created_at: i64, events: Seq<Event>)
    ensures
        with_description(body, author, created_at, events).len() == events.len() + 1,
        with_description(body, author, created_at, events)[0] == (Event { actor: author, created_at, kind: EventKind::Commented { body } }),
        with_description(body, author, created_at, events).drop_first() == events,
{
    assert(with_description(body, author, created_at, events).drop_first() =~= events);
}

} // verus!
