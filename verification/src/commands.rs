//! What the commands of the notification shell decide: which notifications a
//! listing selects, which of them a confirm queue keeps, and which remain once
//! some were marked as done.
use vstd::prelude::*;

use crate::github::{Notification, NotificationTarget};
use crate::parser::types::same_str;

verus! {

/// How many of `bools` are true.
pub open spec fn count_true(bools: Seq<bool>) -> nat
    decreases bools.len(),
{
    if bools.len() == 0 {
        0
    } else {
        count_true(bools.drop_last()) + if bools.last() { 1nat } else { 0nat }
    }
}

pub fn true_count(bools: &[bool]) -> (r: usize)
    ensures
        r == count_true(bools@),
{
    let mut count: usize = 0;
    let mut i: usize = 0;
    while i < bools.len()
        invariant
            i <= bools.len(),
            count == count_true(bools@.take(i as int)),
            count <= i,
        decreases bools.len() - i,
    {
        assert(bools@.take(i + 1).drop_last() =~= bools@.take(i as int));
        if bools[i] {
            count += 1;
        }
        i += 1;
    }
    assert(bools@.take(i as int) =~= bools@);
    count
}

/// One of `args` is `arg`.
pub open spec fn has_arg(args: Seq<String>, arg: Seq<char>) -> bool {
    exists|i: int| 0 <= i < args.len() && #[trigger] args[i]@ == arg
}

fn find_arg(args: &Vec<String>, arg: &str) -> (r: bool)
    ensures
        r == has_arg(args@, arg@),
{
    let mut i: usize = 0;
    while i < args.len()
        invariant
            i <= args.len(),
            forall|j: int| 0 <= j < i ==> #[trigger] args@[j]@ != arg@,
        decreases args.len() - i,
    {
        if same_str(args[i].as_str(), arg) {
            return true;
        }
        i += 1;
    }
    false
}

/// The words a listing understands, each as given or not.
pub struct ListFlags {
    pub pr: bool,
    pub issue: bool,
    pub closed: bool,
    pub open: bool,
    pub merged: bool,
    pub release: bool,
    pub discussion: bool,
}

pub open spec fn list_flags(args: Seq<String>) -> ListFlags {
    ListFlags {
        pr: has_arg(args, "pr"@),
        issue: has_arg(args, "issue"@),
        closed: has_arg(args, "closed"@),
        open: has_arg(args, "open"@),
        merged: has_arg(args, "merged"@),
        release: has_arg(args, "release"@),
        discussion: has_arg(args, "discussion"@),
    }
}

/// The kind of target that the flags ask for, the first of pr, issue,
/// release and discussion that was given; any kind when none was.
pub open spec fn kind_selected(f: ListFlags, target: NotificationTarget) -> bool {
    if f.pr {
        target is PullRequest
    } else if f.issue {
        target is Issue
    } else if f.release {
        target is Release
    } else if f.discussion {
        target is Discussion
    } else {
        true
    }
}

/// The state that the flags ask for, the first of open, closed and merged
/// that was given; only issues and pull requests have one. Any state when
/// none was given.
pub open spec fn state_selected(f: ListFlags, target: NotificationTarget) -> bool {
    if f.open {
        match target {
            NotificationTarget::Issue(issue) => issue.state is Open,
            NotificationTarget::PullRequest(pr) => pr.state is Open,
            _ => false,
        }
    } else if f.closed {
        match target {
            NotificationTarget::Issue(issue) => issue.state is Closed,
            NotificationTarget::PullRequest(pr) => pr.state is Closed,
            _ => false,
        }
    } else if f.merged {
        match target {
            NotificationTarget::PullRequest(pr) => pr.state is Merged,
            _ => false,
        }
    } else {
        true
    }
}

pub open spec fn selected(f: ListFlags, n: Notification) -> bool {
    kind_selected(f, n.target) && state_selected(f, n.target)
}

/// The positions, in increasing order, of the first `len` notifications that
/// the flags select.
pub open spec fn selected_positions(notifications: Seq<Notification>, f: ListFlags, len: nat) -> Seq<usize>
    decreases len,
{
    if len == 0 {
        Seq::empty()
    } else {
        let before = selected_positions(notifications, f, (len - 1) as nat);
        if selected(f, notifications[len - 1]) {
            before.push((len - 1) as usize)
        } else {
            before
        }
    }
}

pub open spec fn kind_conflict_message() -> Seq<char> {
    "pr, issue, discussion, release are mutually exclusive"@
}

pub open spec fn state_conflict_message() -> Seq<char> {
    "pr, issue, merged are mutually exclusive"@
}

/// Two or more of the kinds pr, issue, release and discussion were given.
pub open spec fn kinds_conflict(f: ListFlags) -> bool {
    count_true(seq![f.pr, f.issue, f.release, f.discussion]) > 1
}

/// Two or more of the states open, closed and merged were given.
pub open spec fn states_conflict(f: ListFlags) -> bool {
    count_true(seq![f.open, f.closed, f.merged]) > 1
}

fn target_selected(f: &ListFlags, target: &NotificationTarget) -> (r: bool)
    ensures
        r == (kind_selected(*f, *target) && state_selected(*f, *target)),
{
    let kind = if f.pr {
        matches!(target, NotificationTarget::PullRequest(_))
    } else if f.issue {
        matches!(target, NotificationTarget::Issue(_))
    } else if f.release {
        matches!(target, NotificationTarget::Release(_))
    } else if f.discussion {
        matches!(target, NotificationTarget::Discussion(_))
    } else {
        true
    };
    let state = if f.open {
        match target {
            NotificationTarget::Issue(issue) => issue.state.is_open(),
            NotificationTarget::PullRequest(pr) => pr.state.is_open(),
            _ => false,
        }
    } else if f.closed {
        match target {
            NotificationTarget::Issue(issue) => issue.state.is_closed(),
            NotificationTarget::PullRequest(pr) => pr.state.is_closed(),
            _ => false,
        }
    } else if f.merged {
        match target {
            NotificationTarget::PullRequest(pr) => pr.state.is_merged(),
            _ => false,
        }
    } else {
        true
    };
    kind && state
}

/// The positions of the notifications that `args` select: by kind (`pr`,
/// `issue`, `release`, `discussion`) and by state (`open`, `closed`,
/// `merged`). Other words are ignored. Asking for two kinds, or for two
/// states, is an error.
pub fn list(notifications: &[Notification], args: Vec<String>) -> (r: Result<Vec<usize>, String>)
    ensures
        kinds_conflict(list_flags(args@)) ==> r is Err && r->Err_0@ == kind_conflict_message(),
        !kinds_conflict(list_flags(args@)) && states_conflict(list_flags(args@))
            ==> r is Err && r->Err_0@ == state_conflict_message(),
        !kinds_conflict(list_flags(args@)) && !states_conflict(list_flags(args@))
            ==> r is Ok && r->Ok_0@ == selected_positions(notifications@, list_flags(args@), notifications@.len()),
{
    let flags = ListFlags {
        pr: find_arg(&args, "pr"),
        issue: find_arg(&args, "issue"),
        closed: find_arg(&args, "closed"),
        open: find_arg(&args, "open"),
        merged: find_arg(&args, "merged"),
        release: find_arg(&args, "release"),
        discussion: find_arg(&args, "discussion"),
    };
    assert(flags == list_flags(args@));
    let kinds = [flags.pr, flags.issue, flags.release, flags.discussion];
    assert(kinds@ =~= seq![flags.pr, flags.issue, flags.release, flags.discussion]);
    if true_count(&kinds) > 1 {
        return Err(String::from_str("pr, issue, discussion, release are mutually exclusive"));
    }
    let states = [flags.open, flags.closed, flags.merged];
    assert(states@ =~= seq![flags.open, flags.closed, flags.merged]);
    if true_count(&states) > 1 {
        return Err(String::from_str("pr, issue, merged are mutually exclusive"));
    }
    let mut positions: Vec<usize> = Vec::new();
    let mut i: usize = 0;
    while i < notifications.len()
        invariant
            i <= notifications@.len(),
            positions@ == selected_positions(notifications@, flags, i as nat),
        decreases notifications.len() - i,
    {
        if target_selected(&flags, &notifications[i].target) {
            positions.push(i);
        }
        i += 1;
    }
    Ok(positions)
}

} // verus!

verus! {

/// What answering a confirm question did.
pub enum ConfirmOutcome {
    /// The answer was taken; the next question, if any, is pending.
    Next,
    /// The answer is not one of `y`, `n`, `d`, `a`, `Q`; the same question is
    /// pending again.
    Invalid,
    /// No question is left; with the positions that were confirmed, in order.
    Finished(Vec<usize>),
    /// The user gave up the queue.
    Aborted,
}

/// A queue of notifications that are shown one at a time and kept or
/// dropped by a key, in the manner of `git add -p`: `y` keeps one, `n`
/// drops it, `d` drops it and all the rest, `a` keeps it and all the rest,
/// `Q` aborts the queue.
pub struct ConfirmQueue {
    filter: Vec<usize>,
    position: usize,
    confirmed: Vec<usize>,
}

impl ConfirmQueue {
    /// The positions that are asked about, in order.
    pub closed spec fn queue(&self) -> Seq<usize> {
        self.filter@
    }

    /// How many of them have been answered.
    pub closed spec fn answered(&self) -> nat {
        self.position as nat
    }

    /// The positions kept so far.
    pub closed spec fn kept(&self) -> Seq<usize> {
        self.confirmed@
    }

    /// Every kept position was asked about, and no more were kept than answered.
    pub closed spec fn wf(&self) -> bool {
        &&& self.position <= self.filter@.len()
        &&& self.confirmed@.len() <= self.position
        &&& forall|k: int| 0 <= k < self.confirmed@.len()
            ==> #[trigger] self.filter@.take(self.position as int).contains(self.confirmed@[k])
    }

    pub fn new(filter: Vec<usize>) -> (r: ConfirmQueue)
        ensures
            r.wf(),
            r.queue() == filter@,
            r.answered() == 0,
            r.kept() == Seq::<usize>::empty(),
    {
        ConfirmQueue { filter, position: 0, confirmed: Vec::new() }
    }

    /// The position that the pending question is about, if one is pending.
    pub fn pending(&self) -> (r: Option<usize>)
        requires
            self.wf(),
        ensures
            self.answered() < self.queue().len() ==> r == Some(self.queue()[self.answered() as int]),
            self.answered() >= self.queue().len() ==> r is None,
    {
        if self.position < self.filter.len() {
            Some(self.filter[self.position])
        } else {
            None
        }
    }

    /// The positions kept so far.
    pub fn into_kept(self) -> (r: Vec<usize>)
        ensures
            r@ == self.kept(),
    {
        self.confirmed
    }

    /// Takes the answer `input` to the pending question.
    pub fn answer(&mut self, input: char) -> (r: ConfirmOutcome)
        requires
            old(self).wf(),
            old(self).answered() < old(self).queue().len(),
        ensures
            final(self).wf(),
            final(self).queue() == old(self).queue(),
            ({
                let q = old(self).queue();
                let pos = old(self).answered() as int;
                let kept = old(self).kept();
                if input == 'y' {
                    &&& final(self).answered() == pos + 1
                    &&& final(self).kept() == kept.push(q[pos])
                    &&& if pos + 1 == q.len() {
                        r is Finished && r->Finished_0@ == kept.push(q[pos])
                    } else {
                        r is Next
                    }
                } else if input == 'n' {
                    &&& final(self).answered() == pos + 1
                    &&& final(self).kept() == kept
                    &&& if pos + 1 == q.len() {
                        r is Finished && r->Finished_0@ == kept
                    } else {
                        r is Next
                    }
                } else if input == 'd' {
                    &&& final(self).answered() == q.len()
                    &&& final(self).kept() == kept
                    &&& r is Finished && r->Finished_0@ == kept
                } else if input == 'a' {
                    &&& final(self).answered() == q.len()
                    &&& final(self).kept() == kept + q.skip(pos)
                    &&& r is Finished && r->Finished_0@ == kept + q.skip(pos)
                } else if input == 'Q' {
                    &&& final(self).answered() == pos
                    &&& final(self).kept() == kept
                    &&& r is Aborted
                } else {
                    &&& final(self).answered() == pos
                    &&& final(self).kept() == kept
                    &&& r is Invalid
                }
            }),
    {
        let ghost q = self.filter@;
        let ghost pos = self.position as int;
        let ghost kept0 = self.confirmed@;
        let len = self.filter.len();
        let position = self.position;
        let i = self.filter[position];
        assert(q.take(pos + 1)[pos] == i);
        if input == 'y' {
            self.confirmed.push(i);
            self.position = position + 1;
            assert forall|k: int| 0 <= k < self.confirmed@.len()
                implies #[trigger] q.take(self.position as int).contains(self.confirmed@[k]) by {
                if k < kept0.len() {
                    assert(q.take(pos).contains(kept0[k]));
                    let w = choose|w: int| 0 <= w < pos && q.take(pos)[w] == kept0[k];
                    assert(q.take(pos + 1)[w] == self.confirmed@[k]);
                } else {
                    assert(q.take(pos + 1)[pos] == self.confirmed@[k]);
                }
            }
            self.finish_if_done()
        } else if input == 'n' {
            self.position = position + 1;
            assert forall|k: int| 0 <= k < self.confirmed@.len()
                implies #[trigger] q.take(self.position as int).contains(self.confirmed@[k]) by {
                assert(q.take(pos).contains(kept0[k]));
                let w = choose|w: int| 0 <= w < pos && q.take(pos)[w] == self.confirmed@[k];
                assert(q.take(pos + 1)[w] == self.confirmed@[k]);
            }
            self.finish_if_done()
        } else if input == 'd' {
            self.position = len;
            assert forall|k: int| 0 <= k < self.confirmed@.len()
                implies #[trigger] q.take(self.position as int).contains(self.confirmed@[k]) by {
                assert(q.take(pos).contains(kept0[k]));
                let w = choose|w: int| 0 <= w < pos && q.take(pos)[w] == self.confirmed@[k];
                assert(q.take(q.len() as int)[w] == self.confirmed@[k]);
            }
            ConfirmOutcome::Finished(self.confirmed.clone())
        } else if input == 'a' {
            let ghost kept = self.confirmed@;
            let mut j = self.position;
            while j < self.filter.len()
                invariant
                    pos <= j <= self.filter@.len(),
                    self.filter@ == q,
                    self.position == pos,
                    self.confirmed@ == kept + q.subrange(pos, j as int),
                decreases self.filter@.len() - j,
            {
                self.confirmed.push(self.filter[j]);
                j += 1;
                assert(self.confirmed@ =~= kept + q.subrange(pos, j as int));
            }
            assert(q.subrange(pos, q.len() as int) =~= q.skip(pos));
            self.position = self.filter.len();
            assert forall|k: int| 0 <= k < self.confirmed@.len()
                implies #[trigger] q.take(self.position as int).contains(self.confirmed@[k]) by {
                if k < kept.len() {
                    assert(q.take(pos).contains(kept0[k]));
                    let w = choose|w: int| 0 <= w < pos && q.take(pos)[w] == kept[k];
                    assert(q.take(q.len() as int)[w] == self.confirmed@[k]);
                } else {
                    let w = pos + (k - kept.len());
                    assert(q.take(q.len() as int)[w] == self.confirmed@[k]);
                }
            }
            ConfirmOutcome::Finished(self.confirmed.clone())
        } else if input == 'Q' {
            ConfirmOutcome::Aborted
        } else {
            ConfirmOutcome::Invalid
        }
    }

    /// A queue keeps only positions it asked about, and no more of them than
    /// were answered.
    pub proof fn law_kept_were_asked(&self)
        requires
            self.wf(),
        ensures
            self.answered() <= self.queue().len(),
            self.kept().len() <= self.answered(),
            forall|k: int| 0 <= k < self.kept().len()
                ==> #[trigger] self.queue().take(self.answered() as int).contains(self.kept()[k]),
    {
    }

    fn finish_if_done(&self) -> (r: ConfirmOutcome)
        ensures
            self.position == self.filter@.len() ==> r is Finished && r->Finished_0@ == self.confirmed@,
            self.position != self.filter@.len() ==> r is Next,
    {
        if self.position == self.filter.len() {
            ConfirmOutcome::Finished(self.confirmed.clone())
        } else {
            ConfirmOutcome::Next
        }
    }
}

} // verus!

verus! {

/// The position of the first largest of `s`, which is not empty.
pub open spec fn max_index(s: Seq<usize>) -> int
    decreases s.len(),
{
    if s.len() <= 1 {
        0
    } else {
        let k = max_index(s.drop_last());
        if s.last() > s[k] { s.len() - 1 } else { k }
    }
}

/// The first largest position of a sequence is one of its positions.
pub proof fn lemma_max_index(s: Seq<usize>)
    requires
        s.len() > 0,
    ensures
        0 <= max_index(s) < s.len(),
    decreases s.len(),
{
    if s.len() > 1 {
        lemma_max_index(s.drop_last());
    }
}

/// Removes the items at `positions` from `items`, the largest position
/// first, so that each removal leaves the positions still to remove in place.
pub open spec fn remove_from_largest<T>(items: Seq<T>, positions: Seq<usize>) -> Seq<T>
    decreases positions.len(),
{
    if positions.len() == 0 {
        items
    } else {
        let k = max_index(positions);
        proof {
            lemma_max_index(positions);
        }
        remove_from_largest(items.remove(positions[k] as int), positions.remove(k))
    }
}

/// Each removal of `remove_from_largest` finds an item at its position.
pub open spec fn removable(len: nat, positions: Seq<usize>) -> bool
    decreases positions.len(),
{
    if positions.len() == 0 {
        true
    } else {
        let k = max_index(positions);
        proof {
            lemma_max_index(positions);
        }
        positions[k] < len && removable((len - 1) as nat, positions.remove(k))
    }
}

/// The positions of `filter` whose notifications were marked as read.
pub open spec fn marked_positions(filter: Seq<usize>, marked: Seq<bool>) -> Seq<usize>
    decreases filter.len(),
{
    if filter.len() == 0 {
        Seq::empty()
    } else {
        let before = marked_positions(filter.drop_last(), marked);
        if marked[filter.len() - 1] { before.push(filter.last()) } else { before }
    }
}

pub open spec fn partly_failed_message() -> Seq<char> {
    "Some notifications could not be marked as read"@
}

fn max_position(s: &Vec<usize>) -> (k: usize)
    requires
        s@.len() > 0,
    ensures
        k == max_index(s@),
{
    let mut k: usize = 0;
    let mut i: usize = 1;
    while i < s.len()
        invariant
            1 <= i <= s@.len(),
            k == max_index(s@.take(i as int)),
            k < i,
        decreases s@.len() - i,
    {
        assert(s@.take(i + 1).drop_last() =~= s@.take(i as int));
        if s[i] > s[k] {
            k = i;
        }
        i += 1;
    }
    assert(s@.take(i as int) =~= s@);
    k
}

/// Takes the outcome of marking the notifications at `filter` as read:
/// `marked[k]` tells whether the one at `filter[k]` was. Those that were
/// leave the list; when some were not, that is an error.
pub fn done(notifications: &mut Vec<Notification>, filter: &[usize], marked: &[bool]) -> (r: Result<(), String>)
    requires
        marked@.len() == filter@.len(),
        forall|k: int| 0 <= k < filter@.len() ==> #[trigger] filter@[k] < old(notifications)@.len(),
        removable(old(notifications)@.len(), marked_positions(filter@, marked@)),
    ensures
        final(notifications)@ == remove_from_largest(old(notifications)@, marked_positions(filter@, marked@)),
        (forall|k: int| 0 <= k < marked@.len() ==> #[trigger] marked@[k]) ==> r is Ok,
        !(forall|k: int| 0 <= k < marked@.len() ==> #[trigger] marked@[k])
            ==> r is Err && r->Err_0@ == partly_failed_message(),
{
    let mut positions: Vec<usize> = Vec::new();
    let mut has_error = false;
    let mut i: usize = 0;
    while i < filter.len()
        invariant
            i <= filter@.len(),
            marked@.len() == filter@.len(),
            positions@ == marked_positions(filter@.take(i as int), marked@),
            has_error == !(forall|k: int| 0 <= k < i ==> #[trigger] marked@[k]),
        decreases filter@.len() - i,
    {
        let ghost next = filter@.take(i + 1);
        assert(next.drop_last() =~= filter@.take(i as int));
        if marked[i] {
            positions.push(filter[i]);
        } else {
            has_error = true;
        }
        i += 1;
    }
    assert(filter@.take(i as int) =~= filter@);
    let ghost target = remove_from_largest(old(notifications)@, positions@);
    while positions.len() > 0
        invariant
            remove_from_largest(notifications@, positions@) == target,
            removable(notifications@.len(), positions@),
        decreases positions@.len(),
    {
        let k = max_position(&positions);
        proof {
            lemma_max_index(positions@);
        }
        let p = positions.remove(k);
        notifications.remove(p);
    }
    if has_error {
        return Err(String::from_str("Some notifications could not be marked as read"));
    }
    Ok(())
}

} // verus!
