use octerm::commands::{done, list, true_count, ConfirmOutcome, ConfirmQueue};
use octerm::github::{
    DiscussionMeta, DiscussionState, IssueClosedReason, IssueMeta, IssueState, Notification,
    NotificationTarget, PullRequestMeta, PullRequestState, ReleaseMeta, RepoMeta, User,
};

fn repo() -> RepoMeta {
    RepoMeta { name: String::from("octerm"), owner: String::from("sudormrfbin") }
}

fn issue(state: IssueState) -> NotificationTarget {
    NotificationTarget::Issue(IssueMeta {
        repo: repo(),
        title: String::from("an issue"),
        body: String::from("body"),
        number: 7,
        author: User::new("alice"),
        state,
        created_at: 0,
    })
}

fn pull_request(state: PullRequestState) -> NotificationTarget {
    NotificationTarget::PullRequest(PullRequestMeta {
        repo: repo(),
        title: String::from("a pull request"),
        body: String::from("body"),
        number: 8,
        author: User::new("bob"),
        state,
        created_at: 0,
    })
}

fn release() -> NotificationTarget {
    NotificationTarget::Release(ReleaseMeta {
        title: String::from("v1"),
        body: String::from("notes"),
        author: String::from("carol"),
        tag_name: String::from("v1.0"),
    })
}

fn discussion() -> NotificationTarget {
    NotificationTarget::Discussion(DiscussionMeta {
        repo: repo(),
        title: String::from("a discussion"),
        number: 9,
        state: DiscussionState::Unanswered,
    })
}

fn notification(id: u64, target: NotificationTarget) -> Notification {
    Notification {
        id,
        repository: String::from("octerm"),
        title: format!("notification {id}"),
        unread: true,
        updated_at: 0,
        target,
    }
}

fn sample() -> Vec<Notification> {
    vec![
        notification(1, issue(IssueState::Open)),
        notification(2, pull_request(PullRequestState::Merged)),
        notification(3, issue(IssueState::Closed(IssueClosedReason::Completed))),
        notification(4, release()),
        notification(5, pull_request(PullRequestState::Open)),
        notification(6, discussion()),
        notification(7, pull_request(PullRequestState::Closed)),
    ]
}

fn words(ws: &[&str]) -> Vec<String> {
    ws.iter().map(|w| w.to_string()).collect()
}

fn ids(ns: &[Notification]) -> Vec<u64> {
    ns.iter().map(|n| n.id).collect()
}

#[test]
fn true_count_counts_the_true_flags() {
    assert_eq!(true_count(&[]), 0);
    assert_eq!(true_count(&[false, false]), 0);
    assert_eq!(true_count(&[true, false, true, true]), 3);
}

#[test]
fn list_without_words_selects_everything() {
    let ns = sample();
    assert_eq!(list(&ns, Vec::new()), Ok(vec![0, 1, 2, 3, 4, 5, 6]));
    assert_eq!(list(&ns, words(&["unknown", "words"])), Ok(vec![0, 1, 2, 3, 4, 5, 6]));
}

#[test]
fn list_filters_by_kind() {
    let ns = sample();
    assert_eq!(list(&ns, words(&["pr"])), Ok(vec![1, 4, 6]));
    assert_eq!(list(&ns, words(&["issue"])), Ok(vec![0, 2]));
    assert_eq!(list(&ns, words(&["release"])), Ok(vec![3]));
    assert_eq!(list(&ns, words(&["discussion"])), Ok(vec![5]));
}

#[test]
fn list_filters_by_state() {
    let ns = sample();
    assert_eq!(list(&ns, words(&["open"])), Ok(vec![0, 4]));
    assert_eq!(list(&ns, words(&["closed"])), Ok(vec![2, 6]));
    assert_eq!(list(&ns, words(&["merged"])), Ok(vec![1]));
    assert_eq!(list(&ns, words(&["pr", "open"])), Ok(vec![4]));
    assert_eq!(list(&ns, words(&["issue", "merged"])), Ok(vec![]));
}

#[test]
fn list_refuses_two_kinds() {
    let ns = sample();
    assert_eq!(
        list(&ns, words(&["pr", "issue"])),
        Err(String::from("pr, issue, discussion, release are mutually exclusive"))
    );
    assert_eq!(
        list(&ns, words(&["release", "discussion", "open", "closed"])),
        Err(String::from("pr, issue, discussion, release are mutually exclusive"))
    );
}

#[test]
fn list_refuses_two_states() {
    let ns = sample();
    assert_eq!(
        list(&ns, words(&["open", "merged"])),
        Err(String::from("pr, issue, merged are mutually exclusive"))
    );
}

fn answer_all(filter: Vec<usize>, answers: &str) -> (Vec<ConfirmOutcome>, Option<Vec<usize>>) {
    let mut queue = ConfirmQueue::new(filter);
    let mut outcomes = Vec::new();
    for c in answers.chars() {
        if queue.pending().is_none() {
            break;
        }
        let outcome = queue.answer(c);
        let finished = match &outcome {
            ConfirmOutcome::Finished(kept) => Some(kept.clone()),
            _ => None,
        };
        outcomes.push(outcome);
        if finished.is_some() {
            return (outcomes, finished);
        }
    }
    (outcomes, None)
}

#[test]
fn confirm_keeps_the_answered_yes() {
    let (outcomes, kept) = answer_all(vec![3, 5, 8], "yny");
    assert!(matches!(outcomes[0], ConfirmOutcome::Next));
    assert!(matches!(outcomes[1], ConfirmOutcome::Next));
    assert_eq!(kept, Some(vec![3, 8]));
}

#[test]
fn confirm_d_drops_the_rest() {
    let (_, kept) = answer_all(vec![3, 5, 8], "yd");
    assert_eq!(kept, Some(vec![3]));
}

#[test]
fn confirm_a_keeps_the_rest() {
    let (_, kept) = answer_all(vec![3, 5, 8], "na");
    assert_eq!(kept, Some(vec![5, 8]));
}

#[test]
fn confirm_invalid_answer_asks_again() {
    let mut queue = ConfirmQueue::new(vec![4, 6]);
    assert_eq!(queue.pending(), Some(4));
    assert!(matches!(queue.answer('x'), ConfirmOutcome::Invalid));
    assert_eq!(queue.pending(), Some(4));
    assert!(matches!(queue.answer('y'), ConfirmOutcome::Next));
    assert_eq!(queue.pending(), Some(6));
    assert!(matches!(queue.answer('Q'), ConfirmOutcome::Aborted));
    assert_eq!(queue.into_kept(), vec![4]);
}

#[test]
fn confirm_empty_queue_asks_nothing() {
    let queue = ConfirmQueue::new(Vec::new());
    assert_eq!(queue.pending(), None);
    assert_eq!(queue.into_kept(), Vec::<usize>::new());
}

#[test]
fn done_removes_the_marked_notifications() {
    let mut ns = sample();
    assert_eq!(done(&mut ns, &[5, 1, 3], &[true, true, true]), Ok(()));
    assert_eq!(ids(&ns), vec![1, 3, 5, 7]);
}

#[test]
fn done_reports_the_failed_ones_and_keeps_them() {
    let mut ns = sample();
    assert_eq!(
        done(&mut ns, &[0, 6, 2], &[true, false, true]),
        Err(String::from("Some notifications could not be marked as read"))
    );
    assert_eq!(ids(&ns), vec![2, 4, 5, 6, 7]);
}
