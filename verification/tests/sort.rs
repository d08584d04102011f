use review_queue::api::bors::{BorsPr, BorsQueue, BorsStatus};
use review_queue::api::github::{Issue, MergeableState, PullRequest};
use review_queue::api::rfcbot::{FcpInfo, FcpProposal, GitHubUser};
use review_queue::api::rollup::{find_rollups, Rollup, RollupPage, RollupQueue};
use review_queue::model::{
    Author, CiStatus, CraterStatus, FcpStatus, Pr, PrStatus, QueueStatus, QueuedInfo, Repo,
    RepoInfo, RollupSetting, WaitingReason,
};
use review_queue::sort::{
    assigned_to, ci_status, label, other_assignees, queue_status, sort, sort_queued, sort_status,
    sort_waiting, PredeterminedCategory,
};
use review_queue::time::Timestamp;
use std::collections::HashMap;

fn author(name: &str, id: u64) -> Author {
    Author {
        name: String::from(name),
        id,
        avatar_url: format!("https://example.com/{}.png", name),
        profile_url: format!("https://example.com/{}", name),
    }
}

fn issue(number: u64, user: &str, assignees: &[&str], labels: &[&str]) -> Issue {
    Issue {
        number,
        title: format!("Issue {}", number),
        body: Some(String::from("body")),
        html_url: format!("https://example.com/pull/{}", number),
        created_at: Timestamp { second: 1_000 + number as i64, nanosecond: 0 },
        user: author(user, 1),
        assignees: assignees.iter().enumerate().map(|(i, a)| author(a, 10 + i as u64)).collect(),
        labels: labels.iter().map(|l| String::from(*l)).collect(),
        pull_request: true,
    }
}

fn detail(draft: Option<bool>, mergeable: Option<bool>, state: Option<MergeableState>) -> PullRequest {
    PullRequest { draft, mergeable, mergeable_state: state }
}

fn plain() -> PullRequest {
    detail(Some(false), Some(true), Some(MergeableState::Clean))
}

fn row(number: u64, title: &str, status: BorsStatus, position: usize) -> BorsPr {
    BorsPr {
        pr_number: number,
        approver: String::from("someone"),
        status,
        mergeable: true,
        rollup_setting: RollupSetting::Iffy,
        priority: 0,
        title: String::from(title),
        position_in_queue: position,
        running: position == 1,
    }
}

fn rollup(number: u64, position: usize, members: &[u64], status: BorsStatus) -> Rollup {
    Rollup {
        pr_number: number,
        running: position == 1,
        position_in_queue: position,
        pr_numbers: members.to_vec(),
        status,
        pr_link: format!("https://example.com/pull/{}", number),
    }
}

fn repo() -> RepoInfo {
    RepoInfo {
        repo: Repo { owner: String::from("rust-lang"), name: String::from("rust") },
        bors_queue_url: Some(String::from("https://bors.example/queue/rust")),
    }
}

fn empty_queue() -> BorsQueue {
    BorsQueue { items: vec![] }
}

fn no_rollups() -> RollupQueue {
    RollupQueue { rollups: vec![] }
}

fn status_of(username: &str, i: &Issue, pr: &PullRequest, q: &BorsQueue, r: &RollupQueue) -> PrStatus {
    sort_status(username, i, pr, q, r, &HashMap::new(), &HashMap::new())
}

fn fcp(start: Option<Timestamp>) -> FcpInfo {
    FcpInfo {
        proposal: FcpProposal { disposition: String::from("merge"), fcp_start: start, fcp_closed: false },
        reviews: vec![(GitHubUser { id: 1, login: String::from("a") }, true)],
        concerns: vec![(String::from("naming"), GitHubUser { id: 2, login: String::from("b") })],
    }
}

#[test]
fn labels_are_matched_whole() {
    let i = issue(1, "u", &[], &["S-waiting-on-review", "T-compiler"]);
    assert!(label(&i, "S-waiting-on-review"));
    assert!(label(&i, "T-compiler"));
    assert!(!label(&i, "S-waiting-on"));
    assert!(!label(&i, "s-waiting-on-review"));
    assert!(!label(&i, ""));
    assert!(!label(&issue(1, "u", &[], &[]), "S-waiting-on-review"));
}

#[test]
fn assignees_are_matched_by_name() {
    let i = issue(1, "u", &["alice", "bob"], &[]);
    assert!(assigned_to(&i, "alice"));
    assert!(assigned_to(&i, "bob"));
    assert!(!assigned_to(&i, "u"));
    assert!(!assigned_to(&i, "Alice"));
    assert_eq!(other_assignees(&i, "alice"), vec![author("bob", 11)]);
    assert_eq!(other_assignees(&i, "bob"), vec![author("alice", 10)]);
    assert_eq!(other_assignees(&i, "carol"), vec![author("alice", 10), author("bob", 11)]);
    assert_eq!(other_assignees(&issue(1, "u", &["a", "a"], &[]), "a"), Vec::<Author>::new());
}

#[test]
fn draft_wins_over_everything() {
    let i = issue(1, "me", &["me"], &["S-waiting-on-review", "S-waiting-on-author", "S-waiting-on-bors"]);
    let pr = detail(Some(true), Some(true), Some(MergeableState::Clean));
    let q = BorsQueue { items: vec![row(1, "t", BorsStatus::Approved, 1)] };
    assert_eq!(status_of("me", &i, &pr, &q, &no_rollups()), PrStatus::Draft {});
    assert_eq!(ci_status(&i, &pr, &q), CiStatus::Draft);
}

#[test]
fn draft_unknown_is_no_draft() {
    let i = issue(1, "me", &[], &["S-waiting-on-author"]);
    let pr = detail(None, Some(true), Some(MergeableState::Clean));
    assert_eq!(status_of("me", &i, &pr, &empty_queue(), &no_rollups()), PrStatus::Ready {});
}

#[test]
fn review_wins_over_the_queue() {
    let i = issue(7, "author", &["me", "other"], &["S-waiting-on-review", "S-waiting-on-bors"]);
    let q = BorsQueue { items: vec![row(7, "t", BorsStatus::Approved, 1)] };
    assert_eq!(
        status_of("me", &i, &plain(), &q, &no_rollups()),
        PrStatus::Review { other_reviewers: vec![author("other", 11)] }
    );
    // for somebody who is not assigned the same pull request is queued
    assert!(matches!(status_of("author", &i, &plain(), &q, &no_rollups()), PrStatus::Queued(_)));
}

#[test]
fn review_wins_over_ready() {
    let i = issue(7, "me", &["me"], &["S-waiting-on-review", "S-waiting-on-author"]);
    assert_eq!(
        status_of("me", &i, &plain(), &empty_queue(), &no_rollups()),
        PrStatus::Review { other_reviewers: vec![] }
    );
}

#[test]
fn ready_wins_over_the_queue() {
    let i = issue(7, "me", &["r"], &["S-waiting-on-author", "S-waiting-on-bors"]);
    let q = BorsQueue { items: vec![row(7, "t", BorsStatus::Pending, 1)] };
    assert_eq!(status_of("me", &i, &plain(), &q, &no_rollups()), PrStatus::Ready {});
}

#[test]
fn assigned_without_the_label_is_not_a_review() {
    let i = issue(7, "author", &["me"], &["S-waiting-on-author"]);
    assert_eq!(
        status_of("me", &i, &plain(), &empty_queue(), &no_rollups()),
        PrStatus::Waiting { wait_reason: WaitingReason::Author }
    );
    let i = issue(7, "author", &["other"], &["S-waiting-on-review"]);
    assert_eq!(
        status_of("me", &i, &plain(), &empty_queue(), &no_rollups()),
        PrStatus::Waiting { wait_reason: WaitingReason::Review }
    );
}

#[test]
fn queued_by_label_or_by_row() {
    let by_label = issue(7, "a", &["r"], &["S-waiting-on-bors"]);
    assert_eq!(
        status_of("me", &by_label, &plain(), &empty_queue(), &no_rollups()),
        PrStatus::Queued(QueuedInfo {
            approvers: vec![author("r", 10)],
            rollup_setting: RollupSetting::Unset,
            queue_status: QueueStatus::Unknown,
        })
    );
    let by_row = issue(7, "a", &["r"], &["S-blocked"]);
    for status in [BorsStatus::Approved, BorsStatus::Pending] {
        let q = BorsQueue { items: vec![row(1, "t", BorsStatus::Pending, 1), row(7, "t", status, 2)] };
        assert_eq!(
            status_of("me", &by_row, &plain(), &q, &no_rollups()),
            PrStatus::Queued(QueuedInfo {
                approvers: vec![author("r", 10)],
                rollup_setting: RollupSetting::Iffy,
                queue_status: QueueStatus::InQueue { position: 2 },
            })
        );
    }
    for status in [BorsStatus::Unset, BorsStatus::Success, BorsStatus::Failure, BorsStatus::Error, BorsStatus::Other(String::from("x"))] {
        let q = BorsQueue { items: vec![row(7, "t", status, 2)] };
        assert_eq!(
            status_of("me", &by_row, &plain(), &q, &no_rollups()),
            PrStatus::Waiting { wait_reason: WaitingReason::Blocked }
        );
    }
}

#[test]
fn queue_status_without_a_row_is_unknown() {
    let r = RollupQueue { rollups: vec![rollup(50, 2, &[7], BorsStatus::Approved)] };
    assert_eq!(queue_status(None, 7, &r), QueueStatus::Unknown);
}

#[test]
fn queue_status_of_the_running_row_is_running() {
    let r = RollupQueue { rollups: vec![rollup(50, 2, &[7], BorsStatus::Approved)] };
    let b = row(7, "t", BorsStatus::Pending, 1);
    assert_eq!(queue_status(Some(&b), 7, &r), QueueStatus::Running);
}

#[test]
fn queue_status_in_batches() {
    let b = row(7, "t", BorsStatus::Approved, 5);
    let link = |n: u64| format!("https://example.com/pull/{}", n);
    let running = RollupQueue { rollups: vec![rollup(50, 1, &[6, 7, 8], BorsStatus::Pending)] };
    assert_eq!(
        queue_status(Some(&b), 7, &running),
        QueueStatus::InRunningRollup { pr_link: link(50), pr_number: 50, rollup_size: 3 }
    );
    let next = RollupQueue { rollups: vec![rollup(50, 2, &[7], BorsStatus::Approved), rollup(51, 3, &[7, 9], BorsStatus::Approved)] };
    assert_eq!(
        queue_status(Some(&b), 7, &next),
        QueueStatus::InNextRollup { position: 2, pr_link: link(50), pr_number: 50, rollup_size: 1 }
    );
    let later = RollupQueue { rollups: vec![rollup(50, 2, &[1], BorsStatus::Approved), rollup(51, 3, &[2], BorsStatus::Approved), rollup(52, 4, &[7, 9], BorsStatus::Success)] };
    assert_eq!(
        queue_status(Some(&b), 7, &later),
        QueueStatus::InRollup { nth_rollup: 2, pr_link: link(52), pr_number: 52, rollup_size: 2 }
    );
    let none = RollupQueue { rollups: vec![rollup(50, 2, &[1], BorsStatus::Approved)] };
    assert_eq!(queue_status(Some(&b), 7, &none), QueueStatus::InQueue { position: 5 });
    assert_eq!(queue_status(Some(&b), 7, &no_rollups()), QueueStatus::InQueue { position: 5 });
}

#[test]
fn a_batch_that_failed_is_no_home() {
    let b = row(7, "t", BorsStatus::Approved, 5);
    let link = |n: u64| format!("https://example.com/pull/{}", n);
    for dead in [BorsStatus::Failure, BorsStatus::Error, BorsStatus::Unset, BorsStatus::Other(String::from("x"))] {
        let only = RollupQueue { rollups: vec![rollup(50, 2, &[7], dead.clone())] };
        assert_eq!(queue_status(Some(&b), 7, &only), QueueStatus::InQueue { position: 5 });
        // the batch after it keeps its own place among the batches
        let then = RollupQueue { rollups: vec![rollup(50, 2, &[7], dead), rollup(51, 3, &[7], BorsStatus::Approved)] };
        assert_eq!(
            queue_status(Some(&b), 7, &then),
            QueueStatus::InRollup { nth_rollup: 1, pr_link: link(51), pr_number: 51, rollup_size: 1 }
        );
    }
}

#[test]
fn sort_queued_takes_approvers_and_policy() {
    let i = issue(7, "a", &["r1", "r2"], &[]);
    let b = row(7, "t", BorsStatus::Approved, 3);
    assert_eq!(
        sort_queued(&i, Some(&b), &no_rollups()),
        QueuedInfo {
            approvers: vec![author("r1", 10), author("r2", 11)],
            rollup_setting: RollupSetting::Iffy,
            queue_status: QueueStatus::InQueue { position: 3 },
        }
    );
    assert_eq!(
        sort_queued(&i, None, &no_rollups()),
        QueuedInfo {
            approvers: vec![author("r1", 10), author("r2", 11)],
            rollup_setting: RollupSetting::Unset,
            queue_status: QueueStatus::Unknown,
        }
    );
}

#[test]
fn rollup_containment() {
    // a queue with a running pull request, a batch of two, and the member itself
    let q = BorsQueue {
        items: vec![
            row(1, "A", BorsStatus::Pending, 1),
            row(2, "Rollup of 2 pull requests", BorsStatus::Approved, 2),
            row(10, "Member", BorsStatus::Approved, 3),
        ],
    };
    let pages = vec![RollupPage {
        pr_number: 2,
        body: Some(String::from("- repo#10 desc\n- repo#11 desc")),
        link: String::from("https://example.com/pull/2"),
    }];
    let rollups = find_rollups(&q, &pages);
    let i = issue(10, "author", &["r"], &["S-waiting-on-bors"]);
    let got = status_of("someone", &i, &plain(), &q, &rollups);
    assert_eq!(
        got,
        PrStatus::Queued(QueuedInfo {
            approvers: vec![author("r", 10)],
            rollup_setting: RollupSetting::Iffy,
            queue_status: QueueStatus::InNextRollup {
                position: 2,
                pr_link: String::from("https://example.com/pull/2"),
                pr_number: 2,
                rollup_size: 2,
            },
        })
    );
}

#[test]
fn graceful_degradation_without_the_queue() {
    let q = BorsQueue { items: vec![row(7, "t", BorsStatus::Approved, 2)] };
    let by_row = issue(7, "a", &["r"], &["S-waiting-on-crater"]);
    assert!(matches!(status_of("me", &by_row, &plain(), &q, &no_rollups()), PrStatus::Queued(_)));
    // the queue could not be fetched: its snapshot is empty
    assert_eq!(
        status_of("me", &by_row, &plain(), &BorsQueue::default(), &RollupQueue::default()),
        PrStatus::Waiting { wait_reason: WaitingReason::CraterRun(CraterStatus::Unknown) }
    );
    let by_label = issue(7, "a", &["r"], &["S-waiting-on-bors"]);
    assert_eq!(
        status_of("me", &by_label, &plain(), &BorsQueue::default(), &RollupQueue::default()),
        PrStatus::Queued(QueuedInfo {
            approvers: vec![author("r", 10)],
            rollup_setting: RollupSetting::Unset,
            queue_status: QueueStatus::Unknown,
        })
    );
}

#[test]
fn end_to_end_review() {
    let i = issue(5, "author", &["U"], &["S-waiting-on-review"]);
    let pr = detail(Some(false), Some(true), Some(MergeableState::Clean));
    let q = BorsQueue { items: vec![row(6, "other", BorsStatus::Error, 1)] };
    let got = sort("U", "U", &repo(), &i, &PredeterminedCategory::Detail(pr), &q, &no_rollups(), &HashMap::new(), &HashMap::new());
    assert_eq!(
        got,
        Some(Pr {
            repo: Repo { owner: String::from("rust-lang"), name: String::from("rust") },
            title: String::from("Issue 5"),
            description: Some(String::from("body")),
            number: 5,
            link: String::from("https://example.com/pull/5"),
            author: author("author", 1),
            reviewers: vec![author("U", 10)],
            status: PrStatus::Review { other_reviewers: vec![] },
            ci_status: CiStatus::Good,
            created: Timestamp { second: 1_005, nanosecond: 0 },
        })
    );
    let unknown = detail(Some(false), None, None);
    let got = sort("U", "U", &repo(), &i, &PredeterminedCategory::Detail(unknown), &q, &no_rollups(), &HashMap::new(), &HashMap::new()).unwrap();
    assert_eq!(got.status, PrStatus::Review { other_reviewers: vec![] });
    assert_eq!(got.ci_status, CiStatus::Running);
}

#[test]
fn sort_gives_the_same_twice() {
    let i = issue(7, "a", &["me", "r"], &["S-waiting-on-bors"]);
    let q = BorsQueue { items: vec![row(7, "t", BorsStatus::Approved, 4)] };
    let r = RollupQueue { rollups: vec![rollup(50, 2, &[7], BorsStatus::Approved)] };
    let c = PredeterminedCategory::Detail(plain());
    let first = sort("me", "me", &repo(), &i, &c, &q, &r, &HashMap::new(), &HashMap::new());
    let second = sort("me", "me", &repo(), &i, &c, &q, &r, &HashMap::new(), &HashMap::new());
    assert!(first.is_some());
    assert_eq!(first, second);
}

#[test]
fn subscriptions_are_only_for_oneself() {
    let i = issue(7, "a", &["me"], &["S-waiting-on-review"]);
    let q = BorsQueue { items: vec![row(7, "t", BorsStatus::Approved, 1)] };
    let own = sort("me", "me", &repo(), &i, &PredeterminedCategory::Subscribed, &q, &no_rollups(), &HashMap::new(), &HashMap::new()).unwrap();
    assert_eq!(own.status, PrStatus::Subscribed);
    assert_eq!(own.ci_status, CiStatus::Unknown);
    assert_eq!(own.number, 7);
    let other = sort("me", "them", &repo(), &i, &PredeterminedCategory::Subscribed, &q, &no_rollups(), &HashMap::new(), &HashMap::new());
    assert_eq!(other, None);
    let direct = sort("me", "them", &repo(), &i, &PredeterminedCategory::Detail(plain()), &q, &no_rollups(), &HashMap::new(), &HashMap::new());
    assert!(direct.is_some());
}

#[test]
fn waiting_reasons_in_their_order() {
    let none: HashMap<u64, CraterStatus> = HashMap::new();
    let nofcp: HashMap<u64, FcpInfo> = HashMap::new();
    let all = ["S-waiting-on-crater", "S-waiting-on-concerns", "S-final-comment-period", "S-waiting-on-review", "S-blocked", "S-waiting-on-author"];
    assert_eq!(sort_waiting(&issue(1, "a", &[], &all), &none, &nofcp), WaitingReason::Author);
    assert_eq!(sort_waiting(&issue(1, "a", &[], &all[..5]), &none, &nofcp), WaitingReason::Blocked);
    assert_eq!(sort_waiting(&issue(1, "a", &[], &all[..4]), &none, &nofcp), WaitingReason::Review);
    assert_eq!(sort_waiting(&issue(1, "a", &[], &all[..3]), &none, &nofcp), WaitingReason::Unknown);
    assert_eq!(sort_waiting(&issue(1, "a", &[], &all[..1]), &none, &nofcp), WaitingReason::CraterRun(CraterStatus::Unknown));
    assert_eq!(sort_waiting(&issue(1, "a", &[], &[]), &none, &nofcp), WaitingReason::Unknown);
    assert_eq!(sort_waiting(&issue(1, "a", &[], &["T-lang"]), &none, &nofcp), WaitingReason::Unknown);
}

#[test]
fn waiting_on_a_final_comment_period() {
    let none: HashMap<u64, CraterStatus> = HashMap::new();
    let start = Timestamp { second: 1_700_000_000, nanosecond: 0 };
    let mut tracker: HashMap<u64, FcpInfo> = HashMap::new();
    tracker.insert(1, fcp(Some(start)));
    tracker.insert(2, fcp(None));
    for l in ["S-final-comment-period", "S-waiting-on-concerns"] {
        assert_eq!(sort_waiting(&issue(1, "a", &[], &[l]), &none, &tracker), WaitingReason::Fcp(FcpStatus { start }));
        assert_eq!(sort_waiting(&issue(2, "a", &[], &[l]), &none, &tracker), WaitingReason::Unknown);
        assert_eq!(sort_waiting(&issue(3, "a", &[], &[l]), &none, &tracker), WaitingReason::Unknown);
    }
    // with the period's label the compatibility run is not looked at
    let mut runs: HashMap<u64, CraterStatus> = HashMap::new();
    runs.insert(1, CraterStatus::GeneratingReport);
    assert_eq!(
        sort_waiting(&issue(1, "a", &[], &["S-waiting-on-crater", "S-final-comment-period"]), &runs, &tracker),
        WaitingReason::Fcp(FcpStatus { start })
    );
}

#[test]
fn waiting_on_a_compatibility_run() {
    let nofcp: HashMap<u64, FcpInfo> = HashMap::new();
    let mut runs: HashMap<u64, CraterStatus> = HashMap::new();
    runs.insert(1, CraterStatus::Queued { num_before: 3 });
    runs.insert(2, CraterStatus::GeneratingReport);
    assert_eq!(sort_waiting(&issue(1, "a", &[], &["S-waiting-on-crater"]), &runs, &nofcp), WaitingReason::CraterRun(CraterStatus::Queued { num_before: 3 }));
    assert_eq!(sort_waiting(&issue(2, "a", &[], &["S-waiting-on-crater"]), &runs, &nofcp), WaitingReason::CraterRun(CraterStatus::GeneratingReport));
    assert_eq!(sort_waiting(&issue(3, "a", &[], &["S-waiting-on-crater"]), &runs, &nofcp), WaitingReason::CraterRun(CraterStatus::Unknown));
}

#[test]
fn health_conflict_comes_before_the_queue() {
    let i = issue(7, "a", &[], &[]);
    let q = BorsQueue { items: vec![row(7, "t", BorsStatus::Approved, 1)] };
    for state in [MergeableState::Behind, MergeableState::Dirty] {
        for mergeable in [true, false] {
            assert_eq!(ci_status(&i, &detail(Some(false), Some(mergeable), Some(state)), &q), CiStatus::Conflicted);
        }
        // not yet computed: the queue decides
        assert_eq!(ci_status(&i, &detail(Some(false), None, Some(state)), &q), CiStatus::Good);
        assert_eq!(ci_status(&i, &detail(Some(false), None, Some(state)), &empty_queue()), CiStatus::Running);
    }
}

#[test]
fn health_by_the_queue() {
    let i = issue(7, "a", &[], &[]);
    let pr = detail(None, Some(false), Some(MergeableState::Blocked));
    let health = |s: BorsStatus| ci_status(&i, &pr, &BorsQueue { items: vec![row(7, "t", s, 2)] });
    assert_eq!(health(BorsStatus::Approved), CiStatus::Good);
    assert_eq!(health(BorsStatus::Success), CiStatus::Good);
    assert_eq!(health(BorsStatus::Error), CiStatus::Bad);
    assert_eq!(health(BorsStatus::Failure), CiStatus::Bad);
    assert_eq!(health(BorsStatus::Pending), CiStatus::Running);
    assert_eq!(health(BorsStatus::Unset), CiStatus::Unknown);
    // a state that says nothing leaves it to the platform
    assert_eq!(health(BorsStatus::Other(String::from("try"))), CiStatus::Unknown);
    let clean = detail(None, Some(true), Some(MergeableState::Clean));
    assert_eq!(ci_status(&i, &clean, &BorsQueue { items: vec![row(7, "t", BorsStatus::Other(String::from("try")), 2)] }), CiStatus::Good);
    // a row of another pull request says nothing
    assert_eq!(ci_status(&i, &clean, &BorsQueue { items: vec![row(8, "t", BorsStatus::Error, 2)] }), CiStatus::Good);
}

#[test]
fn health_by_the_platform() {
    let i = issue(7, "a", &[], &[]);
    let health = |m: Option<bool>, s: Option<MergeableState>| ci_status(&i, &detail(Some(false), m, s), &empty_queue());
    assert_eq!(health(None, None), CiStatus::Running);
    assert_eq!(health(None, Some(MergeableState::Clean)), CiStatus::Running);
    assert_eq!(health(Some(true), None), CiStatus::Good);
    assert_eq!(health(Some(false), None), CiStatus::Unknown);
    for m in [true, false] {
        assert_eq!(health(Some(m), Some(MergeableState::Behind)), CiStatus::Conflicted);
        assert_eq!(health(Some(m), Some(MergeableState::Dirty)), CiStatus::Conflicted);
        assert_eq!(health(Some(m), Some(MergeableState::Blocked)), CiStatus::Unknown);
        assert_eq!(health(Some(m), Some(MergeableState::Clean)), CiStatus::Good);
        assert_eq!(health(Some(m), Some(MergeableState::Draft)), CiStatus::Draft);
        assert_eq!(health(Some(m), Some(MergeableState::HasHooks)), CiStatus::Good);
        assert_eq!(health(Some(m), Some(MergeableState::Unknown)), CiStatus::Unknown);
        assert_eq!(health(Some(m), Some(MergeableState::Unstable)), CiStatus::Good);
    }
}
