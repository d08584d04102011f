//! Resolving a pull request to its one triage state.
//!
//! The state is a function of what was fetched: the issue, the detail of the
//! pull request, the merge queue and its batches, the compatibility runs and
//! the final comment periods, and of who asks. The rules are tried in a fixed
//! order and the first that applies decides.

use crate::api::bors::{
    option_row_view, row_for, BorsPr, BorsPrView, BorsQueue, BorsStatus, BorsStatusView,
};
use crate::api::github::{Issue, IssueView, MergeableState, PullRequest};
use crate::api::rfcbot::FcpInfo;
use crate::api::rollup::{Rollup, RollupQueue, RollupView};
use crate::model::{
    author_views, clone_authors, clone_option_string, Author, AuthorView, CiStatus, CraterStatus,
    FcpStatus, Pr, PrStatus, PrStatusView, PrView, QueueStatus, QueueStatusView, QueuedInfo,
    QueuedInfoView, RepoInfo, RepoInfoView, RollupSetting, WaitingReason,
};
use crate::text::str_eq;
use crate::time::Timestamp;
use std::collections::HashMap;
use vstd::prelude::*;

verus! {

// ---------------------------------------------------------------------------
// What is read off an issue
// ---------------------------------------------------------------------------

/// Whether the issue carries the label `name`.
pub open spec fn has_label(issue: IssueView, name: Seq<char>) -> bool {
    issue.labels.contains(name)
}

/// Whether the user `username` is assigned to the issue.
pub open spec fn is_assignee(issue: IssueView, username: Seq<char>) -> bool {
    exists|i: int| 0 <= i < issue.assignees.len() && (#[trigger] issue.assignees[i]).name == username
}

/// The people in `people` other than the user `username`, in order.
pub open spec fn others(people: Seq<AuthorView>, username: Seq<char>) -> Seq<AuthorView> {
    people.filter(|a: AuthorView| a.name != username)
}

/// Whether the issue carries the label `label`.
pub fn label(issue: &Issue, name: &str) -> (b: bool)
    ensures
        b == has_label(issue@, name@),
{
    let mut i: usize = 0;
    while i < issue.labels.len()
        invariant
            i <= issue.labels.len(),
            forall|j: int| 0 <= j < i ==> issue@.labels[j] != name@,
        decreases issue.labels.len() - i,
    {
        proof {
            assert(issue@.labels[i as int] == issue.labels@[i as int]@);
        }
        if str_eq(issue.labels[i].as_str(), name) {
            return true;
        }
        i = i + 1;
    }
    false
}

/// Whether the user `username` is assigned to the issue.
pub fn assigned_to(issue: &Issue, username: &str) -> (b: bool)
    ensures
        b == is_assignee(issue@, username@),
{
    let mut i: usize = 0;
    while i < issue.assignees.len()
        invariant
            i <= issue.assignees.len(),
            forall|j: int| 0 <= j < i ==> (#[trigger] issue@.assignees[j]).name != username@,
        decreases issue.assignees.len() - i,
    {
        proof {
            assert(issue@.assignees[i as int] == issue.assignees@[i as int]@);
        }
        if str_eq(issue.assignees[i].name.as_str(), username) {
            return true;
        }
        i = i + 1;
    }
    false
}

/// The people assigned to the issue other than the user `username`.
pub fn other_assignees(issue: &Issue, username: &str) -> (r: Vec<Author>)
    ensures
        author_views(r@) == others(issue@.assignees, username@),
{
    let ghost all = issue@.assignees;
    let ghost keep = |a: AuthorView| a.name != username@;
    let mut r: Vec<Author> = Vec::new();
    let mut i: usize = 0;
    proof {
        reveal(Seq::filter);
        assert(all.take(0).filter(keep) =~= Seq::<AuthorView>::empty());
        assert(author_views(r@) =~= Seq::<AuthorView>::empty());
    }
    while i < issue.assignees.len()
        invariant
            i <= issue.assignees.len(),
            all == issue@.assignees,
            keep == |a: AuthorView| a.name != username@,
            author_views(r@) == all.take(i as int).filter(keep),
        decreases issue.assignees.len() - i,
    {
        let ghost before = author_views(r@);
        proof {
            reveal(Seq::filter);
            assert(all.take(i + 1).drop_last() =~= all.take(i as int));
            assert(all.take(i + 1).last() == issue.assignees@[i as int]@);
        }
        if !str_eq(issue.assignees[i].name.as_str(), username) {
            let a = issue.assignees[i].clone();
            r.push(a);
            proof {
                assert(author_views(r@) =~= before.push(a@));
            }
        }
        i = i + 1;
    }
    proof {
        assert(all.take(i as int) =~= all);
    }
    r
}

// ---------------------------------------------------------------------------
// Waiting
// ---------------------------------------------------------------------------

/// When the final comment period of issue `number` began, if the tracker
/// knows the issue and the period has begun.
pub open spec fn fcp_start(fcp: Map<u64, FcpInfo>, number: u64) -> Option<Timestamp> {
    if fcp.contains_key(number) {
        fcp[number].proposal.fcp_start
    } else {
        None
    }
}

/// Why an issue that nobody can act on is waiting, going by its labels. A
/// final comment period that the tracker cannot date gives `Unknown`; a
/// compatibility run that its runner does not list is a run of unknown state.
pub open spec fn waiting_reason(
    issue: IssueView,
    crater: Map<u64, CraterStatus>,
    fcp: Map<u64, FcpInfo>,
) -> WaitingReason {
    if has_label(issue, "S-waiting-on-author"@) {
        WaitingReason::Author
    } else if has_label(issue, "S-blocked"@) {
        WaitingReason::Blocked
    } else if has_label(issue, "S-waiting-on-review"@) {
        WaitingReason::Review
    } else if has_label(issue, "S-final-comment-period"@) || has_label(
        issue,
        "S-waiting-on-concerns"@,
    ) {
        match fcp_start(fcp, issue.number) {
            Some(start) => WaitingReason::Fcp(FcpStatus { start }),
            None => WaitingReason::Unknown,
        }
    } else if has_label(issue, "S-waiting-on-crater"@) {
        if crater.contains_key(issue.number) {
            WaitingReason::CraterRun(crater[issue.number])
        } else {
            WaitingReason::CraterRun(CraterStatus::Unknown)
        }
    } else {
        WaitingReason::Unknown
    }
}

/// Why the issue is waiting.
pub fn sort_waiting(
    issue: &Issue,
    crater_info: &HashMap<u64, CraterStatus>,
    fcp_info: &HashMap<u64, FcpInfo>,
) -> (reason: WaitingReason)
    ensures
        reason == waiting_reason(issue@, crater_info@, fcp_info@),
{
    broadcast use vstd::std_specs::hash::group_hash_axioms;

    if label(issue, "S-waiting-on-author") {
        WaitingReason::Author
    } else if label(issue, "S-blocked") {
        WaitingReason::Blocked
    } else if label(issue, "S-waiting-on-review") {
        WaitingReason::Review
    } else if label(issue, "S-final-comment-period") || label(issue, "S-waiting-on-concerns") {
        match fcp_info.get(&issue.number) {
            Some(info) => match info.proposal.fcp_start {
                Some(start) => WaitingReason::Fcp(FcpStatus { start }),
                None => WaitingReason::Unknown,
            },
            None => WaitingReason::Unknown,
        }
    } else if label(issue, "S-waiting-on-crater") {
        match crater_info.get(&issue.number) {
            Some(status) => WaitingReason::CraterRun(*status),
            None => WaitingReason::CraterRun(CraterStatus::Unknown),
        }
    } else {
        WaitingReason::Unknown
    }
}

// ---------------------------------------------------------------------------
// Queued
// ---------------------------------------------------------------------------

/// Whether a batch can be the home of the pull request `number`: the batch is
/// approved, being tested or has passed, and `number` is among its members.
pub open spec fn is_home(rollup: RollupView, number: u64) -> bool {
    &&& rollup.status is Pending || rollup.status is Success || rollup.status is Approved
    &&& rollup.pr_numbers.contains(number)
}

/// The position in `rollups` of the first batch that is a home of `number`, or
/// the length of `rollups` if none is.
pub open spec fn home_index(rollups: Seq<RollupView>, number: u64) -> int
    decreases rollups.len(),
{
    if rollups.len() == 0 || is_home(rollups[0], number) {
        0
    } else {
        1 + home_index(rollups.drop_first(), number)
    }
}

/// `home_index` is a position in `rollups` or its length; no batch before it
/// is a home of `number`, and the batch at it is.
pub proof fn lemma_home_index(rollups: Seq<RollupView>, number: u64)
    ensures
        0 <= home_index(rollups, number) <= rollups.len(),
        home_index(rollups, number) < rollups.len() ==> is_home(
            rollups[home_index(rollups, number)],
            number,
        ),
        forall|j: int| 0 <= j < home_index(rollups, number) ==> !is_home(#[trigger] rollups[j], number),
    decreases rollups.len(),
{
    if rollups.len() == 0 || is_home(rollups[0], number) {
    } else {
        let rest = rollups.drop_first();
        lemma_home_index(rest, number);
        assert forall|j: int| 0 <= j < home_index(rollups, number) implies !is_home(
            #[trigger] rollups[j],
            number,
        ) by {
            if j > 0 {
                assert(rollups[j] == rest[j - 1]);
            }
        }
    }
}

/// A position whose batch is a home of `number`, with no home before it, is
/// `home_index`; and if no batch is a home, `home_index` is the length.
pub proof fn lemma_home_index_is(rollups: Seq<RollupView>, number: u64, i: int)
    requires
        0 <= i <= rollups.len(),
        forall|j: int| 0 <= j < i ==> !is_home(#[trigger] rollups[j], number),
        i < rollups.len() ==> is_home(rollups[i], number),
    ensures
        home_index(rollups, number) == i,
{
    lemma_home_index(rollups, number);
    let k = home_index(rollups, number);
    if k < i {
        assert(!is_home(rollups[k], number));
    }
}

/// Where a queued pull request stands: unknown without a row in the queue;
/// running if its row runs; else by the first batch that is its home, which
/// may be running, the next to run, or a later one; else at its own place in
/// the queue.
pub open spec fn queue_position(
    row: Option<BorsPrView>,
    number: u64,
    rollups: Seq<RollupView>,
) -> QueueStatusView {
    match row {
        None => QueueStatusView::Unknown,
        Some(b) => if b.running {
            QueueStatusView::Running
        } else {
            let i = home_index(rollups, number);
            if 0 <= i < rollups.len() {
                let rollup = rollups[i];
                if rollup.running {
                    QueueStatusView::InRunningRollup {
                        pr_link: rollup.pr_link,
                        pr_number: rollup.pr_number,
                        rollup_size: rollup.pr_numbers.len() as usize,
                    }
                } else if i == 0 {
                    QueueStatusView::InNextRollup {
                        position: rollup.position_in_queue,
                        pr_link: rollup.pr_link,
                        pr_number: rollup.pr_number,
                        rollup_size: rollup.pr_numbers.len() as usize,
                    }
                } else {
                    QueueStatusView::InRollup {
                        nth_rollup: i as usize,
                        pr_link: rollup.pr_link,
                        pr_number: rollup.pr_number,
                        rollup_size: rollup.pr_numbers.len() as usize,
                    }
                }
            } else {
                QueueStatusView::InQueue { position: b.position_in_queue }
            }
        },
    }
}

/// What is known of a queued pull request: its approvers are the people
/// assigned to it, and its batching policy is that of its row, if it has one.
pub open spec fn queued_info(
    issue: IssueView,
    row: Option<BorsPrView>,
    rollups: Seq<RollupView>,
) -> QueuedInfoView {
    QueuedInfoView {
        approvers: issue.assignees,
        rollup_setting: match row {
            Some(b) => b.rollup_setting,
            None => RollupSetting::Unset,
        },
        queue_status: queue_position(row, issue.number, rollups),
    }
}

fn contains_number(numbers: &Vec<u64>, number: u64) -> (b: bool)
    ensures
        b == numbers@.contains(number),
{
    let mut i: usize = 0;
    while i < numbers.len()
        invariant
            i <= numbers.len(),
            forall|j: int| 0 <= j < i ==> numbers@[j] != number,
        decreases numbers.len() - i,
    {
        if numbers[i] == number {
            return true;
        }
        i = i + 1;
    }
    false
}

/// The status of a pull request in the batch `rollup`, which stands at
/// `index` among the batches.
fn status_in_rollup(rollup: &Rollup, index: usize) -> (status: QueueStatus)
    ensures
        status@ == if rollup@.running {
            (QueueStatusView::InRunningRollup {
                pr_link: rollup@.pr_link,
                pr_number: rollup@.pr_number,
                rollup_size: rollup@.pr_numbers.len() as usize,
            })
        } else if index == 0 {
            (QueueStatusView::InNextRollup {
                position: rollup@.position_in_queue,
                pr_link: rollup@.pr_link,
                pr_number: rollup@.pr_number,
                rollup_size: rollup@.pr_numbers.len() as usize,
            })
        } else {
            (QueueStatusView::InRollup {
                nth_rollup: index,
                pr_link: rollup@.pr_link,
                pr_number: rollup@.pr_number,
                rollup_size: rollup@.pr_numbers.len() as usize,
            })
        },
{
    if rollup.running {
        QueueStatus::InRunningRollup {
            pr_link: rollup.pr_link.clone(),
            pr_number: rollup.pr_number,
            rollup_size: rollup.pr_numbers.len(),
        }
    } else if index == 0 {
        QueueStatus::InNextRollup {
            position: rollup.position_in_queue,
            pr_link: rollup.pr_link.clone(),
            pr_number: rollup.pr_number,
            rollup_size: rollup.pr_numbers.len(),
        }
    } else {
        QueueStatus::InRollup {
            nth_rollup: index,
            pr_link: rollup.pr_link.clone(),
            pr_number: rollup.pr_number,
            rollup_size: rollup.pr_numbers.len(),
        }
    }
}

/// Where a queued pull request stands in the merge queue.
pub fn queue_status(bors_for_pr: Option<&BorsPr>, number: u64, rollups: &RollupQueue) -> (status:
    QueueStatus)
    ensures
        status@ == queue_position(option_row_view(bors_for_pr), number, rollups@),
{
    let bors = match bors_for_pr {
        Some(b) => b,
        None => {
            return QueueStatus::Unknown;
        },
    };
    if bors.running {
        return QueueStatus::Running;
    }
    let mut i: usize = 0;
    while i < rollups.rollups.len()
        invariant
            i <= rollups.rollups.len(),
            bors_for_pr == Some(bors),
            !bors.running,
            forall|j: int| 0 <= j < i ==> !is_home(#[trigger] rollups@[j], number),
        decreases rollups.rollups.len() - i,
    {
        let rollup = &rollups.rollups[i];
        proof {
            assert(rollups@[i as int] == rollup@);
        }
        if rollup.status.is_live() && contains_number(&rollup.pr_numbers, number) {
            proof {
                lemma_home_index_is(rollups@, number, i as int);
            }
            return status_in_rollup(rollup, i);
        }
        i = i + 1;
    }
    proof {
        lemma_home_index_is(rollups@, number, i as int);
    }
    QueueStatus::InQueue { position: bors.position_in_queue }
}

/// What is known of a queued pull request.
pub fn sort_queued(issue: &Issue, bors_for_pr: Option<&BorsPr>, rollups: &RollupQueue) -> (info:
    QueuedInfo)
    ensures
        info@ == queued_info(issue@, option_row_view(bors_for_pr), rollups@),
{
    QueuedInfo {
        approvers: clone_authors(&issue.assignees),
        rollup_setting: match bors_for_pr {
            Some(b) => b.rollup_setting,
            None => RollupSetting::default(),
        },
        queue_status: queue_status(bors_for_pr, issue.number, rollups),
    }
}

// ---------------------------------------------------------------------------
// The triage state
// ---------------------------------------------------------------------------

/// Whether the merge queue counts the pull request as queued: it has a row
/// that is approved or being tested.
pub open spec fn queued_by_row(row: Option<BorsPrView>) -> bool {
    row matches Some(b) && (b.status is Approved || b.status is Pending)
}

/// Whether the requester is asked to review: they are assigned, and the issue
/// waits on a review.
pub open spec fn needs_my_review(issue: IssueView, username: Seq<char>) -> bool {
    is_assignee(issue, username) && has_label(issue, "S-waiting-on-review"@)
}

/// Whether the requester can go on with their own work: they wrote the pull
/// request, and it waits on its author.
pub open spec fn ready_for_me(issue: IssueView, username: Seq<char>) -> bool {
    issue.user.name == username && has_label(issue, "S-waiting-on-author"@)
}

/// Whether the pull request is queued to merge: by its label, or by its row
/// in the merge queue.
pub open spec fn is_queued(issue: IssueView, row: Option<BorsPrView>) -> bool {
    has_label(issue, "S-waiting-on-bors"@) || queued_by_row(row)
}

/// The triage state of a pull request found by authorship or assignment, for
/// the user `username`. The first of these that applies decides: draft; the
/// requester's review is needed; the requester's own work can go on; queued
/// to merge; and waiting otherwise.
pub open spec fn resolved_status(
    username: Seq<char>,
    issue: IssueView,
    pr: PullRequest,
    queue: Seq<BorsPrView>,
    rollups: Seq<RollupView>,
    crater: Map<u64, CraterStatus>,
    fcp: Map<u64, FcpInfo>,
) -> PrStatusView {
    let row = row_for(queue, issue.number);
    if pr.is_draft() {
        PrStatusView::Draft
    } else if needs_my_review(issue, username) {
        PrStatusView::Review { other_reviewers: others(issue.assignees, username) }
    } else if ready_for_me(issue, username) {
        PrStatusView::Ready
    } else if is_queued(issue, row) {
        PrStatusView::Queued(queued_info(issue, row, rollups))
    } else {
        PrStatusView::Waiting { wait_reason: waiting_reason(issue, crater, fcp) }
    }
}

/// The triage state of a pull request found by authorship or assignment.
pub fn sort_status(
    username: &str,
    issue: &Issue,
    pr: &PullRequest,
    bors_for_repo: &BorsQueue,
    rollups: &RollupQueue,
    crater_info: &HashMap<u64, CraterStatus>,
    fcp_info: &HashMap<u64, FcpInfo>,
) -> (status: PrStatus)
    ensures
        status@ == resolved_status(
            username@,
            issue@,
            *pr,
            bors_for_repo@,
            rollups@,
            crater_info@,
            fcp_info@,
        ),
{
    let bors_for_pr = bors_for_repo.for_pr(issue.number);
    let draft = match pr.draft {
        Some(d) => d,
        None => false,
    };
    if draft {
        PrStatus::Draft {  }
    } else if assigned_to(issue, username) && label(issue, "S-waiting-on-review") {
        PrStatus::Review { other_reviewers: other_assignees(issue, username) }
    } else if str_eq(issue.user.name.as_str(), username) && label(issue, "S-waiting-on-author") {
        PrStatus::Ready {  }
    } else if label(issue, "S-waiting-on-bors") || (match bors_for_pr {
        Some(b) => b.status.is_queued(),
        None => false,
    }) {
        PrStatus::Queued(sort_queued(issue, bors_for_pr, rollups))
    } else {
        PrStatus::Waiting { wait_reason: sort_waiting(issue, crater_info, fcp_info) }
    }
}

// ---------------------------------------------------------------------------
// Checks and merge health
// ---------------------------------------------------------------------------

/// What the merge queue says of the health of a pull request, if it has a row
/// with a status that says anything.
pub open spec fn queue_verdict(row: Option<BorsPrView>) -> Option<CiStatus> {
    match row {
        Some(b) => match b.status {
            BorsStatusView::Approved => Some(CiStatus::Good),
            BorsStatusView::Success => Some(CiStatus::Good),
            BorsStatusView::Error => Some(CiStatus::Bad),
            BorsStatusView::Failure => Some(CiStatus::Bad),
            BorsStatusView::Pending => Some(CiStatus::Running),
            BorsStatusView::Unset => Some(CiStatus::Unknown),
            BorsStatusView::Other(_) => None,
        },
        None => None,
    }
}

/// What the platform alone says of the health of a pull request.
pub open spec fn platform_health(pr: PullRequest) -> CiStatus {
    match (pr.mergeable, pr.mergeable_state) {
        (None, _) => CiStatus::Running,
        (Some(true), None) => CiStatus::Good,
        (Some(false), None) => CiStatus::Unknown,
        (Some(_), Some(state)) => match state {
            MergeableState::Behind => CiStatus::Conflicted,
            MergeableState::Dirty => CiStatus::Conflicted,
            MergeableState::Blocked => CiStatus::Unknown,
            MergeableState::Clean => CiStatus::Good,
            MergeableState::Draft => CiStatus::Draft,
            MergeableState::HasHooks => CiStatus::Good,
            MergeableState::Unknown => CiStatus::Unknown,
            MergeableState::Unstable => CiStatus::Good,
        },
    }
}

/// Whether the platform has computed mergeability and found the branch behind
/// its base or in conflict with it.
pub open spec fn is_conflicted(pr: PullRequest) -> bool {
    pr.mergeable is Some && (pr.mergeable_state == Some(MergeableState::Behind)
        || pr.mergeable_state == Some(MergeableState::Dirty))
}

/// The health of a pull request's checks and merge: a draft is a draft; a
/// conflict that the platform reports holds whatever the merge queue says;
/// then the merge queue decides if it has a verdict, and the platform if not.
pub open spec fn ci_health(pr: PullRequest, row: Option<BorsPrView>) -> CiStatus {
    if pr.is_draft() {
        CiStatus::Draft
    } else if is_conflicted(pr) {
        CiStatus::Conflicted
    } else {
        match queue_verdict(row) {
            Some(health) => health,
            None => platform_health(pr),
        }
    }
}

fn verdict_of_row(row: Option<&BorsPr>) -> (verdict: Option<CiStatus>)
    ensures
        verdict == queue_verdict(option_row_view(row)),
{
    match row {
        Some(b) => match &b.status {
            BorsStatus::Approved => Some(CiStatus::Good),
            BorsStatus::Success => Some(CiStatus::Good),
            BorsStatus::Error => Some(CiStatus::Bad),
            BorsStatus::Failure => Some(CiStatus::Bad),
            BorsStatus::Pending => Some(CiStatus::Running),
            BorsStatus::Unset => Some(CiStatus::Unknown),
            BorsStatus::Other(_) => None,
        },
        None => None,
    }
}

fn health_on_platform(pr: &PullRequest) -> (health: CiStatus)
    ensures
        health == platform_health(*pr),
{
    match (pr.mergeable, pr.mergeable_state) {
        (None, _) => CiStatus::Running,
        (Some(true), None) => CiStatus::Good,
        (Some(false), None) => CiStatus::Unknown,
        (Some(_), Some(state)) => match state {
            MergeableState::Behind => CiStatus::Conflicted,
            MergeableState::Dirty => CiStatus::Conflicted,
            MergeableState::Blocked => CiStatus::Unknown,
            MergeableState::Clean => CiStatus::Good,
            MergeableState::Draft => CiStatus::Draft,
            MergeableState::HasHooks => CiStatus::Good,
            MergeableState::Unknown => CiStatus::Unknown,
            MergeableState::Unstable => CiStatus::Good,
        },
    }
}

/// The health of a pull request's checks and merge.
pub fn ci_status(issue: &Issue, pr: &PullRequest, bors_for_repo: &BorsQueue) -> (health: CiStatus)
    ensures
        health == ci_health(*pr, row_for(bors_for_repo@, issue.number)),
{
    let bors_for_pr = bors_for_repo.for_pr(issue.number);
    let draft = match pr.draft {
        Some(d) => d,
        None => false,
    };
    let conflicted = match (pr.mergeable, pr.mergeable_state) {
        (Some(_), Some(MergeableState::Behind)) => true,
        (Some(_), Some(MergeableState::Dirty)) => true,
        _ => false,
    };
    if draft {
        CiStatus::Draft
    } else if conflicted {
        CiStatus::Conflicted
    } else {
        match verdict_of_row(bors_for_pr) {
            Some(health) => health,
            None => health_on_platform(pr),
        }
    }
}

// ---------------------------------------------------------------------------
// The resolved pull request
// ---------------------------------------------------------------------------

/// What is known of a pull request before its state is resolved.
#[derive(Clone, Copy, Debug, PartialEq, Eq, Structural)]
pub enum PredeterminedCategory {
    /// The user subscribes to it: that is its state.
    Subscribed,
    /// It was found by authorship or assignment, and this is its detail.
    Detail(PullRequest),
}

/// The resolved pull request for the user `username`, asked for by the user
/// `base_username`. There is none for a subscription of somebody else;
/// otherwise a subscription is resolved to `Subscribed` with unknown health,
/// and every other pull request by the rules for its state and its health.
pub open spec fn resolved(
    base_username: Seq<char>,
    username: Seq<char>,
    repo: RepoInfoView,
    issue: IssueView,
    category: PredeterminedCategory,
    queue: Seq<BorsPrView>,
    rollups: Seq<RollupView>,
    crater: Map<u64, CraterStatus>,
    fcp: Map<u64, FcpInfo>,
) -> Option<PrView> {
    if category is Subscribed && base_username != username {
        None
    } else {
        Some(
            PrView {
                repo: repo.repo,
                title: issue.title,
                description: issue.body,
                number: issue.number,
                link: issue.html_url,
                author: issue.user,
                reviewers: issue.assignees,
                status: match category {
                    PredeterminedCategory::Detail(pr) => resolved_status(
                        username,
                        issue,
                        pr,
                        queue,
                        rollups,
                        crater,
                        fcp,
                    ),
                    PredeterminedCategory::Subscribed => PrStatusView::Subscribed,
                },
                ci_status: match category {
                    PredeterminedCategory::Detail(pr) => ci_health(
                        pr,
                        row_for(queue, issue.number),
                    ),
                    PredeterminedCategory::Subscribed => CiStatus::Unknown,
                },
                created: issue.created_at,
            },
        )
    }
}

/// The view of a resolved pull request that may be missing.
pub open spec fn option_pr_view(pr: Option<Pr>) -> Option<PrView> {
    match pr {
        Some(p) => Some(p@),
        None => None,
    }
}

/// Resolves one pull request from what was fetched.
pub fn sort(
    base_username: &str,
    username: &str,
    repo: &RepoInfo,
    issue: &Issue,
    predetermined_category: &PredeterminedCategory,
    bors_for_repo: &BorsQueue,
    rollups: &RollupQueue,
    crater_info: &HashMap<u64, CraterStatus>,
    fcp_info: &HashMap<u64, FcpInfo>,
) -> (pr: Option<Pr>)
    ensures
        option_pr_view(pr) == resolved(
            base_username@,
            username@,
            repo@,
            issue@,
            *predetermined_category,
            bors_for_repo@,
            rollups@,
            crater_info@,
            fcp_info@,
        ),
{
    match predetermined_category {
        PredeterminedCategory::Subscribed => {
            if !str_eq(base_username, username) {
                return None;
            }
        },
        PredeterminedCategory::Detail(_) => {},
    }
    Some(
        Pr {
            repo: repo.repo.clone(),
            title: issue.title.clone(),
            description: clone_option_string(&issue.body),
            number: issue.number,
            link: issue.html_url.clone(),
            author: issue.user.clone(),
            reviewers: clone_authors(&issue.assignees),
            status: match predetermined_category {
                PredeterminedCategory::Detail(pr) => sort_status(
                    username,
                    issue,
                    pr,
                    bors_for_repo,
                    rollups,
                    crater_info,
                    fcp_info,
                ),
                PredeterminedCategory::Subscribed => PrStatus::Subscribed,
            },
            ci_status: match predetermined_category {
                PredeterminedCategory::Detail(pr) => ci_status(issue, pr, bors_for_repo),
                PredeterminedCategory::Subscribed => CiStatus::Unknown,
            },
            created: issue.created_at,
        },
    )
}

// ---------------------------------------------------------------------------
// Laws
// ---------------------------------------------------------------------------

/// Resolving is a function of what it is given: two outcomes for the same
/// issue, detail, snapshots and users are the same pull request, with the same
/// state and the same health.
pub proof fn lemma_sort_is_deterministic(
    first: Option<Pr>,
    second: Option<Pr>,
    base_username: Seq<char>,
    username: Seq<char>,
    repo: RepoInfoView,
    issue: IssueView,
    category: PredeterminedCategory,
    queue: Seq<BorsPrView>,
    rollups: Seq<RollupView>,
    crater: Map<u64, CraterStatus>,
    fcp: Map<u64, FcpInfo>,
)
    requires
        option_pr_view(first) == resolved(
            base_username,
            username,
            repo,
            issue,
            category,
            queue,
            rollups,
            crater,
            fcp,
        ),
        option_pr_view(second) == resolved(
            base_username,
            username,
            repo,
            issue,
            category,
            queue,
            rollups,
            crater,
            fcp,
        ),
    ensures
        option_pr_view(first) == option_pr_view(second),
        first is Some <==> second is Some,
        first is Some ==> first->0@.status == second->0@.status && first->0.ci_status
            == second->0.ci_status,
{
}

/// The rules are tried in their order: each state is given exactly when its
/// rule applies and none before it does.
pub proof fn lemma_rule_order(
    username: Seq<char>,
    issue: IssueView,
    pr: PullRequest,
    queue: Seq<BorsPrView>,
    rollups: Seq<RollupView>,
    crater: Map<u64, CraterStatus>,
    fcp: Map<u64, FcpInfo>,
)
    ensures
        ({
            let status = resolved_status(username, issue, pr, queue, rollups, crater, fcp);
            let row = row_for(queue, issue.number);
            &&& status is Draft <==> pr.is_draft()
            &&& status is Review <==> !pr.is_draft() && needs_my_review(issue, username)
            &&& status is Ready <==> !pr.is_draft() && !needs_my_review(issue, username)
                && ready_for_me(issue, username)
            &&& status is Queued <==> !pr.is_draft() && !needs_my_review(issue, username)
                && !ready_for_me(issue, username) && is_queued(issue, row)
            &&& status is Waiting <==> !pr.is_draft() && !needs_my_review(issue, username)
                && !ready_for_me(issue, username) && !is_queued(issue, row)
            &&& !(status is Subscribed)
        }),
{
}

/// A review that is asked of the requester comes before the merge queue: a
/// pull request that is no draft, waits on a review and is assigned to the
/// requester is theirs to review, also where it is queued to merge.
pub proof fn lemma_review_comes_before_queue(
    username: Seq<char>,
    issue: IssueView,
    pr: PullRequest,
    queue: Seq<BorsPrView>,
    rollups: Seq<RollupView>,
    crater: Map<u64, CraterStatus>,
    fcp: Map<u64, FcpInfo>,
)
    requires
        !pr.is_draft(),
        needs_my_review(issue, username),
        is_queued(issue, row_for(queue, issue.number)),
    ensures
        resolved_status(username, issue, pr, queue, rollups, crater, fcp) == (
        PrStatusView::Review { other_reviewers: others(issue.assignees, username) }),
{
}

/// Without its merge queue a pull request that was queued by its row alone is
/// waiting: where the queue's snapshot is empty, as it is after a failed
/// fetch, a pull request that the queue's rule had decided and that does not
/// carry the queue's label is resolved by the rule for waiting.
pub proof fn lemma_lost_queue_means_waiting(
    username: Seq<char>,
    issue: IssueView,
    pr: PullRequest,
    queue: Seq<BorsPrView>,
    rollups: Seq<RollupView>,
    crater: Map<u64, CraterStatus>,
    fcp: Map<u64, FcpInfo>,
)
    requires
        resolved_status(username, issue, pr, queue, rollups, crater, fcp) is Queued,
        !has_label(issue, "S-waiting-on-bors"@),
    ensures
        resolved_status(username, issue, pr, Seq::empty(), Seq::empty(), crater, fcp) == (
        PrStatusView::Waiting { wait_reason: waiting_reason(issue, crater, fcp) }),
{
}

/// Without its merge queue a pull request that carries the queue's label
/// stays queued, at an unknown place and with no batching policy.
pub proof fn lemma_lost_queue_keeps_label(
    username: Seq<char>,
    issue: IssueView,
    pr: PullRequest,
    queue: Seq<BorsPrView>,
    rollups: Seq<RollupView>,
    crater: Map<u64, CraterStatus>,
    fcp: Map<u64, FcpInfo>,
)
    requires
        resolved_status(username, issue, pr, queue, rollups, crater, fcp) is Queued,
        has_label(issue, "S-waiting-on-bors"@),
    ensures
        resolved_status(username, issue, pr, Seq::empty(), Seq::empty(), crater, fcp) == (
        PrStatusView::Queued(
            QueuedInfoView {
                approvers: issue.assignees,
                rollup_setting: RollupSetting::Unset,
                queue_status: QueueStatusView::Unknown,
            },
        )),
{
}

/// Without a row in the merge queue the health of a pull request is what the
/// platform says of it.
pub proof fn lemma_health_without_row(pr: PullRequest, queue: Seq<BorsPrView>, number: u64)
    requires
        row_for(queue, number) is None,
    ensures
        ci_health(pr, row_for(queue, number)) == if pr.is_draft() {
            CiStatus::Draft
        } else if is_conflicted(pr) {
            CiStatus::Conflicted
        } else {
            platform_health(pr)
        },
{
}

} // verus!
