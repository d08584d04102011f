//! What the platform says of issues and pull requests.

use crate::api::bors::{BorsPrView, BorsQueue};
use crate::api::rfcbot::FcpInfo;
use crate::api::rollup::{RollupQueue, RollupView};
use crate::model::{
    author_views, option_string_view, pr_views, string_views, Author, AuthorView, CraterStatus,
    Pr, PrView, RepoInfo, RepoInfoView,
};
use crate::sort::{resolved, sort, PredeterminedCategory};
use crate::time::Timestamp;
use std::collections::HashMap;
use vstd::prelude::*;

verus! {

/// How an issue was found.
#[derive(Clone, Copy, Debug, PartialEq, Eq, Structural)]
pub enum PrSource {
    /// The user subscribes to it.
    Subscribed,
    /// The user wrote it or is assigned to it.
    Direct,
}

/// What the platform says of merging a pull request into its base.
#[derive(Clone, Copy, Debug, PartialEq, Eq, Structural)]
pub enum MergeableState {
    Behind,
    Blocked,
    Clean,
    Dirty,
    Draft,
    HasHooks,
    Unknown,
    Unstable,
}

/// The part of a pull request's detail that its state is resolved from. Each
/// field is `None` where the platform has not said.
#[derive(Clone, Copy, Debug, PartialEq, Eq, Structural)]
pub struct PullRequest {
    pub draft: Option<bool>,
    pub mergeable: Option<bool>,
    pub mergeable_state: Option<MergeableState>,
}

impl PullRequest {
    /// Whether the pull request is marked as a draft.
    pub open spec fn is_draft(self) -> bool {
        self.draft == Some(true)
    }
}

/// An issue as the platform lists it. A pull request is an issue too.
#[derive(Debug, PartialEq, Eq)]
pub struct Issue {
    pub number: u64,
    pub title: String,
    pub body: Option<String>,
    pub html_url: String,
    pub created_at: Timestamp,
    pub user: Author,
    pub assignees: Vec<Author>,
    pub labels: Vec<String>,
    /// Whether the issue is a pull request.
    pub pull_request: bool,
}

/// The view of a [`Issue`]: the same value, with sequences for its strings and vectors.
pub struct IssueView {
    pub number: u64,
    pub title: Seq<char>,
    pub body: Option<Seq<char>>,
    pub html_url: Seq<char>,
    pub created_at: Timestamp,
    pub user: AuthorView,
    pub assignees: Seq<AuthorView>,
    pub labels: Seq<Seq<char>>,
    pub pull_request: bool,
}

impl View for Issue {
    type V = IssueView;

    open spec fn view(&self) -> IssueView {
        IssueView {
            number: self.number,
            title: self.title@,
            body: option_string_view(self.body),
            html_url: self.html_url@,
            created_at: self.created_at,
            user: self.user@,
            assignees: author_views(self.assignees@),
            labels: string_views(self.labels@),
            pull_request: self.pull_request,
        }
    }
}

/// The views of the issues in `found`, each with how it was found.
pub open spec fn found_views(found: Seq<(Issue, PrSource)>) -> Seq<(IssueView, PrSource)> {
    found.map_values(|f: (Issue, PrSource)| (f.0@, f.1))
}

// ---------------------------------------------------------------------------
// Listing issues page by page
// ---------------------------------------------------------------------------

/// How many times the first page may come back empty and unfinished before
/// the listing is given up.
pub const MAX_EMPTY_ANSWERS: u32 = 20;

/// How long to wait before asking for the first page again, in milliseconds.
pub const RETRY_DELAY: u64 = 50;

/// How many details of pull requests may be fetched at one time.
pub const MAX_IN_FLIGHT: usize = 100;

/// How far the listing of one kind of issue has come.
#[derive(Clone, Copy, Debug, PartialEq, Eq, Structural)]
pub enum Listing {
    /// The first page has not come yet; it was empty and unfinished this
    /// many times.
    First { empty_answers: u32 },
    /// The first page has come, and more pages follow.
    Following,
    /// Nothing more will be asked.
    Done,
}

/// What came back when a page was asked for.
#[derive(Clone, Copy, Debug, PartialEq, Eq, Structural)]
pub enum PageEvent {
    /// The request failed.
    Failed,
    /// A page came: whether it says how many issues there are in all, how
    /// many it holds, and whether it names a page after it.
    Page { counted: bool, items: usize, has_next: bool },
}

/// What to do after a page was asked for.
#[derive(Clone, Copy, Debug, PartialEq, Eq, Structural)]
pub enum PageAction {
    /// Wait this many milliseconds, then ask for the first page again.
    Retry { delay: u64 },
    /// Hand on the issues of the page; then ask for the next page if `more`,
    /// and stop if not.
    Emit { more: bool },
    /// Stop, with nothing to hand on.
    Stop,
}

impl Listing {
    /// Whether the listing has not used up its empty answers.
    pub open spec fn wf(self) -> bool {
        self matches Listing::First { empty_answers } ==> empty_answers < MAX_EMPTY_ANSWERS
    }

    /// The listing after `event`, and what to do. A failure ends the listing.
    /// A first page that is empty and does not say how many issues there are
    /// is still being computed: it is asked for again after a delay, but not
    /// more than `MAX_EMPTY_ANSWERS` times in all. Every other page is handed
    /// on, and the page it names is asked for next.
    pub open spec fn after(self, event: PageEvent) -> (Listing, PageAction) {
        match (self, event) {
            (Listing::Done, _) => (Listing::Done, PageAction::Stop),
            (_, PageEvent::Failed) => (Listing::Done, PageAction::Stop),
            (Listing::First { empty_answers }, PageEvent::Page { counted: false, items: 0, .. }) => {
                if empty_answers + 1 >= MAX_EMPTY_ANSWERS {
                    (Listing::Done, PageAction::Stop)
                } else {
                    (
                        Listing::First { empty_answers: (empty_answers + 1) as u32 },
                        PageAction::Retry { delay: RETRY_DELAY },
                    )
                }
            },
            (_, PageEvent::Page { has_next, .. }) => {
                if has_next {
                    (Listing::Following, PageAction::Emit { more: true })
                } else {
                    (Listing::Done, PageAction::Emit { more: false })
                }
            },
        }
    }

    /// A listing that has asked for nothing yet.
    pub fn new() -> (listing: Listing)
        ensures
            listing == (Listing::First { empty_answers: 0 }),
            listing.wf(),
    {
        Listing::First { empty_answers: 0 }
    }

    /// Takes in what came back for the page that was asked for, and says what
    /// to do next.
    pub fn step(&mut self, event: PageEvent) -> (action: PageAction)
        ensures
            (*final(self), action) == old(self).after(event),
            final(self).wf(),
    {
        let (next, action) = match (*self, event) {
            (Listing::Done, _) => (Listing::Done, PageAction::Stop),
            (_, PageEvent::Failed) => (Listing::Done, PageAction::Stop),
            (Listing::First { empty_answers }, PageEvent::Page { counted: false, items: 0, .. }) => {
                if empty_answers >= MAX_EMPTY_ANSWERS - 1 {
                    (Listing::Done, PageAction::Stop)
                } else {
                    (
                        Listing::First { empty_answers: empty_answers + 1 },
                        PageAction::Retry { delay: RETRY_DELAY },
                    )
                }
            },
            (_, PageEvent::Page { has_next, .. }) => {
                if has_next {
                    (Listing::Following, PageAction::Emit { more: true })
                } else {
                    (Listing::Done, PageAction::Emit { more: false })
                }
            },
        };
        *self = next;
        action
    }
}

/// How many times a listing in state `listing` asks again for its first page
/// while `events` come in, one after another.
pub open spec fn retries(listing: Listing, events: Seq<PageEvent>) -> nat
    decreases events.len(),
{
    if events.len() == 0 {
        0
    } else {
        let (next, action) = listing.after(events[0]);
        let rest = retries(next, events.drop_first());
        if action is Retry {
            1 + rest
        } else {
            rest
        }
    }
}

/// What is left of the empty answers that a listing may get.
pub open spec fn retries_left(listing: Listing) -> nat {
    match listing {
        Listing::First { empty_answers } => if empty_answers < MAX_EMPTY_ANSWERS {
            (MAX_EMPTY_ANSWERS - 1 - empty_answers) as nat
        } else {
            0
        },
        _ => 0,
    }
}

/// A listing never asks again more often than its empty answers allow,
/// whatever comes back.
pub proof fn lemma_retries_are_bounded(listing: Listing, events: Seq<PageEvent>)
    ensures
        retries(listing, events) <= retries_left(listing),
        retries(listing, events) < MAX_EMPTY_ANSWERS,
    decreases events.len(),
{
    if events.len() > 0 {
        let (next, action) = listing.after(events[0]);
        lemma_retries_are_bounded(next, events.drop_first());
    }
}

// ---------------------------------------------------------------------------
// Choosing what to resolve
// ---------------------------------------------------------------------------

/// Whether the issue at `i` of `found` is a pull request that no earlier
/// entry of `found` names: the first finding of a pull request is the one
/// that counts.
pub open spec fn is_first_pull_request(found: Seq<(IssueView, PrSource)>, i: int) -> bool {
    &&& 0 <= i < found.len()
    &&& found[i].0.pull_request
    &&& forall|j: int|
        0 <= j < i ==> !((#[trigger] found[j]).0.pull_request && found[j].0.number
            == found[i].0.number)
}

/// The positions in `found`, below `n`, of the pull requests to resolve, in
/// order.
pub open spec fn selected(found: Seq<(IssueView, PrSource)>, n: int) -> Seq<usize>
    decreases n,
{
    if n <= 0 {
        Seq::empty()
    } else {
        let front = selected(found, n - 1);
        if is_first_pull_request(found, n - 1) {
            front.push((n - 1) as usize)
        } else {
            front
        }
    }
}

/// Whether an entry of `found` before `i` is a pull request with the number
/// `number`.
fn seen_before(found: &Vec<(Issue, PrSource)>, i: usize, number: u64) -> (b: bool)
    requires
        i <= found.len(),
    ensures
        b == exists|j: int|
            0 <= j < i && (#[trigger] found_views(found@)[j]).0.pull_request && found_views(
                found@,
            )[j].0.number == number,
{
    let mut j: usize = 0;
    while j < i
        invariant
            j <= i <= found.len(),
            forall|k: int|
                0 <= k < j ==> !((#[trigger] found_views(found@)[k]).0.pull_request && found_views(
                    found@,
                )[k].0.number == number),
        decreases i - j,
    {
        proof {
            assert(found_views(found@)[j as int] == (found@[j as int].0@, found@[j as int].1));
        }
        if found[j].0.pull_request && found[j].0.number == number {
            return true;
        }
        j = j + 1;
    }
    false
}

/// The positions in `found` of the pull requests to resolve: plain issues are
/// passed over, and so is a pull request that was found before.
pub fn select_pull_requests(found: &Vec<(Issue, PrSource)>) -> (positions: Vec<usize>)
    ensures
        positions@ == selected(found_views(found@), found@.len() as int),
        forall|k: int| 0 <= k < positions@.len() ==> (#[trigger] positions@[k]) < found@.len(),
{
    let ghost views = found_views(found@);
    let mut positions: Vec<usize> = Vec::new();
    let mut i: usize = 0;
    while i < found.len()
        invariant
            i <= found.len(),
            views == found_views(found@),
            positions@ == selected(views, i as int),
            forall|k: int| 0 <= k < positions@.len() ==> (#[trigger] positions@[k]) < i,
        decreases found.len() - i,
    {
        proof {
            assert(views[i as int] == (found@[i as int].0@, found@[i as int].1));
        }
        if found[i].0.pull_request && !seen_before(found, i, found[i].0.number) {
            positions.push(i);
        }
        i = i + 1;
    }
    positions
}

// ---------------------------------------------------------------------------
// Resolving what was found
// ---------------------------------------------------------------------------

/// What is known of a pull request before it is resolved: a subscription needs
/// no detail, and a pull request found by authorship or assignment has none
/// where its detail could not be fetched.
pub open spec fn category_of(source: PrSource, detail: Option<PullRequest>) -> Option<
    PredeterminedCategory,
> {
    match source {
        PrSource::Subscribed => Some(PredeterminedCategory::Subscribed),
        PrSource::Direct => match detail {
            Some(pr) => Some(PredeterminedCategory::Detail(pr)),
            None => None,
        },
    }
}

/// The detail that was fetched for the issue at `i`, if any.
pub open spec fn detail_at(details: Seq<Option<PullRequest>>, i: int) -> Option<PullRequest> {
    if 0 <= i < details.len() {
        details[i]
    } else {
        None
    }
}

/// What is known of a pull request before it is resolved.
pub fn categorize(source: PrSource, detail: Option<PullRequest>) -> (category: Option<
    PredeterminedCategory,
>)
    ensures
        category == category_of(source, detail),
{
    match source {
        PrSource::Subscribed => Some(PredeterminedCategory::Subscribed),
        PrSource::Direct => match detail {
            Some(pr) => Some(PredeterminedCategory::Detail(pr)),
            None => None,
        },
    }
}

/// Everything that the pull requests of one repository are resolved against,
/// and for whom.
pub struct ScanView {
    pub base_username: Seq<char>,
    pub username: Seq<char>,
    pub repo: RepoInfoView,
    pub queue: Seq<BorsPrView>,
    pub rollups: Seq<RollupView>,
    pub crater: Map<u64, CraterStatus>,
    pub fcp: Map<u64, FcpInfo>,
}

/// The resolved pull request for the issue at `i` of `found`: there is none
/// for a plain issue, for a pull request that was found before, for one whose
/// detail is missing, and for a subscription of somebody else.
pub open spec fn resolved_at(
    scan: ScanView,
    found: Seq<(IssueView, PrSource)>,
    details: Seq<Option<PullRequest>>,
    i: int,
) -> Option<PrView> {
    if !is_first_pull_request(found, i) {
        None
    } else {
        match category_of(found[i].1, detail_at(details, i)) {
            None => None,
            Some(category) => resolved(
                scan.base_username,
                scan.username,
                scan.repo,
                found[i].0,
                category,
                scan.queue,
                scan.rollups,
                scan.crater,
                scan.fcp,
            ),
        }
    }
}

/// The resolved pull requests for the first `n` issues of `found`, in the
/// order of `found`.
pub open spec fn resolved_all(
    scan: ScanView,
    found: Seq<(IssueView, PrSource)>,
    details: Seq<Option<PullRequest>>,
    n: int,
) -> Seq<PrView>
    decreases n,
{
    if n <= 0 {
        Seq::empty()
    } else {
        let front = resolved_all(scan, found, details, n - 1);
        match resolved_at(scan, found, details, n - 1) {
            Some(pr) => front.push(pr),
            None => front,
        }
    }
}

/// Whether the resolved pull request `pr` comes from a pull request among the
/// first `n` issues of `found` that was the first finding of its number.
pub open spec fn has_source(found: Seq<(IssueView, PrSource)>, n: int, pr: PrView) -> bool {
    exists|i: int|
        0 <= i < n && is_first_pull_request(found, i) && (#[trigger] found[i]).0.number == pr.number
}

/// No pull request is resolved twice: the resolved pull requests of a
/// repository all have different numbers, and each is a pull request that was
/// found.
pub proof fn lemma_resolved_once(
    scan: ScanView,
    found: Seq<(IssueView, PrSource)>,
    details: Seq<Option<PullRequest>>,
    n: int,
)
    requires
        0 <= n <= found.len(),
    ensures
        forall|k: int|
            0 <= k < resolved_all(scan, found, details, n).len() ==> has_source(
                found,
                n,
                #[trigger] resolved_all(scan, found, details, n)[k],
            ),
        forall|a: int, b: int|
            0 <= a < b < resolved_all(scan, found, details, n).len() ==> (#[trigger] resolved_all(
                scan,
                found,
                details,
                n,
            )[a]).number != (#[trigger] resolved_all(scan, found, details, n)[b]).number,
    decreases n,
{
    if n > 0 {
        lemma_resolved_once(scan, found, details, n - 1);
        let front = resolved_all(scan, found, details, n - 1);
        let all = resolved_all(scan, found, details, n);
        assert forall|k: int| 0 <= k < front.len() implies has_source(
            found,
            n,
            #[trigger] front[k],
        ) by {
            assert(has_source(found, n - 1, front[k]));
            let i = choose|i: int|
                0 <= i < n - 1 && is_first_pull_request(found, i) && (#[trigger] found[i]).0.number
                    == front[k].number;
            assert(0 <= i < n && is_first_pull_request(found, i) && found[i].0.number
                == front[k].number);
        }
        match resolved_at(scan, found, details, n - 1) {
            Some(pr) => {
                assert(all == front.push(pr));
                assert(is_first_pull_request(found, n - 1));
                assert(pr.number == found[n - 1].0.number);
                assert(has_source(found, n, pr));
                assert forall|k: int| 0 <= k < all.len() implies has_source(
                    found,
                    n,
                    #[trigger] all[k],
                ) by {
                    if k < front.len() {
                        assert(all[k] == front[k]);
                    }
                }
                assert forall|a: int, b: int| 0 <= a < b < all.len() implies (#[trigger] all[a]).number
                    != (#[trigger] all[b]).number by {
                    assert(all[a] == front[a]);
                    if b < front.len() {
                        assert(all[b] == front[b]);
                    } else {
                        assert(has_source(found, n - 1, front[a]));
                        let i = choose|i: int|
                            0 <= i < n - 1 && is_first_pull_request(found, i) && (
                            #[trigger] found[i]).0.number == front[a].number;
                        assert(found[i].0.pull_request);
                    }
                }
            },
            None => {
                assert(all == front);
            },
        }
    }
}

/// Resolves the pull requests of one repository for the user `username`, as
/// asked for by `base_username`. `found` holds the issues that the listings
/// gave, and `details` the detail that was fetched for each of them, at the
/// same position; a position beyond the end of `details` has none.
pub fn scrape_github_for_user(
    base_username: &str,
    username: &str,
    repo: &RepoInfo,
    found: &Vec<(Issue, PrSource)>,
    details: &Vec<Option<PullRequest>>,
    bors_for_repo: &BorsQueue,
    rollups: &RollupQueue,
    crater_info: &HashMap<u64, CraterStatus>,
    fcp_info: &HashMap<u64, FcpInfo>,
) -> (prs: Vec<Pr>)
    ensures
        pr_views(prs@) == resolved_all(
            (ScanView {
                base_username: base_username@,
                username: username@,
                repo: repo@,
                queue: bors_for_repo@,
                rollups: rollups@,
                crater: crater_info@,
                fcp: fcp_info@,
            }),
            found_views(found@),
            details@,
            found@.len() as int,
        ),
{
    let ghost scan = ScanView {
        base_username: base_username@,
        username: username@,
        repo: repo@,
        queue: bors_for_repo@,
        rollups: rollups@,
        crater: crater_info@,
        fcp: fcp_info@,
    };
    let ghost views = found_views(found@);
    let mut prs: Vec<Pr> = Vec::new();
    let mut i: usize = 0;
    proof {
        assert(pr_views(prs@) =~= Seq::<PrView>::empty());
    }
    while i < found.len()
        invariant
            i <= found.len(),
            views == found_views(found@),
            scan == (ScanView {
                base_username: base_username@,
                username: username@,
                repo: repo@,
                queue: bors_for_repo@,
                rollups: rollups@,
                crater: crater_info@,
                fcp: fcp_info@,
            }),
            pr_views(prs@) == resolved_all(scan, views, details@, i as int),
        decreases found.len() - i,
    {
        let ghost before = pr_views(prs@);
        proof {
            assert(views[i as int] == (found@[i as int].0@, found@[i as int].1));
        }
        let issue = &found[i].0;
        if issue.pull_request && !seen_before(found, i, issue.number) {
            let detail = if i < details.len() {
                details[i]
            } else {
                None
            };
            match categorize(found[i].1, detail) {
                Some(category) => {
                    match sort(
                        base_username,
                        username,
                        repo,
                        issue,
                        &category,
                        bors_for_repo,
                        rollups,
                        crater_info,
                        fcp_info,
                    ) {
                        Some(pr) => {
                            prs.push(pr);
                            proof {
                                assert(pr_views(prs@) =~= before.push(pr@));
                            }
                        },
                        None => {},
                    }
                },
                None => {},
            }
        }
        i = i + 1;
    }
    prs
}

/// The numbers of the pull requests in `prs`, in order: what is open for the
/// user after a scan.
pub fn open_numbers(prs: &Vec<Pr>) -> (numbers: Vec<u64>)
    ensures
        numbers@ == pr_views(prs@).map_values(|p: PrView| p.number),
{
    let mut numbers: Vec<u64> = Vec::new();
    let mut i: usize = 0;
    while i < prs.len()
        invariant
            i <= prs.len(),
            numbers@.len() == i,
            forall|j: int| 0 <= j < i ==> numbers@[j] == prs@[j].number,
        decreases prs.len() - i,
    {
        numbers.push(prs[i].number);
        i = i + 1;
    }
    proof {
        assert(numbers@ =~= pr_views(prs@).map_values(|p: PrView| p.number));
    }
    numbers
}

} // verus!
