//! The dashboard's data: repositories, people, and the resolved state of a
//! pull request.
//!
//! Types that own strings or vectors have a view, a value of the same shape
//! made of sequences, which is what the contracts of this crate speak of.

use crate::time::{in_range, nanos_per_hour, Timestamp};
use vstd::prelude::*;

verus! {

/// The views of the strings of `s`, in order.
pub open spec fn string_views(s: Seq<String>) -> Seq<Seq<char>> {
    s.map_values(|x: String| x@)
}

/// The view of an optional string.
pub open spec fn option_string_view(s: Option<String>) -> Option<Seq<char>> {
    match s {
        Some(x) => Some(x@),
        None => None,
    }
}

/// A copy of an optional string.
pub fn clone_option_string(s: &Option<String>) -> (r: Option<String>)
    ensures
        option_string_view(r) == option_string_view(*s),
{
    match s {
        Some(x) => Some(x.clone()),
        None => None,
    }
}

// ---------------------------------------------------------------------------
// Repositories
// ---------------------------------------------------------------------------

/// A repository: who owns it, and its name.
#[derive(Debug, PartialEq, Eq, Hash)]
pub struct Repo {
    pub owner: String,
    pub name: String,
}

/// The view of a [`Repo`]: the same value, with sequences for its strings and vectors.
pub struct RepoView {
    pub owner: Seq<char>,
    pub name: Seq<char>,
}

impl View for Repo {
    type V = RepoView;

    open spec fn view(&self) -> RepoView {
        RepoView { owner: self.owner@, name: self.name@ }
    }
}

impl Clone for Repo {
    fn clone(&self) -> (r: Self)
        ensures
            r@ == self@,
    {
        Repo { owner: self.owner.clone(), name: self.name.clone() }
    }
}

impl Repo {
    /// Whether `self` and `other` are the same repository: same owner, same
    /// name.
    pub fn same(&self, other: &Repo) -> (b: bool)
        ensures
            b == (self@ == other@),
    {
        self.owner == other.owner && self.name == other.name
    }

    /// The repository as `owner/name`.
    pub fn full_name(&self) -> (s: String)
        ensures
            s@ == self.owner@ + seq!['/'] + self.name@,
    {
        let mut s = self.owner.clone();
        s.append("/");
        s.append(self.name.as_str());
        proof {
            reveal_strlit("/");
            assert("/"@ =~= seq!['/']);
        }
        s
    }
}

/// A repository and where its merge queue can be read, if it has one.
#[derive(Debug, PartialEq, Eq)]
pub struct RepoInfo {
    pub repo: Repo,
    pub bors_queue_url: Option<String>,
}

/// The view of a [`RepoInfo`]: the same value, with sequences for its strings and vectors.
pub struct RepoInfoView {
    pub repo: RepoView,
    pub bors_queue_url: Option<Seq<char>>,
}

impl View for RepoInfo {
    type V = RepoInfoView;

    open spec fn view(&self) -> RepoInfoView {
        RepoInfoView {
            repo: self.repo@,
            bors_queue_url: option_string_view(self.bors_queue_url),
        }
    }
}

impl Clone for RepoInfo {
    fn clone(&self) -> (r: Self)
        ensures
            r@ == self@,
    {
        RepoInfo {
            repo: self.repo.clone(),
            bors_queue_url: clone_option_string(&self.bors_queue_url),
        }
    }
}

// ---------------------------------------------------------------------------
// People
// ---------------------------------------------------------------------------

/// A person on the platform.
#[derive(Debug, PartialEq, Eq)]
pub struct Author {
    pub name: String,
    pub id: u64,
    pub avatar_url: String,
    pub profile_url: String,
}

/// The view of a [`Author`]: the same value, with sequences for its strings and vectors.
pub struct AuthorView {
    pub name: Seq<char>,
    pub id: u64,
    pub avatar_url: Seq<char>,
    pub profile_url: Seq<char>,
}

impl View for Author {
    type V = AuthorView;

    open spec fn view(&self) -> AuthorView {
        AuthorView {
            name: self.name@,
            id: self.id,
            avatar_url: self.avatar_url@,
            profile_url: self.profile_url@,
        }
    }
}

impl Clone for Author {
    fn clone(&self) -> (r: Self)
        ensures
            r@ == self@,
    {
        Author {
            name: self.name.clone(),
            id: self.id,
            avatar_url: self.avatar_url.clone(),
            profile_url: self.profile_url.clone(),
        }
    }
}

/// The views of the people in `s`, in order.
pub open spec fn author_views(s: Seq<Author>) -> Seq<AuthorView> {
    s.map_values(|a: Author| a@)
}

/// A copy of every person in `authors`, in order.
pub fn clone_authors(authors: &Vec<Author>) -> (r: Vec<Author>)
    ensures
        author_views(r@) == author_views(authors@),
{
    let mut r: Vec<Author> = Vec::new();
    let mut i: usize = 0;
    while i < authors.len()
        invariant
            i <= authors.len(),
            r@.len() == i,
            forall|j: int| 0 <= j < i ==> (#[trigger] r@[j])@ == authors@[j]@,
        decreases authors.len() - i,
    {
        r.push(authors[i].clone());
        i = i + 1;
    }
    proof {
        assert(author_views(r@) =~= author_views(authors@));
    }
    r
}

// ---------------------------------------------------------------------------
// Waiting
// ---------------------------------------------------------------------------

/// How many hours a final comment period lasts: ten days.
pub const FCP_HOURS: i64 = 240;

/// A final comment period that has begun.
#[derive(Clone, Copy, Debug, PartialEq, Eq, Structural)]
pub struct FcpStatus {
    pub start: Timestamp,
}

impl FcpStatus {
    /// The instant at which the period ends, in nanoseconds since the Unix
    /// epoch: 240 hours after its start.
    pub open spec fn end_nanosecond(self) -> int {
        self.start.as_nanosecond() + FCP_HOURS * nanos_per_hour()
    }

    /// The instant at which the period ends, if that instant can be named.
    pub fn checked_ends_on(&self) -> (end: Option<Timestamp>)
        ensures
            end is Some <==> self.start.valid() && in_range(self.end_nanosecond()),
            end matches Some(t) ==> t.wf() && t.as_nanosecond() == self.end_nanosecond(),
    {
        self.start.checked_add_hours(FCP_HOURS)
    }

    /// The instant at which the period ends.
    pub fn ends_on(&self) -> (end: Timestamp)
        requires
            self.start.valid(),
            in_range(self.end_nanosecond()),
        ensures
            end.wf(),
            end.as_nanosecond() == self.start.as_nanosecond() + 240 * nanos_per_hour(),
    {
        self.start.checked_add_hours(FCP_HOURS).unwrap()
    }
}

/// Where a pull request stands with the compatibility run.
#[derive(Clone, Copy, Debug, PartialEq, Eq, Structural)]
pub enum CraterStatus {
    Unknown,
    Queued { num_before: usize },
    Running { expected_end: Timestamp },
    GeneratingReport,
}

/// Why a pull request is waiting.
#[derive(Clone, Copy, Debug, PartialEq, Eq, Structural)]
pub enum WaitingReason {
    Author,
    /// Blocked on something else.
    Blocked,
    /// Waiting on a review.
    Review,
    Fcp(FcpStatus),
    CraterRun(CraterStatus),
    TryBuild(),
    PerfRun(),
    /// Nothing that is known explains the wait.
    Unknown,
}

// ---------------------------------------------------------------------------
// The merge queue
// ---------------------------------------------------------------------------

/// Whether the merge queue may batch a pull request with others.
#[derive(Clone, Copy, Debug, PartialEq, Eq, Structural)]
pub enum RollupSetting {
    Never,
    Always,
    Iffy,
    Unset,
}

impl Default for RollupSetting {
    fn default() -> (r: Self)
        ensures
            r == RollupSetting::Unset,
    {
        RollupSetting::Unset
    }
}

/// Where a queued pull request stands in the merge queue.
#[derive(Debug, PartialEq, Eq)]
pub enum QueueStatus {
    Unknown,
    InQueue { position: usize },
    Running,
    InNextRollup { position: usize, pr_link: String, pr_number: u64, rollup_size: usize },
    InRollup { nth_rollup: usize, pr_link: String, pr_number: u64, rollup_size: usize },
    InRunningRollup { pr_link: String, pr_number: u64, rollup_size: usize },
}

/// The view of a [`QueueStatus`]: the same value, with sequences for its strings and vectors.
pub enum QueueStatusView {
    Unknown,
    InQueue { position: usize },
    Running,
    InNextRollup { position: usize, pr_link: Seq<char>, pr_number: u64, rollup_size: usize },
    InRollup { nth_rollup: usize, pr_link: Seq<char>, pr_number: u64, rollup_size: usize },
    InRunningRollup { pr_link: Seq<char>, pr_number: u64, rollup_size: usize },
}

impl View for QueueStatus {
    type V = QueueStatusView;

    open spec fn view(&self) -> QueueStatusView {
        match *self {
            QueueStatus::Unknown => QueueStatusView::Unknown,
            QueueStatus::InQueue { position } => QueueStatusView::InQueue { position },
            QueueStatus::Running => QueueStatusView::Running,
            QueueStatus::InNextRollup {
                position,
                pr_link,
                pr_number,
                rollup_size,
            } => QueueStatusView::InNextRollup {
                position,
                pr_link: pr_link@,
                pr_number,
                rollup_size,
            },
            QueueStatus::InRollup {
                nth_rollup,
                pr_link,
                pr_number,
                rollup_size,
            } => QueueStatusView::InRollup {
                nth_rollup,
                pr_link: pr_link@,
                pr_number,
                rollup_size,
            },
            QueueStatus::InRunningRollup {
                pr_link,
                pr_number,
                rollup_size,
            } => QueueStatusView::InRunningRollup { pr_link: pr_link@, pr_number, rollup_size },
        }
    }
}

impl Clone for QueueStatus {
    fn clone(&self) -> (r: Self)
        ensures
            r@ == self@,
    {
        match self {
            QueueStatus::Unknown => QueueStatus::Unknown,
            QueueStatus::InQueue { position } => QueueStatus::InQueue { position: *position },
            QueueStatus::Running => QueueStatus::Running,
            QueueStatus::InNextRollup {
                position,
                pr_link,
                pr_number,
                rollup_size,
            } => QueueStatus::InNextRollup {
                position: *position,
                pr_link: pr_link.clone(),
                pr_number: *pr_number,
                rollup_size: *rollup_size,
            },
            QueueStatus::InRollup {
                nth_rollup,
                pr_link,
                pr_number,
                rollup_size,
            } => QueueStatus::InRollup {
                nth_rollup: *nth_rollup,
                pr_link: pr_link.clone(),
                pr_number: *pr_number,
                rollup_size: *rollup_size,
            },
            QueueStatus::InRunningRollup {
                pr_link,
                pr_number,
                rollup_size,
            } => QueueStatus::InRunningRollup {
                pr_link: pr_link.clone(),
                pr_number: *pr_number,
                rollup_size: *rollup_size,
            },
        }
    }
}

/// What is known of a pull request that is queued to merge.
#[derive(Debug, PartialEq, Eq)]
pub struct QueuedInfo {
    pub approvers: Vec<Author>,
    pub rollup_setting: RollupSetting,
    pub queue_status: QueueStatus,
}

/// The view of a [`QueuedInfo`]: the same value, with sequences for its strings and vectors.
pub struct QueuedInfoView {
    pub approvers: Seq<AuthorView>,
    pub rollup_setting: RollupSetting,
    pub queue_status: QueueStatusView,
}

impl View for QueuedInfo {
    type V = QueuedInfoView;

    open spec fn view(&self) -> QueuedInfoView {
        QueuedInfoView {
            approvers: author_views(self.approvers@),
            rollup_setting: self.rollup_setting,
            queue_status: self.queue_status@,
        }
    }
}

impl Clone for QueuedInfo {
    fn clone(&self) -> (r: Self)
        ensures
            r@ == self@,
    {
        QueuedInfo {
            approvers: clone_authors(&self.approvers),
            rollup_setting: self.rollup_setting,
            queue_status: self.queue_status.clone(),
        }
    }
}

// ---------------------------------------------------------------------------
// Resolved pull requests
// ---------------------------------------------------------------------------

/// The health of a pull request's checks and of its merge.
#[derive(Clone, Copy, Debug, PartialEq, Eq, Structural)]
pub enum CiStatus {
    Conflicted,
    Good,
    Running,
    Bad,
    Unknown,
    Draft,
}

/// The one triage state that a pull request is resolved to.
#[derive(Debug, PartialEq, Eq)]
pub enum PrStatus {
    /// Ready for its author to work on.
    Ready {  },
    /// Ready for the requester to review.
    Review { other_reviewers: Vec<Author> },
    /// Waiting, for the reason given.
    Waiting { wait_reason: WaitingReason },
    /// Approved and queued to merge.
    Queued(QueuedInfo),
    Draft {  },
    Subscribed,
}

/// The view of a [`PrStatus`]: the same value, with sequences for its strings and vectors.
pub enum PrStatusView {
    Ready,
    Review { other_reviewers: Seq<AuthorView> },
    Waiting { wait_reason: WaitingReason },
    Queued(QueuedInfoView),
    Draft,
    Subscribed,
}

impl View for PrStatus {
    type V = PrStatusView;

    open spec fn view(&self) -> PrStatusView {
        match *self {
            PrStatus::Ready {  } => PrStatusView::Ready,
            PrStatus::Review { other_reviewers } => PrStatusView::Review {
                other_reviewers: author_views(other_reviewers@),
            },
            PrStatus::Waiting { wait_reason } => PrStatusView::Waiting { wait_reason },
            PrStatus::Queued(info) => PrStatusView::Queued(info@),
            PrStatus::Draft {  } => PrStatusView::Draft,
            PrStatus::Subscribed => PrStatusView::Subscribed,
        }
    }
}

impl Clone for PrStatus {
    fn clone(&self) -> (r: Self)
        ensures
            r@ == self@,
    {
        match self {
            PrStatus::Ready {  } => PrStatus::Ready {  },
            PrStatus::Review { other_reviewers } => PrStatus::Review {
                other_reviewers: clone_authors(other_reviewers),
            },
            PrStatus::Waiting { wait_reason } => PrStatus::Waiting { wait_reason: *wait_reason },
            PrStatus::Queued(info) => PrStatus::Queued(info.clone()),
            PrStatus::Draft {  } => PrStatus::Draft {  },
            PrStatus::Subscribed => PrStatus::Subscribed,
        }
    }
}

/// A pull request with its resolved state.
#[derive(Debug, PartialEq, Eq)]
pub struct Pr {
    pub repo: Repo,
    pub title: String,
    pub description: Option<String>,
    pub number: u64,
    pub link: String,
    pub author: Author,
    pub reviewers: Vec<Author>,
    pub status: PrStatus,
    pub ci_status: CiStatus,
    pub created: Timestamp,
}

/// The view of a [`Pr`]: the same value, with sequences for its strings and vectors.
pub struct PrView {
    pub repo: RepoView,
    pub title: Seq<char>,
    pub description: Option<Seq<char>>,
    pub number: u64,
    pub link: Seq<char>,
    pub author: AuthorView,
    pub reviewers: Seq<AuthorView>,
    pub status: PrStatusView,
    pub ci_status: CiStatus,
    pub created: Timestamp,
}

impl View for Pr {
    type V = PrView;

    open spec fn view(&self) -> PrView {
        PrView {
            repo: self.repo@,
            title: self.title@,
            description: option_string_view(self.description),
            number: self.number,
            link: self.link@,
            author: self.author@,
            reviewers: author_views(self.reviewers@),
            status: self.status@,
            ci_status: self.ci_status,
            created: self.created,
        }
    }
}

impl Clone for Pr {
    fn clone(&self) -> (r: Self)
        ensures
            r@ == self@,
    {
        Pr {
            repo: self.repo.clone(),
            title: self.title.clone(),
            description: clone_option_string(&self.description),
            number: self.number,
            link: self.link.clone(),
            author: self.author.clone(),
            reviewers: clone_authors(&self.reviewers),
            status: self.status.clone(),
            ci_status: self.ci_status,
            created: self.created,
        }
    }
}

/// The views of the pull requests in `s`, in order.
pub open spec fn pr_views(s: Seq<Pr>) -> Seq<PrView> {
    s.map_values(|p: Pr| p@)
}

/// Whether a title is that of a pull request that batches others.
pub open spec fn is_rollup_title(title: Seq<char>) -> bool {
    "Rollup of"@.is_prefix_of(title) && crate::text::ends_with(title, "pull requests"@)
}

impl Pr {
    /// Whether this pull request batches others, going by its title.
    pub fn is_rollup_pr(&self) -> (b: bool)
        ensures
            b == is_rollup_title(self.title@),
    {
        crate::text::starts_with(self.title.as_str(), "Rollup of") && crate::text::str_ends_with(
            self.title.as_str(),
            "pull requests",
        )
    }
}

} // verus!
