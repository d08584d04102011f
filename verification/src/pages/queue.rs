//! The boxes of the queue page: which pull requests each holds, and in what
//! order it shows them.

use crate::model::{
    CiStatus, CraterStatus, Pr, PrStatus, PrStatusView, PrView, QueueStatus, QueueStatusView,
    RollupSetting, WaitingReason,
};
use crate::time::Timestamp;
use vstd::prelude::*;

verus! {

/// The boxes of the page. Every resolved pull request belongs to one.
#[derive(Clone, Copy, Debug, PartialEq, Eq, Structural)]
pub enum PrBoxKind {
    /// Ready to work on.
    WorkReady,
    /// Waiting for the user to review.
    TodoReview,
    /// Waiting.
    Stalled,
    /// Queued to merge.
    Queue,
    Draft,
    /// Shown nowhere else.
    Other,
}

/// The box that a pull request with state `status` belongs to.
pub open spec fn category_of(status: PrStatusView) -> PrBoxKind {
    match status {
        PrStatusView::Ready => PrBoxKind::WorkReady,
        PrStatusView::Review { .. } => PrBoxKind::TodoReview,
        PrStatusView::Waiting { .. } => PrBoxKind::Stalled,
        PrStatusView::Queued(_) => PrBoxKind::Queue,
        PrStatusView::Draft => PrBoxKind::Draft,
        PrStatusView::Subscribed => PrBoxKind::Other,
    }
}

impl PrStatus {
    /// The box that a pull request with this state belongs to.
    pub fn sort_category(&self) -> (kind: PrBoxKind)
        ensures
            kind == category_of(self@),
    {
        match self {
            PrStatus::Ready {  } => PrBoxKind::WorkReady,
            PrStatus::Review { .. } => PrBoxKind::TodoReview,
            PrStatus::Waiting { .. } => PrBoxKind::Stalled,
            PrStatus::Queued(_) => PrBoxKind::Queue,
            PrStatus::Draft {  } => PrBoxKind::Draft,
            PrStatus::Subscribed => PrBoxKind::Other,
        }
    }
}

impl Pr {
    /// The box that the pull request belongs to.
    pub fn sort_category(&self) -> (kind: PrBoxKind)
        ensures
            kind == category_of(self@.status),
    {
        self.status.sort_category()
    }
}

// ---------------------------------------------------------------------------
// Keys
// ---------------------------------------------------------------------------

/// Where a batch stands among the batches: the running one and the next one
/// by their place in the queue, the later ones by their turn.
#[derive(Clone, Copy, Debug, PartialEq, Eq, Structural)]
pub enum RollupPosition {
    Next(usize),
    Nth(usize),
}

/// What a queued pull request is ordered by: its batch, if it is in one; else
/// its place in the queue; else its age.
#[derive(Clone, Copy, Debug, PartialEq, Eq, Structural)]
pub enum QueuedSortKey {
    Rollup(RollupPosition),
    Normal(usize),
    Other(Timestamp),
}

/// The key of a queued pull request that stands at `status` in the queue and
/// was created at `created`. The running pull request comes before every
/// place in the queue, and the running batch before every other batch.
pub open spec fn queued_key(status: QueueStatusView, created: Timestamp) -> QueuedSortKey {
    match status {
        QueueStatusView::Unknown => QueuedSortKey::Other(created),
        QueueStatusView::InQueue { position } => QueuedSortKey::Normal(position),
        QueueStatusView::Running => QueuedSortKey::Normal(0),
        QueueStatusView::InNextRollup { position, .. } => QueuedSortKey::Rollup(
            RollupPosition::Next(position),
        ),
        QueueStatusView::InRollup { nth_rollup, .. } => QueuedSortKey::Rollup(
            RollupPosition::Nth(nth_rollup),
        ),
        QueueStatusView::InRunningRollup { .. } => QueuedSortKey::Rollup(RollupPosition::Next(0)),
    }
}

/// The key that a pull request is ordered by in its box: in the queue's box
/// the key of its place in the queue, in every other box its age.
pub open spec fn sort_key(pr: PrView) -> QueuedSortKey {
    match pr.status {
        PrStatusView::Queued(info) => queued_key(info.queue_status, pr.created),
        _ => QueuedSortKey::Other(pr.created),
    }
}

/// A key and an age as five numbers that are compared one after another:
/// batches come first, by their position, and the members of a batch by age;
/// then the places in the queue; then what has no place, by age.
#[derive(Clone, Copy, Debug, PartialEq, Eq, Structural)]
pub struct Rank {
    pub class: u8,
    pub sub: u8,
    pub position: usize,
    pub second: i64,
    pub nanosecond: i32,
}

/// The rank of a pull request with key `key` that was created at `created`.
pub open spec fn rank_of(key: QueuedSortKey, created: Timestamp) -> Rank {
    match key {
        QueuedSortKey::Rollup(RollupPosition::Next(position)) => Rank {
            class: 0,
            sub: 0,
            position,
            second: created.second,
            nanosecond: created.nanosecond,
        },
        QueuedSortKey::Rollup(RollupPosition::Nth(nth)) => Rank {
            class: 0,
            sub: 1,
            position: nth,
            second: created.second,
            nanosecond: created.nanosecond,
        },
        QueuedSortKey::Normal(position) => Rank {
            class: 1,
            sub: 0,
            position,
            second: 0,
            nanosecond: 0,
        },
        QueuedSortKey::Other(at) => Rank {
            class: 2,
            sub: 0,
            position: 0,
            second: at.second,
            nanosecond: at.nanosecond,
        },
    }
}

/// The rank of a pull request in its box.
pub open spec fn rank_of_pr(pr: PrView) -> Rank {
    rank_of(sort_key(pr), pr.created)
}

impl Rank {
    /// Whether `self` comes strictly before `other`.
    pub open spec fn lt(self, other: Rank) -> bool {
        if self.class != other.class {
            self.class < other.class
        } else if self.sub != other.sub {
            self.sub < other.sub
        } else if self.position != other.position {
            self.position < other.position
        } else if self.second != other.second {
            self.second < other.second
        } else {
            self.nanosecond < other.nanosecond
        }
    }

    /// Whether `self` comes strictly before `other`.
    pub fn is_before(&self, other: &Rank) -> (b: bool)
        ensures
            b == self.lt(*other),
    {
        if self.class != other.class {
            self.class < other.class
        } else if self.sub != other.sub {
            self.sub < other.sub
        } else if self.position != other.position {
            self.position < other.position
        } else if self.second != other.second {
            self.second < other.second
        } else {
            self.nanosecond < other.nanosecond
        }
    }
}

/// The key of a queued pull request.
pub fn key_in_queue(status: &QueueStatus, created: Timestamp) -> (key: QueuedSortKey)
    ensures
        key == queued_key(status@, created),
{
    match status {
        QueueStatus::Unknown => QueuedSortKey::Other(created),
        QueueStatus::InQueue { position } => QueuedSortKey::Normal(*position),
        QueueStatus::Running => QueuedSortKey::Normal(0),
        QueueStatus::InNextRollup { position, .. } => QueuedSortKey::Rollup(
            RollupPosition::Next(*position),
        ),
        QueueStatus::InRollup { nth_rollup, .. } => QueuedSortKey::Rollup(
            RollupPosition::Nth(*nth_rollup),
        ),
        QueueStatus::InRunningRollup { .. } => QueuedSortKey::Rollup(RollupPosition::Next(0)),
    }
}

/// The key that a pull request is ordered by in its box.
pub fn key_of(pr: &Pr) -> (key: QueuedSortKey)
    ensures
        key == sort_key(pr@),
{
    match &pr.status {
        PrStatus::Queued(info) => key_in_queue(&info.queue_status, pr.created),
        _ => QueuedSortKey::Other(pr.created),
    }
}

/// The rank of a pull request in its box.
pub fn rank(pr: &Pr) -> (r: Rank)
    ensures
        r == rank_of_pr(pr@),
{
    let created = pr.created;
    match key_of(pr) {
        QueuedSortKey::Rollup(RollupPosition::Next(position)) => Rank {
            class: 0,
            sub: 0,
            position,
            second: created.second,
            nanosecond: created.nanosecond,
        },
        QueuedSortKey::Rollup(RollupPosition::Nth(nth)) => Rank {
            class: 0,
            sub: 1,
            position: nth,
            second: created.second,
            nanosecond: created.nanosecond,
        },
        QueuedSortKey::Normal(position) => Rank {
            class: 1,
            sub: 0,
            position,
            second: 0,
            nanosecond: 0,
        },
        QueuedSortKey::Other(at) => Rank {
            class: 2,
            sub: 0,
            position: 0,
            second: at.second,
            nanosecond: at.nanosecond,
        },
    }
}

// ---------------------------------------------------------------------------
// Ordering
// ---------------------------------------------------------------------------

/// Whether the item at `x` is shown before the item at `y`: its rank comes
/// first, or neither rank comes first and it stood first.
pub open spec fn precedes(ranks: Seq<Rank>, x: int, y: int) -> bool {
    ranks[x].lt(ranks[y]) || (!ranks[y].lt(ranks[x]) && x < y)
}

/// Whether `order` lists every position of `ranks` once, ordered by rank, with
/// positions of equal rank in their own order.
pub open spec fn is_stable_order(ranks: Seq<Rank>, order: Seq<usize>) -> bool {
    &&& order.len() == ranks.len()
    &&& forall|a: int| 0 <= a < order.len() ==> (#[trigger] order[a]) < ranks.len()
    &&& forall|k: usize| k < ranks.len() ==> #[trigger] order.contains(k)
    &&& forall|a: int, b: int|
        0 <= a < b < order.len() ==> precedes(ranks, #[trigger] order[a] as int, #[trigger] order[b] as int)
}

/// The positions of `ranks`, ordered by rank; positions of equal rank keep
/// their order.
pub fn stable_order(ranks: &Vec<Rank>) -> (order: Vec<usize>)
    ensures
        is_stable_order(ranks@, order@),
{
    let n = ranks.len();
    let mut order: Vec<usize> = Vec::new();
    let mut i: usize = 0;
    while i < n
        invariant
            i <= n == ranks.len(),
            order@.len() == i,
            forall|a: int| 0 <= a < order@.len() ==> (#[trigger] order@[a]) < i,
            forall|k: usize| k < i ==> #[trigger] order@.contains(k),
            forall|a: int, b: int|
                0 <= a < b < order@.len() ==> precedes(
                    ranks@,
                    #[trigger] order@[a] as int,
                    #[trigger] order@[b] as int,
                ),
        decreases n - i,
    {
        let mut j: usize = order.len();
        while j > 0 && ranks[i].is_before(&ranks[order[j - 1]])
            invariant
                j <= order@.len() == i < n == ranks.len(),
                forall|a: int| 0 <= a < order@.len() ==> (#[trigger] order@[a]) < i,
                forall|b: int|
                    j <= b < order@.len() ==> ranks@[i as int].lt(ranks@[(#[trigger] order@[b]) as int]),
            decreases j,
        {
            j = j - 1;
        }
        let ghost before = order@;
        order.insert(j, i);
        proof {
            let after = order@;
            assert(after == before.insert(j as int, i));
            assert forall|a: int| 0 <= a < after.len() implies (#[trigger] after[a]) < i + 1 by {
                if a < j {
                    assert(after[a] == before[a]);
                } else if a > j {
                    assert(after[a] == before[a - 1]);
                }
            }
            assert forall|k: usize| k < i + 1 implies #[trigger] after.contains(k) by {
                if k == i {
                    assert(after[j as int] == i);
                } else {
                    assert(before.contains(k));
                    let a = choose|a: int| 0 <= a < before.len() && before[a] == k;
                    if a < j {
                        assert(after[a] == before[a]);
                    } else {
                        assert(after[a + 1] == before[a]);
                    }
                }
            }
            assert forall|a: int, b: int| 0 <= a < b < after.len() implies precedes(
                ranks@,
                #[trigger] after[a] as int,
                #[trigger] after[b] as int,
            ) by {
                if b < j {
                    assert(after[a] == before[a] && after[b] == before[b]);
                } else if a > j {
                    assert(after[a] == before[a - 1] && after[b] == before[b - 1]);
                } else if a < j && b > j {
                    assert(after[a] == before[a] && after[b] == before[b - 1]);
                } else if a == j {
                    assert(after[b] == before[b - 1]);
                    assert(ranks@[i as int].lt(ranks@[before[b - 1] as int]));
                } else {
                    // b == j: the new item comes after what stands before it
                    assert(after[a] == before[a]);
                    assert(before[a] < i);
                    assert(!ranks@[i as int].lt(ranks@[before[j - 1] as int]));
                    if a < j - 1 {
                        assert(precedes(ranks@, before[a] as int, before[j - 1] as int));
                    }
                }
            }
        }
        i = i + 1;
    }
    order
}

/// Whether `order` is how the box `kind` shows the pull requests `prs`: it
/// lists the positions of those that belong to the box, each once, ordered by
/// rank, with pull requests of equal rank in the order of `prs`.
pub open spec fn is_box_order(prs: Seq<PrView>, kind: PrBoxKind, order: Seq<usize>) -> bool {
    &&& forall|a: int|
        0 <= a < order.len() ==> (#[trigger] order[a]) < prs.len() && category_of(
            prs[order[a] as int].status,
        ) == kind
    &&& forall|a: int, b: int| 0 <= a < b < order.len() ==> #[trigger] order[a] != #[trigger] order[b]
    &&& forall|k: usize|
        k < prs.len() && category_of(prs[k as int].status) == kind ==> #[trigger] order.contains(k)
    &&& forall|a: int, b: int|
        0 <= a < b < order.len() ==> precedes(
            prs.map_values(|p: PrView| rank_of_pr(p)),
            #[trigger] order[a] as int,
            #[trigger] order[b] as int,
        )
}

/// The pull requests of one box, as positions in `prs`, in the order in which
/// the box shows them.
pub fn render_pr_box(prs: &Vec<Pr>, kind: PrBoxKind) -> (order: Vec<usize>)
    ensures
        is_box_order(crate::model::pr_views(prs@), kind, order@),
{
    let ghost views = crate::model::pr_views(prs@);
    let ghost all_ranks = views.map_values(|p: PrView| rank_of_pr(p));
    let mut members: Vec<usize> = Vec::new();
    let mut ranks: Vec<Rank> = Vec::new();
    let mut i: usize = 0;
    while i < prs.len()
        invariant
            i <= prs.len(),
            views == crate::model::pr_views(prs@),
            all_ranks == views.map_values(|p: PrView| rank_of_pr(p)),
            members@.len() == ranks@.len(),
            forall|a: int|
                0 <= a < members@.len() ==> (#[trigger] members@[a]) < i && category_of(
                    views[members@[a] as int].status,
                ) == kind && ranks@[a] == all_ranks[members@[a] as int],
            forall|a: int, b: int|
                0 <= a < b < members@.len() ==> #[trigger] members@[a] < #[trigger] members@[b],
            forall|k: usize|
                k < i && category_of(views[k as int].status) == kind ==> #[trigger] members@.contains(
                    k,
                ),
        decreases prs.len() - i,
    {
        proof {
            assert(views[i as int] == prs@[i as int]@);
        }
        if prs[i].sort_category() == kind {
            let ghost before = members@;
            members.push(i);
            ranks.push(rank(&prs[i]));
            proof {
                assert forall|k: usize|
                    k < i + 1 && category_of(views[k as int].status)
                        == kind implies #[trigger] members@.contains(k) by {
                    if k == i {
                        assert(members@[members@.len() - 1] == i);
                    } else {
                        assert(before.contains(k));
                        let a = choose|a: int| 0 <= a < before.len() && before[a] == k;
                        assert(members@[a] == k);
                    }
                }
            }
        }
        i = i + 1;
    }
    let inner = stable_order(&ranks);
    let mut order: Vec<usize> = Vec::new();
    let mut a: usize = 0;
    while a < inner.len()
        invariant
            a <= inner@.len(),
            inner@.len() == members@.len(),
            forall|x: int| 0 <= x < inner@.len() ==> (#[trigger] inner@[x]) < members@.len(),
            order@.len() == a,
            forall|x: int| 0 <= x < a ==> (#[trigger] order@[x]) == members@[inner@[x] as int],
        decreases inner@.len() - a,
    {
        order.push(members[inner[a]]);
        a = a + 1;
    }
    proof {
        assert forall|x: int, y: int| 0 <= x < y < order@.len() implies #[trigger] order@[x]
            != #[trigger] order@[y] && precedes(all_ranks, order@[x] as int, order@[y] as int) by {
            let p = inner@[x] as int;
            let q = inner@[y] as int;
            assert(precedes(ranks@, p, q));
            assert(ranks@[p] == all_ranks[members@[p] as int]);
            assert(ranks@[q] == all_ranks[members@[q] as int]);
            if p < q {
                assert(members@[p] < members@[q]);
            } else if q < p {
                assert(members@[q] < members@[p]);
            } else {
                assert(!precedes(ranks@, p, p));
            }
        }
        assert forall|k: usize|
            k < views.len() && category_of(views[k as int].status)
                == kind implies #[trigger] order@.contains(k) by {
            assert(members@.contains(k));
            let m = choose|m: int| 0 <= m < members@.len() && members@[m] == k;
            assert(inner@.contains(m as usize));
            let x = choose|x: int| 0 <= x < inner@.len() && inner@[x] == m as usize;
            assert(order@[x] == k);
        }
    }
    order
}

/// Of two different items one is shown before the other, never both.
proof fn lemma_precedes_is_strict(ranks: Seq<Rank>, x: int, y: int)
    requires
        0 <= x < ranks.len(),
        0 <= y < ranks.len(),
    ensures
        !(precedes(ranks, x, y) && precedes(ranks, y, x)),
        !precedes(ranks, x, x),
{
}

/// Whether `order` lists positions of `ranks`, none of them twice, each
/// before those that it precedes.
pub open spec fn is_sorted_listing(ranks: Seq<Rank>, order: Seq<usize>) -> bool {
    &&& forall|a: int| 0 <= a < order.len() ==> (#[trigger] order[a]) < ranks.len()
    &&& forall|a: int, b: int| 0 <= a < b < order.len() ==> #[trigger] order[a] != #[trigger] order[b]
    &&& forall|a: int, b: int|
        0 <= a < b < order.len() ==> precedes(
            ranks,
            #[trigger] order[a] as int,
            #[trigger] order[b] as int,
        )
}

/// Two sorted listings of the same positions are the same listing.
proof fn lemma_sorted_listing_is_unique(ranks: Seq<Rank>, first: Seq<usize>, second: Seq<usize>)
    requires
        is_sorted_listing(ranks, first),
        is_sorted_listing(ranks, second),
        forall|k: usize| first.contains(k) <==> second.contains(k),
    ensures
        first == second,
    decreases first.len(),
{
    if first.len() == 0 {
        if second.len() > 0 {
            assert(second.contains(second[0]));
        }
        assert(first =~= second);
    } else {
        let x = first[0];
        assert(first.contains(x));
        assert(second.contains(x));
        let j = choose|j: int| 0 <= j < second.len() && second[j] == x;
        if j > 0 {
            let y = second[0];
            assert(second.contains(y));
            assert(first.contains(y));
            let i = choose|i: int| 0 <= i < first.len() && first[i] == y;
            assert(i != 0);
            assert(precedes(ranks, first[0] as int, first[i] as int));
            assert(precedes(ranks, second[0] as int, second[j] as int));
            lemma_precedes_is_strict(ranks, x as int, y as int);
        }
        assert(second[0] == x);
        let a = first.drop_first();
        let b = second.drop_first();
        assert forall|k: usize| a.contains(k) <==> b.contains(k) by {
            if a.contains(k) {
                let i = choose|i: int| 0 <= i < a.len() && a[i] == k;
                assert(first[i + 1] == k);
                assert(first.contains(k));
                assert(second.contains(k));
                let m = choose|m: int| 0 <= m < second.len() && second[m] == k;
                assert(m != 0);
                assert(b[m - 1] == k);
            }
            if b.contains(k) {
                let i = choose|i: int| 0 <= i < b.len() && b[i] == k;
                assert(second[i + 1] == k);
                assert(second.contains(k));
                assert(first.contains(k));
                let m = choose|m: int| 0 <= m < first.len() && first[m] == k;
                assert(m != 0);
                assert(a[m - 1] == k);
            }
        }
        assert(is_sorted_listing(ranks, a)) by {
            assert forall|p: int, q: int| 0 <= p < q < a.len() implies #[trigger] a[p]
                != #[trigger] a[q] && precedes(ranks, a[p] as int, a[q] as int) by {
                assert(a[p] == first[p + 1] && a[q] == first[q + 1]);
            }
            assert forall|p: int| 0 <= p < a.len() implies (#[trigger] a[p]) < ranks.len() by {
                assert(a[p] == first[p + 1]);
            }
        }
        assert(is_sorted_listing(ranks, b)) by {
            assert forall|p: int, q: int| 0 <= p < q < b.len() implies #[trigger] b[p]
                != #[trigger] b[q] && precedes(ranks, b[p] as int, b[q] as int) by {
                assert(b[p] == second[p + 1] && b[q] == second[q + 1]);
            }
            assert forall|p: int| 0 <= p < b.len() implies (#[trigger] b[p]) < ranks.len() by {
                assert(b[p] == second[p + 1]);
            }
        }
        lemma_sorted_listing_is_unique(ranks, a, b);
        assert(first =~= seq![x] + a);
        assert(second =~= seq![x] + b);
    }
}

/// A box has one order: two orders in which the box `kind` can show the pull
/// requests `prs` are the same.
pub proof fn lemma_box_order_is_unique(
    prs: Seq<PrView>,
    kind: PrBoxKind,
    first: Seq<usize>,
    second: Seq<usize>,
)
    requires
        is_box_order(prs, kind, first),
        is_box_order(prs, kind, second),
    ensures
        first == second,
{
    let ranks = prs.map_values(|p: PrView| rank_of_pr(p));
    assert forall|k: usize| first.contains(k) <==> second.contains(k) by {
        if first.contains(k) {
            let i = choose|i: int| 0 <= i < first.len() && first[i] == k;
            assert(first[i] < prs.len());
        }
        if second.contains(k) {
            let i = choose|i: int| 0 <= i < second.len() && second[i] == k;
            assert(second[i] < prs.len());
        }
    }
    lemma_sorted_listing_is_unique(ranks, first, second);
}

/// Whether two pull requests of one box are ordered among themselves by age:
/// neither has a place in the queue of its own, and if one is in a batch, the
/// other is in the same batch.
pub open spec fn ordered_by_age(first: PrView, second: PrView) -> bool {
    match (sort_key(first), sort_key(second)) {
        (QueuedSortKey::Other(_), QueuedSortKey::Other(_)) => true,
        (QueuedSortKey::Rollup(a), QueuedSortKey::Rollup(b)) => a == b,
        _ => false,
    }
}

/// In every box but that of the queue, all pull requests are ordered among
/// themselves by age.
pub proof fn lemma_plain_boxes_are_by_age(first: PrView, second: PrView)
    requires
        category_of(first.status) != PrBoxKind::Queue,
        category_of(second.status) != PrBoxKind::Queue,
    ensures
        ordered_by_age(first, second),
{
}

/// A box shows the older pull request first: of two pull requests that are
/// ordered by age and whose times of creation are well formed, the one that
/// the box shows first was created no later than the other.
pub proof fn lemma_box_order_is_by_age(
    prs: Seq<PrView>,
    kind: PrBoxKind,
    order: Seq<usize>,
    a: int,
    b: int,
)
    requires
        is_box_order(prs, kind, order),
        0 <= a < b < order.len(),
        ordered_by_age(prs[order[a] as int], prs[order[b] as int]),
        prs[order[a] as int].created.wf(),
        prs[order[b] as int].created.wf(),
    ensures
        prs[order[a] as int].created.as_nanosecond() <= prs[order[b] as int].created.as_nanosecond(),
{
    let ranks = prs.map_values(|p: PrView| rank_of_pr(p));
    let x = order[a] as int;
    let y = order[b] as int;
    assert(order[a] < prs.len() && order[b] < prs.len());
    assert(precedes(ranks, x, y));
    assert(ranks[x] == rank_of_pr(prs[x]));
    assert(ranks[y] == rank_of_pr(prs[y]));
    assert(!ranks[y].lt(ranks[x]));
    assert(prs[x].created.key_le(prs[y].created));
    crate::time::lemma_key_order_is_time_order(prs[x].created, prs[y].created);
}

// ---------------------------------------------------------------------------
// Batches in a box
// ---------------------------------------------------------------------------

/// What a box shows in one place: one pull request, or the members of one
/// batch together. Pull requests are given as positions in the list.
#[derive(Debug, PartialEq, Eq)]
pub enum BoxEntry {
    Single(usize),
    Rollup(Vec<usize>),
}

/// The view of a [`BoxEntry`]: the same value, with sequences for its strings and vectors.
pub enum BoxEntryView {
    Single(usize),
    Rollup(Seq<usize>),
}

impl View for BoxEntry {
    type V = BoxEntryView;

    open spec fn view(&self) -> BoxEntryView {
        match *self {
            BoxEntry::Single(i) => BoxEntryView::Single(i),
            BoxEntry::Rollup(members) => BoxEntryView::Rollup(members@),
        }
    }
}

/// The views of the entries in `entries`, in order.
pub open spec fn entry_views(entries: Seq<BoxEntry>) -> Seq<BoxEntryView> {
    entries.map_values(|e: BoxEntry| e@)
}

/// The pull requests of an entry, in order.
pub open spec fn members_of(entry: BoxEntryView) -> Seq<usize> {
    match entry {
        BoxEntryView::Single(i) => seq![i],
        BoxEntryView::Rollup(members) => members,
    }
}

/// The pull requests of all of `entries`, in order.
pub open spec fn flattened(entries: Seq<BoxEntryView>) -> Seq<usize>
    decreases entries.len(),
{
    if entries.len() == 0 {
        Seq::empty()
    } else {
        flattened(entries.drop_last()) + members_of(entries.last())
    }
}

/// The batch that the pull request at `i` is ordered by, if it is ordered by
/// one.
pub open spec fn batch_of(prs: Seq<PrView>, i: usize) -> Option<RollupPosition> {
    match sort_key(prs[i as int]) {
        QueuedSortKey::Rollup(position) => Some(position),
        _ => None,
    }
}

/// Whether an entry is drawn as it should be: a pull request that stands
/// alone is in no batch, and the members of a batch entry are all in one
/// batch.
pub open spec fn entry_ok(prs: Seq<PrView>, entry: BoxEntryView) -> bool {
    match entry {
        BoxEntryView::Single(i) => i < prs.len() && batch_of(prs, i) is None,
        BoxEntryView::Rollup(members) => {
            &&& members.len() > 0
            &&& batch_of(prs, members[0]) is Some
            &&& forall|m: int|
                0 <= m < members.len() ==> (#[trigger] members[m]) < prs.len() && batch_of(
                    prs,
                    members[m],
                ) == batch_of(prs, members[0])
        },
    }
}

/// Whether `second` may follow `first`: two batch entries that follow each
/// other are of different batches.
pub open spec fn may_follow(prs: Seq<PrView>, first: BoxEntryView, second: BoxEntryView) -> bool {
    match (first, second) {
        (BoxEntryView::Rollup(a), BoxEntryView::Rollup(b)) => batch_of(prs, a[0]) != batch_of(
            prs,
            b[0],
        ),
        _ => true,
    }
}

/// Whether `entries` draw batches as they should: every entry is drawn as it
/// should be, and no batch is drawn in two pieces side by side.
pub open spec fn well_grouped(prs: Seq<PrView>, entries: Seq<BoxEntryView>) -> bool {
    &&& forall|e: int| 0 <= e < entries.len() ==> entry_ok(prs, #[trigger] entries[e])
    &&& forall|e: int|
        0 < e < entries.len() ==> may_follow(prs, entries[e - 1], #[trigger] entries[e])
}

/// One more entry that is drawn as it should be and may follow the last one
/// keeps the entries well grouped, and adds its members at the end.
proof fn lemma_push_entry(prs: Seq<PrView>, entries: Seq<BoxEntryView>, entry: BoxEntryView)
    requires
        well_grouped(prs, entries),
        entry_ok(prs, entry),
        entries.len() > 0 ==> may_follow(prs, entries.last(), entry),
    ensures
        well_grouped(prs, entries.push(entry)),
        flattened(entries.push(entry)) == flattened(entries) + members_of(entry),
{
    let after = entries.push(entry);
    assert(after.drop_last() =~= entries);
    assert forall|e: int| 0 <= e < after.len() implies entry_ok(prs, #[trigger] after[e]) by {
        if e < entries.len() {
            assert(after[e] == entries[e]);
        }
    }
    assert forall|e: int| 0 < e < after.len() implies may_follow(
        prs,
        after[e - 1],
        #[trigger] after[e],
    ) by {
        if e < entries.len() {
            assert(after[e] == entries[e]);
            assert(after[e - 1] == entries[e - 1]);
        } else {
            assert(after[e - 1] == entries.last());
        }
    }
}

/// The batch that a pull request is ordered by.
fn batch(pr: &Pr) -> (b: Option<RollupPosition>)
    ensures
        b == match sort_key(pr@) {
            QueuedSortKey::Rollup(position) => Some(position),
            _ => None,
        },
{
    match key_of(pr) {
        QueuedSortKey::Rollup(position) => Some(position),
        _ => None,
    }
}

/// The batch that the pull request at `order[at]` is ordered by.
fn batch_at(prs: &Vec<Pr>, order: &Vec<usize>, at: usize) -> (b: Option<RollupPosition>)
    requires
        at < order@.len(),
        order@[at as int] < prs@.len(),
    ensures
        b == batch_of(crate::model::pr_views(prs@), order@[at as int]),
{
    proof {
        assert(crate::model::pr_views(prs@)[order@[at as int] as int]
            == prs@[order@[at as int] as int]@);
    }
    batch(&prs[order[at]])
}

/// The neighbours from `order[start]` on that are ordered by the batch
/// `position`, as `order[start]` is: the members, and where they end.
fn take_batch(prs: &Vec<Pr>, order: &Vec<usize>, start: usize, position: RollupPosition) -> (r: (
    Vec<usize>,
    usize,
))
    requires
        start < order@.len(),
        forall|a: int| 0 <= a < order@.len() ==> (#[trigger] order@[a]) < prs@.len(),
        batch_of(crate::model::pr_views(prs@), order@[start as int]) == Some(position),
    ensures
        start < r.1 <= order@.len(),
        r.0@ == order@.subrange(start as int, r.1 as int),
        entry_ok(crate::model::pr_views(prs@), BoxEntryView::Rollup(r.0@)),
        r.1 < order@.len() ==> batch_of(crate::model::pr_views(prs@), order@[r.1 as int]) != Some(
            position,
        ),
{
    let ghost views = crate::model::pr_views(prs@);
    let n = order.len();
    let mut members: Vec<usize> = Vec::new();
    members.push(order[start]);
    let mut at: usize = start + 1;
    proof {
        assert(members@ =~= order@.subrange(start as int, at as int));
    }
    while at < n && batch_at(prs, order, at) == Some(position)
        invariant
            start < at <= n == order@.len(),
            views == crate::model::pr_views(prs@),
            forall|a: int| 0 <= a < order@.len() ==> (#[trigger] order@[a]) < prs@.len(),
            members@ == order@.subrange(start as int, at as int),
            forall|m: int|
                start <= m < at ==> batch_of(views, #[trigger] order@[m]) == Some(position),
        decreases n - at,
    {
        members.push(order[at]);
        at = at + 1;
        proof {
            assert(members@ =~= order@.subrange(start as int, at as int));
        }
    }
    proof {
        let group = members@;
        assert(group[0] == order@[start as int]);
        assert forall|m: int| 0 <= m < group.len() implies (#[trigger] group[m]) < views.len()
            && batch_of(views, group[m]) == batch_of(views, group[0]) by {
            assert(group[m] == order@[start + m]);
        }
    }
    (members, at)
}

/// Draws `order` as entries: neighbours that are ordered by the same batch
/// go into one entry, and every other pull request stands alone.
pub fn group_batches(prs: &Vec<Pr>, order: &Vec<usize>) -> (entries: Vec<BoxEntry>)
    requires
        forall|a: int| 0 <= a < order@.len() ==> (#[trigger] order@[a]) < prs@.len(),
    ensures
        flattened(entry_views(entries@)) == order@,
        well_grouped(crate::model::pr_views(prs@), entry_views(entries@)),
{
    let ghost views = crate::model::pr_views(prs@);
    let n = order.len();
    let mut entries: Vec<BoxEntry> = Vec::new();
    let mut at: usize = 0;
    proof {
        assert(entry_views(entries@) =~= Seq::<BoxEntryView>::empty());
        assert(order@.take(0) =~= Seq::<usize>::empty());
    }
    while at < n
        invariant
            at <= n == order@.len(),
            views == crate::model::pr_views(prs@),
            forall|a: int| 0 <= a < order@.len() ==> (#[trigger] order@[a]) < prs@.len(),
            flattened(entry_views(entries@)) == order@.take(at as int),
            well_grouped(views, entry_views(entries@)),
            at < n && entries@.len() > 0 ==> (entry_views(entries@).last() matches BoxEntryView::Rollup(
                a,
            ) ==> batch_of(views, a[0]) != batch_of(views, order@[at as int])),
        decreases n - at,
    {
        let ghost before = entry_views(entries@);
        let ghost start = at;
        let first = order[at];
        match batch_at(prs, order, at) {
            Some(position) => {
                let (members, end) = take_batch(prs, order, at, position);
                let ghost group = members@;
                proof {
                    assert(group[0] == first);
                    lemma_push_entry(views, before, BoxEntryView::Rollup(group));
                    assert(order@.take(start as int) + group =~= order@.take(end as int));
                }
                entries.push(BoxEntry::Rollup(members));
                at = end;
                proof {
                    assert(entry_views(entries@) =~= before.push(BoxEntryView::Rollup(group)));
                }
            },
            None => {
                proof {
                    lemma_push_entry(views, before, BoxEntryView::Single(first));
                    assert(order@.take(start as int) + seq![first] =~= order@.take(start + 1));
                }
                entries.push(BoxEntry::Single(first));
                at = at + 1;
                proof {
                    assert(entry_views(entries@) =~= before.push(BoxEntryView::Single(first)));
                }
            },
        }
    }
    proof {
        assert(order@.take(at as int) =~= order@);
    }
    entries
}

/// What one box shows, place by place: its pull requests in the order of the
/// box, with the members of each batch together.
pub fn box_entries(prs: &Vec<Pr>, kind: PrBoxKind) -> (entries: Vec<BoxEntry>)
    ensures
        is_box_order(crate::model::pr_views(prs@), kind, flattened(entry_views(entries@))),
        well_grouped(crate::model::pr_views(prs@), entry_views(entries@)),
{
    let order = render_pr_box(prs, kind);
    proof {
        assert(crate::model::pr_views(prs@).len() == prs@.len());
    }
    group_batches(prs, &order)
}

// ---------------------------------------------------------------------------
// Words
// ---------------------------------------------------------------------------

/// The heading of a box.
pub open spec fn box_title(kind: PrBoxKind) -> Seq<char> {
    match kind {
        PrBoxKind::WorkReady => "Ready to work on"@,
        PrBoxKind::TodoReview => "Waiting for me to review"@,
        PrBoxKind::Stalled => "Waiting"@,
        PrBoxKind::Queue => "Queued"@,
        PrBoxKind::Draft => "Drafts"@,
        PrBoxKind::Other => "Other"@,
    }
}

/// The two letters that follow a number to make it an ordinal, chosen by its
/// last digit.
pub open spec fn ordinal_ending(number: usize) -> Seq<char> {
    if number % 10 == 1 {
        "st"@
    } else if number % 10 == 2 {
        "nd"@
    } else if number % 10 == 3 {
        "rd"@
    } else {
        "th"@
    }
}

/// What a badge says of a batching policy; nothing where the policy needs no
/// mention.
pub open spec fn rollup_setting_words(setting: RollupSetting) -> Seq<char> {
    match setting {
        RollupSetting::Never => "rollup=never"@,
        RollupSetting::Iffy => "rollup=iffy"@,
        RollupSetting::Always => ""@,
        RollupSetting::Unset => ""@,
    }
}

/// What the mark of a health says when it is pointed at; nothing where the
/// health has no mark.
pub open spec fn ci_words(health: CiStatus) -> Seq<char> {
    match health {
        CiStatus::Conflicted => "conflicted"@,
        CiStatus::Good => "passing"@,
        CiStatus::Running => "in progress"@,
        CiStatus::Bad => "failing"@,
        CiStatus::Unknown => ""@,
        CiStatus::Draft => ""@,
    }
}

/// What a badge says of a reason to wait, where that does not depend on the
/// time of day; `None` where it does, and nothing where the reason has no
/// badge.
pub open spec fn waiting_words(reason: WaitingReason) -> Option<Seq<char>> {
    match reason {
        WaitingReason::Blocked => Some("blocked"@),
        WaitingReason::Author => Some("Waiting for author"@),
        WaitingReason::Review => Some("Waiting for review"@),
        WaitingReason::CraterRun(CraterStatus::Unknown) => Some(
            "running crater, context unknown (bug?)"@,
        ),
        WaitingReason::CraterRun(CraterStatus::GeneratingReport) => Some(
            "generating crater report"@,
        ),
        WaitingReason::CraterRun(_) => None,
        WaitingReason::Fcp(_) => None,
        WaitingReason::TryBuild() => Some(""@),
        WaitingReason::PerfRun() => Some(""@),
        WaitingReason::Unknown => Some(""@),
    }
}

/// The view of a string slice that may be missing.
pub open spec fn option_str_view(s: Option<&'static str>) -> Option<Seq<char>> {
    match s {
        Some(x) => Some(x@),
        None => None,
    }
}

impl PrBoxKind {
    /// The heading of the box.
    pub fn title(&self) -> (words: &'static str)
        ensures
            words@ == box_title(*self),
    {
        match self {
            PrBoxKind::WorkReady => "Ready to work on",
            PrBoxKind::TodoReview => "Waiting for me to review",
            PrBoxKind::Stalled => "Waiting",
            PrBoxKind::Queue => "Queued",
            PrBoxKind::Draft => "Drafts",
            PrBoxKind::Other => "Other",
        }
    }
}

/// The two letters that follow `number` to make it an ordinal.
pub fn ordinal_suffix(number: usize) -> (ending: &'static str)
    ensures
        ending@ == ordinal_ending(number),
{
    let last = number % 10;
    if last == 1 {
        "st"
    } else if last == 2 {
        "nd"
    } else if last == 3 {
        "rd"
    } else {
        "th"
    }
}

/// What a badge says of a batching policy.
pub fn rollup_setting_badge(setting: RollupSetting) -> (words: &'static str)
    ensures
        words@ == rollup_setting_words(setting),
{
    match setting {
        RollupSetting::Never => "rollup=never",
        RollupSetting::Iffy => "rollup=iffy",
        RollupSetting::Always => "",
        RollupSetting::Unset => "",
    }
}

/// What the mark of a health says when it is pointed at.
pub fn ci_title(health: CiStatus) -> (words: &'static str)
    ensures
        words@ == ci_words(health),
{
    match health {
        CiStatus::Conflicted => "conflicted",
        CiStatus::Good => "passing",
        CiStatus::Running => "in progress",
        CiStatus::Bad => "failing",
        CiStatus::Unknown => "",
        CiStatus::Draft => "",
    }
}

/// What a badge says of a reason to wait, where that does not depend on the
/// time of day.
pub fn waiting_badge(reason: WaitingReason) -> (words: Option<&'static str>)
    ensures
        option_str_view(words) == waiting_words(reason),
{
    match reason {
        WaitingReason::Blocked => Some("blocked"),
        WaitingReason::Author => Some("Waiting for author"),
        WaitingReason::Review => Some("Waiting for review"),
        WaitingReason::CraterRun(CraterStatus::Unknown) => Some(
            "running crater, context unknown (bug?)",
        ),
        WaitingReason::CraterRun(CraterStatus::GeneratingReport) => Some(
            "generating crater report",
        ),
        WaitingReason::CraterRun(_) => None,
        WaitingReason::Fcp(_) => None,
        WaitingReason::TryBuild() => Some(""),
        WaitingReason::PerfRun() => Some(""),
        WaitingReason::Unknown => Some(""),
    }
}

} // verus!
