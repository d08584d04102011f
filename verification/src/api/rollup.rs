//! Batches: pull requests in the merge queue that bundle others.

use crate::api::bors::{BorsPr, BorsPrView, BorsQueue, BorsStatus, BorsStatusView};
use crate::model::option_string_view;
use crate::text::{
    chars_of, find_char, first_index_of, has_prefix, parse_u64_range, parsed_u64, split_once,
    starts_with, strip_prefix, trim_range, trimmed,
};
use vstd::prelude::*;

verus! {

/// A batch in the merge queue and the pull requests it bundles.
#[derive(Debug, PartialEq, Eq)]
pub struct Rollup {
    /// The number of the batch itself.
    pub pr_number: u64,
    pub running: bool,
    pub position_in_queue: usize,
    /// The numbers of the pull requests in the batch.
    pub pr_numbers: Vec<u64>,
    /// What the merge queue says of the batch.
    pub status: BorsStatus,
    pub pr_link: String,
}

/// The view of a [`Rollup`]: the same value, with sequences for its strings and vectors.
pub struct RollupView {
    pub pr_number: u64,
    pub running: bool,
    pub position_in_queue: usize,
    pub pr_numbers: Seq<u64>,
    pub status: BorsStatusView,
    pub pr_link: Seq<char>,
}

impl View for Rollup {
    type V = RollupView;

    open spec fn view(&self) -> RollupView {
        RollupView {
            pr_number: self.pr_number,
            running: self.running,
            position_in_queue: self.position_in_queue,
            pr_numbers: self.pr_numbers@,
            status: self.status@,
            pr_link: self.pr_link@,
        }
    }
}

/// The batches of one merge queue, in the order of the queue: the first is the
/// next to run.
#[derive(Debug, PartialEq, Eq)]
pub struct RollupQueue {
    pub rollups: Vec<Rollup>,
}

impl View for RollupQueue {
    type V = Seq<RollupView>;

    open spec fn view(&self) -> Seq<RollupView> {
        self.rollups@.map_values(|r: Rollup| r@)
    }
}

impl Default for RollupQueue {
    fn default() -> (r: Self)
        ensures
            r@ == Seq::<RollupView>::empty(),
    {
        let r = RollupQueue { rollups: Vec::new() };
        proof {
            assert(r@ =~= Seq::<RollupView>::empty());
        }
        r
    }
}

/// What was fetched of a batch: its description, if it has one, and its link.
#[derive(Debug, PartialEq, Eq)]
pub struct RollupPage {
    pub pr_number: u64,
    pub body: Option<String>,
    pub link: String,
}

/// The view of a [`RollupPage`]: the same value, with sequences for its strings and vectors.
pub struct RollupPageView {
    pub pr_number: u64,
    pub body: Option<Seq<char>>,
    pub link: Seq<char>,
}

impl View for RollupPage {
    type V = RollupPageView;

    open spec fn view(&self) -> RollupPageView {
        RollupPageView {
            pr_number: self.pr_number,
            body: option_string_view(self.body),
            link: self.link@,
        }
    }
}

/// The views of the pages in `pages`, in order.
pub open spec fn page_views(pages: Seq<RollupPage>) -> Seq<RollupPageView> {
    pages.map_values(|p: RollupPage| p@)
}

// ---------------------------------------------------------------------------
// The members of a batch
// ---------------------------------------------------------------------------

/// The pull request that one line of a batch's description names: the line,
/// without the white space around it, reads `- `, anything, `#`, a number, a
/// space, anything.
pub open spec fn member_of_line(line: Seq<char>) -> Option<u64> {
    match strip_prefix(trimmed(line), "- "@) {
        None => None,
        Some(item) => match split_once(item, '#') {
            None => None,
            Some((_, rest)) => match split_once(rest, ' ') {
                None => None,
                Some((number, _)) => parsed_u64(number),
            },
        },
    }
}

/// The pull requests that a batch's description names, line by line; a line
/// that names none is passed over.
pub open spec fn rollup_members(body: Seq<char>) -> Seq<u64>
    decreases body.len(),
{
    if body.len() == 0 {
        Seq::empty()
    } else {
        let n = first_index_of(body, '\n');
        let rest = if 0 <= n < body.len() {
            rollup_members(body.skip(n + 1))
        } else {
            Seq::empty()
        };
        match member_of_line(body.take(n)) {
            Some(number) => seq![number] + rest,
            None => rest,
        }
    }
}

/// The pull request that the line `s[lo..hi]` names.
fn member_of_range(s: &Vec<char>, lo: usize, hi: usize) -> (r: Option<u64>)
    requires
        lo <= hi <= s.len(),
    ensures
        r == member_of_line(s@.subrange(lo as int, hi as int)),
{
    let dash = chars_of("- ");
    proof {
        reveal_strlit("- ");
    }
    let (a, b) = trim_range(s, lo, hi);
    let ghost line = s@.subrange(a as int, b as int);
    if !has_prefix(s, a, b, &dash) {
        return None;
    }
    let c = a + 2;
    let ghost item = s@.subrange(c as int, b as int);
    proof {
        assert(line.skip(2) =~= item);
    }
    let hash = match find_char(s, c, b, '#') {
        Some(i) => i,
        None => {
            return None;
        },
    };
    let ghost rest = s@.subrange(hash + 1, b as int);
    proof {
        assert(item.skip(hash - c + 1) =~= rest);
    }
    let space = match find_char(s, hash + 1, b, ' ') {
        Some(i) => i,
        None => {
            return None;
        },
    };
    proof {
        assert(rest.take(space - (hash + 1)) =~= s@.subrange(hash + 1, space as int));
    }
    parse_u64_range(s, hash + 1, space)
}

/// The pull requests that a batch's description names.
pub fn parse_members(body: &str) -> (members: Vec<u64>)
    ensures
        members@ == rollup_members(body@),
{
    let chars = chars_of(body);
    let n = chars.len();
    let mut members: Vec<u64> = Vec::new();
    let mut lo: usize = 0;
    proof {
        assert(chars@.subrange(0, n as int) =~= body@);
    }
    while lo < n
        invariant
            lo <= n == chars.len(),
            rollup_members(chars@.subrange(0, n as int)) == members@ + rollup_members(
                chars@.subrange(lo as int, n as int),
            ),
        decreases n - lo,
    {
        let ghost tail = chars@.subrange(lo as int, n as int);
        let end = match find_char(&chars, lo, n, '\n') {
            Some(i) => i,
            None => n,
        };
        proof {
            assert(tail.take(end - lo) =~= chars@.subrange(lo as int, end as int));
            if end < n {
                assert(tail.skip(end - lo + 1) =~= chars@.subrange(end + 1, n as int));
            }
        }
        let ghost before = members@;
        match member_of_range(&chars, lo, end) {
            Some(number) => {
                members.push(number);
                proof {
                    let rest = if end < n {
                        rollup_members(chars@.subrange(end + 1, n as int))
                    } else {
                        Seq::empty()
                    };
                    assert(before + (seq![number] + rest) =~= members@ + rest);
                }
            },
            None => {},
        }
        if end < n {
            lo = end + 1;
        } else {
            lo = n;
            proof {
                assert(members@ + Seq::<u64>::empty() =~= members@);
                assert(rollup_members(chars@.subrange(n as int, n as int)) =~= Seq::<u64>::empty());
            }
        }
    }
    proof {
        assert(rollup_members(chars@.subrange(lo as int, n as int)) =~= Seq::<u64>::empty());
        assert(members@ + Seq::<u64>::empty() =~= members@);
    }
    members
}

// ---------------------------------------------------------------------------
// The batches of a queue
// ---------------------------------------------------------------------------

/// Whether a row with this title is a batch.
pub open spec fn is_batch_title(title: Seq<char>) -> bool {
    "Rollup of"@.is_prefix_of(title)
}

/// The numbers of the batches among `rows`, in order.
pub open spec fn batch_numbers(rows: Seq<BorsPrView>) -> Seq<u64>
    decreases rows.len(),
{
    if rows.len() == 0 {
        Seq::empty()
    } else {
        let front = batch_numbers(rows.drop_last());
        if is_batch_title(rows.last().title) {
            front.push(rows.last().pr_number)
        } else {
            front
        }
    }
}

/// The position in `pages` of the first page of pull request `number`, or the
/// length of `pages` if it has none.
pub open spec fn page_index(pages: Seq<RollupPageView>, number: u64) -> int
    decreases pages.len(),
{
    if pages.len() == 0 || pages[0].pr_number == number {
        0
    } else {
        1 + page_index(pages.drop_first(), number)
    }
}

/// The first page of pull request `number` in `pages`.
pub open spec fn page_for(pages: Seq<RollupPageView>, number: u64) -> Option<RollupPageView> {
    let i = page_index(pages, number);
    if 0 <= i < pages.len() {
        Some(pages[i])
    } else {
        None
    }
}

/// The batch that the queue row `row` stands for: its title is that of a
/// batch, and its page was fetched and has a description.
pub open spec fn rollup_of_row(row: BorsPrView, pages: Seq<RollupPageView>) -> Option<RollupView> {
    if !is_batch_title(row.title) {
        None
    } else {
        match page_for(pages, row.pr_number) {
            Some(RollupPageView { body: Some(body), link, .. }) => Some(
                RollupView {
                    pr_number: row.pr_number,
                    running: row.position_in_queue == 1,
                    position_in_queue: row.position_in_queue,
                    pr_numbers: rollup_members(body),
                    status: row.status,
                    pr_link: link,
                },
            ),
            _ => None,
        }
    }
}

/// The batches that the queue rows `rows` stand for, in order.
pub open spec fn rollups_of(rows: Seq<BorsPrView>, pages: Seq<RollupPageView>) -> Seq<RollupView>
    decreases rows.len(),
{
    if rows.len() == 0 {
        Seq::empty()
    } else {
        let front = rollups_of(rows.drop_last(), pages);
        match rollup_of_row(rows.last(), pages) {
            Some(rollup) => front.push(rollup),
            None => front,
        }
    }
}

/// The numbers of the batches in the queue, in order: the pull requests whose
/// pages must be fetched to know the batches.
pub fn rollup_rows(bors_queue: &BorsQueue) -> (numbers: Vec<u64>)
    ensures
        numbers@ == batch_numbers(bors_queue@),
{
    let mut numbers: Vec<u64> = Vec::new();
    let mut i: usize = 0;
    while i < bors_queue.items.len()
        invariant
            i <= bors_queue.items.len(),
            numbers@ == batch_numbers(bors_queue@.take(i as int)),
        decreases bors_queue.items.len() - i,
    {
        proof {
            assert(bors_queue@.take(i + 1).drop_last() =~= bors_queue@.take(i as int));
            assert(bors_queue@.take(i + 1).last() == bors_queue.items@[i as int]@);
        }
        let row = &bors_queue.items[i];
        if starts_with(row.title.as_str(), "Rollup of") {
            numbers.push(row.pr_number);
        }
        i = i + 1;
    }
    proof {
        assert(bors_queue@.take(i as int) =~= bors_queue@);
    }
    numbers
}

/// The first page of pull request `number` among `pages`.
fn find_page(pages: &Vec<RollupPage>, number: u64) -> (page: Option<&RollupPage>)
    ensures
        match page {
            Some(p) => page_for(page_views(pages@), number) == Some(p@),
            None => page_for(page_views(pages@), number) is None,
        },
{
    let ghost views = page_views(pages@);
    let mut i: usize = 0;
    proof {
        assert(views.skip(0) =~= views);
    }
    while i < pages.len()
        invariant
            i <= pages.len(),
            views == page_views(pages@),
            page_index(views, number) == i + page_index(views.skip(i as int), number),
        decreases pages.len() - i,
    {
        proof {
            assert(views.skip(i as int)[0] == pages@[i as int]@);
            assert(views.skip(i as int).drop_first() =~= views.skip(i + 1));
        }
        if pages[i].pr_number == number {
            return Some(&pages[i]);
        }
        i = i + 1;
    }
    None
}

/// The batch that the queue row `row` stands for.
fn rollup_from_row(row: &BorsPr, pages: &Vec<RollupPage>) -> (rollup: Option<Rollup>)
    ensures
        match rollup {
            Some(r) => rollup_of_row(row@, page_views(pages@)) == Some(r@),
            None => rollup_of_row(row@, page_views(pages@)) is None,
        },
{
    if !starts_with(row.title.as_str(), "Rollup of") {
        return None;
    }
    let page = match find_page(pages, row.pr_number) {
        Some(p) => p,
        None => {
            return None;
        },
    };
    let body = match &page.body {
        Some(b) => b,
        None => {
            return None;
        },
    };
    Some(
        Rollup {
            pr_number: row.pr_number,
            running: row.position_in_queue == 1,
            position_in_queue: row.position_in_queue,
            pr_numbers: parse_members(body.as_str()),
            status: row.status.clone(),
            pr_link: page.link.clone(),
        },
    )
}

/// The batches of a merge queue, from the queue and the pages that were
/// fetched for its batches. A batch whose page is not among `pages`, or has no
/// description, is left out.
pub fn find_rollups(bors_queue: &BorsQueue, pages: &Vec<RollupPage>) -> (queue: RollupQueue)
    ensures
        queue@ == rollups_of(bors_queue@, page_views(pages@)),
{
    let mut rollups: Vec<Rollup> = Vec::new();
    let mut i: usize = 0;
    while i < bors_queue.items.len()
        invariant
            i <= bors_queue.items.len(),
            rollups@.map_values(|r: Rollup| r@) == rollups_of(
                bors_queue@.take(i as int),
                page_views(pages@),
            ),
        decreases bors_queue.items.len() - i,
    {
        let ghost before = rollups@.map_values(|r: Rollup| r@);
        proof {
            assert(bors_queue@.take(i + 1).drop_last() =~= bors_queue@.take(i as int));
            assert(bors_queue@.take(i + 1).last() == bors_queue.items@[i as int]@);
        }
        match rollup_from_row(&bors_queue.items[i], pages) {
            Some(rollup) => {
                rollups.push(rollup);
                proof {
                    assert(rollups@.map_values(|r: Rollup| r@) =~= before.push(rollup@));
                }
            },
            None => {},
        }
        i = i + 1;
    }
    proof {
        assert(bors_queue@.take(i as int) =~= bors_queue@);
    }
    RollupQueue { rollups }
}

/// The batches of a merge queue as far as they are known: `pages` holds what
/// was fetched for the queue's batches, or is `None` where a fetch failed,
/// which leaves no batches at all.
pub fn rollup_info(bors_queue: &BorsQueue, pages: Option<&Vec<RollupPage>>) -> (queue: RollupQueue)
    ensures
        queue@ == match pages {
            Some(fetched) => rollups_of(bors_queue@, page_views(fetched@)),
            None => Seq::empty(),
        },
{
    match pages {
        Some(fetched) => find_rollups(bors_queue, fetched),
        None => RollupQueue::default(),
    }
}

} // verus!
