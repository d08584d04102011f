//! The merge queue: what its page says of each pull request in it.

use crate::api::page::{page_cells, read_rows, rows_view};
use crate::model::{RepoInfo, RollupSetting};
use crate::text::{parse_u64, parsed_u64, str_eq, trim, trimmed};
use vstd::prelude::*;

verus! {

/// What the merge queue says of a pull request's last run.
#[derive(Debug, PartialEq, Eq)]
pub enum BorsStatus {
    /// The queue has nothing to say yet.
    Unset,
    Approved,
    Pending,
    Failure,
    Error,
    Success,
    Other(String),
}

/// The view of a [`BorsStatus`]: the same value, with sequences for its strings and vectors.
pub enum BorsStatusView {
    Unset,
    Approved,
    Pending,
    Failure,
    Error,
    Success,
    Other(Seq<char>),
}

impl View for BorsStatus {
    type V = BorsStatusView;

    open spec fn view(&self) -> BorsStatusView {
        match *self {
            BorsStatus::Unset => BorsStatusView::Unset,
            BorsStatus::Approved => BorsStatusView::Approved,
            BorsStatus::Pending => BorsStatusView::Pending,
            BorsStatus::Failure => BorsStatusView::Failure,
            BorsStatus::Error => BorsStatusView::Error,
            BorsStatus::Success => BorsStatusView::Success,
            BorsStatus::Other(text) => BorsStatusView::Other(text@),
        }
    }
}

impl Clone for BorsStatus {
    fn clone(&self) -> (r: Self)
        ensures
            r@ == self@,
    {
        match self {
            BorsStatus::Unset => BorsStatus::Unset,
            BorsStatus::Approved => BorsStatus::Approved,
            BorsStatus::Pending => BorsStatus::Pending,
            BorsStatus::Failure => BorsStatus::Failure,
            BorsStatus::Error => BorsStatus::Error,
            BorsStatus::Success => BorsStatus::Success,
            BorsStatus::Other(text) => BorsStatus::Other(text.clone()),
        }
    }
}

impl BorsStatus {
    /// Whether the pull request is approved or being tested: the two states
    /// in which it counts as queued.
    pub fn is_queued(&self) -> (b: bool)
        ensures
            b == (self@ is Approved || self@ is Pending),
    {
        match self {
            BorsStatus::Approved => true,
            BorsStatus::Pending => true,
            _ => false,
        }
    }

    /// Whether a batch in this state can still take its members through the
    /// queue: it is approved, being tested, or has passed.
    pub fn is_live(&self) -> (b: bool)
        ensures
            b == (self@ is Pending || self@ is Success || self@ is Approved),
    {
        match self {
            BorsStatus::Pending => true,
            BorsStatus::Success => true,
            BorsStatus::Approved => true,
            _ => false,
        }
    }
}

/// One row of the merge queue.
#[derive(Debug, PartialEq, Eq)]
pub struct BorsPr {
    pub pr_number: u64,
    pub approver: String,
    pub status: BorsStatus,
    pub mergeable: bool,
    pub rollup_setting: RollupSetting,
    pub priority: u64,
    pub title: String,
    /// Where the row stood on the page, counting from 1.
    pub position_in_queue: usize,
    /// Whether the row stood first, which is where the run in progress stands.
    pub running: bool,
}

/// The view of a [`BorsPr`]: the same value, with sequences for its strings and vectors.
pub struct BorsPrView {
    pub pr_number: u64,
    pub approver: Seq<char>,
    pub status: BorsStatusView,
    pub mergeable: bool,
    pub rollup_setting: RollupSetting,
    pub priority: u64,
    pub title: Seq<char>,
    pub position_in_queue: usize,
    pub running: bool,
}

impl View for BorsPr {
    type V = BorsPrView;

    open spec fn view(&self) -> BorsPrView {
        BorsPrView {
            pr_number: self.pr_number,
            approver: self.approver@,
            status: self.status@,
            mergeable: self.mergeable,
            rollup_setting: self.rollup_setting,
            priority: self.priority,
            title: self.title@,
            position_in_queue: self.position_in_queue,
            running: self.running,
        }
    }
}

impl Clone for BorsPr {
    fn clone(&self) -> (r: Self)
        ensures
            r@ == self@,
    {
        BorsPr {
            pr_number: self.pr_number,
            approver: self.approver.clone(),
            status: self.status.clone(),
            mergeable: self.mergeable,
            rollup_setting: self.rollup_setting,
            priority: self.priority,
            title: self.title.clone(),
            position_in_queue: self.position_in_queue,
            running: self.running,
        }
    }
}

/// The view of a row that may be missing.
pub open spec fn option_row_view(row: Option<&BorsPr>) -> Option<BorsPrView> {
    match row {
        Some(b) => Some(b@),
        None => None,
    }
}

/// The merge queue of one repository, as one page showed it, in the order of
/// the page.
#[derive(Debug, PartialEq, Eq)]
pub struct BorsQueue {
    pub items: Vec<BorsPr>,
}

impl View for BorsQueue {
    type V = Seq<BorsPrView>;

    open spec fn view(&self) -> Seq<BorsPrView> {
        self.items@.map_values(|b: BorsPr| b@)
    }
}

impl Default for BorsQueue {
    fn default() -> (r: Self)
        ensures
            r@ == Seq::<BorsPrView>::empty(),
    {
        let r = BorsQueue { items: Vec::new() };
        proof {
            assert(r@ =~= Seq::<BorsPrView>::empty());
        }
        r
    }
}

impl Clone for BorsQueue {
    fn clone(&self) -> (r: Self)
        ensures
            r@ == self@,
    {
        let mut items: Vec<BorsPr> = Vec::new();
        let mut i: usize = 0;
        while i < self.items.len()
            invariant
                i <= self.items.len(),
                items@.len() == i,
                forall|j: int| 0 <= j < i ==> (#[trigger] items@[j])@ == self.items@[j]@,
            decreases self.items.len() - i,
        {
            items.push(self.items[i].clone());
            i = i + 1;
        }
        let r = BorsQueue { items };
        proof {
            assert(r@ =~= self@);
        }
        r
    }
}

/// The position in `rows` of the first row for pull request `number`, or the
/// length of `rows` if it has none.
pub open spec fn row_index(rows: Seq<BorsPrView>, number: u64) -> int
    decreases rows.len(),
{
    if rows.len() == 0 || rows[0].pr_number == number {
        0
    } else {
        1 + row_index(rows.drop_first(), number)
    }
}

/// The first row of `rows` for pull request `number`.
pub open spec fn row_for(rows: Seq<BorsPrView>, number: u64) -> Option<BorsPrView> {
    let i = row_index(rows, number);
    if i < rows.len() {
        Some(rows[i])
    } else {
        None
    }
}

/// `row_index` is a position in `rows` or its length; no row before it is for
/// `number`, and the row at it is.
pub proof fn lemma_row_index(rows: Seq<BorsPrView>, number: u64)
    ensures
        0 <= row_index(rows, number) <= rows.len(),
        row_index(rows, number) < rows.len() ==> rows[row_index(rows, number)].pr_number == number,
        forall|j: int| 0 <= j < row_index(rows, number) ==> (#[trigger] rows[j]).pr_number != number,
    decreases rows.len(),
{
    if rows.len() == 0 || rows[0].pr_number == number {
    } else {
        let rest = rows.drop_first();
        lemma_row_index(rest, number);
        assert forall|j: int| 0 <= j < row_index(rows, number) implies (#[trigger] rows[j]).pr_number
            != number by {
            if j > 0 {
                assert(rows[j] == rest[j - 1]);
            }
        }
    }
}

/// A position whose row is for `number`, with no such row before it, is
/// `row_index`; and if no row is for `number`, `row_index` is the length.
pub proof fn lemma_row_index_is(rows: Seq<BorsPrView>, number: u64, i: int)
    requires
        0 <= i <= rows.len(),
        forall|j: int| 0 <= j < i ==> (#[trigger] rows[j]).pr_number != number,
        i < rows.len() ==> rows[i].pr_number == number,
    ensures
        row_index(rows, number) == i,
{
    lemma_row_index(rows, number);
    let k = row_index(rows, number);
    if k < i {
        assert(rows[k].pr_number != number);
    }
}

impl BorsQueue {
    /// The first row for pull request `pr_number`, if the queue has one.
    pub fn for_pr(&self, pr_number: u64) -> (row: Option<&BorsPr>)
        ensures
            option_row_view(row) == row_for(self@, pr_number),
            match row {
                Some(b) => row_index(self@, pr_number) < self.items@.len() && *b
                    == self.items@[row_index(self@, pr_number)],
                None => row_index(self@, pr_number) == self.items@.len(),
            },
    {
        let mut i: usize = 0;
        while i < self.items.len()
            invariant
                i <= self.items.len(),
                forall|j: int| 0 <= j < i ==> (#[trigger] self@[j]).pr_number != pr_number,
            decreases self.items.len() - i,
        {
            if self.items[i].pr_number == pr_number {
                proof {
                    assert(self@[i as int] == self.items@[i as int]@);
                    lemma_row_index_is(self@, pr_number, i as int);
                }
                return Some(&self.items[i]);
            }
            proof {
                assert(self@[i as int] == self.items@[i as int]@);
            }
            i = i + 1;
        }
        proof {
            lemma_row_index_is(self@, pr_number, i as int);
        }
        None
    }
}

// ---------------------------------------------------------------------------
// Reading the queue page
// ---------------------------------------------------------------------------

/// How many cells a row of the queue's table must have to be read.
pub const ROW_CELLS: usize = 11;

/// The status that the text of a status cell stands for.
pub open spec fn status_of(text: Seq<char>) -> BorsStatusView {
    if text == ""@ {
        BorsStatusView::Unset
    } else if text == "error"@ {
        BorsStatusView::Error
    } else if text == "failure"@ {
        BorsStatusView::Failure
    } else if text == "approved"@ {
        BorsStatusView::Approved
    } else if text == "pending"@ {
        BorsStatusView::Pending
    } else if text == "success"@ {
        BorsStatusView::Success
    } else {
        BorsStatusView::Other(text)
    }
}

/// Whether a pull request can be merged, going by the text of that cell: an
/// empty cell counts as yes, and any other text than yes and no is refused.
pub open spec fn mergeable_of(text: Seq<char>) -> Option<bool> {
    if text == ""@ || text == "yes"@ {
        Some(true)
    } else if text == "no"@ {
        Some(false)
    } else {
        None
    }
}

/// The batching policy that the text of that cell stands for, if any.
pub open spec fn rollup_setting_of(text: Seq<char>) -> Option<RollupSetting> {
    if text == ""@ {
        Some(RollupSetting::Unset)
    } else if text == "never"@ {
        Some(RollupSetting::Never)
    } else if text == "always"@ {
        Some(RollupSetting::Always)
    } else if text == "iffy"@ {
        Some(RollupSetting::Iffy)
    } else {
        None
    }
}

/// The row that the cells `cells` stand for, when they are the row at
/// `position` of the queue's table, counting from 1. A row is refused when it
/// has too few cells, or when its number, its mergeability, its batching
/// policy or its priority cannot be read.
pub open spec fn parsed_row(cells: Seq<Seq<char>>, position: usize) -> Option<BorsPrView> {
    if cells.len() < ROW_CELLS {
        None
    } else {
        match (
            parsed_u64(trimmed(cells[2])),
            mergeable_of(trimmed(cells[4])),
            rollup_setting_of(trimmed(cells[10])),
            parsed_u64(trimmed(cells[9])),
        ) {
            (Some(number), Some(mergeable), Some(rollup_setting), Some(priority)) => Some(
                BorsPrView {
                    pr_number: number,
                    approver: trimmed(cells[8]),
                    status: status_of(trimmed(cells[3])),
                    mergeable,
                    rollup_setting,
                    priority,
                    title: trimmed(cells[5]),
                    position_in_queue: position,
                    running: position == 1,
                },
            ),
            _ => None,
        }
    }
}

/// The queue that the table rows `rows` stand for: every row that can be read,
/// in order, each with the position that it had among all the rows.
pub open spec fn parsed_queue(rows: Seq<Seq<Seq<char>>>) -> Seq<BorsPrView>
    decreases rows.len(),
{
    if rows.len() == 0 {
        Seq::empty()
    } else {
        let front = parsed_queue(rows.drop_last());
        match parsed_row(rows.last(), rows.len() as usize) {
            Some(row) => front.push(row),
            None => front,
        }
    }
}

fn read_status(text: &str) -> (status: BorsStatus)
    ensures
        status@ == status_of(text@),
{
    if str_eq(text, "") {
        BorsStatus::Unset
    } else if str_eq(text, "error") {
        BorsStatus::Error
    } else if str_eq(text, "failure") {
        BorsStatus::Failure
    } else if str_eq(text, "approved") {
        BorsStatus::Approved
    } else if str_eq(text, "pending") {
        BorsStatus::Pending
    } else if str_eq(text, "success") {
        BorsStatus::Success
    } else {
        BorsStatus::Other(text.to_owned())
    }
}

fn read_mergeable(text: &str) -> (r: Option<bool>)
    ensures
        r == mergeable_of(text@),
{
    if str_eq(text, "") || str_eq(text, "yes") {
        Some(true)
    } else if str_eq(text, "no") {
        Some(false)
    } else {
        None
    }
}

fn read_rollup_setting(text: &str) -> (r: Option<RollupSetting>)
    ensures
        r == rollup_setting_of(text@),
{
    if str_eq(text, "") {
        Some(RollupSetting::Unset)
    } else if str_eq(text, "never") {
        Some(RollupSetting::Never)
    } else if str_eq(text, "always") {
        Some(RollupSetting::Always)
    } else if str_eq(text, "iffy") {
        Some(RollupSetting::Iffy)
    } else {
        None
    }
}

/// The view of a row that may have been refused.
pub open spec fn option_pr_view(row: Option<BorsPr>) -> Option<BorsPrView> {
    match row {
        Some(b) => Some(b@),
        None => None,
    }
}

/// Reads one row of the queue's table from the texts of its cells; `position`
/// is where the row stood in the table, counting from 1.
pub fn parse_row(cells: &Vec<String>, position: usize) -> (row: Option<BorsPr>)
    ensures
        option_pr_view(row) == parsed_row(cells@.map_values(|cell: String| cell@), position),
{
    let ghost texts = cells@.map_values(|cell: String| cell@);
    if cells.len() < ROW_CELLS {
        return None;
    }
    proof {
        assert(texts[2] == cells@[2]@);
        assert(texts[3] == cells@[3]@);
        assert(texts[4] == cells@[4]@);
        assert(texts[5] == cells@[5]@);
        assert(texts[8] == cells@[8]@);
        assert(texts[9] == cells@[9]@);
        assert(texts[10] == cells@[10]@);
    }
    let number = match parse_u64(trim(cells[2].as_str()).as_str()) {
        Some(n) => n,
        None => {
            return None;
        },
    };
    let status = read_status(trim(cells[3].as_str()).as_str());
    let mergeable = match read_mergeable(trim(cells[4].as_str()).as_str()) {
        Some(m) => m,
        None => {
            return None;
        },
    };
    let rollup_setting = match read_rollup_setting(trim(cells[10].as_str()).as_str()) {
        Some(s) => s,
        None => {
            return None;
        },
    };
    let priority = match parse_u64(trim(cells[9].as_str()).as_str()) {
        Some(p) => p,
        None => {
            return None;
        },
    };
    Some(
        BorsPr {
            pr_number: number,
            approver: trim(cells[8].as_str()),
            status,
            mergeable,
            rollup_setting,
            priority,
            title: trim(cells[5].as_str()),
            position_in_queue: position,
            running: position == 1,
        },
    )
}

/// Reads the queue from the rows of its table, each row given as the texts of
/// its cells. A row that cannot be read is left out; the rows after it keep
/// their positions.
pub fn parse_queue(rows: &Vec<Vec<String>>) -> (queue: BorsQueue)
    ensures
        queue@ == parsed_queue(rows_view(rows@)),
{
    let ghost all = rows_view(rows@);
    let mut items: Vec<BorsPr> = Vec::new();
    let mut i: usize = 0;
    while i < rows.len()
        invariant
            i <= rows.len(),
            all == rows_view(rows@),
            items@.map_values(|b: BorsPr| b@) == parsed_queue(all.take(i as int)),
        decreases rows.len() - i,
    {
        let ghost before = items@.map_values(|b: BorsPr| b@);
        proof {
            assert(all.take(i + 1).drop_last() =~= all.take(i as int));
            assert(all.take(i + 1).last() == rows@[i as int]@.map_values(|cell: String| cell@));
        }
        match parse_row(&rows[i], i + 1) {
            Some(row) => {
                items.push(row);
                proof {
                    assert(items@.map_values(|b: BorsPr| b@) =~= before.push(row@));
                }
            },
            None => {},
        }
        i = i + 1;
    }
    proof {
        assert(all.take(i as int) =~= all);
    }
    BorsQueue { items }
}

/// The selector of the rows of the queue's table.
pub open spec fn queue_rows_selector() -> &'static str {
    "#queue tbody tr"
}

/// The queue that the text of its page stands for. A page in which no table
/// can be found, and one that is too long to be read, give the empty queue.
pub open spec fn queue_of_page(page: &str) -> Seq<BorsPrView> {
    match page_cells(page, queue_rows_selector()) {
        Some(rows) => parsed_queue(rows),
        None => Seq::empty(),
    }
}

/// The selector of the queue's rows is short enough to be handed on, so that
/// whether a page is read depends on the length of the page alone.
pub proof fn lemma_queue_page_is_read(page: &str)
    ensures
        queue_of_page(page) == if page.len() <= crate::api::page::MAX_PAGE_BYTES {
            match crate::api::page::selected_cells(page@, queue_rows_selector()@) {
                Some(rows) => parsed_queue(rows),
                None => Seq::empty(),
            }
        } else {
            Seq::empty()
        },
{
    reveal_strlit("#queue tbody tr");
    let selector = "#queue tbody tr";
    assert(vstd::utf8::is_ascii_chars(selector@));
    vstd::utf8::is_ascii_chars_encode_utf8(selector@);
}

/// Reads the merge queue from the text of its page. A page that is too long
/// to be read gives the empty queue, as a source that failed does.
pub fn get_bors_info(page: &str) -> (queue: BorsQueue)
    ensures
        queue@ == queue_of_page(page),
        page.len() > crate::api::page::MAX_PAGE_BYTES ==> queue@ == Seq::<BorsPrView>::empty(),
{
    proof {
        lemma_queue_page_is_read(page);
    }
    match read_rows(page, "#queue tbody tr") {
        Some(rows) => parse_queue(&rows),
        None => BorsQueue::default(),
    }
}

/// The merge queue of `repo` as far as it is known: `page` is the text of the
/// queue's page, or `None` where it could not be fetched. A repository without
/// a merge queue, and one whose page could not be fetched or read, have the
/// empty queue.
pub fn bors_info(repo: &RepoInfo, page: Option<&str>) -> (queue: BorsQueue)
    ensures
        queue@ == match (repo@.bors_queue_url, page) {
            (Some(_), Some(text)) => queue_of_page(text),
            _ => Seq::empty(),
        },
{
    match (&repo.bors_queue_url, page) {
        (Some(_), Some(text)) => get_bors_info(text),
        _ => BorsQueue::default(),
    }
}

} // verus!
