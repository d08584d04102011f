//! The queue of compatibility runs, as its page shows it.

use crate::api::page::{page_cells, read_rows, rows_view};
use crate::model::CraterStatus;
use crate::text::{
    chars_of, parse_u64_range, parsed_u64, skip_repeated, skip_repeated_range, starts_with, str_eq,
    trim, trim_range, trimmed,
};
use crate::time::Timestamp;
use std::collections::HashMap;
use vstd::prelude::*;

verus! {

/// How many cells a row of the runs' table must have to be read.
pub const RUN_CELLS: usize = 6;

/// The pull request that a run is named after: the name, without the white
/// space around it and without `pr-` in front, is its number.
pub open spec fn run_number(name: Seq<char>) -> Option<u64> {
    parsed_u64(skip_repeated(trimmed(name), "pr-"@))
}

/// What a step of reading the table leaves: the runs read so far, and how many
/// of them are queued.
pub struct RunsRead {
    pub runs: Map<u64, CraterStatus>,
    pub queued: nat,
}

/// Reading one more row, whose cells are `cells`. The heading row, a row with
/// too few cells, one whose name holds no number and one whose state is none
/// of running, generating its report and queued change nothing. A running run
/// is expected to end at `now`, as nothing better is known; a queued run is
/// given its place among the queued runs, counting from 1.
pub open spec fn read_run(so_far: RunsRead, cells: Seq<Seq<char>>, now: Timestamp) -> RunsRead {
    if cells.len() < RUN_CELLS || cells[0] == "Name"@ {
        so_far
    } else {
        match run_number(cells[0]) {
            None => so_far,
            Some(number) => {
                let state = trimmed(cells[5]);
                if "Running"@.is_prefix_of(state) {
                    RunsRead {
                        runs: so_far.runs.insert(
                            number,
                            CraterStatus::Running { expected_end: now },
                        ),
                        queued: so_far.queued,
                    }
                } else if state == "Generating report"@ {
                    RunsRead {
                        runs: so_far.runs.insert(number, CraterStatus::GeneratingReport),
                        queued: so_far.queued,
                    }
                } else if state == "Queued"@ {
                    RunsRead {
                        runs: so_far.runs.insert(
                            number,
                            CraterStatus::Queued { num_before: (so_far.queued + 1) as usize },
                        ),
                        queued: so_far.queued + 1,
                    }
                } else {
                    so_far
                }
            },
        }
    }
}

/// Reading all of `rows`, from the first to the last.
pub open spec fn read_runs(rows: Seq<Seq<Seq<char>>>, now: Timestamp) -> RunsRead
    decreases rows.len(),
{
    if rows.len() == 0 {
        RunsRead { runs: Map::empty(), queued: 0 }
    } else {
        read_run(read_runs(rows.drop_last(), now), rows.last(), now)
    }
}

/// The pull request that a run named `name` is named after.
fn read_run_number(name: &str) -> (number: Option<u64>)
    ensures
        number == run_number(name@),
{
    let chars = chars_of(name);
    let prefix = chars_of("pr-");
    proof {
        assert(chars@.subrange(0, chars@.len() as int) =~= name@);
    }
    let (a, b) = trim_range(&chars, 0, chars.len());
    let c = skip_repeated_range(&chars, a, b, &prefix);
    parse_u64_range(&chars, c, b)
}

/// Reads the runs from the rows of their table, each row given as the texts
/// of its cells. Where two rows name one pull request, the later one counts.
pub fn parse_runs(rows: &Vec<Vec<String>>, now: Timestamp) -> (runs: HashMap<u64, CraterStatus>)
    ensures
        runs@ == read_runs(rows_view(rows@), now).runs,
{
    broadcast use vstd::std_specs::hash::group_hash_axioms;

    let ghost all = rows_view(rows@);
    let mut runs: HashMap<u64, CraterStatus> = HashMap::new();
    let mut queued: usize = 0;
    let mut i: usize = 0;
    while i < rows.len()
        invariant
            i <= rows.len(),
            all == rows_view(rows@),
            runs@ == read_runs(all.take(i as int), now).runs,
            queued == read_runs(all.take(i as int), now).queued,
            queued <= i,
        decreases rows.len() - i,
    {
        let row = &rows[i];
        let ghost cells = row@.map_values(|cell: String| cell@);
        proof {
            assert(all.take(i + 1).drop_last() =~= all.take(i as int));
            assert(all.take(i + 1).last() == cells);
            if row.len() >= RUN_CELLS {
                assert(cells[0] == row@[0]@);
                assert(cells[5] == row@[5]@);
            }
        }
        if row.len() >= RUN_CELLS && !str_eq(row[0].as_str(), "Name") {
            match read_run_number(row[0].as_str()) {
                Some(number) => {
                    let state = trim(row[5].as_str());
                    if starts_with(state.as_str(), "Running") {
                        runs.insert(number, CraterStatus::Running { expected_end: now });
                    } else if str_eq(state.as_str(), "Generating report") {
                        runs.insert(number, CraterStatus::GeneratingReport);
                    } else if str_eq(state.as_str(), "Queued") {
                        queued = queued + 1;
                        runs.insert(number, CraterStatus::Queued { num_before: queued });
                    }
                },
                None => {},
            }
        }
        i = i + 1;
    }
    proof {
        assert(all.take(i as int) =~= all);
    }
    runs
}

/// The selector of the rows of the runs' table.
pub open spec fn run_rows_selector() -> &'static str {
    "table.list tbody tr"
}

/// The runs that the text of their page stands for, read at `now`. A page in
/// which no table can be found, and one that is too long to be read, give no
/// runs.
pub open spec fn runs_of_page(page: &str, now: Timestamp) -> Map<u64, CraterStatus> {
    match page_cells(page, run_rows_selector()) {
        Some(rows) => read_runs(rows, now).runs,
        None => Map::empty(),
    }
}

/// The selector of the runs' rows is short enough to be handed on, so that
/// whether a page is read depends on the length of the page alone.
pub proof fn lemma_runs_page_is_read(page: &str, now: Timestamp)
    ensures
        runs_of_page(page, now) == if page.len() <= crate::api::page::MAX_PAGE_BYTES {
            match crate::api::page::selected_cells(page@, run_rows_selector()@) {
                Some(rows) => read_runs(rows, now).runs,
                None => Map::empty(),
            }
        } else {
            Map::empty()
        },
{
    reveal_strlit("table.list tbody tr");
    let selector = "table.list tbody tr";
    assert(vstd::utf8::is_ascii_chars(selector@));
    vstd::utf8::is_ascii_chars_encode_utf8(selector@);
}

/// Reads the queue of compatibility runs from the text of its page; `now` is
/// the time of reading. A page that is too long to be read gives no runs, as a
/// source that failed does.
pub fn get_crater_queue(page: &str, now: Timestamp) -> (runs: HashMap<u64, CraterStatus>)
    ensures
        runs@ == runs_of_page(page, now),
        page.len() > crate::api::page::MAX_PAGE_BYTES ==> runs@ == Map::<u64, CraterStatus>::empty(),
{
    proof {
        lemma_runs_page_is_read(page, now);
    }
    match read_rows(page, "table.list tbody tr") {
        Some(rows) => parse_runs(&rows, now),
        None => HashMap::new(),
    }
}

/// The queue of compatibility runs as far as it is known: `page` is the text
/// of the queue's page, or `None` where it could not be fetched, which leaves
/// no runs.
pub fn crater_info(page: Option<&str>, now: Timestamp) -> (runs: HashMap<u64, CraterStatus>)
    ensures
        runs@ == match page {
            Some(text) => runs_of_page(text, now),
            None => Map::empty(),
        },
{
    match page {
        Some(text) => get_crater_queue(text, now),
        None => HashMap::new(),
    }
}

} // verus!
