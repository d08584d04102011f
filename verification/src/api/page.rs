//! Tables in HTML pages, as rows of cell texts.

use vstd::prelude::*;

verus! {

/// The views of the rows of `rows`: for each row the texts of its cells.
pub open spec fn rows_view(rows: Seq<Vec<String>>) -> Seq<Seq<Seq<char>>> {
    rows.map_values(|row: Vec<String>| row@.map_values(|cell: String| cell@))
}

/// What the HTML parser and the selector engine find in `page`: the elements
/// that `selector` matches, in the order in which the parser made them, and
/// for each the text inside every child element. `None` where `selector` is
/// no selector.
pub uninterp spec fn selected_cells(page: Seq<char>, selector: Seq<char>) -> Option<
    Seq<Seq<Seq<char>>>,
>;

/// The longest page, in bytes, that is handed to the parser. The parser keeps
/// text in buffers whose length is a 32-bit number and whose room is rounded up
/// to a power of two, and it may write three bytes for one byte that it
/// reads; with this bound no buffer outgrows its room.
pub const MAX_PAGE_BYTES: usize = 0x1555_5555;

/// The longest selector, in bytes, that is handed to the selector engine,
/// which goes as deep as a selector nests.
pub const MAX_SELECTOR_BYTES: usize = 64;

/// Whether `page` and `selector` are short enough to be handed on.
pub open spec fn readable(page: &str, selector: &str) -> bool {
    page.len() <= MAX_PAGE_BYTES && selector.len() <= MAX_SELECTOR_BYTES
}

/// The rows of cells that are read from `page`: what the parser and the
/// selector engine find, and nothing where `page` or `selector` is too long
/// to be handed to them.
pub open spec fn page_cells(page: &str, selector: &str) -> Option<Seq<Seq<Seq<char>>>> {
    if readable(page, selector) {
        selected_cells(page@, selector@)
    } else {
        None
    }
}

/// Parses `page` with scraper (`Html::parse_document`), selects with
/// `selector` (`Selector::parse`, `Html::select`), and collects for each
/// element found the text of each of its child elements
/// (`ElementRef::child_elements`, `ElementRef::text`).
///
/// Trusted: the outcome depends on the two strings alone, which is all that
/// naming it `selected_cells` claims. Nothing is claimed of what it holds.
/// The parser panics on a page of more bytes than its buffers can count, and
/// the selector engine recurses on nested selectors; the precondition leaves
/// long pages and long selectors out.
#[verifier::external_body]
fn select_rows(page: &str, selector: &str) -> (rows: Option<Vec<Vec<String>>>)
    requires
        page.len() <= MAX_PAGE_BYTES,
        selector.len() <= MAX_SELECTOR_BYTES,
    ensures
        match rows {
            Some(found) => selected_cells(page@, selector@) == Some(rows_view(found@)),
            None => selected_cells(page@, selector@) is None,
        },
{
    let selector = scraper::Selector::parse(selector).ok()?;
    let document = scraper::Html::parse_document(page);
    Some(
        document.select(&selector).map(
            |row| row.child_elements().map(|cell| cell.text().collect::<String>()).collect(),
        ).collect(),
    )
}

/// Reads from `page` the elements that `selector` matches, each as the texts
/// of its cells. A page or a selector that is too long to be handed on is not
/// read, and gives `None` as a selector that is none does.
pub fn read_rows(page: &str, selector: &str) -> (rows: Option<Vec<Vec<String>>>)
    ensures
        match rows {
            Some(found) => page_cells(page, selector) == Some(rows_view(found@)),
            None => page_cells(page, selector) is None,
        },
{
    if page.len() > MAX_PAGE_BYTES || selector.len() > MAX_SELECTOR_BYTES {
        None
    } else {
        select_rows(page, selector)
    }
}

} // verus!
