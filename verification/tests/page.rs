use review_queue::api::bors::{bors_info, get_bors_info, BorsQueue};
use review_queue::api::crater::{crater_info, get_crater_queue};
use review_queue::api::page::{read_rows, MAX_PAGE_BYTES, MAX_SELECTOR_BYTES};
use review_queue::model::{Repo, RepoInfo};
use review_queue::time::Timestamp;
use std::collections::HashMap;

const QUEUE: &str = "<table id=\"queue\"><tbody><tr><td></td><td></td><td>7</td><td>approved</td><td>yes</td><td>T</td><td></td><td></td><td>me</td><td>1</td><td></td></tr></tbody></table>";
const RUNS: &str = "<table class=\"list\"><tbody><tr><td>pr-7</td><td></td><td></td><td></td><td></td><td>Queued</td></tr></tbody></table>";

fn padded(start: &str, len: usize) -> String {
    let mut page = String::with_capacity(len);
    page.push_str(start);
    while page.len() < len {
        let room = len - page.len();
        page.push_str(&" ".repeat(room.min(1 << 20)));
    }
    page
}

#[test]
fn the_bounds_of_what_is_read() {
    assert_eq!(MAX_PAGE_BYTES, 357_913_941);
    assert_eq!(MAX_SELECTOR_BYTES, 64);
    // three bytes for each byte read, rounded up to a power of two, fit in 31 bits
    assert!((3 * MAX_PAGE_BYTES as u64).next_power_of_two() <= 1 << 30);
}

#[test]
fn read_rows_gives_the_cells_of_what_matches() {
    let page = "<ul><li><b>a</b><i>b <u>c</u></i>loose</li><li></li><li><b> d </b></li></ul><ol><li><b>x</b></li></ol>";
    assert_eq!(
        read_rows(page, "ul li"),
        Some(vec![
            vec![String::from("a"), String::from("b c")],
            vec![],
            vec![String::from(" d ")],
        ])
    );
    assert_eq!(read_rows(page, "table tr"), Some(vec![]));
    assert_eq!(read_rows("", "li"), Some(vec![]));
}

#[test]
fn read_rows_refuses_what_is_no_selector() {
    assert_eq!(read_rows("<p>x</p>", "###"), None);
    assert_eq!(read_rows("<p>x</p>", ""), None);
    assert_eq!(read_rows("<p>x</p>", "p >"), None);
}

#[test]
fn read_rows_refuses_a_selector_that_is_too_long() {
    let page = "<ul><li><b>a</b></li></ul>";
    let fits = format!("{:<64}", "ul li");
    assert_eq!(fits.len(), MAX_SELECTOR_BYTES);
    assert_eq!(read_rows(page, &fits), Some(vec![vec![String::from("a")]]));
    let too_long = format!("{:<65}", "ul li");
    assert_eq!(read_rows(page, &too_long), None);
    let nested = format!("{}li{}", ":is(".repeat(100_000), ")".repeat(100_000));
    assert_eq!(read_rows(page, &nested), None);
}

#[test]
fn a_page_that_is_too_long_is_not_read() {
    assert_eq!(read_rows(QUEUE, "#queue tbody tr").map(|rows| rows.len()), Some(1));
    assert_eq!(get_bors_info(QUEUE).items.len(), 1);
    let now = Timestamp { second: 0, nanosecond: 0 };
    assert_eq!(get_crater_queue(RUNS, now).len(), 1);

    let page = padded(QUEUE, MAX_PAGE_BYTES + 1);
    assert_eq!(page.len(), MAX_PAGE_BYTES + 1);
    assert_eq!(read_rows(&page, "#queue tbody tr"), None);
    assert_eq!(get_bors_info(&page), BorsQueue { items: vec![] });
    let repo = RepoInfo {
        repo: Repo { owner: String::from("o"), name: String::from("n") },
        bors_queue_url: Some(String::from("u")),
    };
    assert_eq!(bors_info(&repo, Some(&page)), BorsQueue { items: vec![] });
    drop(page);

    let page = padded(RUNS, MAX_PAGE_BYTES + 1);
    assert_eq!(get_crater_queue(&page, now), HashMap::new());
    assert_eq!(crater_info(Some(&page), now), HashMap::new());
}

#[test]
fn a_page_of_nuls_in_plain_text_is_read() {
    // every byte of this text becomes three in the parser
    let mut page = String::from("<table id=\"queue\"><tbody><tr><td><plaintext>");
    page.push_str(&"\0".repeat(1 << 20));
    let rows = read_rows(&page, "#queue tbody tr").unwrap();
    assert_eq!(rows.len(), 1);
    assert_eq!(rows[0].len(), 1);
    assert_eq!(rows[0][0].len(), 3 << 20);
    assert!(rows[0][0].chars().all(|c| c == '\u{fffd}'));
}
