use review_queue::model::{Author, CiStatus, Pr, PrStatus, Repo};
use review_queue::state::{clone_prs, UserState};
use review_queue::time::Timestamp;

fn pr(number: u64) -> Pr {
    Pr {
        repo: Repo { owner: String::from("o"), name: String::from("n") },
        title: format!("PR {}", number),
        description: None,
        number,
        link: String::new(),
        author: Author { name: String::from("a"), id: 1, avatar_url: String::new(), profile_url: String::new() },
        reviewers: vec![],
        status: PrStatus::Ready {},
        ci_status: CiStatus::Good,
        created: Timestamp { second: 0, nanosecond: 0 },
    }
}

#[test]
fn a_new_user_has_nothing() {
    let s = UserState::new();
    assert_eq!(s.get_state_instantly(), Some(Vec::<Pr>::new()));
    assert!(!s.must_wait());
    assert!(!s.in_flight);
}

#[test]
fn the_first_scan_is_waited_for() {
    let mut s = UserState::new();
    assert!(s.trigger_refresh());
    // no list yet, and one is being made: the reader is told to wait, not that
    // the user has no pull requests
    assert!(s.must_wait());
    assert_eq!(s.get_state_instantly(), None);
    assert!(!s.trigger_refresh());
    assert_eq!(s.get_state_instantly(), None);
    s.complete(vec![pr(1), pr(2)]);
    assert!(!s.must_wait());
    assert!(!s.in_flight);
    assert_eq!(s.get_state_instantly(), Some(vec![pr(1), pr(2)]));
}

#[test]
fn a_first_scan_that_finds_nothing_ends_the_wait() {
    let mut s = UserState::new();
    assert!(s.trigger_refresh());
    assert_eq!(s.get_state_instantly(), None);
    s.complete(vec![]);
    assert!(!s.must_wait());
    assert_eq!(s.get_state_instantly(), Some(Vec::<Pr>::new()));
    // a later scan does not make anybody wait
    assert!(s.trigger_refresh());
    assert!(!s.must_wait());
    assert_eq!(s.get_state_instantly(), Some(Vec::<Pr>::new()));
}

#[test]
fn refreshes_coalesce() {
    let mut s = UserState::new();
    assert!(s.trigger_refresh());
    assert!(!s.trigger_refresh());
    assert!(!s.trigger_refresh());
    s.complete(vec![pr(1)]);
    assert!(s.trigger_refresh());
    assert!(!s.trigger_refresh());
}

#[test]
fn the_last_list_is_served_during_a_scan() {
    let mut s = UserState::new();
    assert!(s.trigger_refresh());
    s.complete(vec![pr(1)]);
    assert!(s.trigger_refresh());
    assert!(!s.must_wait());
    assert_eq!(s.get_state_instantly(), Some(vec![pr(1)]));
    s.complete(vec![pr(2), pr(3)]);
    assert_eq!(s.get_state_instantly(), Some(vec![pr(2), pr(3)]));
    s.complete(vec![]);
    assert_eq!(s.get_state_instantly(), Some(Vec::<Pr>::new()));
    assert!(!s.must_wait());
}

#[test]
fn a_failed_scan_leaves_the_last_list() {
    let mut s = UserState::new();
    assert!(s.trigger_refresh());
    assert_eq!(s.get_state_instantly(), None);
    s.abandon();
    assert!(!s.in_flight);
    assert!(!s.must_wait());
    // the wait is over, and there is nothing to show
    assert_eq!(s.get_state_instantly(), Some(Vec::<Pr>::new()));
    assert!(s.trigger_refresh());
    assert_eq!(s.get_state_instantly(), None);
    s.complete(vec![pr(1)]);
    assert!(s.trigger_refresh());
    s.abandon();
    assert_eq!(s.get_state_instantly(), Some(vec![pr(1)]));
    assert!(s.trigger_refresh());
    assert_eq!(s.get_state_instantly(), Some(vec![pr(1)]));
}

#[test]
fn copies_of_lists_are_equal() {
    let list = vec![pr(3), pr(1), pr(2)];
    assert_eq!(clone_prs(&list), list);
    assert_eq!(clone_prs(&Vec::new()), Vec::<Pr>::new());
}
