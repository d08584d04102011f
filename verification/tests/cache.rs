use review_queue::api::{Cache, BORS_PERIOD, CRATER_PERIOD, FCP_PERIOD, ROLLUP_PERIOD};

#[test]
fn the_periods() {
    assert_eq!(BORS_PERIOD, 30_000);
    assert_eq!(ROLLUP_PERIOD, 60_000);
    assert_eq!(CRATER_PERIOD, 600_000);
    assert_eq!(FCP_PERIOD, 30_000);
}

#[test]
fn an_empty_slot_serves_nothing() {
    let c: Cache<String> = Cache::new(1_000);
    assert_eq!(c.get(0), None);
    assert_eq!(c.get(u64::MAX), None);
    assert_eq!(c.period, 1_000);
}

#[test]
fn a_value_is_served_for_its_period() {
    let mut c: Cache<String> = Cache::new(1_000);
    c.reload(String::from("a"), 5_000);
    assert_eq!(c.get(5_000), Some(&String::from("a")));
    assert_eq!(c.get(5_999), Some(&String::from("a")));
    assert_eq!(c.get(6_000), Some(&String::from("a")));
    assert_eq!(c.get(6_001), None);
    assert_eq!(c.get(u64::MAX), None);
    // a clock that reads earlier than the store counts as no time passed
    assert_eq!(c.get(4_000), Some(&String::from("a")));
    c.reload(String::from("b"), 6_001);
    assert_eq!(c.get(6_001), Some(&String::from("b")));
    assert_eq!(c.get(7_001), Some(&String::from("b")));
    assert_eq!(c.get(7_002), None);
}

#[test]
fn a_period_of_nothing_serves_only_the_same_instant() {
    let mut c: Cache<u8> = Cache::new(0);
    c.reload(1, 10);
    assert_eq!(c.get(10), Some(&1));
    assert_eq!(c.get(11), None);
}

#[test]
fn many_uses_of_an_expired_slot_ask_once() {
    let mut c: Cache<u32> = Cache::new(BORS_PERIOD);
    c.reload(0, 0);
    let mut asked = 0;
    let mut served = Vec::new();
    // fifty callers come one after another, a few milliseconds apart
    for k in 0..50u64 {
        let now = 40_000 + 3 * k;
        let value = match c.get(now) {
            Some(v) => *v,
            None => {
                asked += 1;
                c.reload(asked, now);
                asked
            }
        };
        served.push(value);
    }
    assert_eq!(asked, 1);
    assert!(served.iter().all(|v| *v == 1));
    // once the period has passed the next caller asks again
    assert_eq!(c.get(40_000 + BORS_PERIOD + 1), None);
}

#[test]
fn uses_at_one_instant_ask_once_whatever_the_period() {
    for period in [0, 1, BORS_PERIOD] {
        let mut c: Cache<u32> = Cache::new(period);
        let mut asked = 0;
        for _ in 0..50 {
            if c.get(7_000).is_none() {
                asked += 1;
                c.reload(asked, 7_000);
            }
            assert_eq!(c.get(7_000), Some(&1));
        }
        assert_eq!(asked, 1);
    }
}
