use std::cell::Cell;

use parallel_hashing::digest::{decimal_bytes, digest, target, Digest, DEMO_TARGET_VALUE};
use parallel_hashing::race::{Race, Step};
use parallel_hashing::search::{naive_hashing, search_class, worker_of, Outcome};
use parallel_hashing::timing::time_it;

const WORKER_COUNTS: [u64; 7] = [1, 4, 8, 10, 25, 50, 100];

#[test]
fn decimal_bytes_is_canonical() {
    assert_eq!(decimal_bytes(0), b"0".to_vec());
    assert_eq!(decimal_bytes(5), b"5".to_vec());
    assert_eq!(decimal_bytes(10), b"10".to_vec());
    assert_eq!(decimal_bytes(100_000_000), b"100000000".to_vec());
    assert_eq!(decimal_bytes(u64::MAX), b"18446744073709551615".to_vec());
}

#[test]
fn digest_is_md5_of_decimal_text() {
    assert_eq!(digest(5).bytes, md5::compute(b"5").0);
    assert_eq!(digest(0).bytes, md5::compute(b"0").0);
    assert_eq!(digest(1234).bytes, md5::compute(b"1234").0);
    let expected: [u8; 16] = [
        0xe4, 0xda, 0x3b, 0x7f, 0xbb, 0xce, 0x23, 0x45, 0xd7, 0x77, 0x2b, 0x06, 0x74, 0xa3, 0x18,
        0xd5,
    ];
    assert_eq!(digest(5).bytes, expected);
}

#[test]
fn digest_is_deterministic() {
    for i in [0u64, 1, 5, 99, 100_000_000, u64::MAX] {
        assert_eq!(digest(i).bytes, digest(i).bytes);
        assert!(digest(i).equals(&digest(i)));
    }
}

#[test]
fn digest_equality() {
    let a = digest(5);
    let b = digest(6);
    assert!(a.equals(&a));
    assert!(!a.equals(&b));
    let mut c: Digest = a;
    c.bytes[15] ^= 1;
    assert!(!a.equals(&c));
}

#[test]
fn target_is_stable() {
    let first = target();
    for _ in 0..10 {
        assert_eq!(target().bytes, first.bytes);
    }
    assert_eq!(first.bytes, md5::compute(b"100000000").0);
    assert!(first.equals(&digest(DEMO_TARGET_VALUE)));
}

#[test]
fn sequential_scan_finds_demo_target() {
    let t = target();
    let r = search_class(&t, DEMO_TARGET_VALUE - 2000, 1, &|| false);
    assert_eq!(r, Outcome::Found(DEMO_TARGET_VALUE));
}

#[test]
fn owner_worker_finds_demo_target() {
    let t = target();
    for n in WORKER_COUNTS {
        let w = worker_of(DEMO_TARGET_VALUE, n);
        assert_eq!(w, DEMO_TARGET_VALUE % n);
        // Resume worker `w` a few hundred steps before the target.
        let start = DEMO_TARGET_VALUE - 300 * n;
        assert_eq!(worker_of(start, n), w);
        assert_eq!(search_class(&t, start, n, &|| false), Outcome::Found(DEMO_TARGET_VALUE));
        let mut race = Race::new(n);
        assert_eq!(race.on_report(Outcome::Found(DEMO_TARGET_VALUE)), Step::Stop(DEMO_TARGET_VALUE));
        assert!(race.is_decided());
    }
}

#[test]
fn partition_covers_each_candidate_once() {
    let limit: u64 = 1000;
    for n in [1u64, 2, 3, 4, 7, 10, 25] {
        let mut seen = vec![0u32; limit as usize];
        for w in 0..n {
            let mut c = w;
            while c < limit {
                seen[c as usize] += 1;
                assert_eq!(worker_of(c, n), w);
                c += n;
            }
        }
        assert!(seen.iter().all(|&k| k == 1));
    }
}

#[test]
fn time_it_returns_result_unchanged() {
    let (r, nanos) = time_it(|| 42);
    assert_eq!(r, 42);
    assert!(nanos < 1_000_000_000);
    let (s, _) = time_it(|| naive_hashing(&digest(3)));
    assert_eq!(s, Some(3));
}

#[test]
fn scenario_target_five() {
    let t = digest(5);
    assert_eq!(naive_hashing(&t), Some(5));
    assert_eq!(worker_of(5, 4), 1);
    assert_eq!(search_class(&t, 1, 4, &|| false), Outcome::Found(5));
    for w in [0u64, 2, 3] {
        let calls = Cell::new(0u32);
        let stop = || {
            calls.set(calls.get() + 1);
            calls.get() > 200
        };
        match search_class(&t, w, 4, &stop) {
            Outcome::Cancelled(next) => {
                assert_eq!(next % 4, w);
                assert_eq!(next, w + 200 * 4);
            }
            other => panic!("worker {} ended with {:?}", w, other),
        }
    }
    let mut race = Race::new(4);
    assert_eq!(race.on_report(Outcome::Found(5)), Step::Stop(5));
    assert_eq!(race.winner, Some(5));
}

#[test]
fn scan_cancelled_before_first_candidate() {
    let t = digest(5);
    assert_eq!(search_class(&t, 7, 3, &|| true), Outcome::Cancelled(7));
}

#[test]
fn scan_exhausts_top_of_range() {
    let t = digest(5);
    assert_eq!(search_class(&t, u64::MAX - 2, 1, &|| false), Outcome::Exhausted);
    assert_eq!(search_class(&t, u64::MAX - 10, 7, &|| false), Outcome::Exhausted);
}

#[test]
fn race_fails_when_every_worker_leaves() {
    let mut race = Race::new(3);
    assert_eq!(race.on_report(Outcome::Exhausted), Step::Wait);
    assert_eq!(race.on_report(Outcome::Cancelled(9)), Step::Wait);
    assert!(!race.is_decided());
    assert_eq!(race.on_report(Outcome::Exhausted), Step::Fail);
    assert!(race.is_decided());
    assert_eq!(race.winner, None);
    assert_eq!(race.live, 0);
}

#[test]
fn race_single_worker() {
    let mut race = Race::new(1);
    assert_eq!(race.live, 1);
    assert_eq!(race.on_report(Outcome::Exhausted), Step::Fail);
}
