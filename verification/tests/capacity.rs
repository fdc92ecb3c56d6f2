use aio_limited::algorithms::capacity::Capacity;
use aio_limited::algorithms::Token;
use aio_limited::Error;

fn with_parts(maximum: usize, parts: usize) -> Capacity {
    let mut c = Capacity::new(maximum);
    for _ in 0..parts {
        assert!(c.add_part(maximum).is_ok());
    }
    c
}

fn granted(r: Result<Token, Error>) -> Token {
    match r {
        Ok(t) => t,
        Err(e) => panic!("refused: {}", e.message()),
    }
}

fn refused(r: Result<Token, Error>) -> Error {
    match r {
        Ok(t) => panic!("granted {}", t.get()),
        Err(e) => e,
    }
}

#[test]
fn new_record_is_full_and_has_no_parts() {
    let c = Capacity::new(100);
    assert_eq!(c.generation(), 0);
    assert_eq!(c.remaining(), 100);
    assert_eq!(c.parts(), 0);
}

#[test]
fn without_parts_the_full_maximum_is_granted() {
    let mut c = Capacity::new(100);
    let t = granted(c.acquire(100, 40));
    assert_eq!(t.get(), 100);
    assert_eq!(t.generation(), 0);
    assert_eq!(c.remaining(), 100);
}

#[test]
fn without_parts_even_an_empty_bucket_grants() {
    let mut c = Capacity::new(0);
    let t = granted(c.acquire(0, 5));
    assert_eq!(t.get(), 0);
}

#[test]
fn four_parts_get_a_quarter_each() {
    let mut c = with_parts(100, 4);
    assert_eq!(c.remaining(), 100);
    let t = granted(c.acquire(100, 30));
    assert_eq!(t.get(), 25);
    assert_eq!(c.remaining(), 75);
}

#[test]
fn the_hint_caps_the_share() {
    let mut c = with_parts(100, 1);
    let t = granted(c.acquire(100, 30));
    assert_eq!(t.get(), 30);
    assert_eq!(c.remaining(), 70);
}

#[test]
fn the_share_is_divided_anew_on_every_call() {
    let mut c = with_parts(100, 4);
    assert_eq!(granted(c.acquire(100, 1000)).get(), 25);
    assert_eq!(granted(c.acquire(100, 1000)).get(), 18);
    assert_eq!(granted(c.acquire(100, 1000)).get(), 14);
    assert_eq!(c.remaining(), 43);
}

#[test]
fn the_eleventh_part_is_refused() {
    let mut c = Capacity::new(10);
    for _ in 0..10 {
        assert!(c.add_part(10).is_ok());
    }
    assert!(matches!(c.add_part(10), Err(Error::NoCapacity)));
    assert_eq!(c.parts(), 10);
}

#[test]
fn three_units_among_five_parts_go_out_one_by_one() {
    let mut c = with_parts(5, 5);
    assert_eq!(granted(c.acquire(5, 8)).get(), 1);
    assert_eq!(granted(c.acquire(5, 8)).get(), 1);
    assert_eq!(c.remaining(), 3);
    assert_eq!(c.parts(), 5);
    for left in [2, 1, 0] {
        assert_eq!(granted(c.acquire(5, 8)).get(), 1);
        assert_eq!(c.remaining(), left);
    }
    assert!(matches!(refused(c.acquire(5, 8)), Error::NoCapacity));
    assert_eq!(c.remaining(), 0);
}

#[test]
fn five_units_among_five_parts_serve_five_requests() {
    let mut c = with_parts(5, 5);
    for _ in 0..5 {
        assert_eq!(granted(c.acquire(5, 8)).get(), 1);
    }
    assert!(matches!(refused(c.acquire(5, 8)), Error::NoCapacity));
}

#[test]
fn a_hint_of_zero_takes_nothing_from_a_full_share() {
    let mut c = with_parts(10, 2);
    assert!(matches!(refused(c.acquire(10, 0)), Error::NoCapacity));
    assert_eq!(c.remaining(), 10);
}

#[test]
fn a_hint_of_zero_still_gets_the_last_units() {
    let mut c = with_parts(5, 5);
    assert_eq!(granted(c.acquire(5, 8)).get(), 1);
    assert_eq!(granted(c.acquire(5, 0)).get(), 1);
    assert_eq!(c.remaining(), 3);
}

#[test]
fn a_release_credits_the_current_generation() {
    let mut c = with_parts(100, 4);
    let t = granted(c.acquire(100, 30));
    assert_eq!(c.remaining(), 75);
    assert!(c.accepts(&t));
    c.release(t);
    assert_eq!(c.remaining(), 100);
}

#[test]
fn a_shrunk_token_credits_what_is_left_of_it() {
    let mut c = with_parts(100, 4);
    let mut t = granted(c.acquire(100, 30));
    t.set(7);
    assert_eq!(t.get(), 7);
    t.set(9);
    assert_eq!(t.get(), 7);
    c.release(t);
    assert_eq!(c.remaining(), 82);
}

#[test]
fn a_stale_release_changes_nothing() {
    let mut c = with_parts(100, 2);
    let t = granted(c.acquire(100, 30));
    assert_eq!(t.generation(), 0);
    c.reset(100, 1);
    assert_eq!(c.generation(), 1);
    assert_eq!(c.remaining(), 100);
    let u = granted(c.acquire(100, 10));
    assert_eq!(u.generation(), 1);
    assert_eq!(c.remaining(), 90);
    assert!(c.accepts(&t));
    c.release(t);
    assert_eq!(c.remaining(), 90);
    c.release(u);
    assert_eq!(c.remaining(), 100);
}

#[test]
fn a_credit_beyond_the_machine_range_is_not_accepted() {
    let mut c = Capacity::new(usize::MAX);
    let t = granted(c.acquire(usize::MAX, 1));
    assert_eq!(t.get(), usize::MAX);
    assert_eq!(c.remaining(), usize::MAX);
    assert!(!c.accepts(&t));
    c.reset(usize::MAX, 3);
    assert!(c.accepts(&t));
}

#[test]
fn reset_keeps_the_parts() {
    let mut c = with_parts(10, 3);
    let _ = granted(c.acquire(10, 10));
    c.reset(10, 7);
    assert_eq!(c.generation(), 7);
    assert_eq!(c.remaining(), 10);
    assert_eq!(c.parts(), 3);
}

#[test]
fn removing_a_part_stops_at_zero() {
    let mut c = with_parts(10, 2);
    c.remove_part();
    assert_eq!(c.parts(), 1);
    c.remove_part();
    assert_eq!(c.parts(), 0);
    c.remove_part();
    assert_eq!(c.parts(), 0);
    assert_eq!(c.remaining(), 10);
}

#[test]
fn remaining_and_outstanding_add_up_to_the_maximum() {
    let maximum = 100;
    let mut c = with_parts(maximum, 3);
    let mut outstanding: Vec<Token> = Vec::new();
    let hints = [40, 7, 1, 100, 3, 0, 55, 2, 9, 9, 9, 1000];
    for (round, hint) in hints.iter().enumerate() {
        if let Ok(t) = c.acquire(maximum, *hint) {
            outstanding.push(t);
        }
        if round % 3 == 2 {
            let t = outstanding.remove(0);
            c.release(t);
        }
        let owed: usize = outstanding.iter().map(|t| t.get()).sum();
        assert_eq!(c.remaining() + owed, maximum);
    }
    while let Some(t) = outstanding.pop() {
        c.release(t);
    }
    assert_eq!(c.remaining(), maximum);
}

#[test]
fn a_grant_exceeds_neither_the_hint_nor_what_remains() {
    for parts in 1..6 {
        for hint in 1..12 {
            let mut c = with_parts(20, parts);
            loop {
                let before = c.remaining();
                match c.acquire(20, hint) {
                    Ok(t) => {
                        assert!(t.get() >= 1);
                        assert!(t.get() <= hint);
                        assert!(t.get() <= before);
                        assert_eq!(c.remaining(), before - t.get());
                    }
                    Err(e) => {
                        assert!(matches!(e, Error::NoCapacity));
                        assert_eq!(before, 0);
                        break;
                    }
                }
            }
        }
    }
}

#[test]
fn nobody_starves_while_anything_remains() {
    for parts in 0..8 {
        let mut c = with_parts(7, parts);
        let mut left = c.remaining();
        while left > 0 {
            let t = granted(c.acquire(7, 1));
            assert!(t.get() >= 1);
            if parts == 0 {
                break;
            }
            left = c.remaining();
        }
    }
}

#[test]
fn every_release_credits_again() {
    // two tokens for the same ten units: without parts nothing is charged
    let mut c = Capacity::new(10);
    let first = granted(c.acquire(10, 10));
    let second = granted(c.acquire(10, 10));
    assert_eq!(c.remaining(), 10);
    c.release(first);
    assert_eq!(c.remaining(), 20);
    c.release(second);
    assert_eq!(c.remaining(), 30);
}
