use aio_limited::algorithms::Id;
use aio_limited::{Error, Limiter};
use futures::executor::{self, Notify};
use futures::task::{self, Task};
use std::sync::{Arc, Mutex};

/// Records which tasks were notified, in order.
struct Bell {
    rung: Mutex<Vec<usize>>,
}

impl Notify for Bell {
    fn notify(&self, id: usize) {
        self.rung.lock().unwrap().push(id);
    }
}

fn bell() -> Arc<Bell> {
    Arc::new(Bell { rung: Mutex::new(Vec::new()) })
}

fn rung(bell: &Arc<Bell>) -> Vec<usize> {
    let mut v = bell.rung.lock().unwrap().clone();
    v.sort();
    v
}

/// A task handle that rings `bell` with `number` when it is notified.
fn task_of(bell: &Arc<Bell>, number: usize) -> Task {
    executor::spawn(()).poll_fn_notify(bell, number, |_| task::current())
}

fn registered(limiter: &Limiter) -> Id {
    match limiter.register() {
        Ok(id) => id,
        Err(e) => panic!("not registered: {}", e.message()),
    }
}

#[test]
fn a_new_limiter_is_in_service() {
    let limiter = Limiter::new(10);
    assert!(!limiter.is_faulted());
    let id = registered(&limiter);
    assert_eq!(id.number(), 1);
    match limiter.get(id, 4) {
        Ok(t) => assert_eq!(t.get(), 4),
        Err(e) => panic!("{}", e.message()),
    }
}

#[test]
fn in_service_follows_the_fault_flag() {
    assert!(Limiter::in_service(false).is_ok());
    assert!(matches!(Limiter::in_service(true), Err(Error::TimerError)));
}

#[test]
fn a_failed_clock_puts_the_limiter_out_of_service() {
    let limiter = Limiter::new(10);
    let id = registered(&limiter);
    let bell = bell();
    limiter.fail();
    assert!(limiter.is_faulted());
    assert!(matches!(limiter.get(id, 1), Err(Error::TimerError)));
    assert!(matches!(limiter.register(), Err(Error::TimerError)));
    assert!(matches!(limiter.enqueue(id, task_of(&bell, 1)), Err(Error::TimerError)));
    // nothing was entered, so a tick wakes nobody
    assert!(limiter.tick().is_empty());
    assert!(rung(&bell).is_empty());
    // and the fault stays
    assert!(limiter.clone().is_faulted());
}

#[test]
fn registration_is_bounded_by_the_maximum() {
    let limiter = Limiter::new(2);
    let a = registered(&limiter);
    let _b = registered(&limiter);
    assert!(matches!(limiter.register(), Err(Error::NoCapacity)));
    limiter.deregister(a);
    assert!(limiter.register().is_ok());
}

#[test]
fn a_limiter_without_capacity_registers_nobody() {
    let limiter = Limiter::new(0);
    assert!(matches!(limiter.register(), Err(Error::NoCapacity)));
}

#[test]
fn a_tick_restores_the_capacity() {
    let limiter = Limiter::new(6);
    let id = registered(&limiter);
    let first = limiter.get(id, 6).ok().unwrap();
    assert_eq!(first.get(), 6);
    assert_eq!(first.generation(), 0);
    assert!(matches!(limiter.get(id, 6), Err(Error::NoCapacity)));
    limiter.tick();
    let second = limiter.get(id, 6).ok().unwrap();
    assert_eq!(second.get(), 6);
    // what was granted before the tick is worthless after it
    limiter.release(first);
    assert!(matches!(limiter.get(id, 6), Err(Error::NoCapacity)));
    limiter.release(second);
    assert_eq!(limiter.get(id, 6).ok().unwrap().get(), 6);
}

#[test]
fn ticks_count_the_generations() {
    let limiter = Limiter::new(4);
    let id = registered(&limiter);
    assert_eq!(limiter.get(id, 1).ok().unwrap().generation(), 0);
    limiter.tick();
    assert_eq!(limiter.get(id, 1).ok().unwrap().generation(), 1);
    limiter.tick();
    assert_eq!(limiter.get(id, 1).ok().unwrap().generation(), 2);
    limiter.clone().tick();
    assert_eq!(limiter.get(id, 1).ok().unwrap().generation(), 3);
}

#[test]
fn a_tick_wakes_every_waiter_once_and_empties_the_registry() {
    let limiter = Limiter::new(10);
    let bell = bell();
    let ids: Vec<Id> = (0..5).map(|_| registered(&limiter)).collect();
    for id in &ids {
        assert!(limiter.enqueue(*id, task_of(&bell, id.number())).is_ok());
    }
    let mut woken: Vec<usize> = limiter.tick().iter().map(|id| id.number()).collect();
    woken.sort();
    assert_eq!(woken, vec![1, 2, 3, 4, 5]);
    assert_eq!(rung(&bell), vec![1, 2, 3, 4, 5]);
    // the registry is empty now: the next tick wakes nobody
    assert!(limiter.tick().is_empty());
    assert_eq!(rung(&bell), vec![1, 2, 3, 4, 5]);
}

#[test]
fn the_last_entry_of_an_id_wins() {
    let limiter = Limiter::new(10);
    let bell = bell();
    let id = registered(&limiter);
    assert!(limiter.enqueue(id, task_of(&bell, 70)).is_ok());
    assert!(limiter.enqueue(id, task_of(&bell, 71)).is_ok());
    let woken = limiter.tick();
    assert_eq!(woken, vec![id]);
    assert_eq!(rung(&bell), vec![71]);
}

#[test]
fn a_deregistered_waiter_is_not_woken() {
    let limiter = Limiter::new(10);
    let bell = bell();
    let a = registered(&limiter);
    let b = registered(&limiter);
    assert!(limiter.enqueue(a, task_of(&bell, 1)).is_ok());
    assert!(limiter.enqueue(b, task_of(&bell, 2)).is_ok());
    limiter.deregister(a);
    assert_eq!(limiter.tick(), vec![b]);
    assert_eq!(rung(&bell), vec![2]);
}

#[test]
fn deregistering_an_unknown_id_is_harmless() {
    let limiter = Limiter::new(3);
    let a = registered(&limiter);
    limiter.deregister(a);
    limiter.deregister(a);
    assert!(limiter.tick().is_empty());
    for _ in 0..3 {
        assert!(limiter.register().is_ok());
    }
    assert!(matches!(limiter.register(), Err(Error::NoCapacity)));
}

#[test]
fn clones_share_one_bucket() {
    let limiter = Limiter::new(10);
    let other = limiter.clone();
    let id = registered(&limiter);
    assert_eq!(other.get(id, 10).ok().unwrap().get(), 10);
    assert!(matches!(limiter.get(id, 10), Err(Error::NoCapacity)));
}
