use systemd_bus::call::{breaks_link, decode_path, CallOutcome, Operation, RpcError};
use systemd_bus::pool::{LinkPool, Step, Wake};
use systemd_bus::wire::{ObjectPath, WireValue};

fn job_reply() -> CallOutcome {
    let path = ObjectPath::new("/org/freedesktop/systemd1/job/42".to_string()).unwrap();
    CallOutcome::Reply(vec![WireValue::ObjPath(path)])
}

#[test]
fn third_caller_waits_for_a_release() {
    let mut pool = LinkPool::new(2);
    assert_eq!(pool.acquire(1), Step::Create);
    assert_eq!(pool.acquire(2), Step::Create);
    assert_eq!(pool.acquire(3), Step::Wait);
    assert_eq!(pool.size(), 2);
    assert_eq!(pool.waiting(), 1);

    let (first, wake) = pool.created(true);
    assert_eq!(first, Step::Lease(0));
    assert_eq!(wake, None);
    let (second, _) = pool.created(true);
    assert_eq!(second, Step::Lease(1));

    let r1 = decode_path(Operation::StartUnit, job_reply());
    let r2 = decode_path(Operation::StartUnit, job_reply());
    assert!(r1.is_ok() && r2.is_ok());

    let wake = pool.release(0, breaks_link(&r1));
    assert_eq!(wake, Some(Wake { waiter: 3, step: Step::Check(0) }));
    assert_eq!(pool.health_checked(0, true), Step::Lease(0));
    let r3 = decode_path(Operation::StartUnit, job_reply());
    assert_eq!(r3.unwrap().as_str(), "/org/freedesktop/systemd1/job/42");
    assert_eq!(pool.release(0, false), None);
    assert_eq!(pool.release(1, breaks_link(&r2)), None);
    assert_eq!(pool.size(), 2);
    assert_eq!(pool.idle_count(), 2);
}

#[test]
fn remote_error_releases_link_as_idle() {
    let mut pool = LinkPool::new(2);
    assert_eq!(pool.acquire(7), Step::Create);
    assert_eq!(pool.created(true).0, Step::Lease(0));
    let outcome = CallOutcome::Error {
        name: "NoSuchUnit".to_string(),
        message: "Unit missing.service not found.".to_string(),
    };
    let r = decode_path(Operation::StartUnit, outcome);
    assert_eq!(
        r,
        Err(RpcError::Remote {
            code: "NoSuchUnit".to_string(),
            message: "Unit missing.service not found.".to_string(),
        })
    );
    assert!(!breaks_link(&r));
    assert_eq!(pool.release(0, breaks_link(&r)), None);
    assert_eq!(pool.idle_count(), 1);
    assert!(!pool.is_busy(0));
    assert_eq!(pool.acquire(8), Step::Check(0));
}

#[test]
fn links_never_exceed_capacity() {
    let mut pool = LinkPool::new(3);
    let mut creates = 0;
    let mut waits = 0;
    for w in 0..10u64 {
        match pool.acquire(w) {
            Step::Create => creates += 1,
            Step::Wait => waits += 1,
            other => panic!("unexpected {:?}", other),
        }
        assert!(pool.size() <= pool.capacity());
    }
    assert_eq!(creates, 3);
    assert_eq!(waits, 7);
}

#[test]
fn failed_health_check_replaces_link_once() {
    let mut pool = LinkPool::new(1);
    assert_eq!(pool.acquire(1), Step::Create);
    assert_eq!(pool.created(true).0, Step::Lease(0));
    assert_eq!(pool.release(0, false), None);
    assert_eq!(pool.acquire(2), Step::Check(0));
    assert_eq!(pool.health_checked(0, false), Step::Create);
    assert!(!pool.is_busy(0));
    assert_eq!(pool.opening(), 1);
    assert_eq!(pool.created(true).0, Step::Lease(1));
    assert_eq!(pool.size(), 1);
}

#[test]
fn failed_replacement_ends_acquire_and_frees_room() {
    let mut pool = LinkPool::new(1);
    assert_eq!(pool.acquire(1), Step::Create);
    assert_eq!(pool.acquire(2), Step::Wait);
    let (step, wake) = pool.created(false);
    assert_eq!(step, Step::Failed);
    assert_eq!(wake, Some(Wake { waiter: 2, step: Step::Create }));
    let (step, wake) = pool.created(false);
    assert_eq!(step, Step::Failed);
    assert_eq!(wake, None);
    assert_eq!(pool.size(), 0);
}

#[test]
fn broken_link_is_dropped_and_waiter_opens_anew() {
    let mut pool = LinkPool::new(1);
    assert_eq!(pool.acquire(1), Step::Create);
    assert_eq!(pool.created(true).0, Step::Lease(0));
    assert_eq!(pool.acquire(2), Step::Wait);
    assert_eq!(pool.release(0, true), Some(Wake { waiter: 2, step: Step::Create }));
    assert_eq!(pool.created(true).0, Step::Lease(1));
    assert_eq!(pool.release(1, false), None);
    assert_eq!(pool.acquire(3), Step::Check(1));
}
