//! The lock of a mirror environment, on a disk and by a clock that are held in
//! memory.

use cim_core::path::FsPath;
use cim_core::venv_lock::{
    lock_is_stale, lock_path_for, now_secs, stamp_of, LockEvent, LockWork, MirrorLock,
    ACQUIRE_TIMEOUT_NANOS, POLL_INTERVAL_MILLIS, STALE_AFTER_SECS,
};
use std::collections::BTreeMap;

const PID: u32 = 4242;
const NOW: u64 = 1_760_000_000;

struct World {
    files: BTreeMap<Vec<u8>, String>,
    nanos: i128,
    sleeps: usize,
    removals: usize,
    /// Whether files can be removed.
    removable: bool,
}

impl World {
    fn at(secs: u64) -> World {
        World {
            files: BTreeMap::new(),
            nanos: secs as i128 * 1_000_000_000,
            sleeps: 0,
            removals: 0,
            removable: true,
        }
    }

    fn secs(&self) -> u64 {
        now_secs(Some((self.nanos / 1_000_000_000) as u64))
    }

    fn acquire(&mut self, venv: &FsPath) -> Result<MirrorLock, String> {
        let mut lock = MirrorLock::acquire(venv, self.nanos);
        loop {
            let event = match &lock.work {
                LockWork::Held => {
                    let stamp = stamp_of(PID, self.secs());
                    self.files.insert(lock.lock_path.bytes.clone(), stamp);
                    return Ok(lock);
                }
                LockWork::Failed(why) => return Err(why.clone()),
                LockWork::Create => {
                    if self.files.contains_key(&lock.lock_path.bytes) {
                        LockEvent::AlreadyExists
                    } else {
                        self.files.insert(lock.lock_path.bytes.clone(), String::new());
                        LockEvent::Created
                    }
                }
                LockWork::ReadHolder => LockEvent::Holder {
                    contents: self.files.get(&lock.lock_path.bytes).cloned(),
                    now: self.secs(),
                },
                LockWork::RemoveStale => {
                    self.removals += 1;
                    if self.removable {
                        self.files.remove(&lock.lock_path.bytes);
                    }
                    LockEvent::RemoveTried { removed: self.removable }
                }
                LockWork::ReadClock => LockEvent::Clock(self.nanos),
                LockWork::Sleep => {
                    self.sleeps += 1;
                    self.nanos += POLL_INTERVAL_MILLIS as i128 * 1_000_000;
                    LockEvent::Slept
                }
            };
            lock = lock.step(event);
        }
    }

    fn release(&mut self, lock: MirrorLock) {
        if let Some(path) = lock.release() {
            self.files.remove(&path.bytes);
        }
    }
}

fn path(s: &str) -> FsPath {
    FsPath::from_text(s)
}

#[test]
fn test_acquire_and_release() {
    let mut world = World::at(NOW);
    let venv_path = path("/tmp/mirror/.venv");
    let lock_path = lock_path_for(&venv_path);

    let lock = world.acquire(&venv_path).unwrap();
    assert!(world.files.contains_key(&lock_path.bytes));
    world.release(lock);
    assert!(
        !world.files.contains_key(&lock_path.bytes),
        "lock file should be removed on drop"
    );
}

#[test]
fn test_stale_lock_is_stolen() {
    let mut world = World::at(NOW);
    let venv_path = path("/tmp/mirror/.venv");
    let lock_path = lock_path_for(&venv_path);

    // Fabricate an old lock file as if left behind by a crashed process.
    let ancient = world.secs().saturating_sub(STALE_AFTER_SECS + 60);
    world.files.insert(lock_path.bytes.clone(), format!("999999\n{}", ancient));

    let lock = world.acquire(&venv_path).expect("stale lock should be stolen");
    assert_eq!(world.removals, 1);
    assert_eq!(world.sleeps, 0);
    assert_eq!(world.files[&lock_path.bytes], format!("{}\n{}\n", PID, NOW));
    world.release(lock);
    assert!(world.files.is_empty());
}

#[test]
fn test_fresh_lock_is_not_stale() {
    // A freshly-created lock file is not stale.
    let contents = Some(format!("{}\n{}", PID, NOW));
    assert!(!lock_is_stale(&contents, NOW));
}

#[test]
fn lock_limits_are_ten_minutes_one_minute_and_half_a_second() {
    assert_eq!(STALE_AFTER_SECS, 600);
    assert_eq!(ACQUIRE_TIMEOUT_NANOS, 60_000_000_000);
    assert_eq!(POLL_INTERVAL_MILLIS, 500);
}

#[test]
fn lock_stands_beside_the_environment() {
    assert_eq!(lock_path_for(&path("/m/.venv")), path("/m/.venv.lock"));
    assert_eq!(lock_path_for(&path("/m/.venv/")), path("/m/.venv.lock"));
    assert_eq!(lock_path_for(&path(".venv")), path(".venv.lock"));
    assert_eq!(lock_path_for(&path("/")), path(".lock"));
    assert_eq!(lock_path_for(&path("")), path(".lock"));
    assert_eq!(lock_path_for(&path("/m/..")), path("/m/.lock"));
    assert_eq!(lock_path_for(&path("/m")), path("/m.lock"));
}

#[test]
fn stamp_holds_process_and_time() {
    assert_eq!(stamp_of(7, 1_700_000_000), "7\n1700000000\n");
    assert_eq!(stamp_of(u32::MAX, u64::MAX), "4294967295\n18446744073709551615\n");
    assert_eq!(stamp_of(0, 0), "0\n0\n");
}

#[test]
fn stamped_lock_ages() {
    let contents = Some(stamp_of(PID, NOW));
    assert!(!lock_is_stale(&contents, NOW - 1));
    assert!(!lock_is_stale(&contents, NOW + STALE_AFTER_SECS));
    assert!(lock_is_stale(&contents, NOW + STALE_AFTER_SECS + 1));
    assert!(lock_is_stale(&contents, u64::MAX));
}

#[test]
fn lock_that_says_nothing_is_not_stale() {
    for contents in ["", "1", "1\n", "1\n\n", "1\nsoon\n", "1\n-5\n", "1\n1 2\n"] {
        assert!(!lock_is_stale(&Some(contents.to_string()), NOW), "{:?}", contents);
    }
    assert!(!lock_is_stale(&None, NOW));
    // One more than the largest number that a timestamp can hold.
    assert!(!lock_is_stale(&Some("1\n18446744073709551616".to_string()), NOW));
}

#[test]
fn timestamp_may_be_written_in_several_ways() {
    for contents in ["1\n5", "1\r\n5\r\n", "1\n  5\t\n", "1\n+5\n", "\n5\nmore\n", "1\n005"] {
        assert!(lock_is_stale(&Some(contents.to_string()), NOW), "{:?}", contents);
    }
}

#[test]
fn clock_before_the_epoch_reads_zero() {
    assert_eq!(now_secs(None), 0);
    assert_eq!(now_secs(Some(17)), 17);
}

#[test]
fn live_holder_is_waited_for_until_the_deadline() {
    let mut world = World::at(NOW);
    let venv_path = path("/m/.venv");
    let lock_path = lock_path_for(&venv_path);
    world.files.insert(lock_path.bytes.clone(), stamp_of(1, NOW));
    assert_eq!(
        world.acquire(&venv_path).unwrap_err(),
        "Timed out waiting for another cim process to finish updating the \
         shared virtual environment (lock file: /m/.venv.lock). If no other `cim \
         install pip` is actually running, remove that file and retry."
    );
    assert_eq!(world.sleeps, 120);
    assert_eq!(world.removals, 0);
    assert_eq!(world.files[&lock_path.bytes], stamp_of(1, NOW));
}

#[test]
fn stale_lock_that_cannot_be_removed_times_out() {
    let mut world = World::at(NOW);
    world.removable = false;
    let venv_path = path("/m/.venv");
    let lock_path = lock_path_for(&venv_path);
    world.files.insert(lock_path.bytes.clone(), stamp_of(1, NOW - STALE_AFTER_SECS - 1));
    let started = world.nanos;
    let why = world.acquire(&venv_path).unwrap_err();
    assert!(why.starts_with("Timed out waiting for another cim process"), "{}", why);
    assert_eq!(world.nanos - started, ACQUIRE_TIMEOUT_NANOS);
    assert_eq!(world.sleeps, 120);
    assert_eq!(world.removals, 121);
}

#[test]
fn removal_that_failed_leads_to_the_clock() {
    let lock = MirrorLock::acquire(&path("/m/.venv"), 0);
    let lock = lock.step(LockEvent::AlreadyExists);
    let lock = lock.step(LockEvent::Holder { contents: Some("1\n5\n".to_string()), now: NOW });
    assert_eq!(lock.work, LockWork::RemoveStale);
    let lock = lock.step(LockEvent::RemoveTried { removed: false });
    assert_eq!(lock.work, LockWork::ReadClock);
    let lock = lock.step(LockEvent::Clock(ACQUIRE_TIMEOUT_NANOS));
    assert!(matches!(lock.work, LockWork::Failed(_)));
}

#[test]
fn lock_is_acquired_once_the_holder_is_done() {
    let lock = MirrorLock::acquire(&path("/m/.venv"), 0);
    let lock = lock.step(LockEvent::AlreadyExists);
    let lock = lock.step(LockEvent::Holder { contents: None, now: NOW });
    assert_eq!(lock.work, LockWork::ReadClock);
    let lock = lock.step(LockEvent::Clock(ACQUIRE_TIMEOUT_NANOS - 1));
    assert_eq!(lock.work, LockWork::Sleep);
    let lock = lock.step(LockEvent::Slept);
    assert_eq!(lock.work, LockWork::Create);
    let lock = lock.step(LockEvent::Created);
    assert_eq!(lock.work, LockWork::Held);
    assert_eq!(lock.release(), Some(path("/m/.venv.lock")));
}

#[test]
fn lock_fails_where_its_file_cannot_be_created() {
    let lock = MirrorLock::acquire(&path("/m/.venv"), 0);
    let lock = lock.step(LockEvent::CreateFailed("read-only".to_string()));
    assert_eq!(
        lock.work,
        LockWork::Failed("Failed to create lock file /m/.venv.lock: read-only".to_string())
    );
    let lock = lock.step(LockEvent::Created);
    assert!(matches!(lock.work, LockWork::Failed(_)));
    assert_eq!(lock.release(), None);
}

#[test]
fn lock_is_not_held_by_two() {
    let mut world = World::at(NOW);
    let venv_path = path("/m/.venv");
    let first = world.acquire(&venv_path).unwrap();
    assert!(world.acquire(&venv_path).is_err());
    world.release(first);
    assert!(world.acquire(&venv_path).is_ok());
}

#[test]
fn lock_ignores_events_that_answer_nothing() {
    let lock = MirrorLock::acquire(&path("/m/.venv"), 5);
    assert_eq!(lock.deadline, 5 + ACQUIRE_TIMEOUT_NANOS);
    let lock = lock.step(LockEvent::Slept);
    assert_eq!(lock.work, LockWork::Create);
    let lock = lock.step(LockEvent::Clock(i128::MAX));
    assert_eq!(lock.work, LockWork::Create);
}

#[test]
fn live_lock_is_left_alone() {
    let mut lock = MirrorLock::acquire(&path("/m/.venv"), 0);
    for round in 0..5 {
        lock = lock.step(LockEvent::AlreadyExists);
        let contents = Some(stamp_of(1, NOW));
        lock = lock.step(LockEvent::Holder { contents, now: NOW + round });
        lock = lock.step(LockEvent::Clock(round as i128));
        assert_eq!(lock.work, LockWork::Sleep);
        lock = lock.step(LockEvent::Slept);
        assert_eq!(lock.work, LockWork::Create);
    }
    assert_eq!(lock.release(), None);
}
