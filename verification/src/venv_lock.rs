//! A small advisory lock around the one operation on a shared mirror virtual
//! environment that can corrupt it for every workspace: creating the `.venv`
//! directory, or wiping and recreating it. Installing packages into a mirror
//! environment that works takes no lock.
//!
//! The lock is a file beside the environment. [`MirrorLock`] decides what to do
//! next while it is being acquired; whoever drives it does the file work and
//! reports what happened.

use crate::path::{file_name, joined, parent, FsPath};
use crate::text;
use vstd::prelude::*;
use vstd::string::*;
use vstd::utf8::encode_utf8;

verus! {

/// A lock file older than this many seconds belongs to a process that is gone.
/// The limit is generous: creating an environment runs several programs, some
/// of them over the network.
pub const STALE_AFTER_SECS: u64 = 600;

/// How long a live holder is waited for, in nanoseconds.
pub const ACQUIRE_TIMEOUT_NANOS: i128 = 60_000_000_000;

/// How long to sleep between two attempts, in milliseconds.
pub const POLL_INTERVAL_MILLIS: u64 = 500;

// ----------------------------------------------------------------------------
// The lock file
// ----------------------------------------------------------------------------

/// The lock file of the environment at `venv`: its file name with `.lock`
/// behind it, in the same directory.
pub open spec fn lock_path(venv: Seq<u8>) -> Seq<u8> {
    let own = match file_name(venv) {
        Some(name) => name,
        None => seq![],
    };
    let name = own + encode_utf8(".lock"@);
    match parent(venv) {
        Some(dir) => joined(dir, name),
        None => name,
    }
}

/// Returns the lock file of the environment at `mirror_venv_path`. It stands
/// beside that directory, not inside it: what it guards removes the directory.
pub fn lock_path_for(mirror_venv_path: &FsPath) -> (out: FsPath)
    ensures
        out@ == lock_path(mirror_venv_path@),
{
    let mut name: Vec<u8> = match mirror_venv_path.file_name() {
        Some(name) => name,
        None => Vec::new(),
    };
    let ghost own = name@;
    let suffix = ".lock".as_bytes();
    name.extend_from_slice(suffix);
    assert(name@ =~= own + encode_utf8(".lock"@));
    match mirror_venv_path.parent() {
        Some(dir) => dir.join(name.as_slice()),
        None => FsPath { bytes: name },
    }
}

/// Seconds since the Unix epoch, given how long ago that was. A clock that
/// stands before the epoch reads zero.
pub fn now_secs(since_epoch: Option<u64>) -> (secs: u64)
    ensures
        secs == (match since_epoch {
            Some(s) => s,
            None => 0,
        }),
{
    match since_epoch {
        Some(s) => s,
        None => 0,
    }
}

/// What a holder writes into its lock file: its process id and the time, each
/// on a line of its own.
pub open spec fn stamp(pid: nat, now: nat) -> Seq<char> {
    text::decimal(pid) + "\n"@ + text::decimal(now) + "\n"@
}

/// Makes the contents of a lock file.
pub fn stamp_of(pid: u32, now: u64) -> (out: String)
    ensures
        out@ == stamp(pid as nat, now as nat),
{
    text::decimal_of(pid as u64).concat("\n").concat(text::decimal_of(now).as_str()).concat("\n")
}

/// When a lock file with these contents was created, in seconds since the
/// epoch: the number on its second line, if that is one that fits 64 bits.
pub open spec fn created_secs(contents: Seq<char>) -> Option<nat> {
    let lines = text::lines(contents);
    if lines.len() < 2 {
        None
    } else {
        match text::parse_unsigned(text::trimmed(lines[1])) {
            Some(n) => if n <= u64::MAX {
                Some(n)
            } else {
                None
            },
            None => None,
        }
    }
}

/// Whether a lock file is abandoned: its contents could be read, say when it
/// was created, and that is more than [`STALE_AFTER_SECS`] ago.
pub open spec fn stale(contents: Option<Seq<char>>, now: nat) -> bool {
    match contents {
        Some(c) => match created_secs(c) {
            Some(created) => now - created > STALE_AFTER_SECS,
            None => false,
        },
        None => false,
    }
}

/// Whether the lock file whose contents are given (`None` where they could not
/// be read) is abandoned at `now`.
pub fn lock_is_stale(contents: &Option<String>, now: u64) -> (out: bool)
    ensures
        out == stale(contents.deep_view(), now as nat),
{
    match contents {
        None => false,
        Some(contents) => match text::nth_line(contents.as_str(), 1) {
            None => false,
            Some(line) => match text::parse_u64(text::trim(line)) {
                None => false,
                Some(created) => now.saturating_sub(created) > STALE_AFTER_SECS,
            },
        },
    }
}

// ----------------------------------------------------------------------------
// Acquiring the lock
// ----------------------------------------------------------------------------

/// What acquiring the lock waits for.
#[derive(Debug, PartialEq, Eq)]
pub enum LockWork {
    /// Create the lock file, unless it exists.
    Create,
    /// Read the lock file that another process holds, and then the clock.
    ReadHolder,
    /// Remove the lock file.
    RemoveStale,
    /// Read the clock.
    ReadClock,
    /// Sleep for [`POLL_INTERVAL_MILLIS`].
    Sleep,
    /// Nothing: the lock is held, and its file is to receive the stamp.
    Held,
    /// Nothing: the lock was not acquired, for the reason given.
    Failed(String),
}

/// What came of the work.
#[derive(Debug, PartialEq, Eq)]
pub enum LockEvent {
    /// The lock file was created.
    Created,
    /// The lock file exists.
    AlreadyExists,
    /// The lock file could not be created for another reason.
    CreateFailed(String),
    /// The contents of the lock file, if they could be read, and the seconds
    /// since the epoch.
    Holder { contents: Option<String>, now: u64 },
    /// The removal was tried. A file that was gone already counts as removed.
    RemoveTried { removed: bool },
    /// The time in nanoseconds since the epoch.
    Clock(i128),
    /// The sleep is over.
    Slept,
}

/// What a [`LockWork`] stands for.
pub enum LockWorkView {
    Create,
    ReadHolder,
    RemoveStale,
    ReadClock,
    Sleep,
    Held,
    Failed(Seq<char>),
}

/// What a [`LockEvent`] stands for.
pub enum LockEventView {
    Created,
    AlreadyExists,
    CreateFailed(Seq<char>),
    Holder { contents: Option<Seq<char>>, now: nat },
    RemoveTried { removed: bool },
    Clock(int),
    Slept,
}

impl DeepView for LockWork {
    type V = LockWorkView;

    open spec fn deep_view(&self) -> LockWorkView {
        match self {
            LockWork::Create => LockWorkView::Create,
            LockWork::ReadHolder => LockWorkView::ReadHolder,
            LockWork::RemoveStale => LockWorkView::RemoveStale,
            LockWork::ReadClock => LockWorkView::ReadClock,
            LockWork::Sleep => LockWorkView::Sleep,
            LockWork::Held => LockWorkView::Held,
            LockWork::Failed(why) => LockWorkView::Failed(why@),
        }
    }
}

impl DeepView for LockEvent {
    type V = LockEventView;

    open spec fn deep_view(&self) -> LockEventView {
        match self {
            LockEvent::Created => LockEventView::Created,
            LockEvent::AlreadyExists => LockEventView::AlreadyExists,
            LockEvent::CreateFailed(why) => LockEventView::CreateFailed(why@),
            LockEvent::Holder { contents, now } => LockEventView::Holder {
                contents: contents.deep_view(),
                now: *now as nat,
            },
            LockEvent::RemoveTried { removed } => LockEventView::RemoveTried { removed: *removed },
            LockEvent::Clock(t) => LockEventView::Clock(*t as int),
            LockEvent::Slept => LockEventView::Slept,
        }
    }
}

/// The lock of one mirror environment, from the first attempt to acquire it
/// until it is released.
#[derive(Debug, PartialEq, Eq)]
pub struct MirrorLock {
    pub lock_path: FsPath,
    /// When to stop waiting for a live holder, in nanoseconds since the epoch.
    pub deadline: i128,
    pub work: LockWork,
}

/// What a [`MirrorLock`] stands for.
pub struct MirrorLockView {
    pub lock_path: Seq<u8>,
    pub deadline: int,
    pub work: LockWorkView,
}

impl DeepView for MirrorLock {
    type V = MirrorLockView;

    open spec fn deep_view(&self) -> MirrorLockView {
        MirrorLockView {
            lock_path: self.lock_path@,
            deadline: self.deadline as int,
            work: self.work.deep_view(),
        }
    }
}

/// Why the lock at `path` was not acquired in time.
pub open spec fn timeout_text(path: Seq<u8>) -> Seq<char> {
    "Timed out waiting for another cim process to finish updating the shared virtual environment (lock file: "@
        + crate::path::shown(path)
        + "). If no other `cim install pip` is actually running, remove that file and retry."@
}

/// Why the lock file at `path` could not be created.
pub open spec fn create_failed_text(path: Seq<u8>, why: Seq<char>) -> Seq<char> {
    "Failed to create lock file "@ + crate::path::shown(path) + ": "@ + why
}

/// The first state of acquiring the lock of `venv`, at `now`.
pub open spec fn acquiring(venv: Seq<u8>, now: int) -> MirrorLockView {
    MirrorLockView {
        lock_path: lock_path(venv),
        deadline: now + ACQUIRE_TIMEOUT_NANOS,
        work: LockWorkView::Create,
    }
}

/// The state after the event `e`. A lock file that could not be removed is
/// waited for like a live one. An event that does not answer the work that is
/// waited for changes nothing.
pub open spec fn lock_step(l: MirrorLockView, e: LockEventView) -> MirrorLockView {
    let work = match (l.work, e) {
        (LockWorkView::Create, LockEventView::Created) => LockWorkView::Held,
        (LockWorkView::Create, LockEventView::AlreadyExists) => LockWorkView::ReadHolder,
        (LockWorkView::Create, LockEventView::CreateFailed(why)) => LockWorkView::Failed(
            create_failed_text(l.lock_path, why),
        ),
        (LockWorkView::ReadHolder, LockEventView::Holder { contents, now }) => if stale(
            contents,
            now,
        ) {
            LockWorkView::RemoveStale
        } else {
            LockWorkView::ReadClock
        },
        (LockWorkView::RemoveStale, LockEventView::RemoveTried { removed }) => if removed {
            LockWorkView::Create
        } else {
            LockWorkView::ReadClock
        },
        (LockWorkView::ReadClock, LockEventView::Clock(t)) => if t >= l.deadline {
            LockWorkView::Failed(timeout_text(l.lock_path))
        } else {
            LockWorkView::Sleep
        },
        (LockWorkView::Sleep, LockEventView::Slept) => LockWorkView::Create,
        (work, _) => work,
    };
    MirrorLockView { work, ..l }
}

/// The state after all of `events`, in order.
pub open spec fn lock_run(l: MirrorLockView, events: Seq<LockEventView>) -> MirrorLockView
    decreases events.len(),
{
    if events.len() == 0 {
        l
    } else {
        lock_step(lock_run(l, events.drop_last()), events.last())
    }
}

impl MirrorLock {
    /// Starts to acquire the lock guarding `mirror_venv_path` at `now`, in
    /// nanoseconds since the epoch.
    pub fn acquire(mirror_venv_path: &FsPath, now: i128) -> (out: MirrorLock)
        requires
            now + ACQUIRE_TIMEOUT_NANOS <= i128::MAX,
        ensures
            out.deep_view() == acquiring(mirror_venv_path@, now as int),
    {
        MirrorLock {
            lock_path: lock_path_for(mirror_venv_path),
            deadline: now + ACQUIRE_TIMEOUT_NANOS,
            work: LockWork::Create,
        }
    }

    /// Takes note of `event` and decides what to do next.
    pub fn step(self, event: LockEvent) -> (next: MirrorLock)
        ensures
            next.deep_view() == lock_step(self.deep_view(), event.deep_view()),
    {
        let MirrorLock { lock_path, deadline, work } = self;
        let work = match (work, event) {
            (LockWork::Create, LockEvent::Created) => LockWork::Held,
            (LockWork::Create, LockEvent::AlreadyExists) => LockWork::ReadHolder,
            (LockWork::Create, LockEvent::CreateFailed(why)) => LockWork::Failed(
                "Failed to create lock file ".to_owned().concat(
                    lock_path.display().as_str(),
                ).concat(": ").concat(why.as_str()),
            ),
            (LockWork::ReadHolder, LockEvent::Holder { contents, now }) => if lock_is_stale(
                &contents,
                now,
            ) {
                LockWork::RemoveStale
            } else {
                LockWork::ReadClock
            },
            (LockWork::RemoveStale, LockEvent::RemoveTried { removed }) => if removed {
                LockWork::Create
            } else {
                LockWork::ReadClock
            },
            (LockWork::ReadClock, LockEvent::Clock(t)) => if t >= deadline {
                LockWork::Failed(
                    "Timed out waiting for another cim process to finish updating the shared virtual environment (lock file: ".to_owned().concat(
                    lock_path.display().as_str()).concat(
                        "). If no other `cim install pip` is actually running, remove that file and retry.",
                    ),
                )
            } else {
                LockWork::Sleep
            },
            (LockWork::Sleep, LockEvent::Slept) => LockWork::Create,
            (work, _) => work,
        };
        MirrorLock { lock_path, deadline, work }
    }

    /// Gives the lock up. Returns the file to remove, which is none unless the
    /// lock was held.
    pub fn release(self) -> (out: Option<FsPath>)
        ensures
            out.deep_view() == (if self.deep_view().work is Held {
                Some(self.deep_view().lock_path)
            } else {
                None
            }),
    {
        match self.work {
            LockWork::Held => Some(self.lock_path),
            _ => None,
        }
    }
}

// ----------------------------------------------------------------------------
// Laws
// ----------------------------------------------------------------------------

/// The lock file of an environment that has a file name stands in the same
/// directory, under that name with `.lock` behind it.
pub proof fn law_lock_is_sibling(venv: Seq<u8>)
    requires
        file_name(venv) is Some,
    ensures
        parent(lock_path(venv)) == parent(venv),
        file_name(lock_path(venv)) == Some(file_name(venv)->0 + encode_utf8(".lock"@)),
        file_name(lock_path(venv)) != file_name(venv),
{
    let own = file_name(venv)->0;
    let suffix = encode_utf8(".lock"@);
    let name = own + suffix;
    crate::path::law_file_name_has_parent(venv);
    reveal_strlit(".lock");
    vstd::utf8::is_ascii_chars_encode_utf8(".lock"@);
    assert(suffix.len() == 5);
    assert forall|i: int| 0 <= i < name.len() implies name[i] != crate::path::SLASH by {
        if i < own.len() {
            assert(own.contains(name[i]));
        } else {
            assert(name[i] == suffix[i - own.len()]);
            assert(suffix[i - own.len()] == ".lock"@[i - own.len()] as u8);
        }
    }
    assert(crate::path::is_plain_name(name));
    assert(lock_path(venv) == crate::path::with_file_name(venv, name));
    crate::path::law_with_file_name_is_sibling(venv, name);
}

/// The time that a holder stamps into its lock file is the time that is read
/// back from it.
pub proof fn law_stamp_round_trip(pid: nat, created: nat)
    requires
        created <= u64::MAX,
    ensures
        created_secs(stamp(pid, created)) == Some(created),
{
    let a = text::decimal(pid);
    let b = text::decimal(created);
    reveal_strlit("\n");
    text::lemma_decimal_digits(pid);
    text::lemma_decimal_digits(created);
    text::law_decimal_round_trip(created);
    let s = stamp(pid, created);
    let rest = b + "\n"@;
    assert(s =~= a + ("\n"@ + rest));
    text::lemma_line_of_digits(a, "\n"@ + rest);
    assert(s.skip(a.len() as int + 1) =~= rest);
    assert(s.take(a.len() as int) =~= a);
    text::lemma_line_of_digits(b, "\n"@);
    assert(rest.take(b.len() as int) =~= b);
    assert(text::lines(s) == seq![a] + text::lines(rest));
    assert(text::lines(rest)[0] == b);
    assert(text::lines(s)[1] == b);
    assert(!text::white_space(b[0]));
    assert(!text::white_space(b.last()));
}

/// A lock that was stamped at `created` is abandoned exactly when more than
/// [`STALE_AFTER_SECS`] have passed since.
pub proof fn law_stamped_lock_ages(pid: nat, created: nat, now: nat)
    requires
        created <= u64::MAX,
    ensures
        stale(Some(stamp(pid, created)), now) <==> now - created > STALE_AFTER_SECS,
{
    law_stamp_round_trip(pid, created);
}

/// A lock that is abandoned stays so.
pub proof fn law_stale_stays_stale(contents: Option<Seq<char>>, now: nat, later: nat)
    requires
        stale(contents, now),
        now <= later,
    ensures
        stale(contents, later),
{
}

/// Whatever happens while a lock is being acquired, it concerns one lock file
/// and one deadline.
pub proof fn law_one_lock_file(venv: Seq<u8>, now: int, events: Seq<LockEventView>)
    ensures
        lock_run(acquiring(venv, now), events).lock_path == lock_path(venv),
        lock_run(acquiring(venv, now), events).deadline == now + ACQUIRE_TIMEOUT_NANOS,
    decreases events.len(),
{
    if events.len() > 0 {
        law_one_lock_file(venv, now, events.drop_last());
    }
}

/// The lock is never held unless the acquiring process has itself created the
/// lock file.
pub proof fn law_held_means_created(venv: Seq<u8>, now: int, events: Seq<LockEventView>)
    requires
        lock_run(acquiring(venv, now), events).work is Held,
    ensures
        events.contains(LockEventView::Created),
    decreases events.len(),
{
    if events.len() > 0 {
        let before = lock_run(acquiring(venv, now), events.drop_last());
        if before.work is Held {
            law_held_means_created(venv, now, events.drop_last());
            let i = choose|i: int|
                0 <= i < events.drop_last().len() && events.drop_last()[i]
                    == LockEventView::Created;
            assert(events[i] == LockEventView::Created);
        } else {
            assert(events.last() == LockEventView::Created);
        }
    }
}

/// A lock file is removed only when it was read and found abandoned: a live
/// lock, and one that cannot be read, is never stolen.
pub proof fn law_only_stale_locks_are_stolen(l: MirrorLockView, e: LockEventView)
    requires
        !(l.work is RemoveStale),
        lock_step(l, e).work is RemoveStale,
    ensures
        l.work is ReadHolder,
        e is Holder,
        stale(e->contents, e->Holder_now),
{
}

/// Before the deadline a live holder is waited for: the lock is tried again
/// after one sleep. From the deadline on the attempt fails.
pub proof fn law_live_holder_is_waited_for(
    l: MirrorLockView,
    contents: Option<Seq<char>>,
    now: nat,
    t: int,
)
    requires
        l.work is Create,
        !stale(contents, now),
    ensures
        ({
            let seen = lock_run(
                l,
                seq![
                    LockEventView::AlreadyExists,
                    LockEventView::Holder { contents, now },
                    LockEventView::Clock(t),
                ],
            );
            if t < l.deadline {
                &&& seen.work is Sleep
                &&& lock_step(seen, LockEventView::Slept) == l
            } else {
                seen.work == LockWorkView::Failed(timeout_text(l.lock_path))
            }
        }),
{
    let e1 = LockEventView::AlreadyExists;
    let e2 = LockEventView::Holder { contents, now };
    let e3 = LockEventView::Clock(t);
    let all = seq![e1, e2, e3];
    assert(all.drop_last() =~= seq![e1, e2]);
    assert(seq![e1, e2].drop_last() =~= seq![e1]);
    assert(seq![e1].drop_last() =~= Seq::<LockEventView>::empty());
    reveal_with_fuel(lock_run, 4);
}

/// A live lock is left alone: as long as the lock file exists and is not found
/// abandoned, the lock is neither held nor stolen, and the attempt fails only
/// because the clock showed the deadline or later.
pub proof fn law_live_lock_is_left_alone(venv: Seq<u8>, now: int, events: Seq<LockEventView>)
    requires
        forall|i: int|
            0 <= i < events.len() ==> {
                &&& !(#[trigger] events[i] is Created)
                &&& !(events[i] is CreateFailed)
                &&& events[i] matches LockEventView::Holder { contents, now } ==> !stale(
                    contents,
                    now,
                )
            },
    ensures
        ({
            let l = lock_run(acquiring(venv, now), events);
            &&& !(l.work is Held)
            &&& !(l.work is RemoveStale)
            &&& l.work matches LockWorkView::Failed(why) ==> why == timeout_text(lock_path(venv))
                && saw_deadline(events, now + ACQUIRE_TIMEOUT_NANOS)
        }),
    decreases events.len(),
{
    if events.len() > 0 {
        let earlier = events.drop_last();
        let last = events.len() - 1;
        assert forall|i: int| 0 <= i < earlier.len() implies ({
            &&& !(#[trigger] earlier[i] is Created)
            &&& !(earlier[i] is CreateFailed)
            &&& earlier[i] matches LockEventView::Holder { contents, now } ==> !stale(
                contents,
                now,
            )
        }) by {
            assert(events[i] == earlier[i]);
        }
        law_live_lock_is_left_alone(venv, now, earlier);
        law_one_lock_file(venv, now, earlier);
        let deadline = now + ACQUIRE_TIMEOUT_NANOS;
        if saw_deadline(earlier, deadline) {
            let i = choose|i: int|
                0 <= i < earlier.len() && #[trigger] earlier[i] is Clock && earlier[i]->Clock_0
                    >= deadline;
            assert(events[i] == earlier[i]);
        }
        assert(events[last] == events.last());
    }
}

/// Whether the clock showed `deadline` or later.
pub open spec fn saw_deadline(events: Seq<LockEventView>, deadline: int) -> bool {
    exists|i: int|
        0 <= i < events.len() && #[trigger] events[i] is Clock && events[i]->Clock_0 >= deadline
}

/// Nothing sleeps from the deadline on: a sleep begins only with a look at the
/// clock that shows an earlier time.
pub proof fn law_waiting_ends_at_the_deadline(l: MirrorLockView, e: LockEventView)
    requires
        !(l.work is Sleep),
        lock_step(l, e).work is Sleep,
    ensures
        e matches LockEventView::Clock(t) && t < l.deadline,
{
}

/// A stale lock is stolen: the next thing that is done is to remove it and to
/// try again.
pub proof fn law_stale_lock_is_stolen(
    l: MirrorLockView,
    contents: Option<Seq<char>>,
    now: nat,
)
    requires
        l.work is Create,
        stale(contents, now),
    ensures
        lock_run(
            l,
            seq![LockEventView::AlreadyExists, LockEventView::Holder { contents, now }],
        ).work is RemoveStale,
        lock_run(
            l,
            seq![
                LockEventView::AlreadyExists,
                LockEventView::Holder { contents, now },
                LockEventView::RemoveTried { removed: true },
            ],
        ) == l,
{
    let e1 = LockEventView::AlreadyExists;
    let e2 = LockEventView::Holder { contents, now };
    let e3 = LockEventView::RemoveTried { removed: true };
    assert(seq![e1, e2, e3].drop_last() =~= seq![e1, e2]);
    assert(seq![e1, e2].drop_last() =~= seq![e1]);
    assert(seq![e1].drop_last() =~= Seq::<LockEventView>::empty());
    reveal_with_fuel(lock_run, 4);
}

/// A stale lock that cannot be removed is not waited for any longer than a live
/// one: from the deadline on the attempt fails.
pub proof fn law_stuck_lock_times_out(
    l: MirrorLockView,
    contents: Option<Seq<char>>,
    now: nat,
    t: int,
)
    requires
        l.work is Create,
        stale(contents, now),
        t >= l.deadline,
    ensures
        lock_run(
            l,
            seq![
                LockEventView::AlreadyExists,
                LockEventView::Holder { contents, now },
                LockEventView::RemoveTried { removed: false },
                LockEventView::Clock(t),
            ],
        ).work == LockWorkView::Failed(timeout_text(l.lock_path)),
{
    let e1 = LockEventView::AlreadyExists;
    let e2 = LockEventView::Holder { contents, now };
    let e3 = LockEventView::RemoveTried { removed: false };
    let e4 = LockEventView::Clock(t);
    assert(seq![e1, e2, e3, e4].drop_last() =~= seq![e1, e2, e3]);
    assert(seq![e1, e2, e3].drop_last() =~= seq![e1, e2]);
    assert(seq![e1, e2].drop_last() =~= seq![e1]);
    assert(seq![e1].drop_last() =~= Seq::<LockEventView>::empty());
    reveal_with_fuel(lock_run, 5);
}

/// Every attempt that finds the lock file and does not remove it looks at the
/// clock before the next one: no way leads back to `Create` but a removal, or a
/// sleep, which begins only before the deadline.
pub proof fn law_every_retry_is_a_removal_or_a_sleep(l: MirrorLockView, e: LockEventView)
    requires
        !(l.work is Create),
        lock_step(l, e).work is Create,
    ensures
        (l.work is RemoveStale && e == LockEventView::RemoveTried { removed: true }) || (l.work
            is Sleep && e is Slept),
{
}

/// Two processes that acquire one lock, each with its own events, after all of
/// `events`: those marked `true` are of the first process, the others of the
/// second.
pub open spec fn lock_duel(
    a: MirrorLockView,
    b: MirrorLockView,
    events: Seq<(bool, LockEventView)>,
) -> (MirrorLockView, MirrorLockView)
    decreases events.len(),
{
    if events.len() == 0 {
        (a, b)
    } else {
        let (x, y) = lock_duel(a, b, events.drop_last());
        let (first, e) = events.last();
        if first {
            (lock_step(x, e), y)
        } else {
            (x, lock_step(y, e))
        }
    }
}

/// Whether the lock file exists after all of `events`, where nothing but these
/// events creates or removes it.
pub open spec fn file_exists(at_first: bool, events: Seq<(bool, LockEventView)>) -> bool
    decreases events.len(),
{
    if events.len() == 0 {
        at_first
    } else {
        match events.last().1 {
            LockEventView::Created => true,
            LockEventView::RemoveTried { removed } => !removed && file_exists(
                at_first,
                events.drop_last(),
            ),
            _ => file_exists(at_first, events.drop_last()),
        }
    }
}

/// Whether the lock file is created only while it does not exist, and never
/// removed.
pub open spec fn only_creates(at_first: bool, events: Seq<(bool, LockEventView)>) -> bool {
    forall|i: int|
        0 <= i < events.len() ==> {
            &&& (#[trigger] events[i]).1 is Created ==> !file_exists(at_first, events.take(i))
            &&& events[i].1 != LockEventView::RemoveTried { removed: true }
        }
}

/// Two processes never hold one lock at a time, however their steps interleave,
/// as long as the lock file is created only while it does not exist and neither
/// removes it.
pub proof fn law_live_lock_is_exclusive(
    venv: Seq<u8>,
    now_a: int,
    now_b: int,
    at_first: bool,
    events: Seq<(bool, LockEventView)>,
)
    requires
        only_creates(at_first, events),
    ensures
        ({
            let (a, b) = lock_duel(acquiring(venv, now_a), acquiring(venv, now_b), events);
            &&& !(a.work is Held && b.work is Held)
            &&& a.work is Held || b.work is Held ==> file_exists(at_first, events)
            &&& a.lock_path == b.lock_path
        }),
    decreases events.len(),
{
    if events.len() > 0 {
        let earlier = events.drop_last();
        let last = events.len() - 1;
        assert(events.take(last) =~= earlier);
        assert forall|i: int| 0 <= i < earlier.len() implies ({
            &&& (#[trigger] earlier[i]).1 is Created ==> !file_exists(at_first, earlier.take(i))
            &&& earlier[i].1 != LockEventView::RemoveTried { removed: true }
        }) by {
            assert(events[i] == earlier[i]);
            assert(events.take(i) =~= earlier.take(i));
        }
        law_live_lock_is_exclusive(venv, now_a, now_b, at_first, earlier);
        assert(events[last] == events.last());
    }
}

/// A lock that is held, or that was given up on, stays as it is.
pub proof fn law_lock_outcome_is_final(l: MirrorLockView, e: LockEventView)
    requires
        l.work is Held || l.work is Failed,
    ensures
        lock_step(l, e) == l,
{
}

/// Where the environment has no file name of its own, the lock file is `.lock`
/// in its parent, or alone where it has none.
pub proof fn law_nameless_lock_path(venv: Seq<u8>)
    requires
        file_name(venv) is None,
    ensures
        parent(venv) is Some ==> lock_path(venv) == joined(
            parent(venv)->0,
            seq![0x2eu8, 0x6cu8, 0x6fu8, 0x63u8, 0x6bu8],
        ),
        parent(venv) is None ==> lock_path(venv) == seq![0x2eu8, 0x6cu8, 0x6fu8, 0x63u8, 0x6bu8],
{
    reveal_strlit(".lock");
    vstd::utf8::is_ascii_chars_encode_utf8(".lock"@);
    let suffix = seq![0x2eu8, 0x6cu8, 0x6fu8, 0x63u8, 0x6bu8];
    assert(encode_utf8(".lock"@) =~= suffix);
    assert(Seq::<u8>::empty() + suffix =~= suffix);
}

/// Two environments with different names in one directory have different locks.
pub proof fn law_locks_are_distinct(a: Seq<u8>, b: Seq<u8>)
    requires
        file_name(a) is Some,
        file_name(b) is Some,
        file_name(a) != file_name(b),
    ensures
        lock_path(a) != lock_path(b),
{
    law_lock_is_sibling(a);
    law_lock_is_sibling(b);
    let suffix = encode_utf8(".lock"@);
    let x = file_name(a)->0;
    let y = file_name(b)->0;
    if x + suffix == y + suffix {
        assert(x.len() == y.len());
        assert((x + suffix).take(x.len() as int) =~= x);
        assert((y + suffix).take(y.len() as int) =~= y);
    }
}

/// A holder stamps its process on the first line and the time on the second, and
/// nothing else.
pub proof fn law_stamp_names_process_and_time(pid: nat, created: nat)
    ensures
        text::lines(stamp(pid, created)) == seq![text::decimal(pid), text::decimal(created)],
        stamp(pid, created).last() == '\n',
{
    let a = text::decimal(pid);
    let b = text::decimal(created);
    reveal_strlit("\n");
    text::lemma_decimal_digits(pid);
    text::lemma_decimal_digits(created);
    let s = stamp(pid, created);
    let rest = b + "\n"@;
    assert(s =~= a + ("\n"@ + rest));
    text::lemma_line_of_digits(a, "\n"@ + rest);
    assert(s.skip(a.len() as int + 1) =~= rest);
    assert(s.take(a.len() as int) =~= a);
    text::lemma_line_of_digits(b, "\n"@);
    assert(rest.take(b.len() as int) =~= b);
    assert(rest.skip(b.len() as int + 1) =~= Seq::<char>::empty());
    assert(text::lines(Seq::<char>::empty()) =~= seq![]);
    assert(text::lines(rest) =~= seq![b]);
    assert(text::lines(s) =~= seq![a, b]);
}

/// A lock file is abandoned exactly where its second line, without white space
/// around it, is a number that fits 64 bits and lies more than ten minutes back.
/// One that cannot be read, has no second line, or says something else there, is
/// not.
pub proof fn law_second_line_decides(contents: Seq<char>, now: nat)
    ensures
        stale(Some(contents), now) <==> {
            &&& text::lines(contents).len() >= 2
            &&& text::parse_unsigned(text::trimmed(text::lines(contents)[1])) matches Some(n)
            &&& n <= 0xffff_ffff_ffff_ffff
            &&& now > n + 600
        },
        !stale(None, now),
{
}

/// A lock file that was created is held; one that exists is read; one that
/// cannot be created ends the attempt, with the path and the reason.
pub proof fn law_creation_decides(l: MirrorLockView, why: Seq<char>)
    requires
        l.work is Create,
    ensures
        lock_step(l, LockEventView::Created).work is Held,
        lock_step(l, LockEventView::AlreadyExists).work is ReadHolder,
        lock_step(l, LockEventView::CreateFailed(why)).work == LockWorkView::Failed(
            "Failed to create lock file "@ + crate::path::shown(l.lock_path) + ": "@ + why,
        ),
{
}

/// An attempt that takes too long names the lock file.
pub proof fn law_timeout_names_the_lock_file(l: MirrorLockView, t: int)
    requires
        l.work is ReadClock,
        t >= l.deadline,
    ensures
        lock_step(l, LockEventView::Clock(t)).work == LockWorkView::Failed(
            "Timed out waiting for another cim process to finish updating the shared virtual environment (lock file: "@
                + crate::path::shown(l.lock_path)
                + "). If no other `cim install pip` is actually running, remove that file and retry."@,
        ),
{
}

/// An attempt starts by creating the lock file, and has one minute from then on.
pub proof fn law_attempt_has_one_minute(venv: Seq<u8>, now: int)
    ensures
        acquiring(venv, now).work is Create,
        acquiring(venv, now).deadline == now + 60_000_000_000,
        acquiring(venv, now).lock_path == lock_path(venv),
{
}

/// An event that is no outcome of the work that is waited for changes nothing.
pub proof fn law_lock_ignores_other_events(l: MirrorLockView, e: LockEventView)
    requires
        match l.work {
            LockWorkView::Create => !(e is Created || e is AlreadyExists || e is CreateFailed),
            LockWorkView::ReadHolder => !(e is Holder),
            LockWorkView::RemoveStale => !(e is RemoveTried),
            LockWorkView::ReadClock => !(e is Clock),
            LockWorkView::Sleep => !(e is Slept),
            LockWorkView::Held => true,
            LockWorkView::Failed(_) => true,
        },
    ensures
        lock_step(l, e) == l,
{
}

} // verus!
