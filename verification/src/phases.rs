//! The build phases of a workspace: which of them exist, and running them one
//! after the other with `make`.

use crate::message::{
    fixed, message, one, says, silent, tell_all, two, Level, Message, MessageView,
};
use crate::path::FsPath;
use crate::text;
use vstd::prelude::*;
use vstd::string::*;

verus! {

// ----------------------------------------------------------------------------
// Which phases exist
// ----------------------------------------------------------------------------

/// The index of the first of `phases`, from `i` on, that `known` does not hold,
/// or their number where there is none.
pub open spec fn first_unknown(
    phases: Seq<Seq<char>>,
    known: Seq<Seq<char>>,
    i: nat,
) -> nat
    decreases phases.len() - i,
{
    if i >= phases.len() {
        phases.len()
    } else if !known.contains(phases[i as int]) {
        i
    } else {
        first_unknown(phases, known, i + 1)
    }
}

/// What is said of a phase that the target does not declare.
pub open spec fn unknown_phase_text(
    phase: Seq<char>,
    target: Seq<char>,
    known: Seq<Seq<char>>,
) -> Seq<char> {
    "Unknown bootstrap phase '"@ + phase + "': target '"@ + target
        + "' does not declare it (available: "@ + text::joined(known, ", "@) + ")"@
}

/// What is wrong with `phases`, if anything is: the first that is not known.
pub open spec fn phases_error(
    phases: Seq<Seq<char>>,
    known: Seq<Seq<char>>,
    target: Seq<char>,
) -> Option<Seq<char>> {
    let i = first_unknown(phases, known, 0);
    if i < phases.len() {
        Some(unknown_phase_text(phases[i as int], target, known))
    } else {
        None
    }
}

/// Returns what is wrong with `phases`, if one of them is not declared by the
/// target.
pub fn validate_bootstrap_phases(
    phases: &Vec<String>,
    known_phases: &Vec<String>,
    target: &str,
) -> (out: Option<String>)
    ensures
        out.deep_view() == phases_error(
            phases.deep_view(),
            known_phases.deep_view(),
            target@,
        ),
{
    let ghost all = phases.deep_view();
    let ghost known = known_phases.deep_view();
    assert(all.len() == phases.len());
    let mut i: usize = 0;
    while i < phases.len()
        invariant
            i <= phases.len(),
            all == phases.deep_view(),
            known == known_phases.deep_view(),
            first_unknown(all, known, 0) == first_unknown(all, known, i as nat),
        decreases phases.len() - i,
    {
        assert(all[i as int] == phases[i as int]@);
        if !text::list_contains(known_phases, &phases[i]) {
            let said = "Unknown bootstrap phase '".to_owned().concat(phases[i].as_str()).concat(
                "': target '",
            ).concat(target).concat("' does not declare it (available: ").concat(
                text::join(known_phases, ", ").as_str(),
            ).concat(")");
            return Some(said);
        }
        i += 1;
    }
    None
}

// ----------------------------------------------------------------------------
// Running them
// ----------------------------------------------------------------------------

/// What running the phases waits for.
#[derive(Debug, PartialEq, Eq)]
pub enum PhaseWork {
    /// Run `make` with these two arguments in this directory.
    Make { goal: String, jobs: String, dir: FsPath },
    /// Nothing: every phase was run.
    Done,
    /// Nothing: a phase failed. Leave with this exit code.
    Exit(i32),
}

/// What came of running `make`.
#[derive(Debug, PartialEq, Eq)]
pub enum PhaseEvent {
    /// It ended with this exit code, or without one where a signal ended it.
    Ended(Option<i32>),
    /// It could not be started.
    NotStarted(String),
}

/// What a [`PhaseWork`] stands for.
pub enum PhaseWorkView {
    Make { goal: Seq<char>, jobs: Seq<char>, dir: Seq<u8> },
    Done,
    Exit(int),
}

/// What a [`PhaseEvent`] stands for.
pub enum PhaseEventView {
    Ended(Option<i32>),
    NotStarted(Seq<char>),
}

impl DeepView for PhaseWork {
    type V = PhaseWorkView;

    open spec fn deep_view(&self) -> PhaseWorkView {
        match self {
            PhaseWork::Make { goal, jobs, dir } => PhaseWorkView::Make {
                goal: goal@,
                jobs: jobs@,
                dir: dir@,
            },
            PhaseWork::Done => PhaseWorkView::Done,
            PhaseWork::Exit(code) => PhaseWorkView::Exit(*code as int),
        }
    }
}

impl DeepView for PhaseEvent {
    type V = PhaseEventView;

    open spec fn deep_view(&self) -> PhaseEventView {
        match self {
            PhaseEvent::Ended(code) => PhaseEventView::Ended(*code),
            PhaseEvent::NotStarted(why) => PhaseEventView::NotStarted(why@),
        }
    }
}

/// Phases that are being run.
#[derive(Debug, PartialEq, Eq)]
pub struct PhaseRun {
    pub phases: Vec<String>,
    pub jobs: usize,
    pub workspace_path: FsPath,
    /// How many of the phases have been completed.
    pub next: usize,
    pub work: PhaseWork,
}

/// What a [`PhaseRun`] stands for.
pub struct PhaseRunView {
    pub phases: Seq<Seq<char>>,
    pub jobs: nat,
    pub workspace_path: Seq<u8>,
    pub next: nat,
    pub work: PhaseWorkView,
}

impl DeepView for PhaseRun {
    type V = PhaseRunView;

    open spec fn deep_view(&self) -> PhaseRunView {
        PhaseRunView {
            phases: self.phases.deep_view(),
            jobs: self.jobs as nat,
            workspace_path: self.workspace_path@,
            next: self.next as nat,
            work: self.work.deep_view(),
        }
    }
}

/// The goal of `make` for a phase.
pub open spec fn goal_of(phase: Seq<char>) -> Seq<char> {
    "sdk-"@ + phase
}

/// How an exit code is written in a message.
pub open spec fn code_text(code: Option<i32>) -> Seq<char> {
    match code {
        Some(c) => "Some("@ + text::signed_decimal(c as int) + ")"@,
        None => "None"@,
    }
}

/// Writes an exit code for a message.
pub fn code_text_of(code: Option<i32>) -> (out: String)
    ensures
        out@ == code_text(code),
{
    match code {
        Some(c) => "Some(".to_owned().concat(text::signed_decimal_of(c).as_str()).concat(")"),
        None => "None".to_owned(),
    }
}

impl PhaseRunView {
    /// The `make` command for the phase at index `n`.
    pub open spec fn make(self, n: nat) -> PhaseWorkView {
        PhaseWorkView::Make {
            goal: goal_of(self.phases[n as int]),
            jobs: "-j"@ + text::decimal(self.jobs),
            dir: self.workspace_path,
        }
    }

    /// The state in which the first `n` phases have been completed, and what is
    /// said when it is entered.
    pub open spec fn at(self, n: nat) -> (PhaseRunView, Seq<MessageView>) {
        if n < self.phases.len() {
            (
                PhaseRunView { next: n, work: self.make(n), ..self },
                seq![
                    says(Level::Status, ""@),
                    says(
                        Level::Status,
                        "Running make sdk-"@ + self.phases[n as int] + " (-j"@ + text::decimal(
                            self.jobs,
                        ) + ")..."@,
                    ),
                ],
            )
        } else {
            (PhaseRunView { next: n, work: PhaseWorkView::Done, ..self }, seq![])
        }
    }

    /// The end of the run because of a failure.
    pub open spec fn exits(self, code: int, text: Seq<char>) -> (
        PhaseRunView,
        Seq<MessageView>,
    ) {
        (
            PhaseRunView { work: PhaseWorkView::Exit(code), ..self },
            seq![says(Level::Error, text)],
        )
    }

    /// What always holds: while `make` is waited for, it is for the next phase.
    pub open spec fn wf(self) -> bool {
        &&& self.next <= self.phases.len()
        &&& match self.work {
            PhaseWorkView::Make { .. } => self.next < self.phases.len() && self.work == self.make(
                self.next,
            ),
            PhaseWorkView::Done => self.next == self.phases.len(),
            PhaseWorkView::Exit(_) => true,
        }
    }
}

/// The first state of running `phases`, and what is said when it is entered.
pub open spec fn running(
    phases: Seq<Seq<char>>,
    jobs: nat,
    workspace_path: Seq<u8>,
) -> (PhaseRunView, Seq<MessageView>) {
    PhaseRunView { phases, jobs, workspace_path, next: 0, work: PhaseWorkView::Done }.at(0)
}

/// The state after the event `e`, and what is said. A phase that ends with exit
/// code 0 is followed by the next one; any other ends the run with its own exit
/// code, or with 1 where it has none.
pub open spec fn phase_step(r: PhaseRunView, e: PhaseEventView) -> (
    PhaseRunView,
    Seq<MessageView>,
) {
    let phase = r.phases[r.next as int];
    match (r.work, e) {
        (PhaseWorkView::Make { .. }, PhaseEventView::Ended(code)) => match code {
            Some(0) => {
                let (next, said) = r.at(r.next + 1);
                (next, seq![says(Level::Success, goal_of(phase) + " completed"@)] + said)
            },
            Some(c) => r.exits(
                c as int,
                goal_of(phase) + " failed (exit code "@ + code_text(code) + ")"@,
            ),
            None => r.exits(
                1,
                goal_of(phase) + " failed (exit code "@ + code_text(code) + ")"@,
            ),
        },
        (PhaseWorkView::Make { .. }, PhaseEventView::NotStarted(why)) => r.exits(
            1,
            "Failed to run make sdk-"@ + phase + ": "@ + why,
        ),
        _ => (r, seq![]),
    }
}

/// The state after all of `events`, in order.
pub open spec fn phases_run(r: PhaseRunView, events: Seq<PhaseEventView>) -> PhaseRunView
    decreases events.len(),
{
    if events.len() == 0 {
        r
    } else {
        phase_step(phases_run(r, events.drop_last()), events.last()).0
    }
}

/// Starts to run `make` for each phase in order.
pub fn run_bootstrap_phases(phases: Vec<String>, jobs: usize, workspace_path: FsPath) -> (out: (
    PhaseRun,
    Vec<Message>,
))
    ensures
        (out.0.deep_view(), out.1.deep_view()) == running(
            phases.deep_view(),
            jobs as nat,
            workspace_path@,
        ),
        out.0.deep_view().wf(),
{
    PhaseRun { phases, jobs, workspace_path, next: 0, work: PhaseWork::Done }.at(0)
}

impl PhaseRun {
    /// Goes on to the phase at index `n`, or to the end behind the last one.
    fn at(self, n: usize) -> (out: (PhaseRun, Vec<Message>))
        requires
            n <= self.phases.len(),
        ensures
            (out.0.deep_view(), out.1.deep_view()) == self.deep_view().at(n as nat),
            out.0.deep_view().wf(),
    {
        assert(self.phases.deep_view().len() == self.phases.len());
        if n < self.phases.len() {
            assert(self.phases.deep_view()[n as int] == self.phases[n as int]@);
            let jobs = text::decimal_of(self.jobs as u64);
            let said = "Running make sdk-".to_owned().concat(self.phases[n].as_str()).concat(
                " (-j",
            ).concat(jobs.as_str()).concat(")...");
            let work = PhaseWork::Make {
                goal: "sdk-".to_owned().concat(self.phases[n].as_str()),
                jobs: "-j".to_owned().concat(jobs.as_str()),
                dir: self.workspace_path.clone(),
            };
            (
                PhaseRun { next: n, work, ..self },
                two(fixed(Level::Status, ""), message(Level::Status, said)),
            )
        } else {
            (PhaseRun { next: n, work: PhaseWork::Done, ..self }, silent())
        }
    }

    /// Ends the run because of a failure.
    fn exits(self, code: i32, text: String) -> (out: (PhaseRun, Vec<Message>))
        requires
            self.deep_view().wf(),
        ensures
            (out.0.deep_view(), out.1.deep_view()) == self.deep_view().exits(code as int, text@),
            out.0.deep_view().wf(),
    {
        (PhaseRun { work: PhaseWork::Exit(code), ..self }, one(message(Level::Error, text)))
    }

    /// Takes note of `event` and decides what to do next.
    pub fn step(self, event: PhaseEvent) -> (out: (PhaseRun, Vec<Message>))
        requires
            self.deep_view().wf(),
        ensures
            (out.0.deep_view(), out.1.deep_view()) == phase_step(
                self.deep_view(),
                event.deep_view(),
            ),
            out.0.deep_view().wf(),
    {
        assert(self.phases.deep_view().len() == self.phases.len());
        match &self.work {
            PhaseWork::Make { .. } => {},
            _ => {
                return (self, silent());
            },
        }
        assert(self.phases.deep_view()[self.next as int] == self.phases[self.next as int]@);
        let goal = "sdk-".to_owned().concat(self.phases[self.next].as_str());
        match event {
            PhaseEvent::Ended(code) => {
                if code == Some(0i32) {
                    let mut said = one(message(Level::Success, goal.concat(" completed")));
                    let n = self.next + 1;
                    let (next, more) = self.at(n);
                    tell_all(&mut said, more);
                    (next, said)
                } else {
                    let text = goal.concat(" failed (exit code ").concat(
                        code_text_of(code).as_str(),
                    ).concat(")");
                    let exit = match code {
                        Some(c) => c,
                        None => 1,
                    };
                    self.exits(exit, text)
                }
            },
            PhaseEvent::NotStarted(why) => {
                let text = "Failed to run make sdk-".to_owned().concat(
                    self.phases[self.next].as_str(),
                ).concat(": ").concat(why.as_str());
                self.exits(1, text)
            },
        }
    }
}

// ----------------------------------------------------------------------------
// Laws
// ----------------------------------------------------------------------------

/// Phases are accepted exactly when the target declares every one of them.
pub proof fn law_phases_are_accepted_iff_declared(
    phases: Seq<Seq<char>>,
    known: Seq<Seq<char>>,
    target: Seq<char>,
)
    ensures
        phases_error(phases, known, target) is None <==> (forall|i: int|
            0 <= i < phases.len() ==> known.contains(#[trigger] phases[i])),
{
    lemma_first_unknown(phases, known, 0);
}

proof fn lemma_first_unknown(phases: Seq<Seq<char>>, known: Seq<Seq<char>>, from: nat)
    requires
        from <= phases.len(),
    ensures
        from <= first_unknown(phases, known, from) <= phases.len(),
        forall|i: int|
            from <= i < first_unknown(phases, known, from) ==> known.contains(
                #[trigger] phases[i],
            ),
        first_unknown(phases, known, from) < phases.len() ==> !known.contains(
            phases[first_unknown(phases, known, from) as int],
        ),
    decreases phases.len() - from,
{
    if from < phases.len() && known.contains(phases[from as int]) {
        lemma_first_unknown(phases, known, from + 1);
    }
}

/// The phase that is complained of is the first that the target does not
/// declare.
pub proof fn law_first_unknown_phase_is_named(
    phases: Seq<Seq<char>>,
    known: Seq<Seq<char>>,
    target: Seq<char>,
)
    requires
        phases_error(phases, known, target) is Some,
    ensures
        exists|i: int|
            0 <= i < phases.len() && !known.contains(#[trigger] phases[i]) && (forall|j: int|
                0 <= j < i ==> known.contains(#[trigger] phases[j])) && phases_error(
                phases,
                known,
                target,
            ) == Some(unknown_phase_text(phases[i], target, known)),
{
    lemma_first_unknown(phases, known, 0);
    let i = first_unknown(phases, known, 0) as int;
    assert(!known.contains(phases[i]));
}

/// Whatever happens, the phases are run in their order, each with the same
/// number of jobs in the same directory, and all before the end.
pub proof fn law_phases_run_in_order(
    phases: Seq<Seq<char>>,
    jobs: nat,
    workspace_path: Seq<u8>,
    events: Seq<PhaseEventView>,
)
    ensures
        ({
            let r = phases_run(running(phases, jobs, workspace_path).0, events);
            &&& r.wf()
            &&& r.phases == phases
            &&& r.jobs == jobs
            &&& r.workspace_path == workspace_path
        }),
    decreases events.len(),
{
    if events.len() > 0 {
        law_phases_run_in_order(phases, jobs, workspace_path, events.drop_last());
    }
}

/// Where every phase succeeds, all of them are run.
pub proof fn law_success_runs_all_phases(
    phases: Seq<Seq<char>>,
    jobs: nat,
    workspace_path: Seq<u8>,
    n: nat,
)
    requires
        n <= phases.len(),
    ensures
        ({
            let start = running(phases, jobs, workspace_path).0;
            let ended = Seq::new(n, |i: int| PhaseEventView::Ended(Some(0)));
            phases_run(start, ended) == start.at(n).0
        }),
    decreases n,
{
    let start = running(phases, jobs, workspace_path).0;
    let ended = Seq::new(n, |i: int| PhaseEventView::Ended(Some(0)));
    if n > 0 {
        law_success_runs_all_phases(phases, jobs, workspace_path, (n - 1) as nat);
        assert(ended.drop_last() =~= Seq::new(
            (n - 1) as nat,
            |i: int| PhaseEventView::Ended(Some(0)),
        ));
    }
}

/// The first phase that fails ends the run, with its own exit code.
pub proof fn law_failure_ends_run(r: PhaseRunView, code: Option<i32>, e: PhaseEventView)
    requires
        r.wf(),
        r.work is Make,
        code != Some(0i32),
    ensures
        ({
            let failed = phase_step(r, PhaseEventView::Ended(code)).0;
            &&& failed.work == PhaseWorkView::Exit(
                match code {
                    Some(c) => c as int,
                    None => 1,
                },
            )
            &&& phase_step(failed, e).0 == failed
        }),
{
}

/// In every run, what `make` is asked for is the goal of the next phase, with
/// the number of jobs, in the workspace; and nothing ends well before the last
/// phase.
pub proof fn law_make_is_asked_for_the_next_phase(
    phases: Seq<Seq<char>>,
    jobs: nat,
    workspace_path: Seq<u8>,
    events: Seq<PhaseEventView>,
)
    ensures
        ({
            let r = phases_run(running(phases, jobs, workspace_path).0, events);
            &&& r.next <= phases.len()
            &&& r.phases == phases
            &&& r.jobs == jobs
            &&& r.workspace_path == workspace_path
            &&& r.work matches PhaseWorkView::Make { goal, jobs: j, dir } ==> {
                &&& r.next < phases.len()
                &&& goal == seq!['s', 'd', 'k', '-'] + phases[r.next as int]
                &&& j == seq!['-', 'j'] + text::decimal(jobs)
                &&& dir == workspace_path
            }
            &&& r.work is Done ==> r.next == phases.len()
        }),
    decreases events.len(),
{
    reveal_strlit("sdk-");
    reveal_strlit("-j");
    assert("sdk-"@ =~= seq!['s', 'd', 'k', '-']);
    assert("-j"@ =~= seq!['-', 'j']);
    if events.len() > 0 {
        law_make_is_asked_for_the_next_phase(phases, jobs, workspace_path, events.drop_last());
        law_phases_run_in_order(phases, jobs, workspace_path, events.drop_last());
    }
}

/// A phase that succeeds is followed by the next one, and the last one by the
/// end. Whatever else comes of it ends the run, with the exit code of `make` or
/// with 1 where it has none.
pub proof fn law_outcome_of_a_phase(r: PhaseRunView, e: PhaseEventView)
    requires
        r.wf(),
        r.work is Make,
    ensures
        ({
            let next = phase_step(r, e).0;
            match e {
                PhaseEventView::Ended(Some(code)) => if code == 0 {
                    &&& next.next == r.next + 1
                    &&& next.work is Done <==> r.next + 1 == r.phases.len()
                    &&& next.work is Make <==> r.next + 1 < r.phases.len()
                } else {
                    next.work == PhaseWorkView::Exit(code as int) && next.next == r.next
                },
                _ => next.work == PhaseWorkView::Exit(1) && next.next == r.next,
            }
        }),
{
}

/// Every phase is announced with its jobs, and what came of it is told by its
/// name: that it was completed, the exit code with which it failed, or why it
/// could not be started.
pub proof fn law_phases_tell_what_comes_of_them(r: PhaseRunView, code: Option<i32>, why: Seq<char>)
    requires
        r.wf(),
        r.work is Make,
    ensures
        ({
            let phase = r.phases[r.next as int];
            let done = phase_step(r, PhaseEventView::Ended(Some(0))).1;
            &&& done.len() == (if r.next + 1 < r.phases.len() {
                3int
            } else {
                1
            })
            &&& done[0] == MessageView {
                level: Level::Success,
                text: "sdk-"@ + phase + " completed"@,
            }
            &&& r.next + 1 < r.phases.len() ==> done[1] == MessageView {
                level: Level::Status,
                text: ""@,
            } && done[2] == announces(r.phases[r.next as int + 1], r.jobs)
            &&& code is None ==> phase_step(r, PhaseEventView::Ended(code)).1 == seq![
                MessageView {
                    level: Level::Error,
                    text: "sdk-"@ + phase + " failed (exit code "@ + "None"@ + ")"@,
                },
            ]
            &&& code is Some && code->0 != 0 ==> phase_step(r, PhaseEventView::Ended(code)).1
                == seq![
                MessageView {
                    level: Level::Error,
                    text: "sdk-"@ + phase + " failed (exit code "@ + ("Some("@
                        + text::signed_decimal(code->0 as int) + ")"@) + ")"@,
                },
            ]
            &&& phase_step(r, PhaseEventView::NotStarted(why)).1 == seq![
                MessageView {
                    level: Level::Error,
                    text: "Failed to run make sdk-"@ + phase + ": "@ + why,
                },
            ]
        }),
{
}

/// How a phase is announced.
pub open spec fn announces(phase: Seq<char>, jobs: nat) -> MessageView {
    MessageView {
        level: Level::Status,
        text: "Running make sdk-"@ + phase + " (-j"@ + text::decimal(jobs) + ")..."@,
    }
}

/// The first phase is announced when the run starts, if there is one; without
/// phases the run is done at once.
pub proof fn law_run_starts_with_the_first_phase(
    phases: Seq<Seq<char>>,
    jobs: nat,
    workspace_path: Seq<u8>,
)
    ensures
        ({
            let (r, said) = running(phases, jobs, workspace_path);
            &&& r.next == 0
            &&& phases.len() == 0 ==> r.work is Done && said.len() == 0
            &&& phases.len() > 0 ==> r.work is Make && said == seq![
                MessageView { level: Level::Status, text: ""@ },
                announces(phases[0], jobs),
            ]
        }),
{
}

/// What is wrong with phases is told by the first that is not declared, the
/// target, and all that are.
pub proof fn law_undeclared_phase_is_told(
    phases: Seq<Seq<char>>,
    known: Seq<Seq<char>>,
    target: Seq<char>,
    i: int,
)
    requires
        0 <= i < phases.len(),
        !known.contains(phases[i]),
        forall|j: int| 0 <= j < i ==> known.contains(#[trigger] phases[j]),
    ensures
        phases_error(phases, known, target) == Some(
            "Unknown bootstrap phase '"@ + phases[i] + "': target '"@ + target
                + "' does not declare it (available: "@ + text::joined(known, ", "@) + ")"@,
        ),
{
    lemma_first_unknown(phases, known, 0);
    let k = first_unknown(phases, known, 0) as int;
    if k < i {
        assert(known.contains(phases[k]));
    }
}

/// Once a run has ended, or has not begun, nothing changes it.
pub proof fn law_phases_ignore_other_events(r: PhaseRunView, e: PhaseEventView)
    requires
        !(r.work is Make),
    ensures
        phase_step(r, e) == (r, Seq::<MessageView>::empty()),
{
}

} // verus!
