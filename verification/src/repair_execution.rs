//! Carrying out a confirmed repair plan: removing what is stale and creating a
//! fresh virtual environment in the mode of the workspace.
//!
//! [`RepairExecution`] says what is to be done next; whoever drives it does the
//! file work and reports what happened.

use crate::message::{fixed, message, one, says, silent, Level, Message, MessageView};
use crate::path::{shown, FsPath};
use crate::repair_plan::{FileKind, PipRepairPlan, PipRepairPlanView};
use vstd::prelude::*;
use vstd::string::*;

verus! {

/// How the virtual environment of a workspace is to be created.
#[derive(Debug, PartialEq, Eq)]
pub struct VenvRequest {
    pub workspace: FsPath,
    pub mirror: FsPath,
    pub dir_name: String,
    /// Whether to replace what is there.
    pub force: bool,
    /// Whether to make a symbolic link into the mirror.
    pub symlink: bool,
}

/// What the execution waits for.
#[derive(Debug, PartialEq, Eq)]
pub enum ExecutionWork {
    /// Look at what stands at the path, without following a symbolic link.
    Inspect(FsPath),
    /// Remove the file or symbolic link.
    RemoveFile(FsPath),
    /// Remove the directory and all that is in it.
    RemoveTree(FsPath),
    /// Create the virtual environment.
    CreateVenv(VenvRequest),
    /// Nothing: the plan was carried out.
    Done,
    /// Nothing: the plan was given up, for the reason given.
    Failed(String),
}

/// What came of the work.
#[derive(Debug, PartialEq, Eq)]
pub enum ExecutionEvent {
    /// Something stands at the path.
    Found(FileKind),
    /// Nothing stands at the path.
    Missing,
    /// The path could not be looked at.
    InspectFailed(String),
    /// The removal succeeded.
    Removed,
    /// The removal failed.
    RemoveFailed(String),
    /// The virtual environment was created.
    Created,
    /// The virtual environment could not be created.
    CreateFailed(String),
}

/// What a [`VenvRequest`] stands for.
pub struct VenvRequestView {
    pub workspace: Seq<u8>,
    pub mirror: Seq<u8>,
    pub dir_name: Seq<char>,
    pub force: bool,
    pub symlink: bool,
}

/// What an [`ExecutionWork`] stands for.
pub enum ExecutionWorkView {
    Inspect(Seq<u8>),
    RemoveFile(Seq<u8>),
    RemoveTree(Seq<u8>),
    CreateVenv(VenvRequestView),
    Done,
    Failed(Seq<char>),
}

/// What an [`ExecutionEvent`] stands for.
pub enum ExecutionEventView {
    Found(FileKind),
    Missing,
    InspectFailed(Seq<char>),
    Removed,
    RemoveFailed(Seq<char>),
    Created,
    CreateFailed(Seq<char>),
}

impl DeepView for VenvRequest {
    type V = VenvRequestView;

    open spec fn deep_view(&self) -> VenvRequestView {
        VenvRequestView {
            workspace: self.workspace@,
            mirror: self.mirror@,
            dir_name: self.dir_name@,
            force: self.force,
            symlink: self.symlink,
        }
    }
}

impl DeepView for ExecutionWork {
    type V = ExecutionWorkView;

    open spec fn deep_view(&self) -> ExecutionWorkView {
        match self {
            ExecutionWork::Inspect(p) => ExecutionWorkView::Inspect(p@),
            ExecutionWork::RemoveFile(p) => ExecutionWorkView::RemoveFile(p@),
            ExecutionWork::RemoveTree(p) => ExecutionWorkView::RemoveTree(p@),
            ExecutionWork::CreateVenv(r) => ExecutionWorkView::CreateVenv(r.deep_view()),
            ExecutionWork::Done => ExecutionWorkView::Done,
            ExecutionWork::Failed(why) => ExecutionWorkView::Failed(why@),
        }
    }
}

impl DeepView for ExecutionEvent {
    type V = ExecutionEventView;

    open spec fn deep_view(&self) -> ExecutionEventView {
        match self {
            ExecutionEvent::Found(kind) => ExecutionEventView::Found(*kind),
            ExecutionEvent::Missing => ExecutionEventView::Missing,
            ExecutionEvent::InspectFailed(why) => ExecutionEventView::InspectFailed(why@),
            ExecutionEvent::Removed => ExecutionEventView::Removed,
            ExecutionEvent::RemoveFailed(why) => ExecutionEventView::RemoveFailed(why@),
            ExecutionEvent::Created => ExecutionEventView::Created,
            ExecutionEvent::CreateFailed(why) => ExecutionEventView::CreateFailed(why@),
        }
    }
}

/// A plan that is being carried out.
#[derive(Debug, PartialEq, Eq)]
pub struct RepairExecution {
    pub plan: PipRepairPlan,
    pub workspace_path: FsPath,
    pub mirror_path: FsPath,
    pub venv_dir_name: String,
    /// How many of the removals have been dealt with.
    pub next: usize,
    pub work: ExecutionWork,
}

/// What a [`RepairExecution`] stands for.
pub struct RepairExecutionView {
    pub plan: PipRepairPlanView,
    pub workspace_path: Seq<u8>,
    pub mirror_path: Seq<u8>,
    pub venv_dir_name: Seq<char>,
    pub next: nat,
    pub work: ExecutionWorkView,
}

impl DeepView for RepairExecution {
    type V = RepairExecutionView;

    open spec fn deep_view(&self) -> RepairExecutionView {
        RepairExecutionView {
            plan: self.plan.deep_view(),
            workspace_path: self.workspace_path@,
            mirror_path: self.mirror_path@,
            venv_dir_name: self.venv_dir_name@,
            next: self.next as nat,
            work: self.work.deep_view(),
        }
    }
}

// ----------------------------------------------------------------------------
// What happens next
// ----------------------------------------------------------------------------

impl RepairExecutionView {
    /// How the environment is asked for, if the plan needs one: whatever is
    /// left is replaced, in the mode of the workspace.
    pub open spec fn request(self) -> VenvRequestView {
        VenvRequestView {
            workspace: self.workspace_path,
            mirror: self.mirror_path,
            dir_name: self.venv_dir_name,
            force: true,
            symlink: self.plan.symlink_mode,
        }
    }

    /// The state in which the first `n` removals have been dealt with.
    pub open spec fn at(self, n: nat) -> RepairExecutionView {
        let work = if n < self.plan.removals.len() {
            ExecutionWorkView::Inspect(self.plan.removals[n as int])
        } else if self.plan.recreate {
            ExecutionWorkView::CreateVenv(self.request())
        } else {
            ExecutionWorkView::Done
        };
        RepairExecutionView { next: n, work, ..self }
    }

    /// The state in which the plan was given up.
    pub open spec fn failed(self, why: Seq<char>) -> RepairExecutionView {
        RepairExecutionView { work: ExecutionWorkView::Failed(why), ..self }
    }

    /// The state that waits for `work`.
    pub open spec fn doing(self, work: ExecutionWorkView) -> RepairExecutionView {
        RepairExecutionView { work, ..self }
    }

    /// What always holds: whatever is being looked at or removed is the next
    /// removal of the plan, and the environment is created only when all of
    /// them have been dealt with and the plan asks for it.
    pub open spec fn wf(self) -> bool {
        &&& self.next <= self.plan.removals.len()
        &&& match self.work {
            ExecutionWorkView::Inspect(p) => self.next < self.plan.removals.len() && p
                == self.plan.removals[self.next as int],
            ExecutionWorkView::RemoveFile(p) => self.next < self.plan.removals.len() && p
                == self.plan.removals[self.next as int],
            ExecutionWorkView::RemoveTree(p) => self.next < self.plan.removals.len() && p
                == self.plan.removals[self.next as int],
            ExecutionWorkView::CreateVenv(r) => self.next == self.plan.removals.len()
                && self.plan.recreate && r == self.request(),
            ExecutionWorkView::Done => self.next == self.plan.removals.len(),
            ExecutionWorkView::Failed(_) => true,
        }
    }
}

/// The first state of carrying out `plan`.
pub open spec fn executing(
    plan: PipRepairPlanView,
    workspace_path: Seq<u8>,
    mirror_path: Seq<u8>,
    venv_dir_name: Seq<char>,
) -> RepairExecutionView {
    RepairExecutionView {
        plan,
        workspace_path,
        mirror_path,
        venv_dir_name,
        next: 0,
        work: ExecutionWorkView::Done,
    }.at(0)
}

/// What is said of a fresh environment.
pub open spec fn created_text(symlink: bool) -> Seq<char> {
    if symlink {
        "Fresh virtual environment created (symlinked into the mirror)"@
    } else {
        "Fresh virtual environment created in the workspace"@
    }
}

/// The work that removes what was found: a symbolic link or a file on its own,
/// anything else with all that is in it.
pub open spec fn removal(kind: FileKind, p: Seq<u8>) -> ExecutionWorkView {
    match kind {
        FileKind::Symlink | FileKind::File => ExecutionWorkView::RemoveFile(p),
        _ => ExecutionWorkView::RemoveTree(p),
    }
}

/// The state after a removal of `p` that came to `e`, and what is said of it.
pub open spec fn removal_step(
    x: RepairExecutionView,
    p: Seq<u8>,
    e: ExecutionEventView,
) -> (RepairExecutionView, Seq<MessageView>) {
    match e {
        ExecutionEventView::Removed => (
            x.at(x.next + 1),
            seq![says(Level::Status, "Removed "@ + shown(p))],
        ),
        ExecutionEventView::RemoveFailed(why) => (
            x.failed("Failed to remove "@ + shown(p) + ": "@ + why),
            seq![],
        ),
        _ => (x, seq![]),
    }
}

/// The state after the event `e`, and what is said of it. An event that does
/// not answer the work that is waited for changes nothing.
pub open spec fn execution_step(x: RepairExecutionView, e: ExecutionEventView) -> (
    RepairExecutionView,
    Seq<MessageView>,
) {
    match x.work {
        ExecutionWorkView::Inspect(p) => match e {
            ExecutionEventView::Found(kind) => (x.doing(removal(kind, p)), seq![]),
            ExecutionEventView::Missing => (x.at(x.next + 1), seq![]),
            ExecutionEventView::InspectFailed(why) => (
                x.failed("Failed to inspect "@ + shown(p) + ": "@ + why),
                seq![],
            ),
            _ => (x, seq![]),
        },
        ExecutionWorkView::RemoveFile(p) => removal_step(x, p, e),
        ExecutionWorkView::RemoveTree(p) => removal_step(x, p, e),
        ExecutionWorkView::CreateVenv(_) => match e {
            ExecutionEventView::Created => (
                x.doing(ExecutionWorkView::Done),
                seq![says(Level::Success, created_text(x.plan.symlink_mode))],
            ),
            ExecutionEventView::CreateFailed(why) => (
                x.failed("Failed to recreate virtual environment: "@ + why),
                seq![],
            ),
            _ => (x, seq![]),
        },
        ExecutionWorkView::Done => (x, seq![]),
        ExecutionWorkView::Failed(_) => (x, seq![]),
    }
}

/// The state after all of `events`, in order.
pub open spec fn execution_run(x: RepairExecutionView, events: Seq<ExecutionEventView>) ->
    RepairExecutionView
    decreases events.len(),
{
    if events.len() == 0 {
        x
    } else {
        execution_step(execution_run(x, events.drop_last()), events.last()).0
    }
}

/// Starts to carry out `plan`: to remove the stale state and to create a fresh
/// environment in the mode of the workspace.
pub fn execute_pip_repair(
    plan: PipRepairPlan,
    workspace_path: FsPath,
    mirror_path: FsPath,
    venv_dir_name: String,
) -> (out: RepairExecution)
    ensures
        out.deep_view() == executing(
            plan.deep_view(),
            workspace_path@,
            mirror_path@,
            venv_dir_name@,
        ),
        out.deep_view().wf(),
{
    RepairExecution {
        plan,
        workspace_path,
        mirror_path,
        venv_dir_name,
        next: 0,
        work: ExecutionWork::Done,
    }.at(0)
}

impl RepairExecution {
    /// Goes on to the removal at index `n`, or to what follows the last one.
    fn at(self, n: usize) -> (out: RepairExecution)
        requires
            n <= self.plan.removals.len(),
        ensures
            out.deep_view() == self.deep_view().at(n as nat),
            out.deep_view().wf(),
    {
        let work = if n < self.plan.removals.len() {
            assert(self.plan.removals.deep_view()[n as int] == self.plan.removals[n as int]@);
            ExecutionWork::Inspect(self.plan.removals[n].clone())
        } else if self.plan.recreate {
            ExecutionWork::CreateVenv(
                VenvRequest {
                    workspace: self.workspace_path.clone(),
                    mirror: self.mirror_path.clone(),
                    dir_name: self.venv_dir_name.clone(),
                    force: true,
                    symlink: self.plan.symlink_mode,
                },
            )
        } else {
            ExecutionWork::Done
        };
        RepairExecution { next: n, work, ..self }
    }

    /// Takes note of what came of a removal of `p`.
    fn removal_step(self, p: FsPath, event: ExecutionEvent) -> (out: (
        RepairExecution,
        Vec<Message>,
    ))
        requires
            self.deep_view().wf(),
            self.next < self.plan.removals.len(),
        ensures
            (out.0.deep_view(), out.1.deep_view()) == removal_step(
                self.deep_view(),
                p@,
                event.deep_view(),
            ),
            out.0.deep_view().wf(),
    {
        match event {
            ExecutionEvent::Removed => {
                let said = "Removed ".to_owned().concat(p.display().as_str());
                let n = self.next + 1;
                (self.at(n), one(message(Level::Status, said)))
            },
            ExecutionEvent::RemoveFailed(why) => {
                let why = "Failed to remove ".to_owned().concat(p.display().as_str()).concat(
                    ": ",
                ).concat(why.as_str());
                (RepairExecution { work: ExecutionWork::Failed(why), ..self }, silent())
            },
            _ => (self, silent()),
        }
    }

    /// Takes note of `event` and decides what to do next.
    pub fn step(self, event: ExecutionEvent) -> (out: (RepairExecution, Vec<Message>))
        requires
            self.deep_view().wf(),
        ensures
            (out.0.deep_view(), out.1.deep_view()) == execution_step(
                self.deep_view(),
                event.deep_view(),
            ),
            out.0.deep_view().wf(),
    {
        assert(self.plan.removals.deep_view().len() == self.plan.removals.len());
        match &self.work {
            ExecutionWork::Inspect(p) => {
                let p = p.clone();
                match event {
                    ExecutionEvent::Found(kind) => {
                        let work = match kind {
                            FileKind::Symlink | FileKind::File => ExecutionWork::RemoveFile(p),
                            _ => ExecutionWork::RemoveTree(p),
                        };
                        (RepairExecution { work, ..self }, silent())
                    },
                    ExecutionEvent::Missing => {
                        let n = self.next + 1;
                        (self.at(n), silent())
                    },
                    ExecutionEvent::InspectFailed(why) => {
                        let why = "Failed to inspect ".to_owned().concat(
                            p.display().as_str(),
                        ).concat(": ").concat(why.as_str());
                        (RepairExecution { work: ExecutionWork::Failed(why), ..self }, silent())
                    },
                    _ => (self, silent()),
                }
            },
            ExecutionWork::RemoveFile(p) => {
                let p = p.clone();
                self.removal_step(p, event)
            },
            ExecutionWork::RemoveTree(p) => {
                let p = p.clone();
                self.removal_step(p, event)
            },
            ExecutionWork::CreateVenv(_) => match event {
                ExecutionEvent::Created => {
                    let said = if self.plan.symlink_mode {
                        fixed(
                            Level::Success,
                            "Fresh virtual environment created (symlinked into the mirror)",
                        )
                    } else {
                        fixed(Level::Success, "Fresh virtual environment created in the workspace")
                    };
                    (RepairExecution { work: ExecutionWork::Done, ..self }, one(said))
                },
                ExecutionEvent::CreateFailed(why) => {
                    let why = "Failed to recreate virtual environment: ".to_owned().concat(
                        why.as_str(),
                    );
                    (RepairExecution { work: ExecutionWork::Failed(why), ..self }, silent())
                },
                _ => (self, silent()),
            },
            ExecutionWork::Done => (self, silent()),
            ExecutionWork::Failed(_) => (self, silent()),
        }
    }
}

// ----------------------------------------------------------------------------
// Laws
// ----------------------------------------------------------------------------

/// Whether `e` is an outcome of `work`.
pub open spec fn answers(work: ExecutionWorkView, e: ExecutionEventView) -> bool {
    match work {
        ExecutionWorkView::Inspect(_) => e is Found || e is Missing || e is InspectFailed,
        ExecutionWorkView::RemoveFile(_) => e is Removed || e is RemoveFailed,
        ExecutionWorkView::RemoveTree(_) => e is Removed || e is RemoveFailed,
        ExecutionWorkView::CreateVenv(_) => e is Created || e is CreateFailed,
        ExecutionWorkView::Done => false,
        ExecutionWorkView::Failed(_) => false,
    }
}

/// Whether `e` reports a failure.
pub open spec fn is_failure(e: ExecutionEventView) -> bool {
    e is InspectFailed || e is RemoveFailed || e is CreateFailed
}

/// How many pieces of work are left at most.
pub open spec fn work_left(x: RepairExecutionView) -> int {
    let removals = x.plan.removals.len() - x.next;
    match x.work {
        ExecutionWorkView::Inspect(_) => 2 * removals + 1,
        ExecutionWorkView::RemoveFile(_) => 2 * removals,
        ExecutionWorkView::RemoveTree(_) => 2 * removals,
        ExecutionWorkView::CreateVenv(_) => 1,
        ExecutionWorkView::Done => 0,
        ExecutionWorkView::Failed(_) => 0,
    }
}

/// Whatever happens, only paths that the plan lists are looked at or removed,
/// and an environment is created only where the plan asks for one, after every
/// removal has been dealt with.
pub proof fn law_only_planned_paths_are_touched(
    plan: PipRepairPlanView,
    workspace_path: Seq<u8>,
    mirror_path: Seq<u8>,
    venv_dir_name: Seq<char>,
    events: Seq<ExecutionEventView>,
)
    ensures
        ({
            let start = executing(plan, workspace_path, mirror_path, venv_dir_name);
            let x = execution_run(start, events);
            &&& x.wf()
            &&& x.plan == plan
            &&& x.request() == start.request()
            &&& x.work matches ExecutionWorkView::Inspect(p) ==> plan.removals.contains(p)
            &&& x.work matches ExecutionWorkView::RemoveFile(p) ==> plan.removals.contains(p)
            &&& x.work matches ExecutionWorkView::RemoveTree(p) ==> plan.removals.contains(p)
            &&& x.work matches ExecutionWorkView::CreateVenv(r) ==> plan.recreate && x.next
                == plan.removals.len() && r == start.request()
        }),
    decreases events.len(),
{
    if events.len() > 0 {
        law_only_planned_paths_are_touched(
            plan,
            workspace_path,
            mirror_path,
            venv_dir_name,
            events.drop_last(),
        );
    }
}

/// A symbolic link is removed itself, never what it leads to.
pub proof fn law_links_are_not_followed(x: RepairExecutionView, p: Seq<u8>)
    requires
        x.work == ExecutionWorkView::Inspect(p),
    ensures
        execution_step(x, ExecutionEventView::Found(FileKind::Symlink)).0.work
            == ExecutionWorkView::RemoveFile(p),
{
}

/// What is already gone needs no removal.
pub proof fn law_missing_paths_are_passed_over(x: RepairExecutionView)
    requires
        x.work is Inspect,
    ensures
        execution_step(x, ExecutionEventView::Missing) == (
            x.at(x.next + 1),
            Seq::<MessageView>::empty(),
        ),
{
}

/// Every outcome of the work that is waited for brings the execution nearer to
/// its end, so that it ends after finitely many.
pub proof fn law_execution_ends(x: RepairExecutionView, e: ExecutionEventView)
    requires
        x.wf(),
        answers(x.work, e),
    ensures
        0 <= work_left(execution_step(x, e).0) < work_left(x),
{
}

/// The execution is given up only where some work failed, and then at once.
pub proof fn law_execution_fails_only_on_failure(x: RepairExecutionView, e: ExecutionEventView)
    requires
        x.wf(),
        !(x.work is Failed),
        answers(x.work, e),
    ensures
        execution_step(x, e).0.work is Failed <==> is_failure(e),
{
}

/// A run without a failure in which no work is left has dealt with every
/// removal of the plan.
pub proof fn law_done_means_all_removed(x: RepairExecutionView)
    requires
        x.wf(),
        x.work is Done,
    ensures
        x.next == x.plan.removals.len(),
{
}

/// The environment that is asked for is the one of this workspace, in the
/// directory that it is called by, in the mode of the plan, beside this mirror;
/// what is left there is replaced. Whatever is looked at or removed is the next
/// removal of the plan.
pub proof fn law_environment_is_created_where_it_was(
    plan: PipRepairPlanView,
    workspace_path: Seq<u8>,
    mirror_path: Seq<u8>,
    venv_dir_name: Seq<char>,
    events: Seq<ExecutionEventView>,
)
    ensures
        ({
            let x = execution_run(
                executing(plan, workspace_path, mirror_path, venv_dir_name),
                events,
            );
            &&& x.plan == plan
            &&& x.workspace_path == workspace_path
            &&& x.mirror_path == mirror_path
            &&& x.venv_dir_name == venv_dir_name
            &&& x.next <= plan.removals.len()
            &&& x.work matches ExecutionWorkView::CreateVenv(r) ==> {
                &&& plan.recreate
                &&& x.next == plan.removals.len()
                &&& r.workspace == workspace_path
                &&& r.mirror == mirror_path
                &&& r.dir_name == venv_dir_name
                &&& r.force
                &&& r.symlink == plan.symlink_mode
            }
            &&& x.work matches ExecutionWorkView::Inspect(p) ==> x.next < plan.removals.len() && p
                == plan.removals[x.next as int]
            &&& x.work matches ExecutionWorkView::RemoveFile(p) ==> x.next < plan.removals.len()
                && p == plan.removals[x.next as int]
            &&& x.work matches ExecutionWorkView::RemoveTree(p) ==> x.next < plan.removals.len()
                && p == plan.removals[x.next as int]
        }),
    decreases events.len(),
{
    if events.len() > 0 {
        law_environment_is_created_where_it_was(
            plan,
            workspace_path,
            mirror_path,
            venv_dir_name,
            events.drop_last(),
        );
    }
}

/// Whether the event at index `i` reports that nothing stands at `p` any more:
/// it was looked for and missing, or removed.
pub open spec fn reports_gone(
    start: RepairExecutionView,
    events: Seq<ExecutionEventView>,
    i: int,
    p: Seq<u8>,
) -> bool {
    let work = execution_run(start, events.take(i)).work;
    &&& 0 <= i < events.len()
    &&& {
        ||| work == ExecutionWorkView::Inspect(p) && events[i] is Missing
        ||| work == ExecutionWorkView::RemoveFile(p) && events[i] is Removed
        ||| work == ExecutionWorkView::RemoveTree(p) && events[i] is Removed
    }
}

/// Whether some event reports that nothing stands at `p` any more.
pub open spec fn is_gone(
    start: RepairExecutionView,
    events: Seq<ExecutionEventView>,
    p: Seq<u8>,
) -> bool {
    exists|i: int| #[trigger] reports_gone(start, events, i, p)
}

/// Nothing is created, and nothing ends well, before every removal of the plan
/// is known to be gone; and where the plan asks for an environment, nothing ends
/// well before one was created.
pub proof fn law_every_removal_is_made(
    plan: PipRepairPlanView,
    workspace_path: Seq<u8>,
    mirror_path: Seq<u8>,
    venv_dir_name: Seq<char>,
    events: Seq<ExecutionEventView>,
)
    ensures
        ({
            let start = executing(plan, workspace_path, mirror_path, venv_dir_name);
            let x = execution_run(start, events);
            &&& forall|k: int|
                0 <= k < x.next && k < plan.removals.len() ==> is_gone(
                    start,
                    events,
                    #[trigger] plan.removals[k],
                )
            &&& x.work is CreateVenv || x.work is Done ==> x.next == plan.removals.len()
            &&& x.work is Done && plan.recreate ==> events.contains(ExecutionEventView::Created)
        }),
    decreases events.len(),
{
    if events.len() > 0 {
        let start = executing(plan, workspace_path, mirror_path, venv_dir_name);
        let earlier = events.drop_last();
        let last = events.len() - 1;
        law_every_removal_is_made(plan, workspace_path, mirror_path, venv_dir_name, earlier);
        law_environment_is_created_where_it_was(
            plan,
            workspace_path,
            mirror_path,
            venv_dir_name,
            earlier,
        );
        let before = execution_run(start, earlier);
        let x = execution_run(start, events);
        assert(events.take(last) =~= earlier);
        assert(events[last] == events.last());
        assert forall|k: int| 0 <= k < x.next && k < plan.removals.len() implies is_gone(
            start,
            events,
            #[trigger] plan.removals[k],
        ) by {
            if k < before.next {
                let i = choose|i: int| #[trigger]
                    reports_gone(start, earlier, i, plan.removals[k]);
                assert(events.take(i) =~= earlier.take(i));
                assert(reports_gone(start, events, i, plan.removals[k]));
            } else {
                assert(reports_gone(start, events, last, plan.removals[k]));
            }
        }
        if earlier.contains(ExecutionEventView::Created) {
            let i = choose|i: int|
                0 <= i < earlier.len() && earlier[i] == ExecutionEventView::Created;
            assert(events[i] == ExecutionEventView::Created);
        }
    }
}

/// What stands at a path decides how it is removed: a link or a file by itself,
/// anything else with what is in it.
pub proof fn law_removal_fits_what_is_there(x: RepairExecutionView, p: Seq<u8>, found: FileKind)
    requires
        x.work == ExecutionWorkView::Inspect(p),
    ensures
        ({
            let (next, said) = execution_step(x, ExecutionEventView::Found(found));
            &&& said.len() == 0
            &&& next.next == x.next
            &&& found == FileKind::Symlink || found == FileKind::File ==> next.work
                == ExecutionWorkView::RemoveFile(p)
            &&& found == FileKind::Directory || found == FileKind::Other ==> next.work
                == ExecutionWorkView::RemoveTree(p)
        }),
{
}

/// Every removal is reported with its path, and a fresh environment with its
/// mode.
pub proof fn law_execution_says_what_it_did(x: RepairExecutionView, p: Seq<u8>)
    ensures
        x.work == ExecutionWorkView::RemoveFile(p) || x.work == ExecutionWorkView::RemoveTree(p)
            ==> execution_step(x, ExecutionEventView::Removed).1 == seq![
            MessageView { level: Level::Status, text: "Removed "@ + shown(p) },
        ],
        x.work is CreateVenv ==> execution_step(x, ExecutionEventView::Created).1 == seq![
            MessageView {
                level: Level::Success,
                text: if x.plan.symlink_mode {
                    "Fresh virtual environment created (symlinked into the mirror)"@
                } else {
                    "Fresh virtual environment created in the workspace"@
                },
            },
        ],
{
}

/// An execution that is given up names what failed, where, and why.
pub proof fn law_execution_failure_is_named(x: RepairExecutionView, p: Seq<u8>, why: Seq<char>)
    ensures
        x.work == ExecutionWorkView::Inspect(p) ==> execution_step(
            x,
            ExecutionEventView::InspectFailed(why),
        ).0.work == ExecutionWorkView::Failed("Failed to inspect "@ + shown(p) + ": "@ + why),
        x.work == ExecutionWorkView::RemoveFile(p) || x.work == ExecutionWorkView::RemoveTree(p)
            ==> execution_step(x, ExecutionEventView::RemoveFailed(why)).0.work
            == ExecutionWorkView::Failed("Failed to remove "@ + shown(p) + ": "@ + why),
        x.work is CreateVenv ==> execution_step(x, ExecutionEventView::CreateFailed(why)).0.work
            == ExecutionWorkView::Failed("Failed to recreate virtual environment: "@ + why),
{
}

/// An event that is no outcome of the work that is waited for changes nothing.
pub proof fn law_execution_ignores_other_events(x: RepairExecutionView, e: ExecutionEventView)
    requires
        match x.work {
            ExecutionWorkView::Inspect(_) => !(e is Found || e is Missing || e is InspectFailed),
            ExecutionWorkView::RemoveFile(_) => !(e is Removed || e is RemoveFailed),
            ExecutionWorkView::RemoveTree(_) => !(e is Removed || e is RemoveFailed),
            ExecutionWorkView::CreateVenv(_) => !(e is Created || e is CreateFailed),
            ExecutionWorkView::Done => true,
            ExecutionWorkView::Failed(_) => true,
        },
    ensures
        execution_step(x, e) == (x, Seq::<MessageView>::empty()),
{
}

} // verus!
