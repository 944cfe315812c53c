//! `cim utils repair`: from finding the workspace to reinstalling its packages.
//!
//! [`PipRepair`] decides what to do next; whoever drives it looks at the
//! workspace, asks the user, does the file work and reports what happened.

use crate::message::{fixed, message, one, says, silent, tell, two, Level, Message, MessageView};
use crate::path::{joined, shown, FsPath};
use crate::repair_execution::{
    execute_pip_repair, executing, execution_step, ExecutionEvent, ExecutionEventView,
    ExecutionWork, ExecutionWorkView, RepairExecution, RepairExecutionView,
};
use crate::repair_plan::{
    mirror_venv, plan_pip_repair, repair_plan, workspace_venv, FileKind, Inspection,
    PipRepairPlan, PipRepairPlanView,
};
use crate::text;
use vstd::prelude::*;
use vstd::string::*;
use vstd::utf8::encode_utf8;

verus! {

// ----------------------------------------------------------------------------
// The target of a repair
// ----------------------------------------------------------------------------

/// What `cim utils repair` is to do.
#[derive(Debug, PartialEq, Eq)]
pub enum RepairCommand {
    /// Repair the Python virtual environment.
    Pip { yes: bool, force: bool },
    /// Nothing but to say this: the target is not known.
    Refuse(Message),
}

/// What a [`RepairCommand`] stands for.
pub enum RepairCommandView {
    Pip { yes: bool, force: bool },
    Refuse(MessageView),
}

impl DeepView for RepairCommand {
    type V = RepairCommandView;

    open spec fn deep_view(&self) -> RepairCommandView {
        match self {
            RepairCommand::Pip { yes, force } => RepairCommandView::Pip {
                yes: *yes,
                force: *force,
            },
            RepairCommand::Refuse(m) => RepairCommandView::Refuse(m.deep_view()),
        }
    }
}

/// What a repair of `target` is: `pip` is the only target.
pub open spec fn repair_command(target: Seq<char>, yes: bool, force: bool) -> RepairCommandView {
    if target == "pip"@ {
        RepairCommandView::Pip { yes, force }
    } else {
        RepairCommandView::Refuse(
            says(
                Level::Error,
                "Unknown repair target '"@ + target
                    + "'. Supported targets: pip (e.g. 'cim utils repair -t pip')."@,
            ),
        )
    }
}

/// Entry point for `cim utils repair`.
pub fn handle_utils_repair_command(target: &str, yes: bool, force: bool) -> (out: RepairCommand)
    ensures
        out.deep_view() == repair_command(target@, yes, force),
{
    if text::str_eq(target, "pip") {
        RepairCommand::Pip { yes, force }
    } else {
        let said = "Unknown repair target '".to_owned().concat(target).concat(
            "'. Supported targets: pip (e.g. 'cim utils repair -t pip').",
        );
        RepairCommand::Refuse(message(Level::Error, said))
    }
}

// ----------------------------------------------------------------------------
// The confirmation
// ----------------------------------------------------------------------------

/// Whether a trimmed answer in lower case agrees.
pub open spec fn agrees(answer: Seq<char>) -> bool {
    answer == "y"@ || answer == "yes"@
}

/// Whether a trimmed answer in lower case agrees.
pub fn is_agreement(answer: &str) -> (out: bool)
    ensures
        out == agrees(answer@),
{
    text::str_eq(answer, "y") || text::str_eq(answer, "yes")
}

/// Whether the line `input` confirms the repair.
pub open spec fn confirms(input: Seq<char>) -> bool {
    agrees(text::lowercased(text::trimmed(input)))
}

/// Whether the line `input` confirms the repair: `y` or `yes` in any case, with
/// white space around it or not.
pub fn is_confirmation(input: &str) -> (out: bool)
    ensures
        out == confirms(input@),
        vstd::utf8::is_ascii_chars(text::trimmed(input@)) ==> out == agrees(
            text::trimmed(input@).map_values(|c: char| text::ascii_lower(c)),
        ),
{
    let answer = text::to_lowercase(text::trim(input));
    is_agreement(answer.as_str())
}

// ----------------------------------------------------------------------------
// The repair
// ----------------------------------------------------------------------------

/// What the repair waits for.
#[derive(Debug, PartialEq, Eq)]
pub enum RepairWork {
    /// Find the workspace and its config file.
    RequireWorkspace,
    /// Load the config file.
    LoadConfig(FsPath),
    /// Resolve the mirror, as every command that installs packages does.
    ResolveMirror,
    /// Inspect the two virtual environments.
    InspectVenvs { workspace_venv: FsPath, mirror_venv: FsPath },
    /// Look at the workspace environment, without following a symbolic link.
    InspectVerdict(FsPath),
    /// Print the prompt and read a line.
    Confirm(String),
    /// Do the work that the execution waits for.
    Execute,
    /// Install the packages of the workspace. Without a profile, each file has
    /// its own default one. The directory of the environment is the one that
    /// the config names, if it has a section on that.
    InstallPackages {
        workspace: FsPath,
        force: bool,
        symlink: bool,
        profile: Option<String>,
        mirror: FsPath,
        direnv: Option<String>,
    },
    /// Nothing.
    Done,
}

/// What came of the work.
#[derive(Debug, PartialEq, Eq)]
pub enum RepairEvent {
    /// The workspace and its config file.
    Workspace { workspace: FsPath, config: FsPath },
    /// There is no workspace, for the reason given.
    NoWorkspace(String),
    /// The config was loaded. It names the directory of the environment if it
    /// has a section on that.
    Config(Option<String>),
    /// The config could not be loaded.
    ConfigFailed(String),
    /// The mirror.
    Mirror(FsPath),
    /// What was found of the two environments.
    Inspected(Inspection),
    /// What stands where the workspace environment is expected, if anything.
    Verdict(Option<FileKind>),
    /// The line that the user entered.
    Answer(String),
    /// No line could be read.
    NoAnswer,
    /// What came of the work of the execution.
    Execution(ExecutionEvent),
    /// The packages were installed, or there is no list of packages.
    Installed(bool),
    /// The packages could not be installed.
    InstallFailed(String),
}

/// What a [`RepairWork`] stands for.
pub enum RepairWorkView {
    RequireWorkspace,
    LoadConfig(Seq<u8>),
    ResolveMirror,
    InspectVenvs { workspace_venv: Seq<u8>, mirror_venv: Seq<u8> },
    InspectVerdict(Seq<u8>),
    Confirm(Seq<char>),
    Execute,
    InstallPackages {
        workspace: Seq<u8>,
        force: bool,
        symlink: bool,
        profile: Option<Seq<char>>,
        mirror: Seq<u8>,
        direnv: Option<Seq<char>>,
    },
    Done,
}

/// What a [`RepairEvent`] stands for.
pub enum RepairEventView {
    Workspace { workspace: Seq<u8>, config: Seq<u8> },
    NoWorkspace(Seq<char>),
    Config(Option<Seq<char>>),
    ConfigFailed(Seq<char>),
    Mirror(Seq<u8>),
    Inspected(Inspection),
    Verdict(Option<FileKind>),
    Answer(Seq<char>),
    NoAnswer,
    Execution(ExecutionEventView),
    Installed(bool),
    InstallFailed(Seq<char>),
}

impl DeepView for RepairWork {
    type V = RepairWorkView;

    open spec fn deep_view(&self) -> RepairWorkView {
        match self {
            RepairWork::RequireWorkspace => RepairWorkView::RequireWorkspace,
            RepairWork::LoadConfig(p) => RepairWorkView::LoadConfig(p@),
            RepairWork::ResolveMirror => RepairWorkView::ResolveMirror,
            RepairWork::InspectVenvs { workspace_venv, mirror_venv } =>
                RepairWorkView::InspectVenvs {
                workspace_venv: workspace_venv@,
                mirror_venv: mirror_venv@,
            },
            RepairWork::InspectVerdict(p) => RepairWorkView::InspectVerdict(p@),
            RepairWork::Confirm(prompt) => RepairWorkView::Confirm(prompt@),
            RepairWork::Execute => RepairWorkView::Execute,
            RepairWork::InstallPackages { workspace, force, symlink, profile, mirror, direnv } =>
                RepairWorkView::InstallPackages {
                workspace: workspace@,
                force: *force,
                symlink: *symlink,
                profile: profile.deep_view(),
                mirror: mirror@,
                direnv: direnv.deep_view(),
            },
            RepairWork::Done => RepairWorkView::Done,
        }
    }
}

impl DeepView for RepairEvent {
    type V = RepairEventView;

    open spec fn deep_view(&self) -> RepairEventView {
        match self {
            RepairEvent::Workspace { workspace, config } => RepairEventView::Workspace {
                workspace: workspace@,
                config: config@,
            },
            RepairEvent::NoWorkspace(why) => RepairEventView::NoWorkspace(why@),
            RepairEvent::Config(dir) => RepairEventView::Config(dir.deep_view()),
            RepairEvent::ConfigFailed(why) => RepairEventView::ConfigFailed(why@),
            RepairEvent::Mirror(p) => RepairEventView::Mirror(p@),
            RepairEvent::Inspected(found) => RepairEventView::Inspected(*found),
            RepairEvent::Verdict(kind) => RepairEventView::Verdict(*kind),
            RepairEvent::Answer(line) => RepairEventView::Answer(line@),
            RepairEvent::NoAnswer => RepairEventView::NoAnswer,
            RepairEvent::Execution(e) => RepairEventView::Execution(e.deep_view()),
            RepairEvent::Installed(done) => RepairEventView::Installed(*done),
            RepairEvent::InstallFailed(why) => RepairEventView::InstallFailed(why@),
        }
    }
}

/// A repair of the Python virtual environment. What is not known yet is empty.
#[derive(Debug, PartialEq, Eq)]
pub struct PipRepair {
    /// Whether the user has confirmed beforehand.
    pub yes: bool,
    /// Whether to wipe the mirror environment even where it looks healthy.
    pub force: bool,
    pub workspace_path: FsPath,
    pub config_path: FsPath,
    /// The directory that the config names for the environment, if it has a
    /// section on that.
    pub direnv: Option<String>,
    pub venv_dir_name: String,
    pub mirror_path: FsPath,
    pub execution: RepairExecution,
    pub work: RepairWork,
}

/// What a [`PipRepair`] stands for.
pub struct PipRepairView {
    pub yes: bool,
    pub force: bool,
    pub workspace_path: Seq<u8>,
    pub config_path: Seq<u8>,
    pub direnv: Option<Seq<char>>,
    pub venv_dir_name: Seq<char>,
    pub mirror_path: Seq<u8>,
    pub execution: RepairExecutionView,
    pub work: RepairWorkView,
}

impl DeepView for PipRepair {
    type V = PipRepairView;

    open spec fn deep_view(&self) -> PipRepairView {
        PipRepairView {
            yes: self.yes,
            force: self.force,
            workspace_path: self.workspace_path@,
            config_path: self.config_path@,
            direnv: self.direnv.deep_view(),
            venv_dir_name: self.venv_dir_name@,
            mirror_path: self.mirror_path@,
            execution: self.execution.deep_view(),
            work: self.work.deep_view(),
        }
    }
}

/// The plan that does nothing.
pub open spec fn empty_plan() -> PipRepairPlanView {
    PipRepairPlanView { removals: seq![], symlink_mode: false, recreate: false, has_work: false }
}

/// The first state of a repair.
pub open spec fn repairing(yes: bool, force: bool) -> PipRepairView {
    PipRepairView {
        yes,
        force,
        workspace_path: seq![],
        config_path: seq![],
        direnv: None,
        venv_dir_name: seq![],
        mirror_path: seq![],
        execution: executing(empty_plan(), seq![], seq![], seq![]),
        work: RepairWorkView::RequireWorkspace,
    }
}

/// The directory of the environment: the one that the config names, or the
/// usual one.
pub open spec fn dir_name_of(direnv: Option<Seq<char>>) -> Seq<char> {
    match direnv {
        Some(name) => name,
        None => ".venv"@,
    }
}

/// What is asked before anything is removed.
pub open spec fn prompt_text() -> Seq<char> {
    "Proceed? [y/N]: "@
}

/// How the removals of a plan are announced.
pub open spec fn announcement(removals: Seq<Seq<u8>>) -> Seq<MessageView> {
    seq![
        says(
            Level::Status,
            "The following stale Python virtual environment state will be removed:"@,
        ),
    ] + removals.map_values(|p: Seq<u8>| says(Level::Status, "  - "@ + shown(p)))
}

/// What is said where nothing is stale, by what stands where the workspace
/// environment is expected.
pub open spec fn verdict(entry: Option<FileKind>) -> Seq<MessageView> {
    match entry {
        None => seq![
            says(
                Level::Status,
                "No Python virtual environment found in this workspace yet; run 'cim install pip' to create one."@,
            ),
        ],
        Some(FileKind::Symlink) => seq![
            says(
                Level::Success,
                "Python virtual environment state looks healthy (shared mirror venv via symlink), nothing to repair."@,
            ),
            says(
                Level::Status,
                "Plain 'cim install pip' installs into the shared mirror venv. Use 'cim install pip --force' or 'cim utils repair -t pip -f' to convert to a local venv instead."@,
            ),
        ],
        Some(_) => seq![
            says(
                Level::Success,
                "Python virtual environment state looks healthy, nothing to repair."@,
            ),
        ],
    }
}

/// What is said of the packages that were installed, or that there were none
/// to install.
pub open spec fn installed_message(done: bool) -> MessageView {
    if done {
        says(Level::Success, "Python packages reinstalled."@)
    } else {
        says(
            Level::Status,
            "No python-dependencies.yml found in the workspace; the virtual environment was recreated but no packages were installed."@,
        )
    }
}

impl PipRepairView {
    /// The state that waits for `work`.
    pub open spec fn doing(self, work: RepairWorkView) -> PipRepairView {
        PipRepairView { work, ..self }
    }

    /// The state in which nothing is left to do.
    pub open spec fn done(self) -> PipRepairView {
        self.doing(RepairWorkView::Done)
    }

    /// The state once the mirror is known: the environments are inspected.
    pub open spec fn with_mirror(self, mirror: Seq<u8>) -> PipRepairView {
        PipRepairView {
            mirror_path: mirror,
            work: RepairWorkView::InspectVenvs {
                workspace_venv: workspace_venv(self.workspace_path, self.venv_dir_name),
                mirror_venv: mirror_venv(mirror),
            },
            ..self
        }
    }

    /// The plan for what was found.
    pub open spec fn plan(self, found: Inspection) -> PipRepairPlanView {
        repair_plan(
            self.workspace_path,
            self.mirror_path,
            self.venv_dir_name,
            self.force,
            found,
        )
    }

    /// The state once the environments were inspected, and what is said: with
    /// nothing to do the verdict follows, else the plan is announced and, if
    /// that was not done beforehand, to be confirmed.
    pub open spec fn with_inspection(self, found: Inspection) -> (
        PipRepairView,
        Seq<MessageView>,
    ) {
        let plan = self.plan(found);
        if !plan.has_work {
            (
                self.doing(
                    RepairWorkView::InspectVerdict(
                        workspace_venv(self.workspace_path, self.venv_dir_name),
                    ),
                ),
                seq![],
            )
        } else {
            (
                PipRepairView {
                    execution: executing(
                        plan,
                        self.workspace_path,
                        self.mirror_path,
                        self.venv_dir_name,
                    ),
                    work: if self.yes {
                        RepairWorkView::Execute
                    } else {
                        RepairWorkView::Confirm(prompt_text())
                    },
                    ..self
                },
                announcement(plan.removals),
            )
        }
    }

    /// The state once the execution has come to `x`, and what is said behind
    /// `said`: a failure ends the repair, and where the environment was created
    /// anew its packages are installed.
    pub open spec fn with_execution(self, x: RepairExecutionView, said: Seq<MessageView>) -> (
        PipRepairView,
        Seq<MessageView>,
    ) {
        let next = PipRepairView { execution: x, ..self };
        match x.work {
            ExecutionWorkView::Failed(why) => (next.done(), said.push(says(Level::Error, why))),
            ExecutionWorkView::Done => if x.plan.recreate {
                (
                    next.doing(
                        RepairWorkView::InstallPackages {
                            workspace: self.workspace_path,
                            force: false,
                            symlink: x.plan.symlink_mode,
                            profile: None,
                            mirror: self.mirror_path,
                            direnv: self.direnv,
                        },
                    ),
                    said.push(says(Level::Status, ""@)),
                )
            } else {
                (next.done(), said)
            },
            _ => (next, said),
        }
    }
}

/// The state after the event `e`, and what is said. An event that does not
/// answer the work that is waited for changes nothing.
pub open spec fn repair_step(r: PipRepairView, e: RepairEventView) -> (
    PipRepairView,
    Seq<MessageView>,
) {
    match (r.work, e) {
        (
            RepairWorkView::RequireWorkspace,
            RepairEventView::Workspace { workspace, config },
        ) => (
            PipRepairView {
                workspace_path: workspace,
                config_path: config,
                work: RepairWorkView::LoadConfig(config),
                ..r
            },
            seq![],
        ),
        (RepairWorkView::RequireWorkspace, RepairEventView::NoWorkspace(why)) => (
            r.done(),
            seq![says(Level::Error, why)],
        ),
        (RepairWorkView::LoadConfig(_), RepairEventView::Config(dir)) => (
            PipRepairView {
                direnv: dir,
                venv_dir_name: dir_name_of(dir),
                work: RepairWorkView::ResolveMirror,
                ..r
            },
            seq![],
        ),
        (RepairWorkView::LoadConfig(_), RepairEventView::ConfigFailed(why)) => (
            r.done(),
            seq![
                says(
                    Level::Error,
                    "Failed to load config file "@ + shown(r.config_path) + ": "@ + why,
                ),
            ],
        ),
        (RepairWorkView::ResolveMirror, RepairEventView::Mirror(p)) => (r.with_mirror(p), seq![]),
        (
            RepairWorkView::InspectVenvs { workspace_venv, mirror_venv },
            RepairEventView::Inspected(found),
        ) => r.with_inspection(found),
        (RepairWorkView::InspectVerdict(_), RepairEventView::Verdict(entry)) => (
            r.done(),
            verdict(entry),
        ),
        (RepairWorkView::Confirm(_), RepairEventView::Answer(line)) => if confirms(line) {
            (r.doing(RepairWorkView::Execute), seq![])
        } else {
            (r.done(), seq![says(Level::Status, "Repair cancelled."@)])
        },
        (RepairWorkView::Confirm(_), RepairEventView::NoAnswer) => (
            r.done(),
            seq![says(Level::Error, "Failed to read confirmation."@)],
        ),
        (RepairWorkView::Execute, RepairEventView::Execution(e)) => {
            let (x, said) = execution_step(r.execution, e);
            r.with_execution(x, said)
        },
        (
            RepairWorkView::InstallPackages { .. },
            RepairEventView::Installed(done),
        ) => (r.done(), seq![installed_message(done)]),
        (
            RepairWorkView::InstallPackages { .. },
            RepairEventView::InstallFailed(why),
        ) => (
            r.done(),
            seq![
                says(
                    Level::Error,
                    "Virtual environment repaired, but reinstalling Python packages failed: "@
                        + why,
                ),
            ],
        ),
        _ => (r, seq![]),
    }
}

/// The state after all of `events`, in order.
pub open spec fn repair_run(r: PipRepairView, events: Seq<RepairEventView>) -> PipRepairView
    decreases events.len(),
{
    if events.len() == 0 {
        r
    } else {
        repair_step(repair_run(r, events.drop_last()), events.last()).0
    }
}

/// Starts to repair the Python virtual environment of the workspace: to wipe
/// stale state, to create a working environment in the mode of the workspace,
/// and to reinstall its packages.
pub fn repair_pip_venv(yes: bool, force: bool) -> (out: PipRepair)
    ensures
        out.deep_view() == repairing(yes, force),
        out.deep_view().execution.wf(),
{
    let removals: Vec<FsPath> = Vec::new();
    assert(removals.deep_view() =~= seq![]);
    let plan = PipRepairPlan {
        removals,
        symlink_mode: false,
        recreate: false,
        has_work: false,
    };
    let nowhere = FsPath { bytes: Vec::new() };
    PipRepair {
        yes,
        force,
        workspace_path: nowhere.clone(),
        config_path: nowhere.clone(),
        direnv: None,
        venv_dir_name: String::new(),
        mirror_path: nowhere.clone(),
        execution: execute_pip_repair(plan, nowhere.clone(), nowhere.clone(), String::new()),
        work: RepairWork::RequireWorkspace,
    }
}

/// Announces the removals of a plan.
fn announce(removals: &Vec<FsPath>) -> (out: Vec<Message>)
    ensures
        out.deep_view() == announcement(removals.deep_view()),
{
    let mut out = one(
        fixed(
            Level::Status,
            "The following stale Python virtual environment state will be removed:",
        ),
    );
    let ghost all = removals.deep_view();
    assert(out.deep_view() =~= announcement(all.take(0)));
    let mut i: usize = 0;
    while i < removals.len()
        invariant
            i <= removals.len(),
            all == removals.deep_view(),
            out.deep_view() == announcement(all.take(i as int)),
        decreases removals.len() - i,
    {
        let line = "  - ".to_owned().concat(removals[i].display().as_str());
        tell(&mut out, message(Level::Status, line));
        proof {
            assert(all[i as int] == removals[i as int]@);
            assert(out.deep_view() =~= announcement(all.take(i as int + 1)));
        }
        i += 1;
    }
    assert(all.take(all.len() as int) =~= all);
    out
}

/// Says that nothing is stale.
fn give_verdict(entry: Option<FileKind>) -> (out: Vec<Message>)
    ensures
        out.deep_view() == verdict(entry),
{
    match entry {
        None => one(
            fixed(
                Level::Status,
                "No Python virtual environment found in this workspace yet; run 'cim install pip' to create one.",
            ),
        ),
        Some(FileKind::Symlink) => two(
            fixed(
                Level::Success,
                "Python virtual environment state looks healthy (shared mirror venv via symlink), nothing to repair.",
            ),
            fixed(
                Level::Status,
                "Plain 'cim install pip' installs into the shared mirror venv. Use 'cim install pip --force' or 'cim utils repair -t pip -f' to convert to a local venv instead.",
            ),
        ),
        Some(_) => one(
            fixed(
                Level::Success,
                "Python virtual environment state looks healthy, nothing to repair.",
            ),
        ),
    }
}

impl PipRepair {
    /// Goes on to the inspection of the environments.
    fn with_mirror(self, mirror: FsPath) -> (out: PipRepair)
        ensures
            out.deep_view() == self.deep_view().with_mirror(mirror@),
    {
        let workspace_venv = self.workspace_path.join(self.venv_dir_name.as_str().as_bytes());
        let mirror_venv = mirror.join(".venv".as_bytes());
        PipRepair {
            mirror_path: mirror,
            work: RepairWork::InspectVenvs { workspace_venv, mirror_venv },
            ..self
        }
    }

    /// Makes the plan and goes on to carry it out, to have it confirmed, or to
    /// say that there is nothing to do.
    fn with_inspection(self, found: Inspection) -> (out: (PipRepair, Vec<Message>))
        requires
            self.deep_view().execution.wf(),
        ensures
            (out.0.deep_view(), out.1.deep_view()) == self.deep_view().with_inspection(found),
            out.0.deep_view().execution.wf(),
    {
        let plan = plan_pip_repair(
            &self.workspace_path,
            &self.mirror_path,
            self.venv_dir_name.as_str(),
            self.force,
            &found,
        );
        if !plan.has_work {
            let venv = self.workspace_path.join(self.venv_dir_name.as_str().as_bytes());
            (PipRepair { work: RepairWork::InspectVerdict(venv), ..self }, silent())
        } else {
            let said = announce(&plan.removals);
            let execution = execute_pip_repair(
                plan,
                self.workspace_path.clone(),
                self.mirror_path.clone(),
                self.venv_dir_name.clone(),
            );
            let work = if self.yes {
                RepairWork::Execute
            } else {
                RepairWork::Confirm("Proceed? [y/N]: ".to_owned())
            };
            (PipRepair { execution, work, ..self }, said)
        }
    }

    /// Goes on after a piece of work of the execution.
    fn with_execution(self, event: ExecutionEvent) -> (out: (PipRepair, Vec<Message>))
        requires
            self.deep_view().execution.wf(),
        ensures
            (out.0.deep_view(), out.1.deep_view()) == ({
                let (x, said) = execution_step(self.deep_view().execution, event.deep_view());
                self.deep_view().with_execution(x, said)
            }),
            out.0.deep_view().execution.wf(),
    {
        let PipRepair {
            yes,
            force,
            workspace_path,
            config_path,
            direnv,
            venv_dir_name,
            mirror_path,
            execution,
            work,
        } = self;
        let (execution, said) = execution.step(event);
        let mut said = said;
        let work = match &execution.work {
            ExecutionWork::Failed(why) => {
                tell(&mut said, message(Level::Error, why.clone()));
                RepairWork::Done
            },
            ExecutionWork::Done => {
                if execution.plan.recreate {
                    tell(&mut said, fixed(Level::Status, ""));
                    RepairWork::InstallPackages {
                        workspace: workspace_path.clone(),
                        force: false,
                        symlink: execution.plan.symlink_mode,
                        profile: None,
                        mirror: mirror_path.clone(),
                        direnv: direnv.clone(),
                    }
                } else {
                    RepairWork::Done
                }
            },
            _ => work,
        };
        (
            PipRepair {
                yes,
                force,
                workspace_path,
                config_path,
                direnv,
                venv_dir_name,
                mirror_path,
                execution,
                work,
            },
            said,
        )
    }

    /// Ends the repair with one message.
    fn end(self, said: Message) -> (out: (PipRepair, Vec<Message>))
        ensures
            (out.0.deep_view(), out.1.deep_view()) == (
                self.deep_view().done(),
                seq![said.deep_view()],
            ),
    {
        (PipRepair { work: RepairWork::Done, ..self }, one(said))
    }

    /// Takes note of `event` and decides what to do next.
    pub fn step(self, event: RepairEvent) -> (out: (PipRepair, Vec<Message>))
        requires
            self.deep_view().execution.wf(),
        ensures
            (out.0.deep_view(), out.1.deep_view()) == repair_step(
                self.deep_view(),
                event.deep_view(),
            ),
            out.0.deep_view().execution.wf(),
    {
        match (&self.work, event) {
            (RepairWork::RequireWorkspace, RepairEvent::Workspace { workspace, config }) => {
                let work = RepairWork::LoadConfig(config.clone());
                (
                    PipRepair { workspace_path: workspace, config_path: config, work, ..self },
                    silent(),
                )
            },
            (RepairWork::RequireWorkspace, RepairEvent::NoWorkspace(why)) => self.end(
                message(Level::Error, why),
            ),
            (RepairWork::LoadConfig(_), RepairEvent::Config(dir)) => {
                let venv_dir_name = match &dir {
                    Some(name) => name.clone(),
                    None => ".venv".to_owned(),
                };
                let work = RepairWork::ResolveMirror;
                (PipRepair { direnv: dir, venv_dir_name, work, ..self }, silent())
            },
            (RepairWork::LoadConfig(_), RepairEvent::ConfigFailed(why)) => {
                let said = "Failed to load config file ".to_owned().concat(
                    self.config_path.display().as_str(),
                ).concat(": ").concat(why.as_str());
                self.end(message(Level::Error, said))
            },
            (RepairWork::ResolveMirror, RepairEvent::Mirror(p)) => (
                self.with_mirror(p),
                silent(),
            ),
            (RepairWork::InspectVenvs { .. }, RepairEvent::Inspected(found)) => {
                self.with_inspection(found)
            },
            (RepairWork::InspectVerdict(_), RepairEvent::Verdict(entry)) => (
                PipRepair { work: RepairWork::Done, ..self },
                give_verdict(entry),
            ),
            (RepairWork::Confirm(_), RepairEvent::Answer(line)) => {
                if is_confirmation(line.as_str()) {
                    (PipRepair { work: RepairWork::Execute, ..self }, silent())
                } else {
                    self.end(fixed(Level::Status, "Repair cancelled."))
                }
            },
            (RepairWork::Confirm(_), RepairEvent::NoAnswer) => self.end(
                fixed(Level::Error, "Failed to read confirmation."),
            ),
            (RepairWork::Execute, RepairEvent::Execution(e)) => self.with_execution(e),
            (RepairWork::InstallPackages { .. }, RepairEvent::Installed(done)) => {
                if done {
                    self.end(fixed(Level::Success, "Python packages reinstalled."))
                } else {
                    self.end(
                        fixed(
                            Level::Status,
                            "No python-dependencies.yml found in the workspace; the virtual environment was recreated but no packages were installed.",
                        ),
                    )
                }
            },
            (RepairWork::InstallPackages { .. }, RepairEvent::InstallFailed(why)) => {
                let said =
                    "Virtual environment repaired, but reinstalling Python packages failed: ".to_owned().concat(
                why.as_str());
                self.end(message(Level::Error, said))
            },
            _ => (self, silent()),
        }
    }
}

// ----------------------------------------------------------------------------
// Laws
// ----------------------------------------------------------------------------

/// Whether the user has entered a line that confirms the repair.
pub open spec fn was_confirmed(events: Seq<RepairEventView>) -> bool {
    exists|i: int|
        0 <= i < events.len() && #[trigger] events[i] is Answer && confirms(
            events[i]->Answer_0,
        )
}

/// Whether `plan` is what follows from something that was found.
pub open spec fn was_planned(
    r: PipRepairView,
    plan: PipRepairPlanView,
    events: Seq<RepairEventView>,
) -> bool {
    exists|i: int|
        0 <= i < events.len() && #[trigger] events[i] is Inspected && plan == r.plan(
            events[i]->Inspected_0,
        )
}

proof fn lemma_earlier_confirmation_counts(events: Seq<RepairEventView>)
    requires
        events.len() > 0,
        was_confirmed(events.drop_last()),
    ensures
        was_confirmed(events),
{
    let before = events.drop_last();
    let i = choose|i: int|
        0 <= i < before.len() && #[trigger] before[i] is Answer && confirms(before[i]->Answer_0);
    assert(events[i] == before[i]);
}

/// Nothing is removed or created before the user has agreed, be it beforehand
/// or by a line that confirms the repair.
pub proof fn law_nothing_is_touched_unconfirmed(
    yes: bool,
    force: bool,
    events: Seq<RepairEventView>,
)
    ensures
        ({
            let r = repair_run(repairing(yes, force), events);
            r.work is Execute || r.work is InstallPackages ==> yes || was_confirmed(events)
        }),
    decreases events.len(),
{
    if events.len() > 0 {
        law_nothing_is_touched_unconfirmed(yes, force, events.drop_last());
        law_request_is_kept(yes, force, events.drop_last());
        if was_confirmed(events.drop_last()) {
            lemma_earlier_confirmation_counts(events);
        }
        let e = events.last();
        if e is Answer && confirms(e->Answer_0) {
            assert(events[events.len() - 1] is Answer);
        }
    }
}

/// What the user asked for stays what it is.
pub proof fn law_request_is_kept(yes: bool, force: bool, events: Seq<RepairEventView>)
    ensures
        repair_run(repairing(yes, force), events).yes == yes,
        repair_run(repairing(yes, force), events).force == force,
    decreases events.len(),
{
    if events.len() > 0 {
        law_request_is_kept(yes, force, events.drop_last());
    }
}

/// Whether a plan has been made and is not yet carried out to its end.
pub open spec fn has_plan(work: RepairWorkView) -> bool {
    work is Confirm || work is Execute || work is InstallPackages
}

/// Whether the execution is that of a plan with something to do, for the
/// environments of this repair.
pub open spec fn executes_own_plan(r: PipRepairView) -> bool {
    &&& r.execution.plan.has_work
    &&& r.execution.workspace_path == r.workspace_path
    &&& r.execution.mirror_path == r.mirror_path
    &&& r.execution.venv_dir_name == r.venv_dir_name
}

/// Whether two states of a repair would make the same plans.
pub open spec fn plans_alike(r: PipRepairView, s: PipRepairView) -> bool {
    &&& r.force == s.force
    &&& r.workspace_path == s.workspace_path
    &&& r.mirror_path == s.mirror_path
    &&& r.venv_dir_name == s.venv_dir_name
}

/// What one step does to the plan: it is made from what was found, or it stays.
proof fn lemma_step_keeps_plan(r: PipRepairView, e: RepairEventView)
    requires
        r.execution.wf(),
        has_plan(r.work) ==> executes_own_plan(r),
    ensures
        ({
            let next = repair_step(r, e).0;
            &&& next.execution.wf()
            &&& has_plan(next.work) ==> executes_own_plan(next)
            &&& has_plan(next.work) ==> plans_alike(next, r)
            &&& has_plan(next.work) && has_plan(r.work) ==> next.execution.plan
                == r.execution.plan
            &&& has_plan(next.work) && !has_plan(r.work) ==> e is Inspected
                && next.execution.plan == next.plan(e->Inspected_0)
        }),
{
}

/// What is announced, confirmed and carried out is one plan: the one that
/// follows from what was found, and only if that leaves something to do.
pub proof fn law_the_plan_is_carried_out(yes: bool, force: bool, events: Seq<RepairEventView>)
    ensures
        ({
            let r = repair_run(repairing(yes, force), events);
            &&& r.execution.wf()
            &&& has_plan(r.work) ==> executes_own_plan(r) && was_planned(
                r,
                r.execution.plan,
                events,
            )
        }),
    decreases events.len(),
{
    if events.len() > 0 {
        let earlier = events.drop_last();
        law_the_plan_is_carried_out(yes, force, earlier);
        let before = repair_run(repairing(yes, force), earlier);
        let after = repair_run(repairing(yes, force), events);
        lemma_step_keeps_plan(before, events.last());
        let last = events.len() - 1;
        assert(events[last] == events.last());
        if has_plan(after.work) && has_plan(before.work) {
            let i = choose|i: int|
                0 <= i < earlier.len() && #[trigger] earlier[i] is Inspected
                    && before.execution.plan == before.plan(earlier[i]->Inspected_0);
            assert(events[i] == earlier[i]);
            assert(after.plan(events[i]->Inspected_0) == before.plan(events[i]->Inspected_0));
        }
    }
}

/// Whether the config has been loaded and the repair goes on.
pub open spec fn knows_config(work: RepairWorkView) -> bool {
    !(work is RequireWorkspace || work is LoadConfig || work is Done)
}

/// Packages are installed only into an environment that the repair has created
/// anew, in its mode and in the directory that the config names, and without
/// forcing, which would wipe it again.
pub proof fn law_packages_follow_a_fresh_environment(
    yes: bool,
    force: bool,
    events: Seq<RepairEventView>,
)
    ensures
        ({
            let r = repair_run(repairing(yes, force), events);
            &&& knows_config(r.work) ==> r.venv_dir_name == dir_name_of(r.direnv)
            &&& r.work matches RepairWorkView::InstallPackages {
                workspace,
                force,
                symlink,
                profile,
                mirror,
                direnv,
            } ==> {
                &&& r.execution.work is Done
                &&& r.execution.plan.recreate
                &&& !force
                &&& symlink == r.execution.plan.symlink_mode
                &&& profile is None
                &&& workspace == r.workspace_path
                &&& mirror == r.mirror_path
                &&& direnv == r.direnv
            }
        }),
    decreases events.len(),
{
    if events.len() > 0 {
        law_packages_follow_a_fresh_environment(yes, force, events.drop_last());
    }
}

/// Where nothing is stale, the repair says so and ends.
pub proof fn law_nothing_stale_nothing_done(
    r: PipRepairView,
    found: Inspection,
    entry: Option<FileKind>,
)
    requires
        r.work is InspectVenvs,
        !r.plan(found).has_work,
    ensures
        ({
            let seen = repair_step(r, RepairEventView::Inspected(found)).0;
            repair_step(seen, RepairEventView::Verdict(entry)) == (seen.done(), verdict(entry))
        }),
{
}

/// A repair that has ended stays so.
pub proof fn law_repair_end_is_final(r: PipRepairView, e: RepairEventView)
    requires
        r.work is Done,
    ensures
        repair_step(r, e) == (r, Seq::<MessageView>::empty()),
{
}

/// Whether `e` is an outcome of `work`.
pub open spec fn is_outcome(work: RepairWorkView, e: RepairEventView) -> bool {
    match work {
        RepairWorkView::RequireWorkspace => e is Workspace || e is NoWorkspace,
        RepairWorkView::LoadConfig(_) => e is Config || e is ConfigFailed,
        RepairWorkView::ResolveMirror => e is Mirror,
        RepairWorkView::InspectVenvs { .. } => e is Inspected,
        RepairWorkView::InspectVerdict(_) => e is Verdict,
        RepairWorkView::Confirm(_) => e is Answer || e is NoAnswer,
        RepairWorkView::Execute => e is Execution,
        RepairWorkView::InstallPackages { .. } => e is Installed || e is InstallFailed,
        RepairWorkView::Done => false,
    }
}

/// An event that is no outcome of the work that is waited for changes nothing.
pub proof fn law_repair_ignores_other_events(r: PipRepairView, e: RepairEventView)
    requires
        !is_outcome(r.work, e),
    ensures
        repair_step(r, e) == (r, Seq::<MessageView>::empty()),
{
}

/// Whether the event at index `i` is `e`, as an outcome of the work that was
/// waited for.
pub open spec fn reports(
    start: PipRepairView,
    events: Seq<RepairEventView>,
    i: int,
    e: RepairEventView,
) -> bool {
    &&& 0 <= i < events.len()
    &&& events[i] == e
    &&& is_outcome(repair_run(start, events.take(i)).work, e)
}

/// Whether `e` was reported as an outcome of the work that was waited for.
pub open spec fn was_reported(
    start: PipRepairView,
    events: Seq<RepairEventView>,
    e: RepairEventView,
) -> bool {
    exists|i: int| #[trigger] reports(start, events, i, e)
}

proof fn lemma_report_stays(
    start: PipRepairView,
    events: Seq<RepairEventView>,
    e: RepairEventView,
)
    requires
        events.len() > 0,
    ensures
        was_reported(start, events.drop_last(), e) ==> was_reported(start, events, e),
        events.last() == e && is_outcome(repair_run(start, events.drop_last()).work, e)
            ==> was_reported(start, events, e),
{
    let earlier = events.drop_last();
    let last = events.len() - 1;
    assert(events.take(last) =~= earlier);
    if was_reported(start, earlier, e) {
        let i = choose|i: int| #[trigger] reports(start, earlier, i, e);
        assert(events.take(i) =~= earlier.take(i));
        assert(reports(start, events, i, e));
    }
    if events.last() == e && is_outcome(repair_run(start, earlier).work, e) {
        assert(reports(start, events, last, e));
    }
}

/// Whether the workspace is known and the repair goes on.
pub open spec fn knows_workspace(work: RepairWorkView) -> bool {
    !(work is RequireWorkspace || work is Done)
}

/// Whether the mirror is known and the repair goes on.
pub open spec fn knows_mirror(work: RepairWorkView) -> bool {
    knows_config(work) && !(work is ResolveMirror)
}

/// What a repair asks for, in terms of what it knows.
pub open spec fn asks_for_what_it_knows(r: PipRepairView) -> bool {
    let own = joined(r.workspace_path, encode_utf8(r.venv_dir_name));
    let shared = joined(r.mirror_path, encode_utf8(".venv"@));
    &&& knows_config(r.work) ==> r.venv_dir_name == (match r.direnv {
        Some(name) => name,
        None => ".venv"@,
    })
    &&& match r.work {
        RepairWorkView::LoadConfig(p) => p == r.config_path,
        RepairWorkView::InspectVenvs { workspace_venv, mirror_venv } => workspace_venv == own
            && mirror_venv == shared,
        RepairWorkView::InspectVerdict(p) => p == own,
        RepairWorkView::Confirm(prompt) => !r.yes && prompt == "Proceed? [y/N]: "@,
        RepairWorkView::InstallPackages {
            workspace,
            force,
            symlink,
            profile,
            mirror,
            direnv,
        } => {
            &&& workspace == r.workspace_path
            &&& !force
            &&& symlink == r.execution.plan.symlink_mode
            &&& profile is None
            &&& mirror == r.mirror_path
            &&& direnv == r.direnv
        },
        _ => true,
    }
}

/// What one step adds to what a repair knows, and what it asks for then.
#[verifier::rlimit(30)]
proof fn lemma_step_knows_what_is_reported(r: PipRepairView, e: RepairEventView)
    requires
        asks_for_what_it_knows(r),
    ensures
        ({
            let next = repair_step(r, e).0;
            &&& asks_for_what_it_knows(next)
            &&& next.yes == r.yes
            &&& next.force == r.force
            &&& knows_workspace(next.work) ==> knows_workspace(r.work) && next.workspace_path
                == r.workspace_path && next.config_path == r.config_path || (is_outcome(
                r.work,
                e,
            ) && e == RepairEventView::Workspace {
                workspace: next.workspace_path,
                config: next.config_path,
            })
            &&& knows_config(next.work) ==> knows_config(r.work) && next.direnv == r.direnv || (
            is_outcome(r.work, e) && e == RepairEventView::Config(next.direnv))
            &&& knows_mirror(next.work) ==> knows_mirror(r.work) && next.mirror_path
                == r.mirror_path || (is_outcome(r.work, e) && e == RepairEventView::Mirror(
                next.mirror_path,
            ))
        }),
{
}

/// In every run, what is asked for is made of what was given at the start and of
/// what was reported since: the workspace and its config, the directory that the
/// config names or the usual one, and the mirror.
pub proof fn law_repair_works_on_what_was_reported(
    yes: bool,
    force: bool,
    events: Seq<RepairEventView>,
)
    ensures
        ({
            let start = repairing(yes, force);
            let r = repair_run(start, events);
            &&& r.yes == yes
            &&& r.force == force
            &&& asks_for_what_it_knows(r)
            &&& knows_workspace(r.work) ==> was_reported(
                start,
                events,
                RepairEventView::Workspace { workspace: r.workspace_path, config: r.config_path },
            )
            &&& knows_config(r.work) ==> was_reported(
                start,
                events,
                RepairEventView::Config(r.direnv),
            )
            &&& knows_mirror(r.work) ==> was_reported(
                start,
                events,
                RepairEventView::Mirror(r.mirror_path),
            )
        }),
    decreases events.len(),
{
    if events.len() > 0 {
        let start = repairing(yes, force);
        let earlier = events.drop_last();
        law_repair_works_on_what_was_reported(yes, force, earlier);
        let before = repair_run(start, earlier);
        let r = repair_run(start, events);
        lemma_step_knows_what_is_reported(before, events.last());
        lemma_report_stays(
            start,
            events,
            RepairEventView::Workspace { workspace: r.workspace_path, config: r.config_path },
        );
        lemma_report_stays(start, events, RepairEventView::Config(r.direnv));
        lemma_report_stays(start, events, RepairEventView::Mirror(r.mirror_path));
    }
}

/// In every run, what is carried out for the environments that were found is the
/// plan that follows from them and from the force that the user gave. Where it
/// has nothing to do, the repair goes on to say so; else it is announced and, if
/// the user has not confirmed it beforehand, asked about.
pub proof fn law_plan_obeys_the_user(
    yes: bool,
    force: bool,
    events: Seq<RepairEventView>,
    found: Inspection,
)
    requires
        repair_run(repairing(yes, force), events).work is InspectVenvs,
    ensures
        ({
            let r = repair_run(repairing(yes, force), events);
            let (next, said) = repair_step(r, RepairEventView::Inspected(found));
            let plan = repair_plan(
                r.workspace_path,
                r.mirror_path,
                r.venv_dir_name,
                force,
                found,
            );
            &&& next.workspace_path == r.workspace_path
            &&& next.mirror_path == r.mirror_path
            &&& next.venv_dir_name == r.venv_dir_name
            &&& plan.removals.len() == 0 ==> next.work is InspectVerdict && said.len() == 0
            &&& plan.removals.len() > 0 ==> {
                &&& next.execution.plan == plan
                &&& next.execution.workspace_path == r.workspace_path
                &&& next.execution.mirror_path == r.mirror_path
                &&& next.execution.venv_dir_name == r.venv_dir_name
                &&& yes ==> next.work is Execute
                &&& !yes ==> next.work is Confirm
                &&& said.len() == plan.removals.len() + 1
                &&& said[0] == says_status(
                    "The following stale Python virtual environment state will be removed:"@,
                )
                &&& forall|k: int|
                    0 <= k < plan.removals.len() ==> #[trigger] said[k + 1] == says_status(
                        "  - "@ + shown(plan.removals[k]),
                    )
            }
        }),
{
    law_repair_works_on_what_was_reported(yes, force, events);
    let r = repair_run(repairing(yes, force), events);
    crate::repair_plan::law_plan_is_consistent(
        r.workspace_path,
        r.mirror_path,
        r.venv_dir_name,
        force,
        found,
    );
}

/// A status message.
pub open spec fn says_status(text: Seq<char>) -> MessageView {
    MessageView { level: Level::Status, text }
}

/// In every run, force wipes the mirror environment, whatever stands there and
/// however healthy all looks: it is planned, announced, and carried out or asked
/// about.
pub proof fn law_forced_repair_wipes_the_mirror(
    yes: bool,
    events: Seq<RepairEventView>,
    found: Inspection,
)
    requires
        repair_run(repairing(yes, true), events).work is InspectVenvs,
        found.mirror.entry is Some,
    ensures
        ({
            let r = repair_run(repairing(yes, true), events);
            let next = repair_step(r, RepairEventView::Inspected(found)).0;
            &&& next.work is Confirm || next.work is Execute
            &&& next.execution.plan.removals.contains(
                joined(r.mirror_path, encode_utf8(".venv"@)),
            )
            &&& found.workspace.entry == Some(FileKind::Symlink) ==> {
                &&& next.execution.plan.recreate
                &&& next.execution.plan.symlink_mode
                &&& next.execution.plan.removals.contains(
                    joined(r.workspace_path, encode_utf8(r.venv_dir_name)),
                )
            }
        }),
{
    let r = repair_run(repairing(yes, true), events);
    law_plan_obeys_the_user(yes, true, events, found);
    let plan = repair_plan(r.workspace_path, r.mirror_path, r.venv_dir_name, true, found);
    crate::repair_plan::law_force_wipes_mirror(
        r.workspace_path,
        r.mirror_path,
        r.venv_dir_name,
        found,
    );
    crate::repair_plan::law_stale_workspace_is_recreated(
        r.workspace_path,
        r.mirror_path,
        r.venv_dir_name,
        true,
        found,
    );
    if plan.recreate {
        assert(plan.removals[0] == joined(r.workspace_path, encode_utf8(r.venv_dir_name)));
    }
}

/// The answers that agree are these two and no others.
pub proof fn law_only_yes_agrees(answer: Seq<char>)
    ensures
        agrees(answer) <==> answer == seq!['y'] || answer == seq!['y', 'e', 's'],
{
    reveal_strlit("y");
    reveal_strlit("yes");
    assert("y"@ =~= seq!['y']);
    assert("yes"@ =~= seq!['y', 'e', 's']);
}

/// A line decides the repair by what is on it, in lower case and without white
/// space around it: it is carried out exactly where that agrees, and cancelled
/// else. Without a line it is not carried out either.
pub proof fn law_line_decides_the_repair(r: PipRepairView, line: Seq<char>)
    requires
        r.work is Confirm,
    ensures
        ({
            let answer = text::lowercased(text::trimmed(line));
            let (next, said) = repair_step(r, RepairEventView::Answer(line));
            if answer == seq!['y'] || answer == seq!['y', 'e', 's'] {
                &&& next == PipRepairView { work: RepairWorkView::Execute, ..r }
                &&& said.len() == 0
            } else {
                &&& next.work is Done
                &&& said == seq![says_status("Repair cancelled."@)]
            }
        }),
        repair_step(r, RepairEventView::NoAnswer).0.work is Done,
        repair_step(r, RepairEventView::NoAnswer).1 == seq![
            MessageView { level: Level::Error, text: "Failed to read confirmation."@ },
        ],
{
    law_only_yes_agrees(text::lowercased(text::trimmed(line)));
}

/// While the plan is carried out, each outcome is one of the execution, and what
/// is told of it comes first. Where the execution fails, its reason is told and
/// the repair ends; where it is done, the packages follow exactly if the
/// environment was created anew.
pub proof fn law_execution_decides_what_follows(r: PipRepairView, e: ExecutionEventView)
    requires
        r.work is Execute,
    ensures
        ({
            let (x, told) = execution_step(r.execution, e);
            let (next, said) = repair_step(r, RepairEventView::Execution(e));
            &&& next.execution == x
            &&& match x.work {
                ExecutionWorkView::Failed(why) => next.work is Done && said == told + seq![
                    MessageView { level: Level::Error, text: why },
                ],
                ExecutionWorkView::Done => if x.plan.recreate {
                    next.work is InstallPackages && said == told + seq![says_status(""@)]
                } else {
                    next.work is Done && said == told
                },
                _ => next.work is Execute && said == told,
            }
        }),
{
}

/// What ends the repair before or after the plan is told with the reason.
pub proof fn law_repair_tells_its_end(r: PipRepairView, why: Seq<char>)
    ensures
        r.work is RequireWorkspace ==> repair_step(r, RepairEventView::NoWorkspace(why)).1 == seq![
            MessageView { level: Level::Error, text: why },
        ],
        r.work is LoadConfig ==> repair_step(r, RepairEventView::ConfigFailed(why)).1 == seq![
            MessageView {
                level: Level::Error,
                text: "Failed to load config file "@ + shown(r.config_path) + ": "@ + why,
            },
        ],
        r.work is InstallPackages ==> {
            &&& repair_step(r, RepairEventView::InstallFailed(why)).1 == seq![
                MessageView {
                    level: Level::Error,
                    text:
                        "Virtual environment repaired, but reinstalling Python packages failed: "@
                        + why,
                },
            ]
            &&& repair_step(r, RepairEventView::Installed(true)).1 == seq![
                MessageView { level: Level::Success, text: "Python packages reinstalled."@ },
            ]
            &&& repair_step(r, RepairEventView::Installed(false)).1 == seq![
                says_status(
                    "No python-dependencies.yml found in the workspace; the virtual environment was recreated but no packages were installed."@,
                ),
            ]
        },
{
}

/// Each of these ends the repair; a workspace, its config and its mirror lead on
/// without a word.
pub proof fn law_repair_goes_on(r: PipRepairView, e: RepairEventView)
    ensures
        ({
            let (next, said) = repair_step(r, e);
            &&& r.work is RequireWorkspace && e is NoWorkspace ==> next.work is Done
            &&& r.work is LoadConfig && e is ConfigFailed ==> next.work is Done
            &&& r.work is InstallPackages && (e is Installed || e is InstallFailed) ==> next.work
                is Done
            &&& r.work is InspectVerdict && e is Verdict ==> next.work is Done
            &&& r.work is RequireWorkspace && e is Workspace ==> next.work is LoadConfig
                && said.len() == 0
            &&& r.work is LoadConfig && e is Config ==> next.work is ResolveMirror && said.len()
                == 0
            &&& r.work is ResolveMirror && e is Mirror ==> next.work is InspectVenvs && said.len()
                == 0
        }),
{
}

/// Where nothing is stale, what is told tells a workspace without an environment
/// from one with a link into the mirror and from one of its own.
pub proof fn law_verdict_tells_the_mode(r: PipRepairView, entry: Option<FileKind>)
    requires
        r.work is InspectVerdict,
    ensures
        ({
            let said = repair_step(r, RepairEventView::Verdict(entry)).1;
            &&& entry is None ==> said == seq![
                says_status(
                    "No Python virtual environment found in this workspace yet; run 'cim install pip' to create one."@,
                ),
            ]
            &&& entry == Some(FileKind::Symlink) ==> said == seq![
                MessageView {
                    level: Level::Success,
                    text:
                        "Python virtual environment state looks healthy (shared mirror venv via symlink), nothing to repair."@,
                },
                says_status(
                    "Plain 'cim install pip' installs into the shared mirror venv. Use 'cim install pip --force' or 'cim utils repair -t pip -f' to convert to a local venv instead."@,
                ),
            ]
            &&& entry is Some && entry->0 != FileKind::Symlink ==> said == seq![
                MessageView {
                    level: Level::Success,
                    text:
                        "Python virtual environment state looks healthy, nothing to repair."@,
                },
            ]
        }),
{
}

} // verus!
