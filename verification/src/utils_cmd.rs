//! `cim utils`: which task a command stands for.

use crate::message::{Level, Message, MessageView};
use crate::path::FsPath;
use crate::repair::{
    handle_utils_repair_command, repair_command, repair_pip_venv, repairing, PipRepair,
    PipRepairView, RepairCommand, RepairCommandView,
};
use crate::update::{handle_utils_update_command, updating, Update, UpdateView};
use vstd::prelude::*;

verus! {

/// What `cim utils` was asked to do.
#[derive(Debug, PartialEq, Eq)]
pub enum UtilsCommand {
    /// Record the hashes of the files that are copied into a workspace.
    HashCopyFiles { file: Option<FsPath>, dry_run: bool, verbose: bool, add_missing: bool },
    /// Record the hashes of the toolchains.
    HashToolchains { file: Option<FsPath>, dry_run: bool, verbose: bool, add_missing: bool },
    /// Bring the files that are copied into a workspace up to date.
    SyncCopyFiles { file: Option<FsPath>, dry_run: bool, verbose: bool, force: bool },
    /// Update the program.
    Update,
    /// Repair something.
    Repair { target: String, yes: bool, force: bool },
}

/// What is to be done.
#[derive(Debug, PartialEq, Eq)]
pub enum UtilsTask {
    /// Record the hashes of the files that are copied into a workspace.
    HashCopyFiles { file: Option<FsPath>, dry_run: bool, verbose: bool, add_missing: bool },
    /// Record the hashes of the toolchains.
    HashToolchains { file: Option<FsPath>, dry_run: bool, verbose: bool, add_missing: bool },
    /// Bring the files that are copied into a workspace up to date.
    SyncCopyFiles { file: Option<FsPath>, dry_run: bool, verbose: bool, force: bool },
    /// Carry out this update.
    Update(Update),
    /// Carry out this repair.
    Repair(PipRepair),
    /// Say this, and nothing more.
    Say(Message),
}

/// What a [`UtilsCommand`] stands for.
pub enum UtilsCommandView {
    HashCopyFiles { file: Option<Seq<u8>>, dry_run: bool, verbose: bool, add_missing: bool },
    HashToolchains { file: Option<Seq<u8>>, dry_run: bool, verbose: bool, add_missing: bool },
    SyncCopyFiles { file: Option<Seq<u8>>, dry_run: bool, verbose: bool, force: bool },
    Update,
    Repair { target: Seq<char>, yes: bool, force: bool },
}

/// What a [`UtilsTask`] stands for.
pub enum UtilsTaskView {
    HashCopyFiles { file: Option<Seq<u8>>, dry_run: bool, verbose: bool, add_missing: bool },
    HashToolchains { file: Option<Seq<u8>>, dry_run: bool, verbose: bool, add_missing: bool },
    SyncCopyFiles { file: Option<Seq<u8>>, dry_run: bool, verbose: bool, force: bool },
    Update(UpdateView),
    Repair(PipRepairView),
    Say(MessageView),
}

impl DeepView for UtilsCommand {
    type V = UtilsCommandView;

    open spec fn deep_view(&self) -> UtilsCommandView {
        match self {
            UtilsCommand::HashCopyFiles { file, dry_run, verbose, add_missing } =>
                UtilsCommandView::HashCopyFiles {
                file: file.deep_view(),
                dry_run: *dry_run,
                verbose: *verbose,
                add_missing: *add_missing,
            },
            UtilsCommand::HashToolchains { file, dry_run, verbose, add_missing } =>
                UtilsCommandView::HashToolchains {
                file: file.deep_view(),
                dry_run: *dry_run,
                verbose: *verbose,
                add_missing: *add_missing,
            },
            UtilsCommand::SyncCopyFiles { file, dry_run, verbose, force } =>
                UtilsCommandView::SyncCopyFiles {
                file: file.deep_view(),
                dry_run: *dry_run,
                verbose: *verbose,
                force: *force,
            },
            UtilsCommand::Update => UtilsCommandView::Update,
            UtilsCommand::Repair { target, yes, force } => UtilsCommandView::Repair {
                target: target@,
                yes: *yes,
                force: *force,
            },
        }
    }
}

impl DeepView for UtilsTask {
    type V = UtilsTaskView;

    open spec fn deep_view(&self) -> UtilsTaskView {
        match self {
            UtilsTask::HashCopyFiles { file, dry_run, verbose, add_missing } =>
                UtilsTaskView::HashCopyFiles {
                file: file.deep_view(),
                dry_run: *dry_run,
                verbose: *verbose,
                add_missing: *add_missing,
            },
            UtilsTask::HashToolchains { file, dry_run, verbose, add_missing } =>
                UtilsTaskView::HashToolchains {
                file: file.deep_view(),
                dry_run: *dry_run,
                verbose: *verbose,
                add_missing: *add_missing,
            },
            UtilsTask::SyncCopyFiles { file, dry_run, verbose, force } =>
                UtilsTaskView::SyncCopyFiles {
                file: file.deep_view(),
                dry_run: *dry_run,
                verbose: *verbose,
                force: *force,
            },
            UtilsTask::Update(update) => UtilsTaskView::Update(update.deep_view()),
            UtilsTask::Repair(repair) => UtilsTaskView::Repair(repair.deep_view()),
            UtilsTask::Say(said) => UtilsTaskView::Say(said.deep_view()),
        }
    }
}

/// What a command stands for, in a program of this version that was built for
/// this platform.
pub open spec fn utils_task(
    command: UtilsCommandView,
    current_version: Seq<char>,
    build_target: Seq<char>,
    windows: bool,
) -> UtilsTaskView {
    match command {
        UtilsCommandView::HashCopyFiles { file, dry_run, verbose, add_missing } =>
            UtilsTaskView::HashCopyFiles { file, dry_run, verbose, add_missing },
        UtilsCommandView::HashToolchains { file, dry_run, verbose, add_missing } =>
            UtilsTaskView::HashToolchains { file, dry_run, verbose, add_missing },
        UtilsCommandView::SyncCopyFiles { file, dry_run, verbose, force } =>
            UtilsTaskView::SyncCopyFiles { file, dry_run, verbose, force },
        UtilsCommandView::Update => UtilsTaskView::Update(
            updating(current_version, build_target, windows),
        ),
        UtilsCommandView::Repair { target, yes, force } => match repair_command(
            target,
            yes,
            force,
        ) {
            RepairCommandView::Pip { yes, force } => UtilsTaskView::Repair(repairing(yes, force)),
            RepairCommandView::Refuse(said) => UtilsTaskView::Say(said),
        },
    }
}

/// Works out what a command stands for, in a program of version
/// `current_version` that was built for `build_target`.
pub fn handle_utils_command(
    utils_command: &UtilsCommand,
    current_version: &str,
    build_target: &str,
    windows: bool,
) -> (out: UtilsTask)
    ensures
        out.deep_view() == utils_task(
            utils_command.deep_view(),
            current_version@,
            build_target@,
            windows,
        ),
        out matches UtilsTask::Repair(repair) ==> repair.deep_view().execution.wf(),
{
    match utils_command {
        UtilsCommand::HashCopyFiles { file, dry_run, verbose, add_missing } =>
            UtilsTask::HashCopyFiles {
            file: file.clone(),
            dry_run: *dry_run,
            verbose: *verbose,
            add_missing: *add_missing,
        },
        UtilsCommand::HashToolchains { file, dry_run, verbose, add_missing } =>
            UtilsTask::HashToolchains {
            file: file.clone(),
            dry_run: *dry_run,
            verbose: *verbose,
            add_missing: *add_missing,
        },
        UtilsCommand::SyncCopyFiles { file, dry_run, verbose, force } =>
            UtilsTask::SyncCopyFiles {
            file: file.clone(),
            dry_run: *dry_run,
            verbose: *verbose,
            force: *force,
        },
        UtilsCommand::Update => UtilsTask::Update(
            handle_utils_update_command(
                current_version.to_owned(),
                build_target.to_owned(),
                windows,
            ),
        ),
        UtilsCommand::Repair { target, yes, force } => match handle_utils_repair_command(
            target.as_str(),
            *yes,
            *force,
        ) {
            RepairCommand::Pip { yes, force } => UtilsTask::Repair(repair_pip_venv(yes, force)),
            RepairCommand::Refuse(said) => UtilsTask::Say(said),
        },
    }
}

// ----------------------------------------------------------------------------
// Laws
// ----------------------------------------------------------------------------

/// A command on files becomes the task of the same kind, for the same file and
/// with the same options: a dry run stays one, whatever else is asked for.
pub proof fn law_file_commands_keep_their_options(
    command: UtilsCommand,
    task: UtilsTask,
    current_version: Seq<char>,
    build_target: Seq<char>,
    windows: bool,
)
    requires
        task.deep_view() == utils_task(
            command.deep_view(),
            current_version,
            build_target,
            windows,
        ),
    ensures
        command matches UtilsCommand::HashCopyFiles { file, dry_run, verbose, add_missing } ==> {
            &&& task matches UtilsTask::HashCopyFiles {
                file: f,
                dry_run: d,
                verbose: v,
                add_missing: a,
            }
            &&& same_path(f, file)
            &&& d == dry_run
            &&& v == verbose
            &&& a == add_missing
        },
        command matches UtilsCommand::HashToolchains { file, dry_run, verbose, add_missing } ==> {
            &&& task matches UtilsTask::HashToolchains {
                file: f,
                dry_run: d,
                verbose: v,
                add_missing: a,
            }
            &&& same_path(f, file)
            &&& d == dry_run
            &&& v == verbose
            &&& a == add_missing
        },
        command matches UtilsCommand::SyncCopyFiles { file, dry_run, verbose, force } ==> {
            &&& task matches UtilsTask::SyncCopyFiles {
                file: f,
                dry_run: d,
                verbose: v,
                force: o,
            }
            &&& same_path(f, file)
            &&& d == dry_run
            &&& v == verbose
            &&& o == force
        },
{
    if let UtilsCommand::HashCopyFiles { file, .. } = command {
        lemma_same_path(file);
        if let UtilsTask::HashCopyFiles { file: f, .. } = task {
            lemma_same_path(f);
        }
    }
    if let UtilsCommand::HashToolchains { file, .. } = command {
        lemma_same_path(file);
        if let UtilsTask::HashToolchains { file: f, .. } = task {
            lemma_same_path(f);
        }
    }
    if let UtilsCommand::SyncCopyFiles { file, .. } = command {
        lemma_same_path(file);
        if let UtilsTask::SyncCopyFiles { file: f, .. } = task {
            lemma_same_path(f);
        }
    }
}

/// Whether two optional paths are both absent, or have the same bytes.
pub open spec fn same_path(a: Option<FsPath>, b: Option<FsPath>) -> bool {
    match (a, b) {
        (Some(p), Some(q)) => p.bytes@ == q.bytes@,
        (None, None) => true,
        _ => false,
    }
}

proof fn lemma_same_path(file: Option<FsPath>)
    ensures
        file is Some ==> file.deep_view() == Some(file->0.bytes@),
        file is None ==> file.deep_view() is None,
{
}

/// An update is started for the version and the platform of the program that
/// runs, and by no other command.
pub proof fn law_update_command_starts_an_update(
    command: UtilsCommandView,
    current_version: Seq<char>,
    build_target: Seq<char>,
    windows: bool,
)
    ensures
        ({
            let task = utils_task(command, current_version, build_target, windows);
            &&& task is Update <==> command is Update
            &&& task matches UtilsTaskView::Update(u) ==> {
                &&& u.current_version == current_version
                &&& u.build_target == build_target
                &&& u.windows == windows
                &&& u.work is FindInPath
            }
        }),
{
}

/// A repair is started for the target `pip` and no other, with what the user has
/// confirmed beforehand and whether a wipe is forced. Any other target is
/// refused by name.
pub proof fn law_repair_command_starts_a_repair(
    target: Seq<char>,
    yes: bool,
    force: bool,
    current_version: Seq<char>,
    build_target: Seq<char>,
    windows: bool,
)
    ensures
        ({
            let task = utils_task(
                UtilsCommandView::Repair { target, yes, force },
                current_version,
                build_target,
                windows,
            );
            if target == seq!['p', 'i', 'p'] {
                &&& task matches UtilsTaskView::Repair(r)
                &&& r.yes == yes
                &&& r.force == force
                &&& r.work is RequireWorkspace
            } else {
                &&& task matches UtilsTaskView::Say(said)
                &&& said.level == Level::Error
                &&& said.text == "Unknown repair target '"@ + target
                    + "'. Supported targets: pip (e.g. 'cim utils repair -t pip')."@
            }
        }),
{
    reveal_strlit("pip");
    assert("pip"@ =~= seq!['p', 'i', 'p']);
}

} // verus!
