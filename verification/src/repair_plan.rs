//! Deciding what is stale about a workspace's Python virtual environment.

use crate::path::{joined, FsPath};
use vstd::prelude::*;
use vstd::utf8::encode_utf8;

verus! {

/// What stands at a path, looked at without following a symbolic link.
#[derive(Clone, Copy, Debug, PartialEq, Eq, Structural)]
pub enum FileKind {
    Symlink,
    Directory,
    File,
    Other,
}

/// What was found where a virtual environment is expected.
#[derive(Clone, Copy, Debug, PartialEq, Eq, Structural)]
pub struct VenvState {
    /// What stands at the path, if anything does.
    pub entry: Option<FileKind>,
    /// Whether an environment with an interpreter is reached through the path.
    pub functional: bool,
}

/// What was found of the workspace environment and of the mirror environment.
#[derive(Clone, Copy, Debug, PartialEq, Eq, Structural)]
pub struct Inspection {
    pub workspace: VenvState,
    pub mirror: VenvState,
    /// Whether the workspace environment is a symbolic link that resolves to
    /// the mirror environment.
    pub linked: bool,
}

impl DeepView for FileKind {
    type V = FileKind;

    open spec fn deep_view(&self) -> FileKind {
        *self
    }
}

/// What a repair will do, worked out before anything is touched so that the
/// user can confirm it.
#[derive(Debug, PartialEq, Eq)]
pub struct PipRepairPlan {
    /// The stale environments to remove: that of the workspace, that of the
    /// mirror, or both.
    pub removals: Vec<FsPath>,
    /// Whether the workspace environment is to be a symbolic link into the
    /// mirror, which is what it was, rather than a directory of its own.
    pub symlink_mode: bool,
    /// Whether the workspace environment has to be created anew.
    pub recreate: bool,
    /// Whether anything stale was found.
    pub has_work: bool,
}

/// What a [`PipRepairPlan`] stands for.
pub struct PipRepairPlanView {
    pub removals: Seq<Seq<u8>>,
    pub symlink_mode: bool,
    pub recreate: bool,
    pub has_work: bool,
}

impl DeepView for PipRepairPlan {
    type V = PipRepairPlanView;

    open spec fn deep_view(&self) -> PipRepairPlanView {
        PipRepairPlanView {
            removals: self.removals.deep_view(),
            symlink_mode: self.symlink_mode,
            recreate: self.recreate,
            has_work: self.has_work,
        }
    }
}

// ----------------------------------------------------------------------------
// What the plan says
// ----------------------------------------------------------------------------

/// The environment of a workspace that calls it `dir_name`.
pub open spec fn workspace_venv(workspace: Seq<u8>, dir_name: Seq<char>) -> Seq<u8> {
    joined(workspace, encode_utf8(dir_name))
}

/// The shared environment of a mirror.
pub open spec fn mirror_venv(mirror: Seq<u8>) -> Seq<u8> {
    joined(mirror, encode_utf8(".venv"@))
}

/// Whether the workspace environment is a symbolic link.
pub open spec fn is_linked_mode(found: Inspection) -> bool {
    found.workspace.entry == Some(FileKind::Symlink)
}

/// Whether the workspace environment is stale. A symbolic link is when it leads
/// to no working environment or not to the configured mirror, or when a wipe is
/// forced; anything else is when it does not work.
pub open spec fn workspace_is_stale(force: bool, found: Inspection) -> bool {
    match found.workspace.entry {
        Some(FileKind::Symlink) => force || !found.workspace.functional || !found.linked,
        Some(_) => !found.workspace.functional,
        None => false,
    }
}

/// Whether the mirror environment is to be wiped. It is left alone while it
/// works, since other workspaces may share it, unless a wipe is forced, which
/// always wipes it.
pub open spec fn mirror_is_wiped(force: bool, found: Inspection) -> bool {
    let broken = !found.mirror.functional;
    let directory = found.mirror.entry == Some(FileKind::Directory);
    if is_linked_mode(found) {
        workspace_is_stale(force, found) && found.mirror.entry is Some && (force || broken)
    } else if workspace_is_stale(force, found) {
        force || (directory && broken)
    } else {
        (force && found.mirror.entry is Some) || (directory && broken)
    }
}

/// The plan for what was found.
pub open spec fn repair_plan(
    workspace: Seq<u8>,
    mirror: Seq<u8>,
    dir_name: Seq<char>,
    force: bool,
    found: Inspection,
) -> PipRepairPlanView {
    let own = if workspace_is_stale(force, found) {
        seq![workspace_venv(workspace, dir_name)]
    } else {
        seq![]
    };
    let shared = if mirror_is_wiped(force, found) {
        seq![mirror_venv(mirror)]
    } else {
        seq![]
    };
    PipRepairPlanView {
        removals: own + shared,
        symlink_mode: is_linked_mode(found),
        recreate: workspace_is_stale(force, found),
        has_work: workspace_is_stale(force, found) || mirror_is_wiped(force, found),
    }
}

/// Decides what to repair, given what was found of the two environments.
///
/// Only what is detectably stale is repaired: dangling or broken links, links
/// to another mirror than the configured one, and environments without an
/// interpreter. A working link to the configured mirror is left alone unless
/// `force` is set, which always wipes the mirror environment.
pub fn plan_pip_repair(
    workspace_path: &FsPath,
    mirror_path: &FsPath,
    venv_dir_name: &str,
    force: bool,
    found: &Inspection,
) -> (plan: PipRepairPlan)
    ensures
        plan.deep_view() == repair_plan(
            workspace_path@,
            mirror_path@,
            venv_dir_name@,
            force,
            *found,
        ),
{
    let workspace_venv = workspace_path.join(venv_dir_name.as_bytes());
    let mirror_venv = mirror_path.join(".venv".as_bytes());
    let ghost own = workspace_venv@;
    let ghost shared = mirror_venv@;

    let workspace_is_symlink = found.workspace.entry == Some(FileKind::Symlink);
    let mirror_is_dir = found.mirror.entry == Some(FileKind::Directory);

    let mut removals: Vec<FsPath> = Vec::new();
    let mut symlink_mode = false;
    let mut workspace_removed = false;

    if workspace_is_symlink {
        symlink_mode = true;
        if force || !found.workspace.functional || !found.linked {
            removals.push(workspace_venv);
            workspace_removed = true;
            // The link says nothing about a mirror that it may not even lead
            // to, and that mirror may be a healthy cache of other workspaces.
            if found.mirror.entry.is_some() && (force || !found.mirror.functional) {
                removals.push(mirror_venv);
            }
        }
    } else if found.workspace.entry.is_some() && !found.workspace.functional {
        removals.push(workspace_venv);
        workspace_removed = true;
        if force || (mirror_is_dir && !found.mirror.functional) {
            removals.push(mirror_venv);
        }
    } else if (force && found.mirror.entry.is_some()) || (mirror_is_dir
        && !found.mirror.functional) {
        // The workspace environment works or does not exist; only the shared
        // cache is cleaned up.
        removals.push(mirror_venv);
    }
    let has_work = !removals.is_empty();
    proof {
        let plan = repair_plan(
            workspace_path@,
            mirror_path@,
            venv_dir_name@,
            force,
            *found,
        );
        assert(removals.deep_view() =~= plan.removals);
    }
    PipRepairPlan { removals, symlink_mode, recreate: workspace_removed, has_work }
}

// ----------------------------------------------------------------------------
// Laws
// ----------------------------------------------------------------------------

/// Whether nothing is wrong with the workspace environment: it does not exist
/// yet, or it works, and if it is a link it leads to the configured mirror.
pub open spec fn workspace_is_healthy(found: Inspection) -> bool {
    match found.workspace.entry {
        None => true,
        Some(FileKind::Symlink) => found.workspace.functional && found.linked,
        Some(_) => found.workspace.functional,
    }
}

/// A plan has work to do exactly when it removes something, and it creates the
/// workspace environment anew exactly when it removes it.
pub proof fn law_plan_is_consistent(
    workspace: Seq<u8>,
    mirror: Seq<u8>,
    dir_name: Seq<char>,
    force: bool,
    found: Inspection,
)
    ensures
        ({
            let plan = repair_plan(workspace, mirror, dir_name, force, found);
            &&& plan.has_work <==> plan.removals.len() > 0
            &&& plan.recreate ==> plan.removals.len() > 0 && plan.removals[0] == workspace_venv(
                workspace,
                dir_name,
            )
            &&& workspace_venv(workspace, dir_name) != mirror_venv(mirror)
                && plan.removals.contains(workspace_venv(workspace, dir_name)) ==> plan.recreate
        }),
{
}

/// Nothing but the two environments is ever removed, and each at most once.
pub proof fn law_plan_removes_only_environments(
    workspace: Seq<u8>,
    mirror: Seq<u8>,
    dir_name: Seq<char>,
    force: bool,
    found: Inspection,
)
    ensures
        ({
            let removals = repair_plan(workspace, mirror, dir_name, force, found).removals;
            &&& removals.len() <= 2
            &&& forall|i: int|
                0 <= i < removals.len() ==> #[trigger] removals[i] == workspace_venv(
                    workspace,
                    dir_name,
                ) || removals[i] == mirror_venv(mirror)
            &&& removals.len() == 2 ==> removals == seq![
                workspace_venv(workspace, dir_name),
                mirror_venv(mirror),
            ]
        }),
{
    let removals = repair_plan(workspace, mirror, dir_name, force, found).removals;
    if removals.len() == 2 {
        assert(removals =~= seq![workspace_venv(workspace, dir_name), mirror_venv(mirror)]);
    }
}

/// Without force, a healthy workspace environment is left as it is.
pub proof fn law_healthy_workspace_is_spared(
    workspace: Seq<u8>,
    mirror: Seq<u8>,
    dir_name: Seq<char>,
    found: Inspection,
)
    requires
        workspace_is_healthy(found),
    ensures
        !repair_plan(workspace, mirror, dir_name, false, found).recreate,
        is_linked_mode(found) || found.mirror.functional || found.mirror.entry is None
            ==> !repair_plan(workspace, mirror, dir_name, false, found).has_work,
{
}

/// Without force, a mirror environment that works is never wiped, whatever the
/// state of the workspace: other workspaces may share it.
pub proof fn law_healthy_mirror_is_spared(
    workspace: Seq<u8>,
    mirror: Seq<u8>,
    dir_name: Seq<char>,
    found: Inspection,
)
    requires
        found.mirror.functional,
        workspace_venv(workspace, dir_name) != mirror_venv(mirror),
    ensures
        !repair_plan(workspace, mirror, dir_name, false, found).removals.contains(
            mirror_venv(mirror),
        ),
{
}

/// With force, a mirror environment is always wiped, whatever stands there.
pub proof fn law_force_wipes_mirror(
    workspace: Seq<u8>,
    mirror: Seq<u8>,
    dir_name: Seq<char>,
    found: Inspection,
)
    requires
        found.mirror.entry is Some,
    ensures
        repair_plan(workspace, mirror, dir_name, true, found).has_work,
        repair_plan(workspace, mirror, dir_name, true, found).removals.contains(
            mirror_venv(mirror),
        ),
{
    let removals = repair_plan(workspace, mirror, dir_name, true, found).removals;
    assert(removals[removals.len() - 1] == mirror_venv(mirror));
}

/// What is found once a plan was carried out: what it removed is gone, and a
/// workspace environment that it created works, as a link into a working mirror
/// environment or as a directory.
pub open spec fn after_repair(force: bool, found: Inspection) -> Inspection {
    let working = VenvState { entry: Some(FileKind::Directory), functional: true };
    let nothing = VenvState { entry: None, functional: false };
    let mirror = if mirror_is_wiped(force, found) {
        nothing
    } else {
        found.mirror
    };
    if !workspace_is_stale(force, found) {
        Inspection { mirror, ..found }
    } else if is_linked_mode(found) {
        Inspection {
            workspace: VenvState { entry: Some(FileKind::Symlink), functional: true },
            mirror: if mirror.functional {
                mirror
            } else {
                working
            },
            linked: true,
        }
    } else {
        Inspection { workspace: working, mirror, linked: false }
    }
}

/// A repair leaves nothing to repair.
pub proof fn law_repair_is_complete(
    workspace: Seq<u8>,
    mirror: Seq<u8>,
    dir_name: Seq<char>,
    force: bool,
    found: Inspection,
)
    ensures
        !repair_plan(workspace, mirror, dir_name, false, after_repair(force, found)).has_work,
        workspace_is_healthy(after_repair(force, found)),
{
}

/// A repair keeps the mode in which the workspace was set up.
pub proof fn law_repair_keeps_mode(force: bool, found: Inspection)
    ensures
        is_linked_mode(after_repair(force, found)) == is_linked_mode(found),
{
}

/// The workspace environment is removed exactly where it is stale, by what was
/// found of it: a link that does not work, or leads elsewhere, or is to be wiped
/// by force; or anything else that stands there and does not work. What is
/// removed is created anew, as a link exactly where it was one.
pub proof fn law_stale_workspace_is_recreated(
    workspace: Seq<u8>,
    mirror: Seq<u8>,
    dir_name: Seq<char>,
    force: bool,
    found: Inspection,
)
    ensures
        ({
            let plan = repair_plan(workspace, mirror, dir_name, force, found);
            let own = joined(workspace, encode_utf8(dir_name));
            let link = found.workspace.entry == Some(FileKind::Symlink);
            let gone = found.workspace.entry is None;
            &&& plan.symlink_mode == link
            &&& plan.recreate == (!gone && (!found.workspace.functional || (link && (force
                || !found.linked))))
            &&& plan.recreate ==> plan.removals.len() > 0 && plan.removals[0] == own
            &&& !plan.recreate ==> plan.removals.len() <= 1
        }),
{
}

/// The mirror environment is removed exactly where it may be: it stands there
/// and a wipe is forced; or it is broken, and a directory, or met on the way of
/// a link that is stale itself. With force it is listed beside a broken
/// environment of the workspace too, where nothing need stand there.
pub proof fn law_mirror_is_wiped_where_it_may_be(
    workspace: Seq<u8>,
    mirror: Seq<u8>,
    dir_name: Seq<char>,
    force: bool,
    found: Inspection,
)
    ensures
        ({
            let plan = repair_plan(workspace, mirror, dir_name, force, found);
            let shared = joined(mirror, encode_utf8(".venv"@));
            let own = if plan.recreate {
                1nat
            } else {
                0nat
            };
            let broken = !found.mirror.functional;
            let there = found.mirror.entry is Some;
            let directory = found.mirror.entry == Some(FileKind::Directory);
            let wiped = plan.removals.len() == own + 1;
            &&& plan.removals.len() == own || wiped
            &&& wiped ==> plan.removals.last() == shared
            &&& force && there ==> wiped
            &&& !force && !broken ==> !wiped
            &&& !there ==> (wiped <==> force && plan.recreate && !plan.symlink_mode)
            &&& !force && there && broken ==> (wiped <==> if plan.symlink_mode {
                plan.recreate
            } else {
                directory
            })
            &&& plan.has_work <==> plan.removals.len() > 0
        }),
{
}

} // verus!
