//! Planning, confirming and carrying out a repair, on a disk that is held in
//! memory.

use cim_core::message::{Level, Message};
use cim_core::path::FsPath;
use cim_core::repair::{
    handle_utils_repair_command, is_agreement, is_confirmation, repair_pip_venv, PipRepair,
    RepairCommand, RepairEvent, RepairWork,
};
use cim_core::repair_execution::{
    execute_pip_repair, ExecutionEvent, ExecutionWork, RepairExecution,
};
use cim_core::repair_plan::{
    plan_pip_repair, FileKind, Inspection, PipRepairPlan, VenvState,
};
use std::collections::BTreeMap;

const WS: &str = "/home/user/ws";
const MIRROR: &str = "/home/user/mirror";
const OTHER: &str = "/home/user/other";

#[derive(Clone, Debug, PartialEq)]
enum Node {
    Venv { functional: bool },
    File,
    Link(String),
}

#[derive(Default)]
struct Disk {
    nodes: BTreeMap<String, Node>,
}

impl Disk {
    fn functional_venv(&mut self, at: &str) {
        self.nodes.insert(at.to_string(), Node::Venv { functional: true });
    }

    fn broken_venv(&mut self, at: &str) {
        self.nodes.insert(at.to_string(), Node::Venv { functional: false });
    }

    fn symlink(&mut self, to: &str, at: &str) {
        self.nodes.insert(at.to_string(), Node::Link(to.to_string()));
    }

    fn kind(&self, at: &str) -> Option<FileKind> {
        self.nodes.get(at).map(|n| match n {
            Node::Venv { .. } => FileKind::Directory,
            Node::File => FileKind::File,
            Node::Link(_) => FileKind::Symlink,
        })
    }

    fn venv_exists(&self, at: &str) -> bool {
        match self.nodes.get(at) {
            Some(Node::Venv { functional }) => *functional,
            Some(Node::Link(to)) => self.venv_exists(to),
            _ => false,
        }
    }

    fn resolves_to(&self, at: &str, target: &str) -> bool {
        match self.nodes.get(at) {
            Some(Node::Link(to)) => to == target && self.nodes.contains_key(target),
            _ => false,
        }
    }

    fn inspect(&self, workspace_venv: &str, mirror_venv: &str) -> Inspection {
        Inspection {
            workspace: VenvState {
                entry: self.kind(workspace_venv),
                functional: self.venv_exists(workspace_venv),
            },
            mirror: VenvState {
                entry: self.kind(mirror_venv),
                functional: self.venv_exists(mirror_venv),
            },
            linked: self.resolves_to(workspace_venv, mirror_venv),
        }
    }

    fn plan(&self, force: bool) -> PipRepairPlan {
        let found = self.inspect(&venv(WS), &venv(MIRROR));
        plan_pip_repair(&path(WS), &path(MIRROR), ".venv", force, &found)
    }

    fn perform(&mut self, work: &ExecutionWork) -> ExecutionEvent {
        match work {
            ExecutionWork::Inspect(p) => match self.kind(&text(p)) {
                Some(kind) => ExecutionEvent::Found(kind),
                None => ExecutionEvent::Missing,
            },
            ExecutionWork::RemoveFile(p) => {
                assert_ne!(self.kind(&text(p)), Some(FileKind::Directory));
                self.nodes.remove(&text(p));
                ExecutionEvent::Removed
            }
            ExecutionWork::RemoveTree(p) => {
                assert_eq!(self.kind(&text(p)), Some(FileKind::Directory));
                self.nodes.remove(&text(p));
                ExecutionEvent::Removed
            }
            ExecutionWork::CreateVenv(r) => {
                assert!(r.force);
                let own = text(&r.workspace.join(r.dir_name.as_bytes()));
                let shared = text(&r.mirror.join(b".venv"));
                if r.symlink {
                    if !self.venv_exists(&shared) {
                        self.functional_venv(&shared);
                    }
                    self.symlink(&shared, &own);
                } else {
                    self.functional_venv(&own);
                }
                ExecutionEvent::Created
            }
            ExecutionWork::Done | ExecutionWork::Failed(_) => unreachable!(),
        }
    }

    fn execute(&mut self, plan: PipRepairPlan) -> Result<Vec<Message>, String> {
        let mut run = execute_pip_repair(plan, path(WS), path(MIRROR), ".venv".to_string());
        let mut said = Vec::new();
        loop {
            match &run.work {
                ExecutionWork::Done => return Ok(said),
                ExecutionWork::Failed(why) => return Err(why.clone()),
                _ => {}
            }
            let event = self.perform(&run.work);
            let (next, more) = run.step(event);
            said.extend(more);
            run = next;
        }
    }
}

fn path(s: &str) -> FsPath {
    FsPath::from_text(s)
}

fn text(p: &FsPath) -> String {
    String::from_utf8(p.bytes.clone()).unwrap()
}

fn venv(dir: &str) -> String {
    format!("{}/.venv", dir)
}

fn say(level: Level, text: &str) -> Message {
    Message { level, text: text.to_string() }
}

// ---- the plan ----

#[test]
fn test_plan_pip_repair_healthy_direct_venv_is_noop() {
    let mut disk = Disk::default();
    disk.functional_venv(&venv(WS));

    let plan = disk.plan(false);
    assert!(!plan.has_work);
    assert!(plan.removals.is_empty());
    assert!(!plan.recreate);
}

#[test]
fn test_plan_pip_repair_healthy_symlink_is_noop() {
    let mut disk = Disk::default();
    disk.functional_venv(&venv(MIRROR));
    disk.symlink(&venv(MIRROR), &venv(WS));

    // A functional symlink pointing at the expected mirror venv is healthy.
    let plan = disk.plan(false);
    assert!(!plan.has_work);
    assert!(plan.removals.is_empty());
}

#[test]
fn test_plan_pip_repair_force_wipes_healthy_symlink_and_mirror() {
    let mut disk = Disk::default();
    disk.functional_venv(&venv(MIRROR));
    disk.symlink(&venv(MIRROR), &venv(WS));

    let plan = disk.plan(true);
    assert!(plan.has_work);
    assert_eq!(
        plan.removals.len(),
        2,
        "expected both the workspace symlink and the mirror venv to be removed"
    );
    assert!(plan.symlink_mode);
    assert!(plan.recreate);
}

#[test]
fn test_plan_pip_repair_dangling_symlink_is_stale() {
    let mut disk = Disk::default();
    // Symlink points at a mirror venv that does not exist -> dangling.
    disk.symlink(&venv(MIRROR), &venv(WS));

    let plan = disk.plan(false);
    assert!(plan.has_work);
    assert_eq!(plan.removals.len(), 1, "expected just the dangling symlink");
    assert!(plan.symlink_mode);
    assert!(plan.recreate);
}

#[test]
fn test_plan_pip_repair_symlink_to_wrong_mirror_is_stale() {
    let mut disk = Disk::default();
    disk.functional_venv(&venv(OTHER));
    disk.symlink(&venv(OTHER), &venv(WS));

    let plan = disk.plan(false);
    assert!(plan.has_work);
    assert_eq!(
        plan.removals.len(),
        1,
        "expected just the misdirected symlink"
    );
    assert!(plan.symlink_mode);
    assert!(plan.recreate);
}

#[test]
fn test_plan_pip_repair_symlink_to_wrong_mirror_also_wipes_broken_configured_mirror() {
    let mut disk = Disk::default();
    disk.functional_venv(&venv(OTHER));
    disk.symlink(&venv(OTHER), &venv(WS));
    // The currently configured mirror (distinct from what the symlink actually
    // points at) is itself broken, so it should be wiped too.
    disk.broken_venv(&venv(MIRROR));

    let plan = disk.plan(false);
    assert!(plan.has_work);
    assert_eq!(
        plan.removals,
        vec![path(WS).join(b".venv"), path(MIRROR).join(b".venv")],
        "both the misdirected symlink and the broken configured mirror should be removed"
    );
}

#[test]
fn test_plan_pip_repair_dangling_symlink_spares_healthy_unrelated_mirror() {
    let mut disk = Disk::default();
    // The configured mirror venv is healthy and possibly shared by other
    // workspaces, but this workspace's symlink dangles elsewhere.
    disk.functional_venv(&venv(MIRROR));
    disk.symlink("/gone/.venv", &venv(WS));

    let plan = disk.plan(false);
    assert!(plan.has_work);
    assert_eq!(
        plan.removals,
        vec![path(WS).join(b".venv")],
        "the healthy, unrelated configured mirror venv must not be wiped"
    );
}

#[test]
fn test_plan_pip_repair_broken_direct_venv() {
    let mut disk = Disk::default();
    disk.broken_venv(&venv(WS));

    let plan = disk.plan(false);
    assert!(plan.has_work);
    assert_eq!(plan.removals.len(), 1);
    assert!(!plan.symlink_mode);
    assert!(plan.recreate);
}

#[test]
fn test_plan_pip_repair_broken_mirror_cache_with_healthy_direct_venv() {
    let mut disk = Disk::default();
    disk.functional_venv(&venv(WS));
    disk.broken_venv(&venv(MIRROR));

    // Healthy local venv; only the broken shared cache is cleaned up.
    let plan = disk.plan(false);
    assert!(plan.has_work);
    assert_eq!(plan.removals.len(), 1);
    assert!(!plan.recreate, "healthy direct venv must not be recreated");
}

#[test]
fn plan_of_a_workspace_without_environment_is_empty() {
    let plan = Disk::default().plan(true);
    assert_eq!(
        plan,
        PipRepairPlan { removals: vec![], symlink_mode: false, recreate: false, has_work: false }
    );
}

#[test]
fn plan_honours_a_custom_directory_name() {
    let mut disk = Disk::default();
    disk.broken_venv("/home/user/ws/envs/py");
    let found = disk.inspect("/home/user/ws/envs/py", &venv(MIRROR));
    let plan = plan_pip_repair(&path(WS), &path(MIRROR), "envs/py", false, &found);
    assert_eq!(plan.removals, vec![path("/home/user/ws/envs/py")]);
}

#[test]
fn plan_takes_an_absolute_directory_name_as_it_is() {
    let mut disk = Disk::default();
    disk.broken_venv("/opt/env");
    let found = disk.inspect("/opt/env", &venv(MIRROR));
    let plan = plan_pip_repair(&path(WS), &path(MIRROR), "/opt/env", false, &found);
    assert_eq!(plan.removals, vec![path("/opt/env")]);
}

#[test]
fn forced_plan_wipes_the_mirror_beside_a_broken_direct_venv() {
    // Here the mirror is listed even where nothing stands there.
    let mut disk = Disk::default();
    disk.broken_venv(&venv(WS));
    let plan = disk.plan(true);
    assert_eq!(plan.removals, vec![path(&venv(WS)), path(&venv(MIRROR))]);
    assert!(plan.recreate);
}

#[test]
fn forced_plan_wipes_a_healthy_mirror_beside_a_healthy_direct_venv() {
    let mut disk = Disk::default();
    disk.functional_venv(&venv(WS));
    disk.functional_venv(&venv(MIRROR));
    let plan = disk.plan(true);
    assert_eq!(plan.removals, vec![path(&venv(MIRROR))]);
    assert!(!plan.recreate);
    assert!(!disk.plan(false).has_work);
}

#[test]
fn forced_plan_wipes_a_mirror_that_is_no_directory() {
    for workspace in [true, false] {
        for mirror in [Node::Link(venv(OTHER)), Node::File] {
            let mut disk = Disk::default();
            if workspace {
                disk.functional_venv(&venv(WS));
            }
            disk.functional_venv(&venv(OTHER));
            disk.nodes.insert(venv(MIRROR), mirror);
            assert!(!disk.plan(false).has_work);
            let plan = disk.plan(true);
            assert!(plan.has_work);
            assert!(!plan.recreate);
            assert_eq!(plan.removals, vec![path(&venv(MIRROR))]);
            disk.execute(plan).unwrap();
            assert_eq!(disk.kind(&venv(MIRROR)), None);
            assert!(disk.venv_exists(&venv(OTHER)));
            assert_eq!(disk.venv_exists(&venv(WS)), workspace);
        }
    }
}

#[test]
fn forced_plan_with_a_link_and_no_mirror_removes_the_link_alone() {
    let mut disk = Disk::default();
    disk.symlink(&venv(MIRROR), &venv(WS));
    assert_eq!(disk.plan(true).removals, vec![path(&venv(WS))]);
}

#[test]
fn file_in_place_of_the_environment_is_stale() {
    let mut disk = Disk::default();
    disk.nodes.insert(venv(WS), Node::File);
    let plan = disk.plan(false);
    assert_eq!(plan.removals, vec![path(&venv(WS))]);
    assert!(plan.recreate);
    assert!(!plan.symlink_mode);
    disk.execute(plan).unwrap();
    assert!(disk.venv_exists(&venv(WS)));
}

// ---- carrying the plan out ----

#[test]
fn test_execute_pip_repair_stale_symlink_recreates_symlink_mode() {
    let mut disk = Disk::default();
    // Broken mirror venv with a symlink in the workspace pointing at it.
    disk.broken_venv(&venv(MIRROR));
    disk.symlink(&venv(MIRROR), &venv(WS));

    let plan = disk.plan(false);
    assert!(plan.has_work);
    disk.execute(plan).expect("repair should succeed");

    // Workspace .venv must be a fresh symlink pointing at a functional mirror venv.
    let kind = disk.kind(&venv(WS)).expect("workspace .venv exists");
    assert_eq!(kind, FileKind::Symlink);
    assert!(disk.venv_exists(&venv(WS)));
    assert!(disk.venv_exists(&venv(MIRROR)));
}

#[test]
fn test_execute_pip_repair_broken_direct_venv_recreates_direct() {
    let mut disk = Disk::default();
    disk.broken_venv(&venv(WS));

    let plan = disk.plan(false);
    disk.execute(plan).expect("repair should succeed");

    let kind = disk.kind(&venv(WS)).expect("workspace .venv exists");
    assert_ne!(kind, FileKind::Symlink);
    assert!(disk.venv_exists(&venv(WS)));
}

#[test]
fn test_execute_pip_repair_compiles_a_healthy_mirror_cleanup() {
    let mut disk = Disk::default();
    disk.functional_venv(&venv(WS));
    disk.broken_venv(&venv(MIRROR));

    let plan = disk.plan(false);
    disk.execute(plan).expect("repair should succeed");

    // The healthy direct venv must be untouched, broken mirror cache gone.
    assert!(disk.venv_exists(&venv(WS)));
    assert_eq!(disk.kind(&venv(MIRROR)), None);
}

#[test]
fn repair_leaves_nothing_to_repair_and_keeps_the_mode() {
    let states: Vec<Option<Node>> = vec![
        None,
        Some(Node::Venv { functional: true }),
        Some(Node::Venv { functional: false }),
        Some(Node::Link(venv(MIRROR))),
        Some(Node::Link(venv(OTHER))),
    ];
    for workspace in &states {
        for mirror in states.iter().take(3) {
            for force in [false, true] {
                let mut disk = Disk::default();
                disk.functional_venv(&venv(OTHER));
                if let Some(node) = workspace {
                    disk.nodes.insert(venv(WS), node.clone());
                }
                if let Some(node) = mirror {
                    disk.nodes.insert(venv(MIRROR), node.clone());
                }
                let linked = disk.kind(&venv(WS)) == Some(FileKind::Symlink);
                let plan = disk.plan(force);
                disk.execute(plan).unwrap();
                assert!(!disk.plan(false).has_work);
                assert_eq!(disk.kind(&venv(WS)) == Some(FileKind::Symlink), linked);
                assert!(disk.venv_exists(&venv(OTHER)));
            }
        }
    }
}

#[test]
fn execution_reports_what_it_does() {
    let mut disk = Disk::default();
    disk.broken_venv(&venv(MIRROR));
    disk.symlink(&venv(MIRROR), &venv(WS));
    let plan = disk.plan(false);
    assert_eq!(
        disk.execute(plan).unwrap(),
        vec![
            say(Level::Status, "Removed /home/user/ws/.venv"),
            say(Level::Status, "Removed /home/user/mirror/.venv"),
            say(
                Level::Success,
                "Fresh virtual environment created (symlinked into the mirror)"
            ),
        ]
    );
    disk = Disk::default();
    disk.broken_venv(&venv(WS));
    let plan = disk.plan(false);
    assert_eq!(
        disk.execute(plan).unwrap(),
        vec![
            say(Level::Status, "Removed /home/user/ws/.venv"),
            say(Level::Success, "Fresh virtual environment created in the workspace"),
        ]
    );
}

fn one_removal() -> RepairExecution {
    let plan = PipRepairPlan {
        removals: vec![path("/w/.venv")],
        symlink_mode: false,
        recreate: true,
        has_work: true,
    };
    execute_pip_repair(plan, path("/w"), path("/m"), ".venv".to_string())
}

#[test]
fn execution_passes_over_what_is_gone() {
    let (run, said) = one_removal().step(ExecutionEvent::Missing);
    assert!(said.is_empty());
    assert!(matches!(run.work, ExecutionWork::CreateVenv(_)));
}

#[test]
fn execution_ignores_events_that_answer_nothing() {
    let (run, said) = one_removal().step(ExecutionEvent::Created);
    assert!(said.is_empty());
    assert_eq!(run, one_removal());
}

#[test]
fn execution_fails_on_inspection() {
    let (run, said) = one_removal().step(ExecutionEvent::InspectFailed("denied".to_string()));
    assert!(said.is_empty());
    assert_eq!(
        run.work,
        ExecutionWork::Failed("Failed to inspect /w/.venv: denied".to_string())
    );
}

#[test]
fn execution_fails_on_removal() {
    let (run, _) = one_removal().step(ExecutionEvent::Found(FileKind::Directory));
    assert_eq!(run.work, ExecutionWork::RemoveTree(path("/w/.venv")));
    let (run, _) = run.step(ExecutionEvent::RemoveFailed("busy".to_string()));
    assert_eq!(
        run.work,
        ExecutionWork::Failed("Failed to remove /w/.venv: busy".to_string())
    );
    let (same, said) = run.step(ExecutionEvent::Removed);
    assert!(said.is_empty());
    assert!(matches!(same.work, ExecutionWork::Failed(_)));
}

#[test]
fn execution_fails_on_creation() {
    let (run, _) = one_removal().step(ExecutionEvent::Missing);
    let (run, said) = run.step(ExecutionEvent::CreateFailed("no python".to_string()));
    assert!(said.is_empty());
    assert_eq!(
        run.work,
        ExecutionWork::Failed("Failed to recreate virtual environment: no python".to_string())
    );
}

#[test]
fn links_and_files_are_removed_themselves() {
    for (kind, tree) in [
        (FileKind::Symlink, false),
        (FileKind::File, false),
        (FileKind::Directory, true),
        (FileKind::Other, true),
    ] {
        let (run, _) = one_removal().step(ExecutionEvent::Found(kind));
        assert_eq!(matches!(run.work, ExecutionWork::RemoveTree(_)), tree);
        assert_eq!(matches!(run.work, ExecutionWork::RemoveFile(_)), !tree);
    }
}

// ---- the command ----

#[test]
fn unknown_targets_are_refused() {
    assert_eq!(
        handle_utils_repair_command("npm", true, false),
        RepairCommand::Refuse(say(
            Level::Error,
            "Unknown repair target 'npm'. Supported targets: pip (e.g. 'cim utils repair -t pip')."
        ))
    );
    assert_eq!(
        handle_utils_repair_command("pip", true, false),
        RepairCommand::Pip { yes: true, force: false }
    );
    assert!(matches!(
        handle_utils_repair_command("Pip", false, false),
        RepairCommand::Refuse(_)
    ));
}

#[test]
fn confirmation_takes_yes_in_any_case() {
    for line in ["y\n", "Y\n", "yes\n", "YES\r\n", "  yEs \n", "\u{a0}y\u{3000}"] {
        assert!(is_confirmation(line), "{:?}", line);
    }
    for line in ["", "\n", "n\n", "no\n", "yess\n", "y es\n", "ye\n", "да\n"] {
        assert!(!is_confirmation(line), "{:?}", line);
    }
    assert!(is_agreement("yes"));
    assert!(!is_agreement("YES"));
}

fn inspected(yes: bool, force: bool, found: Inspection) -> (PipRepair, Vec<Message>) {
    let repair = repair_pip_venv(yes, force);
    assert_eq!(repair.work, RepairWork::RequireWorkspace);
    let (repair, said) = repair.step(RepairEvent::Workspace {
        workspace: path("/w"),
        config: path("/w/sdk.yml"),
    });
    assert!(said.is_empty());
    assert_eq!(repair.work, RepairWork::LoadConfig(path("/w/sdk.yml")));
    let (repair, said) = repair.step(RepairEvent::Config(None));
    assert!(said.is_empty());
    assert_eq!(repair.work, RepairWork::ResolveMirror);
    let (repair, said) = repair.step(RepairEvent::Mirror(path("/m")));
    assert!(said.is_empty());
    assert_eq!(
        repair.work,
        RepairWork::InspectVenvs {
            workspace_venv: path("/w/.venv"),
            mirror_venv: path("/m/.venv"),
        }
    );
    repair.step(RepairEvent::Inspected(found))
}

fn state(entry: Option<FileKind>, functional: bool) -> VenvState {
    VenvState { entry, functional }
}

fn broken_direct() -> Inspection {
    Inspection {
        workspace: state(Some(FileKind::Directory), false),
        mirror: state(None, false),
        linked: false,
    }
}

#[test]
fn repair_asks_before_it_touches_anything() {
    let (repair, said) = inspected(false, false, broken_direct());
    assert_eq!(
        said,
        vec![
            say(
                Level::Status,
                "The following stale Python virtual environment state will be removed:"
            ),
            say(Level::Status, "  - /w/.venv"),
        ]
    );
    assert_eq!(repair.work, RepairWork::Confirm("Proceed? [y/N]: ".to_string()));
    let (repair, said) = repair.step(RepairEvent::Answer("no\n".to_string()));
    assert_eq!(said, vec![say(Level::Status, "Repair cancelled.")]);
    assert_eq!(repair.work, RepairWork::Done);
    let (repair, said) = repair.step(RepairEvent::Answer("yes\n".to_string()));
    assert!(said.is_empty());
    assert_eq!(repair.work, RepairWork::Done);
}

#[test]
fn repair_ends_where_no_answer_can_be_read() {
    let (repair, _) = inspected(false, false, broken_direct());
    let (repair, said) = repair.step(RepairEvent::NoAnswer);
    assert_eq!(said, vec![say(Level::Error, "Failed to read confirmation.")]);
    assert_eq!(repair.work, RepairWork::Done);
}

fn execution(repair: PipRepair, event: ExecutionEvent) -> (PipRepair, Vec<Message>) {
    repair.step(RepairEvent::Execution(event))
}

fn repaired(found: Inspection) -> (PipRepair, Vec<Message>) {
    let (repair, _) = inspected(false, false, found);
    let (repair, said) = repair.step(RepairEvent::Answer(" Y \n".to_string()));
    assert!(said.is_empty());
    assert_eq!(repair.work, RepairWork::Execute);
    assert_eq!(repair.execution.work, ExecutionWork::Inspect(path("/w/.venv")));
    let (repair, _) = execution(repair, ExecutionEvent::Found(FileKind::Directory));
    let (repair, said) = execution(repair, ExecutionEvent::Removed);
    assert_eq!(said, vec![say(Level::Status, "Removed /w/.venv")]);
    execution(repair, ExecutionEvent::Created)
}

#[test]
fn confirmed_repair_reinstalls_the_packages() {
    let (repair, said) = repaired(broken_direct());
    assert_eq!(
        said,
        vec![
            say(Level::Success, "Fresh virtual environment created in the workspace"),
            say(Level::Status, ""),
        ]
    );
    assert_eq!(
        repair.work,
        RepairWork::InstallPackages {
            workspace: path("/w"),
            force: false,
            symlink: false,
            profile: None,
            mirror: path("/m"),
            direnv: None,
        }
    );
    let (repair, said) = repair.step(RepairEvent::Installed(true));
    assert_eq!(said, vec![say(Level::Success, "Python packages reinstalled.")]);
    assert_eq!(repair.work, RepairWork::Done);
}

#[test]
fn repair_says_when_there_are_no_packages() {
    let (repair, _) = repaired(broken_direct());
    let (_, said) = repair.step(RepairEvent::Installed(false));
    assert_eq!(
        said,
        vec![say(
            Level::Status,
            "No python-dependencies.yml found in the workspace; the virtual environment was \
             recreated but no packages were installed."
        )]
    );
}

#[test]
fn repair_says_when_packages_cannot_be_installed() {
    let (repair, _) = repaired(broken_direct());
    let (_, said) = repair.step(RepairEvent::InstallFailed("offline".to_string()));
    assert_eq!(
        said,
        vec![say(
            Level::Error,
            "Virtual environment repaired, but reinstalling Python packages failed: offline"
        )]
    );
}

#[test]
fn repair_confirmed_beforehand_does_not_ask() {
    let (repair, said) = inspected(true, false, broken_direct());
    assert_eq!(said.len(), 2);
    assert_eq!(repair.work, RepairWork::Execute);
    let (repair, said) =
        execution(repair, ExecutionEvent::InspectFailed("denied".to_string()));
    assert_eq!(said, vec![say(Level::Error, "Failed to inspect /w/.venv: denied")]);
    assert_eq!(repair.work, RepairWork::Done);
}

#[test]
fn mirror_cleanup_installs_nothing() {
    let found = Inspection {
        workspace: state(Some(FileKind::Directory), true),
        mirror: state(Some(FileKind::Directory), false),
        linked: false,
    };
    let (repair, _) = inspected(true, false, found);
    assert_eq!(repair.execution.work, ExecutionWork::Inspect(path("/m/.venv")));
    let (repair, _) = execution(repair, ExecutionEvent::Found(FileKind::Directory));
    let (repair, said) = execution(repair, ExecutionEvent::Removed);
    assert_eq!(said, vec![say(Level::Status, "Removed /m/.venv")]);
    assert_eq!(repair.work, RepairWork::Done);
}

#[test]
fn repair_gives_its_verdict_where_nothing_is_stale() {
    let nothing = Inspection {
        workspace: state(None, false),
        mirror: state(None, false),
        linked: false,
    };
    let verdicts = [
        (
            None,
            vec![say(
                Level::Status,
                "No Python virtual environment found in this workspace yet; \
                 run 'cim install pip' to create one.",
            )],
        ),
        (
            Some(FileKind::Symlink),
            vec![
                say(
                    Level::Success,
                    "Python virtual environment state looks healthy (shared mirror venv via symlink), nothing to repair.",
                ),
                say(
                    Level::Status,
                    "Plain 'cim install pip' installs into the shared mirror venv. \
                     Use 'cim install pip --force' or 'cim utils repair -t pip -f' to convert to a local venv instead.",
                ),
            ],
        ),
        (
            Some(FileKind::Directory),
            vec![say(
                Level::Success,
                "Python virtual environment state looks healthy, nothing to repair.",
            )],
        ),
    ];
    for (entry, want) in verdicts {
        let (repair, said) = inspected(false, false, nothing);
        assert!(said.is_empty());
        assert_eq!(repair.work, RepairWork::InspectVerdict(path("/w/.venv")));
        let (repair, said) = repair.step(RepairEvent::Verdict(entry));
        assert_eq!(said, want);
        assert_eq!(repair.work, RepairWork::Done);
    }
}

#[test]
fn repair_needs_a_workspace_and_its_config() {
    let (repair, said) =
        repair_pip_venv(false, false).step(RepairEvent::NoWorkspace("not here".to_string()));
    assert_eq!(said, vec![say(Level::Error, "not here")]);
    assert_eq!(repair.work, RepairWork::Done);

    let (repair, _) = repair_pip_venv(false, false).step(RepairEvent::Workspace {
        workspace: path("/w"),
        config: path("/w/sdk.yml"),
    });
    let (repair, said) = repair.step(RepairEvent::ConfigFailed("bad yaml".to_string()));
    assert_eq!(
        said,
        vec![say(Level::Error, "Failed to load config file /w/sdk.yml: bad yaml")]
    );
    assert_eq!(repair.work, RepairWork::Done);
}

#[test]
fn repair_uses_the_directory_that_the_config_names() {
    let (repair, _) = repair_pip_venv(false, true).step(RepairEvent::Workspace {
        workspace: path("/w"),
        config: path("/w/sdk.yml"),
    });
    let (repair, _) = repair.step(RepairEvent::Config(Some("env".to_string())));
    let (repair, _) = repair.step(RepairEvent::Mirror(path("/m/")));
    assert_eq!(
        repair.work,
        RepairWork::InspectVenvs {
            workspace_venv: path("/w/env"),
            mirror_venv: path("/m/.venv"),
        }
    );
    assert!(repair.force);
    assert!(!repair.yes);
    let (repair, _) = repair.step(RepairEvent::Inspected(broken_direct()));
    let (repair, _) = repair.step(RepairEvent::Answer("y".to_string()));
    let (repair, _) = execution(repair, ExecutionEvent::Missing);
    let (repair, _) = execution(repair, ExecutionEvent::Missing);
    let (repair, _) = execution(repair, ExecutionEvent::Created);
    assert_eq!(
        repair.work,
        RepairWork::InstallPackages {
            workspace: path("/w"),
            force: false,
            symlink: false,
            profile: None,
            mirror: path("/m/"),
            direnv: Some("env".to_string()),
        }
    );
}
