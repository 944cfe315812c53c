//! Bootstrapping: menus, settings, phases, and the whole course of events.

use cim_core::bootstrap::{
    handle_bootstrap_command, Bootstrap, BootstrapEvent, BootstrapWork,
};
use cim_core::bootstrap_config::{
    bootstrap_flags, bootstrap_jobs, bootstrap_phases, bootstrap_sources, copy_strings,
    load_bootstrap_user_config, resolve_bootstrap_target, resolve_bootstrap_version,
    run_workspace_init, BootstrapConfig, BootstrapSettings, InitConfig, LoadedConfig,
    TargetDecision, UserConfig, VersionDecision,
};
use cim_core::message::{Level, Message};
use cim_core::path::FsPath;
use cim_core::phases::{
    code_text_of, run_bootstrap_phases, validate_bootstrap_phases, PhaseEvent, PhaseWork,
};
use cim_core::picker::{
    offer_targets, pick_target, pick_version, prompt_index, prompt_of, version_menu_of,
    TargetChoice,
};

fn path(s: &str) -> FsPath {
    FsPath::from_text(s)
}

fn some(s: &str) -> Option<String> {
    Some(s.to_string())
}

fn strings(list: &[&str]) -> Vec<String> {
    list.iter().map(|s| s.to_string()).collect()
}

fn say(level: Level, text: &str) -> Message {
    Message { level, text: text.to_string() }
}

fn plain(text: &str) -> Message {
    say(Level::Plain, text)
}

fn request() -> BootstrapConfig {
    BootstrapConfig {
        target: None,
        source: None,
        version: None,
        workspace: None,
        no_mirror: false,
        mirror: None,
        match_pattern: None,
        include_group: None,
        exclude_group: None,
        verbose: false,
        yes: false,
        cert_validation: None,
    }
}

fn settings() -> BootstrapSettings {
    BootstrapSettings { force: None, symlink: None, phases: None, jobs: None }
}

fn user(bootstrap: BootstrapSettings) -> Option<UserConfig> {
    Some(UserConfig { bootstrap })
}

// ---- menus ----

#[test]
fn number_selects_itself() {
    for k in 0..4 {
        assert_eq!(prompt_index(&Some(format!("{}\n", k)), 3), (k, vec![]));
    }
    assert_eq!(prompt_index(&some("  2 \r\n"), 3), (2, vec![]));
    assert_eq!(prompt_index(&some("+1\n"), 3), (1, vec![]));
}

#[test]
fn nothing_entered_selects_the_default() {
    assert_eq!(prompt_index(&None, 3), (0, vec![]));
    assert_eq!(prompt_index(&some(""), 3), (0, vec![]));
    assert_eq!(prompt_index(&some("  \n"), 3), (0, vec![]));
}

#[test]
fn invalid_selection_falls_back_to_the_default() {
    let entered = ["x\n", "-1\n", "1 2\n", "+\n", "99999999999999999999999\n"];
    for line in entered {
        let want = format!("Invalid selection '{}', using default (0).", line.trim());
        assert_eq!(prompt_index(&some(line), 3), (0, vec![say(Level::Status, &want)]));
    }
}

#[test]
fn number_beyond_the_menu_is_clamped() {
    assert_eq!(prompt_index(&some("3\n"), 3), (3, vec![]));
    assert_eq!(prompt_index(&some("4\n"), 3), (3, vec![]));
    assert_eq!(prompt_index(&some("7\n"), 3), (3, vec![]));
    assert_eq!(prompt_index(&some("7\n"), 0), (0, vec![]));
    assert_eq!(prompt_index(&Some(usize::MAX.to_string()), 3), (3, vec![]));
}

#[test]
fn prompts_name_their_range() {
    assert_eq!(prompt_of("target", 0), "Please select a target [0-0] (default 0): ");
    assert_eq!(prompt_of("version", 12), "Please select a version [0-12] (default 0): ");
}

#[test]
fn targets_are_numbered_across_sources() {
    let mut choices: Vec<TargetChoice> = Vec::new();
    let said = offer_targets(&mut choices, "one", &strings(&["a", "b"]));
    assert_eq!(said, vec![plain("  Source: one"), plain("    0) a"), plain("    1) b")]);
    assert!(offer_targets(&mut choices, "empty", &strings(&[])).is_empty());
    let said = offer_targets(&mut choices, "two", &strings(&["a"]));
    assert_eq!(said, vec![plain("  Source: two"), plain("    2) a")]);
    assert_eq!(choices.len(), 3);
    let (choice, said) = pick_target(choices, &some("2\n"));
    assert!(said.is_empty());
    assert_eq!(choice.target, "a");
    assert_eq!(choice.source, "two");
}

#[test]
fn versions_are_numbered_from_one() {
    let versions = strings(&["v1", "v2"]);
    assert_eq!(
        version_menu_of(&versions),
        vec![
            plain("Available versions:"),
            plain(""),
            plain(" 0) (default)"),
            plain(" 1) v1"),
            plain(" 2) v2"),
            plain(""),
        ]
    );
    assert_eq!(pick_version(&versions, &some("0\n")), (None, vec![]));
    assert_eq!(pick_version(&versions, &some("1\n")), (some("v1"), vec![]));
    assert_eq!(pick_version(&versions, &some("2\n")), (some("v2"), vec![]));
    assert_eq!(pick_version(&versions, &some("3\n")), (some("v2"), vec![]));
    let (version, said) = pick_version(&versions, &some("v1\n"));
    assert_eq!(version, None);
    assert_eq!(said.len(), 1);
}

// ---- settings ----

#[test]
fn user_config_that_cannot_be_loaded_is_passed_over() {
    let (config, said) = load_bootstrap_user_config(LoadedConfig::Failed("bad".to_string()));
    assert_eq!(config, None);
    assert_eq!(said, vec![say(Level::Info, "Warning: Failed to load user config: bad")]);
    let (config, said) = load_bootstrap_user_config(LoadedConfig::Loaded(user(settings())));
    assert_eq!(config, user(settings()));
    assert!(said.is_empty());
    assert_eq!(load_bootstrap_user_config(LoadedConfig::Loaded(None)), (None, vec![]));
}

#[test]
fn explicit_source_wins() {
    let configured = strings(&["x", "y"]);
    assert_eq!(bootstrap_sources(&request(), copy_strings(&configured)), configured);
    let cfg = BootstrapConfig { source: some("mine"), ..request() };
    assert_eq!(bootstrap_sources(&cfg, configured), strings(&["mine"]));
}

#[test]
fn phases_come_from_the_user_or_by_default() {
    let default = strings(&["build", "flash"]);
    assert_eq!(bootstrap_phases(&None, copy_strings(&default)), default);
    assert_eq!(bootstrap_phases(&user(settings()), copy_strings(&default)), default);
    let own = user(BootstrapSettings { phases: Some(strings(&["test"])), ..settings() });
    assert_eq!(bootstrap_phases(&own, copy_strings(&default)), strings(&["test"]));
    let none = user(BootstrapSettings { phases: Some(vec![]), ..settings() });
    assert_eq!(bootstrap_phases(&none, default), strings(&[]));
}

#[test]
fn jobs_come_from_the_user_unless_zero() {
    assert_eq!(bootstrap_jobs(&None, 8), 8);
    assert_eq!(bootstrap_jobs(&user(settings()), 8), 8);
    assert_eq!(bootstrap_jobs(&user(BootstrapSettings { jobs: Some(3), ..settings() }), 8), 3);
    assert_eq!(bootstrap_jobs(&user(BootstrapSettings { jobs: Some(0), ..settings() }), 8), 8);
}

#[test]
fn flags_are_off_by_default() {
    assert_eq!(bootstrap_flags(&None), (false, false));
    assert_eq!(bootstrap_flags(&user(settings())), (false, false));
    let forced = BootstrapSettings { force: Some(true), symlink: Some(false), ..settings() };
    assert_eq!(bootstrap_flags(&user(forced)), (true, false));
    let linked = BootstrapSettings { force: None, symlink: Some(true), ..settings() };
    assert_eq!(bootstrap_flags(&user(linked)), (false, true));
}

#[test]
fn target_is_given_picked_or_refused() {
    let cfg = BootstrapConfig { target: some("t"), ..request() };
    for interactive in [false, true] {
        assert_eq!(
            resolve_bootstrap_target(&cfg, interactive),
            TargetDecision::Given { target: "t".to_string(), source: None }
        );
    }
    assert_eq!(resolve_bootstrap_target(&request(), true), TargetDecision::Pick);
    assert_eq!(
        resolve_bootstrap_target(&request(), false),
        TargetDecision::Refuse(vec![
            say(
                Level::Error,
                "--target is required when not running interactively (no TTY detected)"
            ),
            say(Level::Status, "Use 'cim list-targets' to see available targets"),
        ])
    );
}

#[test]
fn version_is_given_picked_or_the_default() {
    let cfg = BootstrapConfig { version: some("v9"), ..request() };
    assert_eq!(
        resolve_bootstrap_version(&cfg, true, &some("s")),
        VersionDecision::Given(some("v9"))
    );
    assert_eq!(
        resolve_bootstrap_version(&request(), false, &some("s")),
        VersionDecision::Given(None)
    );
    assert_eq!(
        resolve_bootstrap_version(&request(), true, &some("s")),
        VersionDecision::Pick("s".to_string())
    );
    assert_eq!(
        resolve_bootstrap_version(&request(), true, &None),
        VersionDecision::Given(None)
    );
}

#[test]
fn init_receives_the_request() {
    let cfg = BootstrapConfig {
        no_mirror: true,
        mirror: Some(path("/m")),
        match_pattern: some("p"),
        include_group: some("i"),
        exclude_group: some("e"),
        verbose: true,
        yes: true,
        cert_validation: some("strict"),
        ..request()
    };
    assert_eq!(
        run_workspace_init(&cfg, "t", &some("s"), &some("v"), &path("/w"), true, false),
        InitConfig {
            target: "t".to_string(),
            source: some("s"),
            version: some("v"),
            workspace: Some(path("/w")),
            no_mirror: true,
            mirror: Some(path("/m")),
            force: true,
            match_pattern: some("p"),
            include_group: some("i"),
            exclude_group: some("e"),
            verbose: true,
            install: true,
            full: false,
            no_sudo: false,
            symlink: false,
            yes: true,
            cert_validation: some("strict"),
        }
    );
}

// ---- phases ----

#[test]
fn first_undeclared_phase_is_named() {
    let known = strings(&["build", "flash"]);
    assert_eq!(validate_bootstrap_phases(&strings(&["flash", "build"]), &known, "t"), None);
    assert_eq!(validate_bootstrap_phases(&strings(&[]), &known, "t"), None);
    assert_eq!(
        validate_bootstrap_phases(&strings(&["build", "x", "y"]), &known, "t"),
        some(
            "Unknown bootstrap phase 'x': target 't' does not declare it (available: build, flash)"
        )
    );
    assert_eq!(
        validate_bootstrap_phases(&strings(&["x"]), &strings(&[]), "t"),
        some("Unknown bootstrap phase 'x': target 't' does not declare it (available: )")
    );
}

#[test]
fn phases_run_one_after_the_other() {
    let (run, said) = run_bootstrap_phases(strings(&["a", "b"]), 4, path("/w"));
    assert_eq!(
        said,
        vec![say(Level::Status, ""), say(Level::Status, "Running make sdk-a (-j4)...")]
    );
    assert_eq!(
        run.work,
        PhaseWork::Make {
            goal: "sdk-a".to_string(),
            jobs: "-j4".to_string(),
            dir: path("/w"),
        }
    );
    let (run, said) = run.step(PhaseEvent::Ended(Some(0)));
    assert_eq!(
        said,
        vec![
            say(Level::Success, "sdk-a completed"),
            say(Level::Status, ""),
            say(Level::Status, "Running make sdk-b (-j4)..."),
        ]
    );
    assert!(matches!(&run.work, PhaseWork::Make { goal, .. } if goal == "sdk-b"));
    let (run, said) = run.step(PhaseEvent::Ended(Some(0)));
    assert_eq!(said, vec![say(Level::Success, "sdk-b completed")]);
    assert_eq!(run.work, PhaseWork::Done);
}

#[test]
fn failed_phase_ends_the_run_with_its_exit_code() {
    let cases = [
        (PhaseEvent::Ended(Some(2)), 2, "sdk-a failed (exit code Some(2))"),
        (PhaseEvent::Ended(Some(-1)), -1, "sdk-a failed (exit code Some(-1))"),
        (PhaseEvent::Ended(None), 1, "sdk-a failed (exit code None)"),
        (
            PhaseEvent::NotStarted("no make".to_string()),
            1,
            "Failed to run make sdk-a: no make",
        ),
    ];
    for (event, code, text) in cases {
        let (run, _) = run_bootstrap_phases(strings(&["a", "b"]), 1, path("/w"));
        let (run, said) = run.step(event);
        assert_eq!(said, vec![say(Level::Error, text)]);
        assert_eq!(run.work, PhaseWork::Exit(code));
        let (run, said) = run.step(PhaseEvent::Ended(Some(0)));
        assert!(said.is_empty());
        assert_eq!(run.work, PhaseWork::Exit(code));
    }
    assert_eq!(code_text_of(Some(i32::MIN)), format!("{:?}", Some(i32::MIN)));
    assert_eq!(code_text_of(None), "None");
}

#[test]
fn no_phases_are_done_at_once() {
    let (run, said) = run_bootstrap_phases(vec![], 1, path("/w"));
    assert!(said.is_empty());
    assert_eq!(run.work, PhaseWork::Done);
}

// ---- the whole course ----

fn start(cfg: BootstrapConfig) -> Bootstrap {
    let b = handle_bootstrap_command(cfg, strings(&["build"]), 8);
    assert!(matches!(b.work, BootstrapWork::LoadUserConfig { .. }));
    b
}

fn next(b: Bootstrap, event: BootstrapEvent) -> Bootstrap {
    b.step(event).0
}

fn configured(cfg: BootstrapConfig, config: Option<UserConfig>) -> Bootstrap {
    let (b, said) = start(cfg).step(BootstrapEvent::UserConfig(LoadedConfig::Loaded(config)));
    assert!(said.is_empty());
    assert_eq!(b.work, BootstrapWork::CheckTerminal);
    b
}

fn given() -> BootstrapConfig {
    BootstrapConfig { target: some("board"), version: some("v2"), ..request() }
}

fn unattended(cfg: BootstrapConfig, config: Option<UserConfig>) -> Bootstrap {
    let with_user_config = config.is_some();
    let b = next(configured(cfg, config), BootstrapEvent::Terminal(false));
    assert_eq!(b.work, BootstrapWork::GatherSources { with_user_config });
    next(b, BootstrapEvent::Sources(strings(&["one", "two"])))
}

fn initialising(b: Bootstrap) -> (Bootstrap, InitConfig) {
    let b = next(b, BootstrapEvent::Workspace(path("/w")));
    let init = match &b.work {
        BootstrapWork::Init(config) => copy_of(config),
        other => panic!("not initialising: {:?}", other),
    };
    (b, init)
}

fn copy_of(c: &InitConfig) -> InitConfig {
    InitConfig {
        target: c.target.clone(),
        source: c.source.clone(),
        version: c.version.clone(),
        workspace: c.workspace.clone(),
        no_mirror: c.no_mirror,
        mirror: c.mirror.clone(),
        force: c.force,
        match_pattern: c.match_pattern.clone(),
        include_group: c.include_group.clone(),
        exclude_group: c.exclude_group.clone(),
        verbose: c.verbose,
        install: c.install,
        full: c.full,
        no_sudo: c.no_sudo,
        symlink: c.symlink,
        yes: c.yes,
        cert_validation: c.cert_validation.clone(),
    }
}

fn created(b: Bootstrap) -> Bootstrap {
    let (b, _) = initialising(b);
    let b = next(b, BootstrapEvent::Initialised);
    assert_eq!(b.work, BootstrapWork::CheckMakefile(path("/w/Makefile")));
    b
}

#[test]
fn unattended_bootstrap_takes_what_was_given() {
    let b = unattended(given(), None);
    assert_eq!(
        b.work,
        BootstrapWork::ResolveWorkspace {
            workspace: None,
            target: "board".to_string(),
            with_user_config: false,
        }
    );
    let (b, init) = initialising(b);
    assert_eq!(init.target, "board");
    assert_eq!(init.source, None);
    assert_eq!(init.version, some("v2"));
    assert_eq!(init.workspace, Some(path("/w")));
    assert!(!init.force && !init.symlink);

    let b = next(b, BootstrapEvent::Initialised);
    let (b, said) = b.step(BootstrapEvent::Exists(true));
    assert!(said.is_empty());
    assert_eq!(b.work, BootstrapWork::LoadSdkConfig(path("/w/sdk.yml")));
    let (b, said) = b.step(BootstrapEvent::Phases(strings(&["build", "flash"])));
    assert_eq!(
        said,
        vec![say(Level::Status, ""), say(Level::Status, "Running make sdk-build (-j8)...")]
    );
    let (b, said) = b.step(BootstrapEvent::Phase(PhaseEvent::Ended(Some(0))));
    assert_eq!(
        said,
        vec![
            say(Level::Success, "sdk-build completed"),
            say(Level::Status, ""),
            say(Level::Success, "Bootstrap completed for target 'board'"),
            say(Level::Status, "Workspace: /w"),
        ]
    );
    assert_eq!(b.work, BootstrapWork::Done);
    let (b, said) = b.step(BootstrapEvent::Failure("late".to_string()));
    assert!(said.is_empty());
    assert_eq!(b.work, BootstrapWork::Done);
}

#[test]
fn unattended_bootstrap_without_target_is_refused() {
    let b = next(configured(request(), None), BootstrapEvent::Terminal(false));
    let (b, said) = b.step(BootstrapEvent::Sources(strings(&["one"])));
    assert_eq!(said.len(), 2);
    assert_eq!(said[0].level, Level::Error);
    assert_eq!(b.work, BootstrapWork::Exit(1));
}

#[test]
fn explicit_source_needs_no_configured_ones() {
    let cfg = BootstrapConfig { source: some("mine"), ..given() };
    let b = next(configured(cfg, None), BootstrapEvent::Terminal(true));
    assert_eq!(b.sources, strings(&["mine"]));
    let (_, init) = initialising(b);
    assert_eq!(init.source, some("mine"));
}

#[test]
fn target_and_version_are_picked_from_menus() {
    let b = next(configured(request(), None), BootstrapEvent::Terminal(true));
    let (b, said) = b.step(BootstrapEvent::Sources(strings(&["one", "two", "three"])));
    assert_eq!(said, vec![plain("Available targets:"), plain("")]);
    assert_eq!(b.work, BootstrapWork::ListTargets("one".to_string()));
    let (b, said) = b.step(BootstrapEvent::Targets(strings(&["board"])));
    assert_eq!(said, vec![plain("  Source: one"), plain("    0) board")]);
    assert_eq!(b.work, BootstrapWork::ListTargets("two".to_string()));
    let (b, said) = b.step(BootstrapEvent::Failure("gone".to_string()));
    assert_eq!(said, vec![say(Level::Verbose, "  Skipping two (error: gone)")]);
    let (b, said) = b.step(BootstrapEvent::Targets(strings(&["board", "kit"])));
    assert_eq!(
        said,
        vec![
            plain("  Source: three"),
            plain("    1) board"),
            plain("    2) kit"),
            plain(""),
        ]
    );
    assert_eq!(
        b.work,
        BootstrapWork::PromptTarget("Please select a target [0-2] (default 0): ".to_string())
    );
    let (b, said) = b.step(BootstrapEvent::Line(some("1\n")));
    assert!(said.is_empty());
    assert_eq!(
        b.work,
        BootstrapWork::ListVersions { source: "three".to_string(), target: "board".to_string() }
    );
    let (b, said) = b.step(BootstrapEvent::Versions(strings(&["v1", "v2"])));
    assert_eq!(said.len(), 6);
    assert_eq!(
        b.work,
        BootstrapWork::PromptVersion("Please select a version [0-2] (default 0): ".to_string())
    );
    let (b, said) = b.step(BootstrapEvent::Line(some("2\n")));
    assert!(said.is_empty());
    let (_, init) = initialising(b);
    assert_eq!(init.target, "board");
    assert_eq!(init.source, some("three"));
    assert_eq!(init.version, some("v2"));
}

#[test]
fn bad_line_at_a_menu_selects_the_default() {
    let b = next(configured(request(), None), BootstrapEvent::Terminal(true));
    let b = next(b, BootstrapEvent::Sources(strings(&["one"])));
    let b = next(b, BootstrapEvent::Targets(strings(&["x", "y"])));
    let (b, said) = b.step(BootstrapEvent::Line(some("y\n")));
    assert_eq!(
        said,
        vec![say(Level::Status, "Invalid selection 'y', using default (0).")]
    );
    assert_eq!(b.target, "x");
    let b = next(b, BootstrapEvent::Versions(strings(&["v1"])));
    let (b, said) = b.step(BootstrapEvent::Line(None));
    assert!(said.is_empty());
    assert_eq!(b.version, None);
    assert!(matches!(b.work, BootstrapWork::ResolveWorkspace { .. }));
}

#[test]
fn bootstrap_without_any_target_ends() {
    let b = next(configured(request(), None), BootstrapEvent::Terminal(true));
    let b = next(b, BootstrapEvent::Sources(strings(&["one"])));
    let (b, said) = b.step(BootstrapEvent::Targets(vec![]));
    assert_eq!(
        said,
        vec![
            plain(""),
            say(Level::Error, "No targets found in any configured manifest source"),
        ]
    );
    assert_eq!(b.work, BootstrapWork::Exit(1));

    let b = next(configured(request(), None), BootstrapEvent::Terminal(true));
    let (b, said) = b.step(BootstrapEvent::Sources(vec![]));
    assert_eq!(said.len(), 4);
    assert_eq!(b.work, BootstrapWork::Exit(1));
}

#[test]
fn versions_that_cannot_be_listed_mean_the_default() {
    let cfg = BootstrapConfig { target: some("board"), source: some("one"), ..request() };
    let b = next(configured(cfg, None), BootstrapEvent::Terminal(true));
    let (b, said) = b.step(BootstrapEvent::Failure("gone".to_string()));
    assert_eq!(
        said,
        vec![say(Level::Verbose, "Could not list versions for 'board': gone")]
    );
    assert_eq!(b.version, None);
    assert!(matches!(b.work, BootstrapWork::ResolveWorkspace { .. }));

    let cfg = BootstrapConfig { target: some("board"), source: some("one"), ..request() };
    let b = next(configured(cfg, None), BootstrapEvent::Terminal(true));
    let (b, said) = b.step(BootstrapEvent::Versions(vec![]));
    assert!(said.is_empty());
    assert!(matches!(b.work, BootstrapWork::ResolveWorkspace { .. }));
}

#[test]
fn target_without_source_takes_the_default_version() {
    let cfg = BootstrapConfig { target: some("board"), ..request() };
    let b = next(configured(cfg, None), BootstrapEvent::Terminal(true));
    let b = next(b, BootstrapEvent::Sources(strings(&["one"])));
    assert!(matches!(b.work, BootstrapWork::ResolveWorkspace { .. }));
    assert_eq!(b.version, None);
}

#[test]
fn missing_makefile_fails_the_bootstrap() {
    let (b, said) = created(unattended(given(), None)).step(BootstrapEvent::Exists(false));
    assert_eq!(
        said,
        vec![say(
            Level::Error,
            "Bootstrap failed: workspace was not fully created (see errors above)"
        )]
    );
    assert_eq!(b.work, BootstrapWork::Exit(1));
}

#[test]
fn bootstrap_without_phases_is_ready() {
    let config = user(BootstrapSettings { phases: Some(vec![]), ..settings() });
    let (b, said) = created(unattended(given(), config)).step(BootstrapEvent::Exists(true));
    assert_eq!(
        said,
        vec![say(Level::Status, ""), say(Level::Success, "Workspace ready at /w")]
    );
    assert_eq!(b.work, BootstrapWork::Done);
}

#[test]
fn config_that_cannot_be_reloaded_fails_the_bootstrap() {
    let b = next(created(unattended(given(), None)), BootstrapEvent::Exists(true));
    let (b, said) = b.step(BootstrapEvent::Failure("bad yaml".to_string()));
    assert_eq!(
        said,
        vec![say(
            Level::Error,
            "Bootstrap failed: could not reload workspace config: bad yaml"
        )]
    );
    assert_eq!(b.work, BootstrapWork::Exit(1));
}

#[test]
fn undeclared_phase_fails_the_bootstrap_before_any_runs() {
    let config = user(BootstrapSettings { phases: Some(strings(&["build", "x"])), ..settings() });
    let b = next(created(unattended(given(), config)), BootstrapEvent::Exists(true));
    let (b, said) = b.step(BootstrapEvent::Phases(strings(&["build"])));
    assert_eq!(
        said,
        vec![say(
            Level::Error,
            "Unknown bootstrap phase 'x': target 'board' does not declare it (available: build)"
        )]
    );
    assert_eq!(b.work, BootstrapWork::Exit(1));
}

#[test]
fn failed_phase_gives_the_exit_code() {
    let config = user(BootstrapSettings {
        force: Some(true),
        symlink: Some(true),
        phases: Some(strings(&["a", "b"])),
        jobs: Some(2),
    });
    let b = unattended(given(), config);
    let (b, init) = initialising(b);
    assert!(init.force && init.symlink);
    let b = next(b, BootstrapEvent::Initialised);
    let b = next(b, BootstrapEvent::Exists(true));
    let b = next(b, BootstrapEvent::Phases(strings(&["a", "b"])));
    let (b, said) = b.step(BootstrapEvent::Phase(PhaseEvent::Ended(Some(0))));
    assert_eq!(said[2], say(Level::Status, "Running make sdk-b (-j2)..."));
    let (b, said) = b.step(BootstrapEvent::Phase(PhaseEvent::Ended(Some(77))));
    assert_eq!(said, vec![say(Level::Error, "sdk-b failed (exit code Some(77))")]);
    assert_eq!(b.work, BootstrapWork::Exit(77));
}

#[test]
fn warning_about_the_user_config_does_not_stop_the_bootstrap() {
    let cfg = BootstrapConfig { verbose: true, ..given() };
    let b = start(cfg);
    assert_eq!(b.work, BootstrapWork::LoadUserConfig { verbose: true });
    let (b, said) = b.step(BootstrapEvent::UserConfig(LoadedConfig::Failed("bad".to_string())));
    assert_eq!(said, vec![say(Level::Info, "Warning: Failed to load user config: bad")]);
    assert_eq!(b.work, BootstrapWork::CheckTerminal);
    let b = next(b, BootstrapEvent::Terminal(false));
    assert_eq!(b.work, BootstrapWork::GatherSources { with_user_config: false });
}

#[test]
fn loaded_user_config_is_gone_by() {
    let cfg = BootstrapConfig { workspace: Some(path("/own")), ..given() };
    let b = unattended(cfg, user(settings()));
    assert_eq!(
        b.work,
        BootstrapWork::ResolveWorkspace {
            workspace: Some(path("/own")),
            target: "board".to_string(),
            with_user_config: true,
        }
    );
}

#[test]
fn bootstrap_ignores_events_that_answer_nothing() {
    let (b, said) = start(given()).step(BootstrapEvent::Phase(PhaseEvent::Ended(Some(1))));
    assert!(said.is_empty());
    assert!(matches!(b.work, BootstrapWork::LoadUserConfig { .. }));
    let (b, said) = b.step(BootstrapEvent::Line(None));
    assert!(said.is_empty());
    assert!(matches!(b.work, BootstrapWork::LoadUserConfig { .. }));
}
