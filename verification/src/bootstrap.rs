//! `cim bootstrap`: choosing a target, initialising a workspace for it and
//! building it, in one go.
//!
//! [`Bootstrap`] decides what to do next; whoever drives it asks the user,
//! reads the sources, initialises the workspace and runs `make`, and reports
//! what happened.

use crate::bootstrap_config::{
    bootstrap_flags, bootstrap_jobs, bootstrap_phases, bootstrap_sources, copy_strings, force_of,
    init_config, jobs_of, load_bootstrap_user_config, no_target_messages, phases_of,
    resolve_bootstrap_target, resolve_bootstrap_version, run_workspace_init, sources_of,
    symlink_of, target_decision, usable_config, version_decision, BootstrapConfig,
    BootstrapConfigView, InitConfig, InitConfigView, LoadedConfig, LoadedConfigView,
    TargetDecision, TargetDecisionView, UserConfig, UserConfigView, VersionDecision,
    VersionDecisionView,
};
use crate::message::{
    fixed, message, one, says, silent, tell, tell_all, two, Level, Message, MessageView,
};
use crate::path::{joined, shown, FsPath};
use crate::phases::{
    phase_step, phases_error, run_bootstrap_phases, running, validate_bootstrap_phases, PhaseEvent,
    PhaseEventView, PhaseRun, PhaseRunView, PhaseWork, PhaseWorkView,
};
use crate::picker::{
    offer_messages, offer_targets, offered, pick_target, pick_version, prompt_of, prompt_text,
    selected, selected_version, selection_messages, version_menu, version_menu_of, TargetChoice,
    TargetChoiceView,
};
use vstd::prelude::*;
use vstd::string::*;
use vstd::utf8::encode_utf8;

verus! {

// ----------------------------------------------------------------------------
// Data
// ----------------------------------------------------------------------------

/// What a bootstrap waits for.
#[derive(Debug, PartialEq, Eq)]
pub enum BootstrapWork {
    /// Show remarks that are shown on request, or do not, and load the user's
    /// config.
    LoadUserConfig { verbose: bool },
    /// Find out whether somebody can be asked.
    CheckTerminal,
    /// Find the sources that the user's config names, as it was loaded, or
    /// those of a user without a config.
    GatherSources { with_user_config: bool },
    /// List the targets of this source.
    ListTargets(String),
    /// Ask for a target with this prompt.
    PromptTarget(String),
    /// List the versions that a source has of a target.
    ListVersions { source: String, target: String },
    /// Ask for a version with this prompt.
    PromptVersion(String),
    /// Find the path of the workspace: the one that was asked for, or the usual
    /// one for the target, by the user's config as it was loaded or for a user
    /// without a config.
    ResolveWorkspace { workspace: Option<FsPath>, target: String, with_user_config: bool },
    /// Initialise the workspace.
    Init(InitConfig),
    /// Find out whether this file exists.
    CheckMakefile(FsPath),
    /// Load the phases that this config file declares.
    LoadSdkConfig(FsPath),
    /// Run the phases.
    RunPhases(PhaseRun),
    /// Nothing.
    Done,
    /// Nothing: leave with this exit code.
    Exit(i32),
}

/// What came of the work.
#[derive(Debug, PartialEq, Eq)]
pub enum BootstrapEvent {
    /// The user's config.
    UserConfig(LoadedConfig),
    /// Whether somebody can be asked.
    Terminal(bool),
    /// The sources that the user's config names.
    Sources(Vec<String>),
    /// The targets of the source.
    Targets(Vec<String>),
    /// The line that was entered, if one could be read.
    Line(Option<String>),
    /// The versions of the target.
    Versions(Vec<String>),
    /// The path of the workspace.
    Workspace(FsPath),
    /// Initialising the workspace has ended, well or not.
    Initialised,
    /// Whether the file exists.
    Exists(bool),
    /// The phases that the config file declares.
    Phases(Vec<String>),
    /// What came of running a phase.
    Phase(PhaseEvent),
    /// Listing or loading failed, for the reason given.
    Failure(String),
}

/// What a [`BootstrapWork`] stands for.
pub enum BootstrapWorkView {
    LoadUserConfig { verbose: bool },
    CheckTerminal,
    GatherSources { with_user_config: bool },
    ListTargets(Seq<char>),
    PromptTarget(Seq<char>),
    ListVersions { source: Seq<char>, target: Seq<char> },
    PromptVersion(Seq<char>),
    ResolveWorkspace { workspace: Option<Seq<u8>>, target: Seq<char>, with_user_config: bool },
    Init(InitConfigView),
    CheckMakefile(Seq<u8>),
    LoadSdkConfig(Seq<u8>),
    RunPhases(PhaseRunView),
    Done,
    Exit(int),
}

/// What a [`BootstrapEvent`] stands for.
pub enum BootstrapEventView {
    UserConfig(LoadedConfigView),
    Terminal(bool),
    Sources(Seq<Seq<char>>),
    Targets(Seq<Seq<char>>),
    Line(Option<Seq<char>>),
    Versions(Seq<Seq<char>>),
    Workspace(Seq<u8>),
    Initialised,
    Exists(bool),
    Phases(Seq<Seq<char>>),
    Phase(PhaseEventView),
    Failure(Seq<char>),
}

impl DeepView for BootstrapWork {
    type V = BootstrapWorkView;

    open spec fn deep_view(&self) -> BootstrapWorkView {
        match self {
            BootstrapWork::LoadUserConfig { verbose } => BootstrapWorkView::LoadUserConfig {
                verbose: *verbose,
            },
            BootstrapWork::CheckTerminal => BootstrapWorkView::CheckTerminal,
            BootstrapWork::GatherSources { with_user_config } =>
                BootstrapWorkView::GatherSources { with_user_config: *with_user_config },
            BootstrapWork::ListTargets(source) => BootstrapWorkView::ListTargets(source@),
            BootstrapWork::PromptTarget(prompt) => BootstrapWorkView::PromptTarget(prompt@),
            BootstrapWork::ListVersions { source, target } => BootstrapWorkView::ListVersions {
                source: source@,
                target: target@,
            },
            BootstrapWork::PromptVersion(prompt) => BootstrapWorkView::PromptVersion(prompt@),
            BootstrapWork::ResolveWorkspace { workspace, target, with_user_config } =>
                BootstrapWorkView::ResolveWorkspace {
                workspace: workspace.deep_view(),
                target: target@,
                with_user_config: *with_user_config,
            },
            BootstrapWork::Init(config) => BootstrapWorkView::Init(config.deep_view()),
            BootstrapWork::CheckMakefile(path) => BootstrapWorkView::CheckMakefile(path@),
            BootstrapWork::LoadSdkConfig(path) => BootstrapWorkView::LoadSdkConfig(path@),
            BootstrapWork::RunPhases(run) => BootstrapWorkView::RunPhases(run.deep_view()),
            BootstrapWork::Done => BootstrapWorkView::Done,
            BootstrapWork::Exit(code) => BootstrapWorkView::Exit(*code as int),
        }
    }
}

impl DeepView for BootstrapEvent {
    type V = BootstrapEventView;

    open spec fn deep_view(&self) -> BootstrapEventView {
        match self {
            BootstrapEvent::UserConfig(loaded) => BootstrapEventView::UserConfig(
                loaded.deep_view(),
            ),
            BootstrapEvent::Terminal(interactive) => BootstrapEventView::Terminal(*interactive),
            BootstrapEvent::Sources(sources) => BootstrapEventView::Sources(sources.deep_view()),
            BootstrapEvent::Targets(targets) => BootstrapEventView::Targets(targets.deep_view()),
            BootstrapEvent::Line(line) => BootstrapEventView::Line(line.deep_view()),
            BootstrapEvent::Versions(versions) => BootstrapEventView::Versions(
                versions.deep_view(),
            ),
            BootstrapEvent::Workspace(path) => BootstrapEventView::Workspace(path@),
            BootstrapEvent::Initialised => BootstrapEventView::Initialised,
            BootstrapEvent::Exists(exists) => BootstrapEventView::Exists(*exists),
            BootstrapEvent::Phases(phases) => BootstrapEventView::Phases(phases.deep_view()),
            BootstrapEvent::Phase(event) => BootstrapEventView::Phase(event.deep_view()),
            BootstrapEvent::Failure(why) => BootstrapEventView::Failure(why@),
        }
    }
}

/// A bootstrap. What is not known yet is empty.
#[derive(Debug, PartialEq, Eq)]
pub struct Bootstrap {
    pub cfg: BootstrapConfig,
    /// The phases to run where the user has set none.
    pub default_phases: Vec<String>,
    /// The number of jobs where the user has set none.
    pub default_jobs: usize,
    pub user_config: Option<UserConfig>,
    /// Whether somebody can be asked.
    pub interactive: bool,
    pub sources: Vec<String>,
    /// How many of the sources have been listed.
    pub next_source: usize,
    /// The menu of targets.
    pub choices: Vec<TargetChoice>,
    pub target: String,
    /// The source of the target, if it is known.
    pub source: Option<String>,
    /// The menu of versions.
    pub versions: Vec<String>,
    pub version: Option<String>,
    pub workspace_path: FsPath,
    pub work: BootstrapWork,
}

/// What a [`Bootstrap`] stands for.
pub struct BootstrapView {
    pub cfg: BootstrapConfigView,
    pub default_phases: Seq<Seq<char>>,
    pub default_jobs: nat,
    pub user_config: Option<UserConfigView>,
    pub interactive: bool,
    pub sources: Seq<Seq<char>>,
    pub next_source: nat,
    pub choices: Seq<TargetChoiceView>,
    pub target: Seq<char>,
    pub source: Option<Seq<char>>,
    pub versions: Seq<Seq<char>>,
    pub version: Option<Seq<char>>,
    pub workspace_path: Seq<u8>,
    pub work: BootstrapWorkView,
}

impl DeepView for Bootstrap {
    type V = BootstrapView;

    open spec fn deep_view(&self) -> BootstrapView {
        BootstrapView {
            cfg: self.cfg.deep_view(),
            default_phases: self.default_phases.deep_view(),
            default_jobs: self.default_jobs as nat,
            user_config: self.user_config.deep_view(),
            interactive: self.interactive,
            sources: self.sources.deep_view(),
            next_source: self.next_source as nat,
            choices: self.choices.deep_view(),
            target: self.target@,
            source: self.source.deep_view(),
            versions: self.versions.deep_view(),
            version: self.version.deep_view(),
            workspace_path: self.workspace_path@,
            work: self.work.deep_view(),
        }
    }
}

// ----------------------------------------------------------------------------
// What a bootstrap does
// ----------------------------------------------------------------------------

/// The first state of a bootstrap.
pub open spec fn bootstrapping(
    cfg: BootstrapConfigView,
    default_phases: Seq<Seq<char>>,
    default_jobs: nat,
) -> BootstrapView {
    BootstrapView {
        cfg,
        default_phases,
        default_jobs,
        user_config: None,
        interactive: false,
        sources: seq![],
        next_source: 0,
        choices: seq![],
        target: seq![],
        source: None,
        versions: seq![],
        version: None,
        workspace_path: seq![],
        work: BootstrapWorkView::LoadUserConfig { verbose: cfg.verbose },
    }
}

impl BootstrapView {
    /// The state that waits for `work`.
    pub open spec fn doing(self, work: BootstrapWorkView) -> BootstrapView {
        BootstrapView { work, ..self }
    }

    /// The end of the bootstrap with exit code 1, because of an error.
    pub open spec fn fails(self, text: Seq<char>) -> (BootstrapView, Seq<MessageView>) {
        (self.doing(BootstrapWorkView::Exit(1)), seq![says(Level::Error, text)])
    }

    /// The state once the user's config was loaded, or could not be.
    pub open spec fn configured(self, loaded: LoadedConfigView) -> (
        BootstrapView,
        Seq<MessageView>,
    ) {
        let (user_config, said) = usable_config(loaded);
        (BootstrapView { user_config, work: BootstrapWorkView::CheckTerminal, ..self }, said)
    }

    /// The state once it is known whether somebody can be asked. The sources of
    /// the user's config matter only where none was asked for.
    pub open spec fn attended(self, interactive: bool) -> (BootstrapView, Seq<MessageView>) {
        let b = BootstrapView { interactive, ..self };
        match self.cfg.source {
            Some(_) => b.sourced(seq![]),
            None => (
                b.doing(
                    BootstrapWorkView::GatherSources {
                        with_user_config: self.user_config is Some,
                    },
                ),
                seq![],
            ),
        }
    }

    /// The state once the sources of the user's config are known.
    pub open spec fn sourced(self, configured: Seq<Seq<char>>) -> (
        BootstrapView,
        Seq<MessageView>,
    ) {
        let b = BootstrapView { sources: sources_of(self.cfg, configured), ..self };
        match target_decision(self.cfg, self.interactive) {
            TargetDecisionView::Given { target, source } => b.targeted(target, source),
            TargetDecisionView::Pick => {
                let (next, said) = b.listed(0);
                (
                    next,
                    seq![says(Level::Plain, "Available targets:"@), says(Level::Plain, ""@)] + said,
                )
            },
            TargetDecisionView::Refuse(said) => (b.doing(BootstrapWorkView::Exit(1)), said),
        }
    }

    /// The state once the targets of the first `n` sources are in the menu.
    pub open spec fn listed(self, n: nat) -> (BootstrapView, Seq<MessageView>) {
        let b = BootstrapView { next_source: n, ..self };
        if n < self.sources.len() {
            (b.doing(BootstrapWorkView::ListTargets(self.sources[n as int])), seq![])
        } else if self.choices.len() == 0 {
            (
                b.doing(BootstrapWorkView::Exit(1)),
                seq![
                    says(Level::Plain, ""@),
                    says(Level::Error, "No targets found in any configured manifest source"@),
                ],
            )
        } else {
            (
                b.doing(
                    BootstrapWorkView::PromptTarget(
                        prompt_text("target"@, (self.choices.len() - 1) as nat),
                    ),
                ),
                seq![says(Level::Plain, ""@)],
            )
        }
    }

    /// The state once the targets of the next source are known.
    pub open spec fn target_list(self, targets: Seq<Seq<char>>) -> (
        BootstrapView,
        Seq<MessageView>,
    ) {
        let source = self.sources[self.next_source as int];
        let b = BootstrapView { choices: self.choices + offered(source, targets), ..self };
        let (next, said) = b.listed(self.next_source + 1);
        (next, offer_messages(self.choices.len(), source, targets) + said)
    }

    /// The state once the targets of the next source could not be listed: the
    /// source is passed over.
    pub open spec fn no_target_list(self, why: Seq<char>) -> (BootstrapView, Seq<MessageView>) {
        let (next, said) = self.listed(self.next_source + 1);
        (
            next,
            seq![
                says(
                    Level::Verbose,
                    "  Skipping "@ + self.sources[self.next_source as int] + " (error: "@ + why
                        + ")"@,
                ),
            ] + said,
        )
    }

    /// The state once a line was entered at the menu of targets.
    pub open spec fn target_picked(self, line: Option<Seq<char>>) -> (
        BootstrapView,
        Seq<MessageView>,
    ) {
        let max = (self.choices.len() - 1) as nat;
        let choice = self.choices[selected(line, max) as int];
        let (next, said) = BootstrapView { choices: seq![], ..self }.targeted(
            choice.target,
            Some(choice.source),
        );
        (next, selection_messages(line) + said)
    }

    /// The state once the target is known, and its source if it is.
    pub open spec fn targeted(self, target: Seq<char>, source: Option<Seq<char>>) -> (
        BootstrapView,
        Seq<MessageView>,
    ) {
        let b = BootstrapView { target, source, ..self };
        match version_decision(self.cfg, self.interactive, source) {
            VersionDecisionView::Given(version) => (b.versioned(version), seq![]),
            VersionDecisionView::Pick(source) => (
                b.doing(BootstrapWorkView::ListVersions { source, target }),
                seq![],
            ),
        }
    }

    /// The state once the versions of the target are known. Where there are
    /// none, it is the default one.
    pub open spec fn version_list(self, versions: Seq<Seq<char>>) -> (
        BootstrapView,
        Seq<MessageView>,
    ) {
        if versions.len() == 0 {
            (self.versioned(None), seq![])
        } else {
            (
                BootstrapView {
                    versions,
                    work: BootstrapWorkView::PromptVersion(
                        prompt_text("version"@, versions.len()),
                    ),
                    ..self
                },
                version_menu(versions),
            )
        }
    }

    /// The state once the versions of the target could not be listed: it is the
    /// default one.
    pub open spec fn no_version_list(self, why: Seq<char>) -> (BootstrapView, Seq<MessageView>) {
        (
            self.versioned(None),
            seq![
                says(
                    Level::Verbose,
                    "Could not list versions for '"@ + self.target + "': "@ + why,
                ),
            ],
        )
    }

    /// The state once a line was entered at the menu of versions.
    pub open spec fn version_picked(self, line: Option<Seq<char>>) -> (
        BootstrapView,
        Seq<MessageView>,
    ) {
        (
            self.versioned(selected_version(self.versions, line)),
            selection_messages(line),
        )
    }

    /// The state once the version is known.
    pub open spec fn versioned(self, version: Option<Seq<char>>) -> BootstrapView {
        BootstrapView {
            version,
            work: BootstrapWorkView::ResolveWorkspace {
                workspace: self.cfg.workspace,
                target: self.target,
                with_user_config: self.user_config is Some,
            },
            ..self
        }
    }

    /// What initialising the workspace is asked to do.
    pub open spec fn init(self) -> InitConfigView {
        init_config(
            self.cfg,
            self.target,
            self.source,
            self.version,
            self.workspace_path,
            force_of(self.user_config),
            symlink_of(self.user_config),
        )
    }

    /// The phases to run.
    pub open spec fn phases(self) -> Seq<Seq<char>> {
        phases_of(self.user_config, self.default_phases)
    }

    /// The state once the path of the workspace is known.
    pub open spec fn resolved(self, path: Seq<u8>) -> BootstrapView {
        let b = BootstrapView { workspace_path: path, ..self };
        b.doing(BootstrapWorkView::Init(b.init()))
    }

    /// The state once the workspace was initialised, which its makefile shows.
    pub open spec fn initialised(self, makefile: bool) -> (BootstrapView, Seq<MessageView>) {
        if !makefile {
            self.fails("Bootstrap failed: workspace was not fully created (see errors above)"@)
        } else if self.phases().len() == 0 {
            (
                self.doing(BootstrapWorkView::Done),
                seq![
                    says(Level::Status, ""@),
                    says(Level::Success, "Workspace ready at "@ + shown(self.workspace_path)),
                ],
            )
        } else {
            (
                self.doing(
                    BootstrapWorkView::LoadSdkConfig(
                        joined(self.workspace_path, encode_utf8("sdk.yml"@)),
                    ),
                ),
                seq![],
            )
        }
    }

    /// The state once the phases that the target declares are known.
    pub open spec fn declared(self, known: Seq<Seq<char>>) -> (BootstrapView, Seq<MessageView>) {
        match phases_error(self.phases(), known, self.target) {
            Some(text) => self.fails(text),
            None => {
                let (run, said) = running(
                    self.phases(),
                    jobs_of(self.user_config, self.default_jobs),
                    self.workspace_path,
                );
                self.ran(run, said)
            },
        }
    }

    /// The state once the phases are as far as `run`, where `said` was said.
    pub open spec fn ran(self, run: PhaseRunView, said: Seq<MessageView>) -> (
        BootstrapView,
        Seq<MessageView>,
    ) {
        match run.work {
            PhaseWorkView::Make { .. } => (self.doing(BootstrapWorkView::RunPhases(run)), said),
            PhaseWorkView::Exit(code) => (self.doing(BootstrapWorkView::Exit(code)), said),
            PhaseWorkView::Done => (
                self.doing(BootstrapWorkView::Done),
                said + seq![
                    says(Level::Status, ""@),
                    says(
                        Level::Success,
                        "Bootstrap completed for target '"@ + self.target + "'"@,
                    ),
                    says(Level::Status, "Workspace: "@ + shown(self.workspace_path)),
                ],
            ),
        }
    }

    /// What always holds: a target is asked for only from a menu that has one,
    /// and only sources that exist are listed.
    pub open spec fn wf(self) -> bool {
        match self.work {
            BootstrapWorkView::ListTargets(source) => self.next_source < self.sources.len()
                && source == self.sources[self.next_source as int],
            BootstrapWorkView::PromptTarget(_) => self.choices.len() > 0,
            BootstrapWorkView::RunPhases(run) => run.wf() && run.work is Make,
            _ => true,
        }
    }
}

/// The state after the event `e`, and what is said. An event that does not
/// answer the work that is waited for changes nothing.
pub open spec fn bootstrap_step(b: BootstrapView, e: BootstrapEventView) -> (
    BootstrapView,
    Seq<MessageView>,
) {
    match (b.work, e) {
        (BootstrapWorkView::LoadUserConfig { .. }, BootstrapEventView::UserConfig(loaded)) =>
            b.configured(loaded),
        (BootstrapWorkView::CheckTerminal, BootstrapEventView::Terminal(interactive)) =>
            b.attended(interactive),
        (BootstrapWorkView::GatherSources { .. }, BootstrapEventView::Sources(configured)) =>
            b.sourced(configured),
        (BootstrapWorkView::ListTargets(_), BootstrapEventView::Targets(targets)) =>
            b.target_list(targets),
        (BootstrapWorkView::ListTargets(_), BootstrapEventView::Failure(why)) =>
            b.no_target_list(why),
        (BootstrapWorkView::PromptTarget(_), BootstrapEventView::Line(line)) => b.target_picked(
            line,
        ),
        (BootstrapWorkView::ListVersions { .. }, BootstrapEventView::Versions(versions)) =>
            b.version_list(versions),
        (BootstrapWorkView::ListVersions { .. }, BootstrapEventView::Failure(why)) =>
            b.no_version_list(why),
        (BootstrapWorkView::PromptVersion(_), BootstrapEventView::Line(line)) =>
            b.version_picked(line),
        (BootstrapWorkView::ResolveWorkspace { .. }, BootstrapEventView::Workspace(path)) => (
            b.resolved(path),
            seq![],
        ),
        (BootstrapWorkView::Init(_), BootstrapEventView::Initialised) => (
            b.doing(
                BootstrapWorkView::CheckMakefile(
                    joined(b.workspace_path, encode_utf8("Makefile"@)),
                ),
            ),
            seq![],
        ),
        (BootstrapWorkView::CheckMakefile(_), BootstrapEventView::Exists(exists)) =>
            b.initialised(exists),
        (BootstrapWorkView::LoadSdkConfig(_), BootstrapEventView::Phases(known)) => b.declared(
            known,
        ),
        (BootstrapWorkView::LoadSdkConfig(_), BootstrapEventView::Failure(why)) => b.fails(
            "Bootstrap failed: could not reload workspace config: "@ + why,
        ),
        (BootstrapWorkView::RunPhases(run), BootstrapEventView::Phase(event)) => {
            let (next, said) = phase_step(run, event);
            b.ran(next, said)
        },
        _ => (b, seq![]),
    }
}

/// The state after all of `events`, in order.
pub open spec fn bootstrap_run(b: BootstrapView, events: Seq<BootstrapEventView>) -> BootstrapView
    decreases events.len(),
{
    if events.len() == 0 {
        b
    } else {
        bootstrap_step(bootstrap_run(b, events.drop_last()), events.last()).0
    }
}

// ----------------------------------------------------------------------------
// The bootstrap
// ----------------------------------------------------------------------------

/// Starts a bootstrap. What was asked for explicitly is taken as it is; what
/// was not is asked for where somebody can be asked.
pub fn handle_bootstrap_command(
    cfg: BootstrapConfig,
    default_phases: Vec<String>,
    default_jobs: usize,
) -> (out: Bootstrap)
    ensures
        out.deep_view() == bootstrapping(
            cfg.deep_view(),
            default_phases.deep_view(),
            default_jobs as nat,
        ),
        out.deep_view().wf(),
{
    let verbose = cfg.verbose;
    let out = Bootstrap {
        cfg,
        default_phases,
        default_jobs,
        user_config: None,
        interactive: false,
        sources: Vec::new(),
        next_source: 0,
        choices: Vec::new(),
        target: String::new(),
        source: None,
        versions: Vec::new(),
        version: None,
        workspace_path: FsPath { bytes: Vec::new() },
        work: BootstrapWork::LoadUserConfig { verbose },
    };
    assert(out.sources.deep_view() =~= seq![]);
    assert(out.choices.deep_view() =~= seq![]);
    assert(out.versions.deep_view() =~= seq![]);
    out
}

impl Bootstrap {
    /// Ends the bootstrap with exit code 1, because of an error.
    fn fails(self, text: String) -> (out: (Bootstrap, Vec<Message>))
        ensures
            (out.0.deep_view(), out.1.deep_view()) == self.deep_view().fails(text@),
    {
        (Bootstrap { work: BootstrapWork::Exit(1), ..self }, one(message(Level::Error, text)))
    }

    /// Goes on with `work` and says nothing.
    fn goes_on(self, work: BootstrapWork) -> (out: (Bootstrap, Vec<Message>))
        ensures
            out.0.deep_view() == self.deep_view().doing(work.deep_view()),
            out.1.deep_view() == Seq::<MessageView>::empty(),
    {
        (Bootstrap { work, ..self }, silent())
    }

    /// Goes on once the user's config was loaded, or could not be.
    fn configured(self, loaded: LoadedConfig) -> (out: (Bootstrap, Vec<Message>))
        ensures
            (out.0.deep_view(), out.1.deep_view()) == self.deep_view().configured(
                loaded.deep_view(),
            ),
    {
        let (user_config, said) = load_bootstrap_user_config(loaded);
        (Bootstrap { user_config, work: BootstrapWork::CheckTerminal, ..self }, said)
    }

    /// Goes on once it is known whether somebody can be asked.
    fn attended(self, interactive: bool) -> (out: (Bootstrap, Vec<Message>))
        ensures
            (out.0.deep_view(), out.1.deep_view()) == self.deep_view().attended(interactive),
            out.0.deep_view().wf(),
    {
        let b = Bootstrap { interactive, ..self };
        if b.cfg.source.is_some() {
            let none: Vec<String> = Vec::new();
            assert(none.deep_view() =~= seq![]);
            b.sourced(none)
        } else {
            let with_user_config = b.user_config.is_some();
            b.goes_on(BootstrapWork::GatherSources { with_user_config })
        }
    }

    /// Goes on once the sources of the user's config are known.
    fn sourced(self, configured: Vec<String>) -> (out: (Bootstrap, Vec<Message>))
        ensures
            (out.0.deep_view(), out.1.deep_view()) == self.deep_view().sourced(
                configured.deep_view(),
            ),
            out.0.deep_view().wf(),
    {
        let sources = bootstrap_sources(&self.cfg, configured);
        let decision = resolve_bootstrap_target(&self.cfg, self.interactive);
        let b = Bootstrap { sources, ..self };
        match decision {
            TargetDecision::Given { target, source } => b.targeted(target, source),
            TargetDecision::Pick => {
                let mut said = two(
                    fixed(Level::Plain, "Available targets:"),
                    fixed(Level::Plain, ""),
                );
                let (next, more) = b.listed(0);
                tell_all(&mut said, more);
                (next, said)
            },
            TargetDecision::Refuse(said) => (
                Bootstrap { work: BootstrapWork::Exit(1), ..b },
                said,
            ),
        }
    }

    /// Goes on once the targets of the first `n` sources are in the menu.
    fn listed(self, n: usize) -> (out: (Bootstrap, Vec<Message>))
        ensures
            (out.0.deep_view(), out.1.deep_view()) == self.deep_view().listed(n as nat),
            out.0.deep_view().wf(),
    {
        assert(self.sources.deep_view().len() == self.sources.len());
        assert(self.choices.deep_view().len() == self.choices.len());
        let b = Bootstrap { next_source: n, ..self };
        if n < b.sources.len() {
            assert(b.sources.deep_view()[n as int] == b.sources[n as int]@);
            let source = b.sources[n].clone();
            b.goes_on(BootstrapWork::ListTargets(source))
        } else if b.choices.len() == 0 {
            (
                Bootstrap { work: BootstrapWork::Exit(1), ..b },
                two(
                    fixed(Level::Plain, ""),
                    fixed(Level::Error, "No targets found in any configured manifest source"),
                ),
            )
        } else {
            let work = BootstrapWork::PromptTarget(prompt_of("target", b.choices.len() - 1));
            (Bootstrap { work, ..b }, one(fixed(Level::Plain, "")))
        }
    }

    /// Goes on once the targets of the next source are known.
    fn target_list(self, targets: Vec<String>) -> (out: (Bootstrap, Vec<Message>))
        requires
            self.next_source < self.sources.len(),
        ensures
            (out.0.deep_view(), out.1.deep_view()) == self.deep_view().target_list(
                targets.deep_view(),
            ),
            out.0.deep_view().wf(),
    {
        let mut b = self;
        let n = b.next_source;
        assert(b.choices.deep_view().len() == b.choices.len());
        assert(b.sources.deep_view()[n as int] == b.sources[n as int]@);
        let source = b.sources[n].clone();
        let mut said = offer_targets(&mut b.choices, source.as_str(), &targets);
        let (next, more) = b.listed(n + 1);
        tell_all(&mut said, more);
        (next, said)
    }

    /// Goes on once the targets of the next source could not be listed.
    fn no_target_list(self, why: String) -> (out: (Bootstrap, Vec<Message>))
        requires
            self.next_source < self.sources.len(),
        ensures
            (out.0.deep_view(), out.1.deep_view()) == self.deep_view().no_target_list(why@),
            out.0.deep_view().wf(),
    {
        let n = self.next_source;
        assert(self.sources.deep_view()[n as int] == self.sources[n as int]@);
        let text = "  Skipping ".to_owned().concat(self.sources[n].as_str()).concat(
            " (error: ",
        ).concat(why.as_str()).concat(")");
        let mut said = one(message(Level::Verbose, text));
        let (next, more) = self.listed(n + 1);
        tell_all(&mut said, more);
        (next, said)
    }

    /// Goes on once a line was entered at the menu of targets.
    fn target_picked(self, line: Option<String>) -> (out: (Bootstrap, Vec<Message>))
        requires
            self.choices.len() > 0,
        ensures
            (out.0.deep_view(), out.1.deep_view()) == self.deep_view().target_picked(
                line.deep_view(),
            ),
            out.0.deep_view().wf(),
    {
        assert(self.choices.deep_view().len() == self.choices.len());
        let (choice, mut said) = pick_target(self.choices, &line);
        let none: Vec<TargetChoice> = Vec::new();
        assert(none.deep_view() =~= seq![]);
        let b = Bootstrap { choices: none, ..self };
        let (next, more) = b.targeted(choice.target, Some(choice.source));
        tell_all(&mut said, more);
        (next, said)
    }

    /// Goes on once the target is known, and its source if it is.
    fn targeted(self, target: String, source: Option<String>) -> (out: (Bootstrap, Vec<Message>))
        ensures
            (out.0.deep_view(), out.1.deep_view()) == self.deep_view().targeted(
                target@,
                source.deep_view(),
            ),
            out.0.deep_view().wf(),
    {
        let decision = resolve_bootstrap_version(&self.cfg, self.interactive, &source);
        match decision {
            VersionDecision::Given(version) => (
                Bootstrap { target, source, ..self }.versioned(version),
                silent(),
            ),
            VersionDecision::Pick(from) => {
                let work = BootstrapWork::ListVersions { source: from, target: target.clone() };
                (Bootstrap { target, source, work, ..self }, silent())
            },
        }
    }

    /// Goes on once the versions of the target are known.
    fn version_list(self, versions: Vec<String>) -> (out: (Bootstrap, Vec<Message>))
        ensures
            (out.0.deep_view(), out.1.deep_view()) == self.deep_view().version_list(
                versions.deep_view(),
            ),
            out.0.deep_view().wf(),
    {
        assert(versions.deep_view().len() == versions.len());
        if versions.len() == 0 {
            (self.versioned(None), silent())
        } else {
            let said = version_menu_of(&versions);
            let work = BootstrapWork::PromptVersion(prompt_of("version", versions.len()));
            (Bootstrap { versions, work, ..self }, said)
        }
    }

    /// Goes on once the versions of the target could not be listed.
    fn no_version_list(self, why: String) -> (out: (Bootstrap, Vec<Message>))
        ensures
            (out.0.deep_view(), out.1.deep_view()) == self.deep_view().no_version_list(why@),
            out.0.deep_view().wf(),
    {
        let text = "Could not list versions for '".to_owned().concat(self.target.as_str()).concat(
            "': ",
        ).concat(why.as_str());
        (self.versioned(None), one(message(Level::Verbose, text)))
    }

    /// Goes on once a line was entered at the menu of versions.
    fn version_picked(self, line: Option<String>) -> (out: (Bootstrap, Vec<Message>))
        ensures
            (out.0.deep_view(), out.1.deep_view()) == self.deep_view().version_picked(
                line.deep_view(),
            ),
            out.0.deep_view().wf(),
    {
        let (version, said) = pick_version(&self.versions, &line);
        (self.versioned(version), said)
    }

    /// Goes on once the version is known.
    fn versioned(self, version: Option<String>) -> (out: Bootstrap)
        ensures
            out.deep_view() == self.deep_view().versioned(version.deep_view()),
            out.deep_view().wf(),
    {
        let work = BootstrapWork::ResolveWorkspace {
            workspace: self.cfg.workspace.clone(),
            target: self.target.clone(),
            with_user_config: self.user_config.is_some(),
        };
        Bootstrap { version, work, ..self }
    }

    /// Goes on once the path of the workspace is known.
    fn resolved(self, path: FsPath) -> (out: Bootstrap)
        ensures
            out.deep_view() == self.deep_view().resolved(path@),
            out.deep_view().wf(),
    {
        let (force, symlink) = bootstrap_flags(&self.user_config);
        let config = run_workspace_init(
            &self.cfg,
            self.target.as_str(),
            &self.source,
            &self.version,
            &path,
            force,
            symlink,
        );
        Bootstrap { workspace_path: path, work: BootstrapWork::Init(config), ..self }
    }

    /// The phases to run.
    fn phases(&self) -> (out: Vec<String>)
        ensures
            out.deep_view() == self.deep_view().phases(),
    {
        bootstrap_phases(&self.user_config, copy_strings(&self.default_phases))
    }

    /// Goes on once the workspace was initialised.
    fn initialised(self, makefile: bool) -> (out: (Bootstrap, Vec<Message>))
        ensures
            (out.0.deep_view(), out.1.deep_view()) == self.deep_view().initialised(makefile),
            out.0.deep_view().wf(),
    {
        if !makefile {
            return self.fails(
                "Bootstrap failed: workspace was not fully created (see errors above)".to_owned(),
            );
        }
        let phases = self.phases();
        assert(phases.deep_view().len() == phases.len());
        if phases.len() == 0 {
            let text = "Workspace ready at ".to_owned().concat(
                self.workspace_path.display().as_str(),
            );
            (
                Bootstrap { work: BootstrapWork::Done, ..self },
                two(fixed(Level::Status, ""), message(Level::Success, text)),
            )
        } else {
            let path = self.workspace_path.join("sdk.yml".as_bytes());
            self.goes_on(BootstrapWork::LoadSdkConfig(path))
        }
    }

    /// Goes on once the phases that the target declares are known.
    fn declared(self, known: Vec<String>) -> (out: (Bootstrap, Vec<Message>))
        ensures
            (out.0.deep_view(), out.1.deep_view()) == self.deep_view().declared(
                known.deep_view(),
            ),
            out.0.deep_view().wf(),
    {
        let phases = self.phases();
        match validate_bootstrap_phases(&phases, &known, self.target.as_str()) {
            Some(text) => self.fails(text),
            None => {
                let jobs = bootstrap_jobs(&self.user_config, self.default_jobs);
                let (run, said) = run_bootstrap_phases(phases, jobs, self.workspace_path.clone());
                self.ran(run, said)
            },
        }
    }

    /// Goes on once the phases are as far as `run`, where `said` was said.
    fn ran(self, run: PhaseRun, said: Vec<Message>) -> (out: (Bootstrap, Vec<Message>))
        requires
            run.deep_view().wf(),
        ensures
            (out.0.deep_view(), out.1.deep_view()) == self.deep_view().ran(
                run.deep_view(),
                said.deep_view(),
            ),
            out.0.deep_view().wf(),
    {
        match &run.work {
            PhaseWork::Make { .. } => (
                Bootstrap { work: BootstrapWork::RunPhases(run), ..self },
                said,
            ),
            PhaseWork::Exit(code) => (
                Bootstrap { work: BootstrapWork::Exit(*code), ..self },
                said,
            ),
            PhaseWork::Done => {
                let completed = "Bootstrap completed for target '".to_owned().concat(
                    self.target.as_str(),
                ).concat("'");
                let place = "Workspace: ".to_owned().concat(
                    self.workspace_path.display().as_str(),
                );
                let ghost before = said.deep_view();
                let mut said = said;
                tell(&mut said, fixed(Level::Status, ""));
                tell(&mut said, message(Level::Success, completed));
                tell(&mut said, message(Level::Status, place));
                assert(said.deep_view() =~= self.deep_view().ran(run.deep_view(), before).1);
                (Bootstrap { work: BootstrapWork::Done, ..self }, said)
            },
        }
    }

    /// Takes note of what came of running a phase.
    fn phase_ended(self, event: PhaseEvent) -> (out: (Bootstrap, Vec<Message>))
        requires
            self.deep_view().wf(),
        ensures
            (out.0.deep_view(), out.1.deep_view()) == bootstrap_step(
                self.deep_view(),
                BootstrapEventView::Phase(event.deep_view()),
            ),
            out.0.deep_view().wf(),
    {
        match self.work {
            BootstrapWork::RunPhases(run) => {
                let (next, said) = run.step(event);
                let b = Bootstrap { work: BootstrapWork::Done, ..self };
                b.ran(next, said)
            },
            work => (Bootstrap { work, ..self }, silent()),
        }
    }

    /// Takes note of `event` and decides what to do next.
    pub fn step(self, event: BootstrapEvent) -> (out: (Bootstrap, Vec<Message>))
        requires
            self.deep_view().wf(),
        ensures
            (out.0.deep_view(), out.1.deep_view()) == bootstrap_step(
                self.deep_view(),
                event.deep_view(),
            ),
            out.0.deep_view().wf(),
    {
        match (&self.work, event) {
            (BootstrapWork::LoadUserConfig { .. }, BootstrapEvent::UserConfig(loaded)) =>
                self.configured(loaded),
            (BootstrapWork::CheckTerminal, BootstrapEvent::Terminal(interactive)) =>
                self.attended(interactive),
            (BootstrapWork::GatherSources { .. }, BootstrapEvent::Sources(configured)) =>
                self.sourced(configured),
            (BootstrapWork::ListTargets(_), BootstrapEvent::Targets(targets)) =>
                self.target_list(targets),
            (BootstrapWork::ListTargets(_), BootstrapEvent::Failure(why)) =>
                self.no_target_list(why),
            (BootstrapWork::PromptTarget(_), BootstrapEvent::Line(line)) => self.target_picked(
                line,
            ),
            (BootstrapWork::ListVersions { .. }, BootstrapEvent::Versions(versions)) =>
                self.version_list(versions),
            (BootstrapWork::ListVersions { .. }, BootstrapEvent::Failure(why)) =>
                self.no_version_list(why),
            (BootstrapWork::PromptVersion(_), BootstrapEvent::Line(line)) => self.version_picked(
                line,
            ),
            (BootstrapWork::ResolveWorkspace { .. }, BootstrapEvent::Workspace(path)) => (
                self.resolved(path),
                silent(),
            ),
            (BootstrapWork::Init(_), BootstrapEvent::Initialised) => {
                let path = self.workspace_path.join("Makefile".as_bytes());
                self.goes_on(BootstrapWork::CheckMakefile(path))
            },
            (BootstrapWork::CheckMakefile(_), BootstrapEvent::Exists(exists)) => self.initialised(
                exists,
            ),
            (BootstrapWork::LoadSdkConfig(_), BootstrapEvent::Phases(known)) => self.declared(
                known,
            ),
            (BootstrapWork::LoadSdkConfig(_), BootstrapEvent::Failure(why)) => self.fails(
                "Bootstrap failed: could not reload workspace config: ".to_owned().concat(
                    why.as_str(),
                ),
            ),
            (BootstrapWork::RunPhases(_), BootstrapEvent::Phase(event)) => self.phase_ended(event),
            _ => (self, silent()),
        }
    }
}

// ----------------------------------------------------------------------------
// Laws
// ----------------------------------------------------------------------------

/// Whether a target is being picked.
pub open spec fn picks_target(work: BootstrapWorkView) -> bool {
    work is ListTargets || work is PromptTarget
}

/// Whether a version is being picked.
pub open spec fn picks_version(work: BootstrapWorkView) -> bool {
    work is ListVersions || work is PromptVersion
}

/// Whether the phases are being prepared or run.
pub open spec fn is_past_makefile(work: BootstrapWorkView) -> bool {
    work is LoadSdkConfig || work is RunPhases
}

/// Whether the version is known.
pub open spec fn is_past_version(work: BootstrapWorkView) -> bool {
    work is ResolveWorkspace || work is Init || work is CheckMakefile || is_past_makefile(work)
}

/// Whether the target is known.
pub open spec fn is_past_target(work: BootstrapWorkView) -> bool {
    picks_version(work) || is_past_version(work)
}

/// Whether nothing is picked that need not be or cannot be, and nothing goes on
/// without a target that was given or picked.
pub open spec fn picks_as_asked(b: BootstrapView) -> bool {
    &&& picks_target(b.work) || picks_version(b.work) ==> b.interactive
    &&& picks_target(b.work) ==> b.cfg.target is None
    &&& picks_version(b.work) ==> b.cfg.version is None
    &&& is_past_target(b.work) && b.cfg.target is None ==> b.interactive
}

/// A menu is shown only where somebody can be asked, a menu of targets only
/// where no target was given, and a menu of versions only where no version was.
/// Where nobody can be asked, nothing goes on without a target.
pub proof fn law_nobody_is_asked_in_vain(
    cfg: BootstrapConfigView,
    default_phases: Seq<Seq<char>>,
    default_jobs: nat,
    events: Seq<BootstrapEventView>,
)
    ensures
        ({
            let b = bootstrap_run(bootstrapping(cfg, default_phases, default_jobs), events);
            &&& picks_as_asked(b)
            &&& b.interactive ==> events.contains(BootstrapEventView::Terminal(true))
            &&& b.cfg == cfg
        }),
    decreases events.len(),
{
    if events.len() > 0 {
        let earlier = events.drop_last();
        law_nobody_is_asked_in_vain(cfg, default_phases, default_jobs, earlier);
        let b = bootstrap_run(bootstrapping(cfg, default_phases, default_jobs), earlier);
        lemma_step_picks_as_asked(b, events.last());
        let asked = BootstrapEventView::Terminal(true);
        if earlier.contains(asked) {
            let i = choose|i: int| 0 <= i < earlier.len() && earlier[i] == asked;
            assert(events[i] == asked);
        }
        assert(events[events.len() - 1] == events.last());
    }
}

#[verifier::rlimit(30)]
proof fn lemma_step_picks_as_asked(b: BootstrapView, e: BootstrapEventView)
    requires
        picks_as_asked(b),
    ensures
        ({
            let next = bootstrap_step(b, e).0;
            &&& picks_as_asked(next)
            &&& next.interactive ==> b.interactive || e == BootstrapEventView::Terminal(true)
            &&& next.cfg == b.cfg
        }),
{
}

/// A bootstrap that was given no target, where nobody can be asked for one, ends
/// with exit code 1 as soon as the sources are known, and says so.
pub proof fn law_missing_target_is_refused(b: BootstrapView, configured: Seq<Seq<char>>)
    requires
        b.cfg.target is None,
    ensures
        b.work is GatherSources && !b.interactive ==> ({
            let (next, said) = bootstrap_step(b, BootstrapEventView::Sources(configured));
            next.work == BootstrapWorkView::Exit(1) && said == no_target_messages()
        }),
        b.work is CheckTerminal && b.cfg.source is Some ==> ({
            let (next, said) = bootstrap_step(b, BootstrapEventView::Terminal(false));
            next.work == BootstrapWorkView::Exit(1) && said == no_target_messages()
        }),
{
}

/// What was asked for explicitly is what the workspace is initialised with:
/// target, source and version, as they were given, and all that says how. Force
/// and the link into the mirror are what the user has set.
pub proof fn law_request_reaches_init(
    cfg: BootstrapConfigView,
    default_phases: Seq<Seq<char>>,
    default_jobs: nat,
    events: Seq<BootstrapEventView>,
)
    ensures
        ({
            let b = bootstrap_run(bootstrapping(cfg, default_phases, default_jobs), events);
            b.work matches BootstrapWorkView::Init(c) ==> {
                &&& cfg.target is Some ==> c.target == cfg.target->0 && c.source == cfg.source
                &&& cfg.source is Some ==> c.source == cfg.source
                &&& cfg.version is Some ==> c.version == cfg.version
                &&& c.workspace == Some(b.workspace_path)
                &&& c.no_mirror == cfg.no_mirror
                &&& c.mirror == cfg.mirror
                &&& c.match_pattern == cfg.match_pattern
                &&& c.include_group == cfg.include_group
                &&& c.exclude_group == cfg.exclude_group
                &&& c.verbose == cfg.verbose
                &&& c.yes == cfg.yes
                &&& c.cert_validation == cfg.cert_validation
                &&& c.force <==> (b.user_config matches Some(u) && u.bootstrap.force == Some(true))
                &&& c.symlink <==> (b.user_config matches Some(u) && u.bootstrap.symlink == Some(
                    true,
                ))
                &&& c.install && !c.full && !c.no_sudo
            }
        }),
{
    lemma_request_is_kept(cfg, default_phases, default_jobs, events);
}

/// Whether everything that is known by now agrees with what was asked for.
pub open spec fn keeps_request(b: BootstrapView, cfg: BootstrapConfigView) -> bool {
    &&& b.cfg == cfg
    &&& cfg.source is Some && (picks_target(b.work) || is_past_target(b.work)) ==> b.sources
        == seq![cfg.source->0]
    &&& forall|i: int|
        0 <= i < b.choices.len() ==> b.sources.contains((#[trigger] b.choices[i]).source)
    &&& picks_target(b.work) ==> cfg.target is None
    &&& is_past_target(b.work) ==> (match cfg.target {
        Some(target) => b.target == target && b.source == cfg.source,
        None => b.source is Some && b.sources.contains(b.source->0),
    })
    &&& is_past_version(b.work) && cfg.version is Some ==> b.version == cfg.version
    &&& picks_version(b.work) ==> cfg.version is None
    &&& b.work matches BootstrapWorkView::Init(c) ==> c == b.init()
    &&& b.work is LoadUserConfig || b.work is CheckTerminal || b.work is GatherSources
        ==> b.choices.len() == 0
    &&& b.wf()
}

proof fn lemma_request_is_kept(
    cfg: BootstrapConfigView,
    default_phases: Seq<Seq<char>>,
    default_jobs: nat,
    events: Seq<BootstrapEventView>,
)
    ensures
        keeps_request(
            bootstrap_run(bootstrapping(cfg, default_phases, default_jobs), events),
            cfg,
        ),
    decreases events.len(),
{
    if events.len() > 0 {
        let earlier = events.drop_last();
        lemma_request_is_kept(cfg, default_phases, default_jobs, earlier);
        lemma_step_keeps_request(
            bootstrap_run(bootstrapping(cfg, default_phases, default_jobs), earlier),
            events.last(),
            cfg,
        );
    }
}

#[verifier::rlimit(30)]
proof fn lemma_step_keeps_request(
    b: BootstrapView,
    e: BootstrapEventView,
    cfg: BootstrapConfigView,
)
    requires
        keeps_request(b, cfg),
    ensures
        keeps_request(bootstrap_step(b, e).0, cfg),
{
    let next = bootstrap_step(b, e).0;
    match (b.work, e) {
        (BootstrapWorkView::ListTargets(source), BootstrapEventView::Targets(targets)) => {
            assert(b.sources[b.next_source as int] == source);
            assert forall|i: int| 0 <= i < next.choices.len() implies next.sources.contains(
                (#[trigger] next.choices[i]).source,
            ) by {
                if i >= b.choices.len() {
                    assert(next.choices[i] == offered(source, targets)[i - b.choices.len()]);
                } else {
                    assert(next.choices[i] == b.choices[i]);
                }
            }
        },
        (BootstrapWorkView::PromptTarget(_), BootstrapEventView::Line(line)) => {
            let i = selected(line, (b.choices.len() - 1) as nat) as int;
            assert(b.sources.contains(b.choices[i].source));
        },
        _ => {},
    }
    if cfg.source is Some && cfg.target is None && is_past_target(next.work) {
        assert(next.sources.contains(next.source->0));
    }
}

/// Whether `source`, when it was asked for its targets, listed `target`.
pub open spec fn listed_by(
    start: BootstrapView,
    events: Seq<BootstrapEventView>,
    source: Seq<char>,
    target: Seq<char>,
) -> bool {
    exists|i: int| #[trigger] lists(start, events, i, source, target)
}

/// Whether the event at index `i` answers which targets `source` has, and
/// `target` is one of them.
pub open spec fn lists(
    start: BootstrapView,
    events: Seq<BootstrapEventView>,
    i: int,
    source: Seq<char>,
    target: Seq<char>,
) -> bool {
    &&& 0 <= i < events.len()
    &&& events[i] is Targets
    &&& events[i]->Targets_0.contains(target)
    &&& bootstrap_run(start, events.take(i)).work == BootstrapWorkView::ListTargets(source)
}

/// A target that was not given is initialised from the source that lists it:
/// the two stay paired, from the menu to the workspace.
pub proof fn law_picked_target_keeps_its_source(
    cfg: BootstrapConfigView,
    default_phases: Seq<Seq<char>>,
    default_jobs: nat,
    events: Seq<BootstrapEventView>,
)
    requires
        cfg.target is None,
    ensures
        ({
            let start = bootstrapping(cfg, default_phases, default_jobs);
            let b = bootstrap_run(start, events);
            &&& forall|k: int|
                0 <= k < b.choices.len() ==> listed_by(
                    start,
                    events,
                    (#[trigger] b.choices[k]).source,
                    b.choices[k].target,
                )
            &&& is_past_target(b.work) ==> b.source is Some && listed_by(
                start,
                events,
                b.source->0,
                b.target,
            )
            &&& b.work matches BootstrapWorkView::Init(c) ==> c.source == b.source && c.target
                == b.target
        }),
    decreases events.len(),
{
    lemma_request_is_kept(cfg, default_phases, default_jobs, events);
    if events.len() > 0 {
        let start = bootstrapping(cfg, default_phases, default_jobs);
        let earlier = events.drop_last();
        let last = events.len() - 1;
        law_picked_target_keeps_its_source(cfg, default_phases, default_jobs, earlier);
        lemma_request_is_kept(cfg, default_phases, default_jobs, earlier);
        let b = bootstrap_run(start, earlier);
        let next = bootstrap_run(start, events);
        assert(events[last] == events.last());
        assert(events.take(last) =~= earlier);
        assert forall|source: Seq<char>, target: Seq<char>|
            listed_by(start, earlier, source, target) implies #[trigger] listed_by(
            start,
            events,
            source,
            target,
        ) by {
            let i = choose|i: int| #[trigger] lists(start, earlier, i, source, target);
            assert(events.take(i) =~= earlier.take(i));
            assert(lists(start, events, i, source, target));
        }
        match (b.work, events.last()) {
            (BootstrapWorkView::ListTargets(source), BootstrapEventView::Targets(targets)) => {
                assert forall|k: int| 0 <= k < next.choices.len() implies listed_by(
                    start,
                    events,
                    (#[trigger] next.choices[k]).source,
                    next.choices[k].target,
                ) by {
                    if k < b.choices.len() {
                        assert(next.choices[k] == b.choices[k]);
                    } else {
                        let t = k - b.choices.len();
                        assert(next.choices[k] == offered(source, targets)[t]);
                        assert(targets[t] == next.choices[k].target);
                        assert(lists(start, events, last, source, next.choices[k].target));
                    }
                }
            },
            (BootstrapWorkView::PromptTarget(_), BootstrapEventView::Line(line)) => {
                let k = selected(line, (b.choices.len() - 1) as nat) as int;
                assert(listed_by(start, earlier, b.choices[k].source, b.choices[k].target));
            },
            _ => {},
        }
    }
}

/// Whether the phases that are to be run were all declared.
pub open spec fn all_declared(
    phases: Seq<Seq<char>>,
    events: Seq<BootstrapEventView>,
) -> bool {
    exists|i: int|
        0 <= i < events.len() && #[trigger] events[i] is Phases && (forall|j: int|
            0 <= j < phases.len() ==> events[i]->Phases_0.contains(#[trigger] phases[j]))
}

/// Whether the phases that are run are those to be run, as they are to be.
pub open spec fn runs_as_set(b: BootstrapView) -> bool {
    b.work matches BootstrapWorkView::RunPhases(run) ==> {
        &&& run.phases == b.phases()
        &&& run.jobs == jobs_of(b.user_config, b.default_jobs)
        &&& run.workspace_path == b.workspace_path
    }
}

/// No phase is run unless the workspace has its makefile and declares every
/// phase that is to be run; then they are the phases, run with the number of
/// jobs, that the user has set or that are the default, in the workspace.
pub proof fn law_only_declared_phases_run(
    cfg: BootstrapConfigView,
    default_phases: Seq<Seq<char>>,
    default_jobs: nat,
    events: Seq<BootstrapEventView>,
)
    ensures
        ({
            let b = bootstrap_run(bootstrapping(cfg, default_phases, default_jobs), events);
            &&& b.wf()
            &&& b.default_phases == default_phases
            &&& b.default_jobs == default_jobs
            &&& runs_as_set(b)
            &&& is_past_makefile(b.work) ==> events.contains(BootstrapEventView::Exists(true))
            &&& b.work is RunPhases ==> all_declared(b.phases(), events)
        }),
    decreases events.len(),
{
    if events.len() > 0 {
        let earlier = events.drop_last();
        law_only_declared_phases_run(cfg, default_phases, default_jobs, earlier);
        let b = bootstrap_run(bootstrapping(cfg, default_phases, default_jobs), earlier);
        let last = events.len() - 1;
        assert(events[last] == events.last());
        lemma_step_runs_as_set(b, events.last());
        let made = BootstrapEventView::Exists(true);
        if earlier.contains(made) {
            let i = choose|i: int| 0 <= i < earlier.len() && earlier[i] == made;
            assert(events[i] == made);
        }
        if all_declared(b.phases(), earlier) {
            let phases = b.phases();
            let i = choose|i: int|
                0 <= i < earlier.len() && #[trigger] earlier[i] is Phases && (forall|j: int|
                    0 <= j < phases.len() ==> earlier[i]->Phases_0.contains(#[trigger] phases[j]));
            assert(events[i] == earlier[i]);
        }
    }
}

/// What one step does to the phases: they are started only once all of them
/// are known to be declared, and go on as they were started.
proof fn lemma_step_runs_as_set(b: BootstrapView, e: BootstrapEventView)
    requires
        b.wf(),
        runs_as_set(b),
    ensures
        ({
            let next = bootstrap_step(b, e).0;
            &&& next.wf()
            &&& next.default_phases == b.default_phases
            &&& next.default_jobs == b.default_jobs
            &&& runs_as_set(next)
            &&& is_past_makefile(next.work) ==> is_past_makefile(b.work) || e
                == BootstrapEventView::Exists(true)
            &&& is_past_makefile(b.work) ==> next.phases() == b.phases()
            &&& next.work is RunPhases ==> b.work is RunPhases || (e is Phases && (forall|j: int|
                0 <= j < b.phases().len() ==> e->Phases_0.contains(#[trigger] b.phases()[j])))
            &&& next.work is RunPhases ==> is_past_makefile(b.work)
        }),
{
    match (b.work, e) {
        (BootstrapWorkView::LoadSdkConfig(_), BootstrapEventView::Phases(known)) => {
            crate::phases::law_phases_are_accepted_iff_declared(b.phases(), known, b.target);
        },
        _ => {},
    }
}

/// The first phase that fails ends the bootstrap, with the exit code of `make`,
/// or 1 where it has none.
pub proof fn law_failed_phase_ends_bootstrap(b: BootstrapView, code: Option<i32>)
    requires
        b.wf(),
        b.work is RunPhases,
        code != Some(0i32),
    ensures
        bootstrap_step(b, BootstrapEventView::Phase(PhaseEventView::Ended(code))).0.work
            == BootstrapWorkView::Exit(
            match code {
                Some(c) => c as int,
                None => 1,
            },
        ),
{
}

/// A bootstrap that runs phases is done only once the last of them succeeded.
pub proof fn law_done_means_all_phases_ran(b: BootstrapView, e: BootstrapEventView)
    requires
        b.wf(),
        b.work is RunPhases,
        bootstrap_step(b, e).0.work is Done,
    ensures
        e == BootstrapEventView::Phase(PhaseEventView::Ended(Some(0))),
        b.work->RunPhases_0.next + 1 == b.work->RunPhases_0.phases.len(),
{
}

/// A bootstrap that has ended stays so.
pub proof fn law_bootstrap_end_is_final(b: BootstrapView, e: BootstrapEventView)
    requires
        b.work is Done || b.work is Exit,
    ensures
        bootstrap_step(b, e) == (b, Seq::<MessageView>::empty()),
{
}

/// Whether `e` is an outcome of `work`.
pub open spec fn is_outcome(work: BootstrapWorkView, e: BootstrapEventView) -> bool {
    match work {
        BootstrapWorkView::LoadUserConfig { .. } => e is UserConfig,
        BootstrapWorkView::CheckTerminal => e is Terminal,
        BootstrapWorkView::GatherSources { .. } => e is Sources,
        BootstrapWorkView::ListTargets(_) => e is Targets || e is Failure,
        BootstrapWorkView::PromptTarget(_) => e is Line,
        BootstrapWorkView::ListVersions { .. } => e is Versions || e is Failure,
        BootstrapWorkView::PromptVersion(_) => e is Line,
        BootstrapWorkView::ResolveWorkspace { .. } => e is Workspace,
        BootstrapWorkView::Init(_) => e is Initialised,
        BootstrapWorkView::CheckMakefile(_) => e is Exists,
        BootstrapWorkView::LoadSdkConfig(_) => e is Phases || e is Failure,
        BootstrapWorkView::RunPhases(_) => e is Phase,
        BootstrapWorkView::Done => false,
        BootstrapWorkView::Exit(_) => false,
    }
}

/// An event that is no outcome of the work that is waited for changes nothing.
pub proof fn law_bootstrap_ignores_other_events(b: BootstrapView, e: BootstrapEventView)
    requires
        !is_outcome(b.work, e),
    ensures
        bootstrap_step(b, e) == (b, Seq::<MessageView>::empty()),
{
}

/// Whether the event at index `i` is `e`, as an outcome of the work that was
/// waited for.
pub open spec fn reports(
    start: BootstrapView,
    events: Seq<BootstrapEventView>,
    i: int,
    e: BootstrapEventView,
) -> bool {
    &&& 0 <= i < events.len()
    &&& events[i] == e
    &&& is_outcome(bootstrap_run(start, events.take(i)).work, e)
}

/// Whether `e` was reported as an outcome of the work that was waited for.
pub open spec fn was_reported(
    start: BootstrapView,
    events: Seq<BootstrapEventView>,
    e: BootstrapEventView,
) -> bool {
    exists|i: int| #[trigger] reports(start, events, i, e)
}

proof fn lemma_report_stays(
    start: BootstrapView,
    events: Seq<BootstrapEventView>,
    e: BootstrapEventView,
)
    requires
        events.len() > 0,
    ensures
        was_reported(start, events.drop_last(), e) ==> was_reported(start, events, e),
        events.last() == e && is_outcome(bootstrap_run(start, events.drop_last()).work, e)
            ==> was_reported(start, events, e),
{
    let earlier = events.drop_last();
    let last = events.len() - 1;
    assert(events.take(last) =~= earlier);
    if was_reported(start, earlier, e) {
        let i = choose|i: int| #[trigger] reports(start, earlier, i, e);
        assert(events.take(i) =~= earlier.take(i));
        assert(reports(start, events, i, e));
    }
    if events.last() == e && is_outcome(bootstrap_run(start, earlier).work, e) {
        assert(reports(start, events, last, e));
    }
}

/// Whether it is known that somebody can be asked, or not.
pub open spec fn knows_terminal(work: BootstrapWorkView) -> bool {
    !(work is LoadUserConfig || work is CheckTerminal)
}

/// Whether the sources are known and the bootstrap goes on.
pub open spec fn knows_sources(work: BootstrapWorkView) -> bool {
    picks_target(work) || is_past_target(work)
}

/// Whether the path of the workspace is known and the bootstrap goes on.
pub open spec fn knows_workspace(work: BootstrapWorkView) -> bool {
    work is Init || work is CheckMakefile || is_past_makefile(work)
}

/// What a bootstrap asks for, in terms of what it was asked for and what it
/// knows.
pub open spec fn asks_for_what_it_knows(b: BootstrapView) -> bool {
    match b.work {
        BootstrapWorkView::LoadUserConfig { verbose } => verbose == b.cfg.verbose,
        BootstrapWorkView::GatherSources { with_user_config } => b.cfg.source is None
            && with_user_config == (b.user_config is Some),
        BootstrapWorkView::ListTargets(source) => b.next_source < b.sources.len() && source
            == b.sources[b.next_source as int],
        BootstrapWorkView::PromptTarget(prompt) => b.choices.len() > 0 && prompt
            == "Please select a "@ + "target"@ + " [0-"@ + crate::text::decimal(
            (b.choices.len() - 1) as nat,
        ) + "] (default 0): "@,
        BootstrapWorkView::ListVersions { source, target } => b.source == Some(source) && target
            == b.target,
        BootstrapWorkView::PromptVersion(prompt) => b.versions.len() > 0 && prompt
            == "Please select a "@ + "version"@ + " [0-"@ + crate::text::decimal(b.versions.len())
            + "] (default 0): "@,
        BootstrapWorkView::ResolveWorkspace { workspace, target, with_user_config } => {
            &&& workspace == b.cfg.workspace
            &&& target == b.target
            &&& with_user_config == (b.user_config is Some)
        },
        BootstrapWorkView::Init(c) => {
            &&& c.target == b.target
            &&& c.source == b.source
            &&& c.version == b.version
            &&& c.workspace == Some(b.workspace_path)
            &&& c.force <==> (b.user_config matches Some(u) && u.bootstrap.force == Some(true))
            &&& c.symlink <==> (b.user_config matches Some(u) && u.bootstrap.symlink == Some(true))
        },
        BootstrapWorkView::CheckMakefile(p) => p == joined(
            b.workspace_path,
            encode_utf8("Makefile"@),
        ),
        BootstrapWorkView::LoadSdkConfig(p) => p == joined(
            b.workspace_path,
            encode_utf8("sdk.yml"@),
        ),
        BootstrapWorkView::RunPhases(run) => {
            &&& run.workspace_path == b.workspace_path
            &&& run.phases == (match b.user_config {
                Some(u) => match u.bootstrap.phases {
                    Some(phases) => phases,
                    None => b.default_phases,
                },
                None => b.default_phases,
            })
            &&& run.jobs == (match b.user_config {
                Some(u) => match u.bootstrap.jobs {
                    Some(jobs) => if jobs == 0 {
                        b.default_jobs
                    } else {
                        jobs as nat
                    },
                    None => b.default_jobs,
                },
                None => b.default_jobs,
            })
        },
        _ => true,
    }
}

#[verifier::rlimit(40)]
proof fn lemma_step_asks_for_what_it_knows(b: BootstrapView, e: BootstrapEventView)
    requires
        b.wf(),
        asks_for_what_it_knows(b),
    ensures
        ({
            let next = bootstrap_step(b, e).0;
            &&& asks_for_what_it_knows(next)
            &&& next.wf()
            &&& next.cfg == b.cfg
            &&& next.default_phases == b.default_phases
            &&& next.default_jobs == b.default_jobs
        }),
{
}

#[verifier::rlimit(40)]
proof fn lemma_step_knows_what_is_reported(b: BootstrapView, e: BootstrapEventView)
    ensures
        ({
            let next = bootstrap_step(b, e).0;
            &&& b.work is LoadUserConfig || next.user_config == b.user_config
            &&& b.work is LoadUserConfig && !(next.work is LoadUserConfig) ==> is_outcome(
                b.work,
                e,
            ) && (e == BootstrapEventView::UserConfig(LoadedConfigView::Loaded(next.user_config))
                || (next.user_config is None && e->UserConfig_0 is Failed))
            &&& !(b.work is LoadUserConfig) ==> !(next.work is LoadUserConfig)
            &&& knows_terminal(b.work) ==> knows_terminal(next.work) && next.interactive
                == b.interactive
            &&& knows_terminal(next.work) && !knows_terminal(b.work) ==> is_outcome(b.work, e) && e
                == BootstrapEventView::Terminal(next.interactive)
            &&& knows_sources(next.work) ==> knows_sources(b.work) && next.sources == b.sources
                || (next.cfg.source is Some && next.sources == seq![next.cfg.source->0]) || (
            is_outcome(b.work, e) && e == BootstrapEventView::Sources(next.sources))
            &&& knows_workspace(next.work) ==> knows_workspace(b.work) && next.workspace_path
                == b.workspace_path || (is_outcome(b.work, e) && e
                == BootstrapEventView::Workspace(next.workspace_path))
        }),
{
}

/// Whether the user's config, as a bootstrap goes by it, is the one that was
/// loaded, or none because none could be.
pub open spec fn goes_by_loaded_config(
    b: BootstrapView,
    start: BootstrapView,
    events: Seq<BootstrapEventView>,
) -> bool {
    ||| was_reported(
        start,
        events,
        BootstrapEventView::UserConfig(LoadedConfigView::Loaded(b.user_config)),
    )
    ||| b.user_config is None && (exists|why: Seq<char>| #[trigger]
        was_reported(
            start,
            events,
            BootstrapEventView::UserConfig(LoadedConfigView::Failed(why)),
        ))
}

/// In every run, what is asked for is made of what was asked for at the start
/// and of what was reported since: the user's config, with its force, link,
/// phases and jobs; whether somebody can be asked; the sources; and the path of
/// the workspace, in which the makefile and the config file are looked for and
/// the phases are run.
pub proof fn law_bootstrap_works_on_what_was_reported(
    cfg: BootstrapConfigView,
    default_phases: Seq<Seq<char>>,
    default_jobs: nat,
    events: Seq<BootstrapEventView>,
)
    ensures
        ({
            let start = bootstrapping(cfg, default_phases, default_jobs);
            let b = bootstrap_run(start, events);
            &&& b.wf()
            &&& b.cfg == cfg
            &&& b.default_phases == default_phases
            &&& b.default_jobs == default_jobs
            &&& asks_for_what_it_knows(b)
            &&& !(b.work is LoadUserConfig) ==> goes_by_loaded_config(b, start, events)
            &&& knows_terminal(b.work) ==> was_reported(
                start,
                events,
                BootstrapEventView::Terminal(b.interactive),
            )
            &&& knows_sources(b.work) ==> (cfg.source is Some && b.sources == seq![cfg.source->0])
                || was_reported(start, events, BootstrapEventView::Sources(b.sources))
            &&& knows_workspace(b.work) ==> was_reported(
                start,
                events,
                BootstrapEventView::Workspace(b.workspace_path),
            )
        }),
    decreases events.len(),
{
    if events.len() > 0 {
        let start = bootstrapping(cfg, default_phases, default_jobs);
        let earlier = events.drop_last();
        law_bootstrap_works_on_what_was_reported(cfg, default_phases, default_jobs, earlier);
        let before = bootstrap_run(start, earlier);
        let b = bootstrap_run(start, events);
        let e = events.last();
        lemma_step_asks_for_what_it_knows(before, e);
        lemma_step_knows_what_is_reported(before, e);
        lemma_report_stays(start, events, BootstrapEventView::Terminal(b.interactive));
        lemma_report_stays(start, events, BootstrapEventView::Sources(b.sources));
        lemma_report_stays(start, events, BootstrapEventView::Workspace(b.workspace_path));
        lemma_report_stays(
            start,
            events,
            BootstrapEventView::UserConfig(LoadedConfigView::Loaded(b.user_config)),
        );
        assert forall|why: Seq<char>|
            was_reported(
                start,
                earlier,
                BootstrapEventView::UserConfig(LoadedConfigView::Failed(why)),
            ) implies #[trigger] was_reported(
            start,
            events,
            BootstrapEventView::UserConfig(LoadedConfigView::Failed(why)),
        ) by {
            lemma_report_stays(
                start,
                events,
                BootstrapEventView::UserConfig(LoadedConfigView::Failed(why)),
            );
        }
        if before.work is LoadUserConfig && !(b.work is LoadUserConfig) {
            if let BootstrapEventView::UserConfig(LoadedConfigView::Failed(why)) = e {
                lemma_report_stays(start, events, e);
                assert(was_reported(
                    start,
                    events,
                    BootstrapEventView::UserConfig(LoadedConfigView::Failed(why)),
                ));
            }
        } else if !(before.work is LoadUserConfig) && before.user_config is None && !was_reported(
            start,
            earlier,
            BootstrapEventView::UserConfig(LoadedConfigView::Loaded(before.user_config)),
        ) {
            let why = choose|why: Seq<char>| #[trigger]
                was_reported(
                    start,
                    earlier,
                    BootstrapEventView::UserConfig(LoadedConfigView::Failed(why)),
                );
            assert(was_reported(
                start,
                events,
                BootstrapEventView::UserConfig(LoadedConfigView::Failed(why)),
            ));
        }
    }
}

/// Sources are listed one after the other, each once: the targets of one are put
/// behind those before it, in their order and with that source, and one that
/// cannot be listed adds nothing. Behind the last one the user is asked, if there
/// is a target at all.
pub proof fn law_targets_are_gathered_in_order(
    b: BootstrapView,
    targets: Seq<Seq<char>>,
    why: Seq<char>,
)
    requires
        b.wf(),
        b.work is ListTargets,
    ensures
        ({
            let source = b.sources[b.next_source as int];
            let next = bootstrap_step(b, BootstrapEventView::Targets(targets)).0;
            &&& next.sources == b.sources
            &&& next.choices.len() == b.choices.len() + targets.len()
            &&& forall|k: int| 0 <= k < b.choices.len() ==> #[trigger] next.choices[k] == b.choices[k]
            &&& forall|k: int|
                0 <= k < targets.len() ==> #[trigger] next.choices[b.choices.len() + k]
                    == TargetChoiceView { target: targets[k], source }
            &&& goes_on_listing(b, next)
        }),
        ({
            let next = bootstrap_step(b, BootstrapEventView::Failure(why)).0;
            &&& next.sources == b.sources
            &&& next.choices == b.choices
            &&& goes_on_listing(b, next)
        }),
{
    let source = b.sources[b.next_source as int];
    let next = bootstrap_step(b, BootstrapEventView::Targets(targets)).0;
    assert forall|k: int| 0 <= k < targets.len() implies #[trigger] next.choices[b.choices.len()
        + k] == (TargetChoiceView { target: targets[k], source }) by {
        assert(next.choices[b.choices.len() + k] == offered(source, targets)[k]);
    }
}

/// Whether `next` goes on from `b` to the next source, or to the menu behind the
/// last one, or to the end where there is nothing to choose.
pub open spec fn goes_on_listing(b: BootstrapView, next: BootstrapView) -> bool {
    let n = b.next_source + 1;
    if n < b.sources.len() {
        next.next_source == n && next.work == BootstrapWorkView::ListTargets(b.sources[n as int])
    } else if next.choices.len() > 0 {
        next.work is PromptTarget
    } else {
        next.work == BootstrapWorkView::Exit(1)
    }
}

/// The line that is entered at the menu selects the target, with its source, by
/// its number; a number beyond the menu the last one, and anything else the
/// first.
pub proof fn law_line_selects_the_target(b: BootstrapView, line: Option<Seq<char>>)
    requires
        b.wf(),
        b.work is PromptTarget,
    ensures
        ({
            let next = bootstrap_step(b, BootstrapEventView::Line(line)).0;
            let n = b.choices.len();
            let number = match line {
                Some(l) => crate::text::parse_unsigned(crate::text::trimmed(l)),
                None => None,
            };
            let k = if number is None || number->0 > usize::MAX {
                0
            } else if number->0 < n {
                number->0 as int
            } else {
                n - 1
            };
            &&& next.target == b.choices[k].target
            &&& next.source == Some(b.choices[k].source)
            &&& next.work is ListVersions <==> b.interactive && b.cfg.version is None
            &&& !(next.work is ListVersions) ==> next.work is ResolveWorkspace
        }),
{
}

/// The line that is entered at the menu of versions selects one by its number,
/// and the default by 0, or by what is no number. Without a menu it is the
/// default.
pub proof fn law_line_selects_the_version(
    b: BootstrapView,
    versions: Seq<Seq<char>>,
    line: Option<Seq<char>>,
    why: Seq<char>,
)
    ensures
        b.work is PromptVersion ==> ({
            let next = bootstrap_step(b, BootstrapEventView::Line(line)).0;
            let n = b.versions.len();
            let number = match line {
                Some(l) => crate::text::parse_unsigned(crate::text::trimmed(l)),
                None => None,
            };
            &&& next.work is ResolveWorkspace
            &&& number is None || number->0 == 0 || number->0 > usize::MAX ==> next.version is None
            &&& number is Some && 0 < number->0 <= n && n <= usize::MAX ==> next.version == Some(
                b.versions[number->0 - 1],
            )
            &&& number is Some && 0 < n < number->0 <= usize::MAX ==> next.version == Some(
                b.versions[n - 1],
            )
        }),
        b.work is ListVersions ==> ({
            let next = bootstrap_step(b, BootstrapEventView::Versions(versions)).0;
            &&& versions.len() > 0 ==> next.work is PromptVersion && next.versions == versions
            &&& versions.len() == 0 ==> next.work is ResolveWorkspace && next.version is None
        }),
        b.work is ListVersions ==> ({
            let next = bootstrap_step(b, BootstrapEventView::Failure(why)).0;
            next.work is ResolveWorkspace && next.version is None
        }),
{
}

/// Behind the workspace each thing leads to the next: initialising, the makefile
/// that shows it went well, the phases if there are any, and the end. Without a
/// makefile, or without the phases that are declared, the bootstrap ends with
/// exit code 1.
pub proof fn law_bootstrap_goes_on(
    b: BootstrapView,
    path: Seq<u8>,
    known: Seq<Seq<char>>,
    why: Seq<char>,
)
    ensures
        b.work is ResolveWorkspace ==> bootstrap_step(
            b,
            BootstrapEventView::Workspace(path),
        ).0.work is Init,
        b.work is Init ==> bootstrap_step(b, BootstrapEventView::Initialised).0.work
            is CheckMakefile,
        b.work is CheckMakefile ==> bootstrap_step(b, BootstrapEventView::Exists(false)).0.work
            == BootstrapWorkView::Exit(1),
        b.work is CheckMakefile ==> ({
            let next = bootstrap_step(b, BootstrapEventView::Exists(true)).0;
            let none = match b.user_config {
                Some(u) => match u.bootstrap.phases {
                    Some(phases) => phases.len() == 0,
                    None => b.default_phases.len() == 0,
                },
                None => b.default_phases.len() == 0,
            };
            if none {
                next.work is Done
            } else {
                next.work is LoadSdkConfig
            }
        }),
        b.work is LoadSdkConfig ==> bootstrap_step(b, BootstrapEventView::Failure(why)).0.work
            == BootstrapWorkView::Exit(1),
        b.work is LoadSdkConfig ==> ({
            let next = bootstrap_step(b, BootstrapEventView::Phases(known)).0;
            phases_error(b.phases(), known, b.target) is Some <==> next.work
                == BootstrapWorkView::Exit(1)
        }),
{
}

/// One message.
pub open spec fn tells(level: Level, text: Seq<char>) -> Seq<MessageView> {
    seq![MessageView { level, text }]
}

/// What a bootstrap says is about the source, the target, the workspace and the
/// reason that it concerns.
pub proof fn law_bootstrap_tells_what_it_is_about(
    b: BootstrapView,
    targets: Seq<Seq<char>>,
    why: Seq<char>,
)
    requires
        b.wf(),
    ensures
        b.work is ListTargets ==> ({
            let said = bootstrap_step(b, BootstrapEventView::Failure(why)).1;
            said.len() > 0 && said[0] == MessageView {
                level: Level::Verbose,
                text: "  Skipping "@ + b.sources[b.next_source as int] + " (error: "@ + why
                    + ")"@,
            }
        }),
        b.work is ListTargets && b.next_source + 1 < b.sources.len() ==> bootstrap_step(
            b,
            BootstrapEventView::Targets(targets),
        ).1 == offer_messages(b.choices.len(), b.sources[b.next_source as int], targets),
        b.work is ListTargets && b.next_source + 1 == b.sources.len() && b.choices.len() == 0
            ==> bootstrap_step(b, BootstrapEventView::Targets(seq![])).1 == tells(
            Level::Plain,
            ""@,
        ) + tells(Level::Error, "No targets found in any configured manifest source"@),
        b.work is ListVersions ==> bootstrap_step(b, BootstrapEventView::Failure(why)).1 == tells(
            Level::Verbose,
            "Could not list versions for '"@ + b.target + "': "@ + why,
        ),
        b.work is CheckMakefile ==> bootstrap_step(b, BootstrapEventView::Exists(false)).1
            == tells(
            Level::Error,
            "Bootstrap failed: workspace was not fully created (see errors above)"@,
        ),
        b.work is CheckMakefile && b.phases().len() == 0 ==> bootstrap_step(
            b,
            BootstrapEventView::Exists(true),
        ).1 == tells(Level::Status, ""@) + tells(
            Level::Success,
            "Workspace ready at "@ + shown(b.workspace_path),
        ),
        b.work is LoadSdkConfig ==> bootstrap_step(b, BootstrapEventView::Failure(why)).1 == tells(
            Level::Error,
            "Bootstrap failed: could not reload workspace config: "@ + why,
        ),
{
    let said = bootstrap_step(b, BootstrapEventView::Targets(targets)).1;
    if b.work is ListTargets && b.next_source + 1 < b.sources.len() {
        assert(said =~= offer_messages(
            b.choices.len(),
            b.sources[b.next_source as int],
            targets,
        ));
    }
    if b.work is ListTargets {
        assert(b.choices + offered(b.sources[b.next_source as int], seq![]) =~= b.choices);
    }
}

/// The end of a bootstrap that ran its phases is told behind what the last one
/// said, with the target and the workspace.
pub proof fn law_bootstrap_tells_its_end(b: BootstrapView, e: PhaseEventView)
    requires
        b.wf(),
        b.work is RunPhases,
    ensures
        ({
            let (run, told) = phase_step(b.work->RunPhases_0, e);
            let (next, said) = bootstrap_step(b, BootstrapEventView::Phase(e));
            match run.work {
                PhaseWorkView::Make { .. } => next.work == BootstrapWorkView::RunPhases(run)
                    && said == told,
                PhaseWorkView::Exit(code) => next.work == BootstrapWorkView::Exit(code) && said
                    == told,
                PhaseWorkView::Done => next.work is Done && said == told + seq![
                    MessageView { level: Level::Status, text: ""@ },
                    MessageView {
                        level: Level::Success,
                        text: "Bootstrap completed for target '"@ + b.target + "'"@,
                    },
                    MessageView {
                        level: Level::Status,
                        text: "Workspace: "@ + shown(b.workspace_path),
                    },
                ],
            }
        }),
{
}

/// A menu is shown before it is asked about, and what is said of a line that was
/// entered is about that line. All else goes on without a word.
pub proof fn law_bootstrap_shows_its_menus(
    b: BootstrapView,
    sources: Seq<Seq<char>>,
    versions: Seq<Seq<char>>,
    line: Option<Seq<char>>,
    loaded: LoadedConfigView,
)
    requires
        b.wf(),
    ensures
        b.work is LoadUserConfig ==> ({
            let (next, said) = bootstrap_step(b, BootstrapEventView::UserConfig(loaded));
            &&& next.work is CheckTerminal
            &&& loaded matches LoadedConfigView::Loaded(c) ==> next.user_config == c && said.len()
                == 0
            &&& loaded matches LoadedConfigView::Failed(why) ==> next.user_config is None && said
                == tells(Level::Info, "Warning: Failed to load user config: "@ + why)
        }),
        b.work is GatherSources && b.cfg.target is None && b.interactive ==> ({
            let said = bootstrap_step(b, BootstrapEventView::Sources(sources)).1;
            &&& said.len() >= 2
            &&& said[0] == MessageView { level: Level::Plain, text: "Available targets:"@ }
            &&& said[1] == MessageView { level: Level::Plain, text: ""@ }
            &&& sources_of(b.cfg, sources).len() > 0 ==> said.len() == 2
        }),
        b.work is GatherSources && b.cfg.target is Some ==> bootstrap_step(
            b,
            BootstrapEventView::Sources(sources),
        ).1.len() == 0,
        b.work is ListVersions ==> bootstrap_step(b, BootstrapEventView::Versions(versions)).1
            == (if versions.len() == 0 {
            seq![]
        } else {
            version_menu(versions)
        }),
        b.work is PromptTarget || b.work is PromptVersion ==> bootstrap_step(
            b,
            BootstrapEventView::Line(line),
        ).1 == selection_messages(line),
        b.work is ResolveWorkspace ==> bootstrap_step(
            b,
            BootstrapEventView::Workspace(b.workspace_path),
        ).1.len() == 0,
        b.work is Init ==> bootstrap_step(b, BootstrapEventView::Initialised).1.len() == 0,
        b.work is CheckMakefile && b.phases().len() > 0 ==> bootstrap_step(
            b,
            BootstrapEventView::Exists(true),
        ).1.len() == 0,
{
    let said = bootstrap_step(b, BootstrapEventView::Line(line)).1;
    if b.work is PromptTarget {
        assert(said =~= selection_messages(line));
    }
}

} // verus!
