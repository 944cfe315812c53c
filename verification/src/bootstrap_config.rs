//! What a bootstrap is asked to do, and what follows from it together with the
//! user's settings.

use crate::message::{fixed, message, one, says, silent, two, Level, Message, MessageView};
use crate::path::FsPath;
use vstd::prelude::*;
use vstd::string::*;

verus! {

// ----------------------------------------------------------------------------
// Data
// ----------------------------------------------------------------------------

/// What `cim bootstrap` was asked to do.
#[derive(Debug, PartialEq, Eq)]
pub struct BootstrapConfig {
    pub target: Option<String>,
    pub source: Option<String>,
    pub version: Option<String>,
    pub workspace: Option<FsPath>,
    pub no_mirror: bool,
    pub mirror: Option<FsPath>,
    pub match_pattern: Option<String>,
    pub include_group: Option<String>,
    pub exclude_group: Option<String>,
    pub verbose: bool,
    pub yes: bool,
    pub cert_validation: Option<String>,
}

/// What a [`BootstrapConfig`] stands for.
pub struct BootstrapConfigView {
    pub target: Option<Seq<char>>,
    pub source: Option<Seq<char>>,
    pub version: Option<Seq<char>>,
    pub workspace: Option<Seq<u8>>,
    pub no_mirror: bool,
    pub mirror: Option<Seq<u8>>,
    pub match_pattern: Option<Seq<char>>,
    pub include_group: Option<Seq<char>>,
    pub exclude_group: Option<Seq<char>>,
    pub verbose: bool,
    pub yes: bool,
    pub cert_validation: Option<Seq<char>>,
}

impl DeepView for BootstrapConfig {
    type V = BootstrapConfigView;

    open spec fn deep_view(&self) -> BootstrapConfigView {
        BootstrapConfigView {
            target: self.target.deep_view(),
            source: self.source.deep_view(),
            version: self.version.deep_view(),
            workspace: self.workspace.deep_view(),
            no_mirror: self.no_mirror,
            mirror: self.mirror.deep_view(),
            match_pattern: self.match_pattern.deep_view(),
            include_group: self.include_group.deep_view(),
            exclude_group: self.exclude_group.deep_view(),
            verbose: self.verbose,
            yes: self.yes,
            cert_validation: self.cert_validation.deep_view(),
        }
    }
}

/// What the user has set for every bootstrap.
#[derive(Debug, PartialEq, Eq)]
pub struct BootstrapSettings {
    pub force: Option<bool>,
    pub symlink: Option<bool>,
    pub phases: Option<Vec<String>>,
    pub jobs: Option<u32>,
}

/// What a [`BootstrapSettings`] stands for.
pub struct BootstrapSettingsView {
    pub force: Option<bool>,
    pub symlink: Option<bool>,
    pub phases: Option<Seq<Seq<char>>>,
    pub jobs: Option<u32>,
}

impl DeepView for BootstrapSettings {
    type V = BootstrapSettingsView;

    open spec fn deep_view(&self) -> BootstrapSettingsView {
        BootstrapSettingsView {
            force: self.force,
            symlink: self.symlink,
            phases: self.phases.deep_view(),
            jobs: self.jobs,
        }
    }
}

/// The part of the user's config that a bootstrap reads.
#[derive(Debug, PartialEq, Eq)]
pub struct UserConfig {
    pub bootstrap: BootstrapSettings,
}

/// What a [`UserConfig`] stands for.
pub struct UserConfigView {
    pub bootstrap: BootstrapSettingsView,
}

impl DeepView for UserConfig {
    type V = UserConfigView;

    open spec fn deep_view(&self) -> UserConfigView {
        UserConfigView { bootstrap: self.bootstrap.deep_view() }
    }
}

/// What initialising a workspace is asked to do.
#[derive(Debug, PartialEq, Eq)]
pub struct InitConfig {
    pub target: String,
    pub source: Option<String>,
    pub version: Option<String>,
    pub workspace: Option<FsPath>,
    pub no_mirror: bool,
    pub mirror: Option<FsPath>,
    pub force: bool,
    pub match_pattern: Option<String>,
    pub include_group: Option<String>,
    pub exclude_group: Option<String>,
    pub verbose: bool,
    pub install: bool,
    pub full: bool,
    pub no_sudo: bool,
    pub symlink: bool,
    pub yes: bool,
    pub cert_validation: Option<String>,
}

/// What an [`InitConfig`] stands for.
pub struct InitConfigView {
    pub target: Seq<char>,
    pub source: Option<Seq<char>>,
    pub version: Option<Seq<char>>,
    pub workspace: Option<Seq<u8>>,
    pub no_mirror: bool,
    pub mirror: Option<Seq<u8>>,
    pub force: bool,
    pub match_pattern: Option<Seq<char>>,
    pub include_group: Option<Seq<char>>,
    pub exclude_group: Option<Seq<char>>,
    pub verbose: bool,
    pub install: bool,
    pub full: bool,
    pub no_sudo: bool,
    pub symlink: bool,
    pub yes: bool,
    pub cert_validation: Option<Seq<char>>,
}

impl DeepView for InitConfig {
    type V = InitConfigView;

    open spec fn deep_view(&self) -> InitConfigView {
        InitConfigView {
            target: self.target@,
            source: self.source.deep_view(),
            version: self.version.deep_view(),
            workspace: self.workspace.deep_view(),
            no_mirror: self.no_mirror,
            mirror: self.mirror.deep_view(),
            force: self.force,
            match_pattern: self.match_pattern.deep_view(),
            include_group: self.include_group.deep_view(),
            exclude_group: self.exclude_group.deep_view(),
            verbose: self.verbose,
            install: self.install,
            full: self.full,
            no_sudo: self.no_sudo,
            symlink: self.symlink,
            yes: self.yes,
            cert_validation: self.cert_validation.deep_view(),
        }
    }
}

/// A copy of a list of strings.
pub fn copy_strings(list: &Vec<String>) -> (out: Vec<String>)
    ensures
        out.deep_view() == list.deep_view(),
{
    let out = list.clone();
    assert(out@ =~= list@);
    out
}

// ----------------------------------------------------------------------------
// The user's settings
// ----------------------------------------------------------------------------

/// What came of loading the user's config.
#[derive(Debug, PartialEq, Eq)]
pub enum LoadedConfig {
    /// There is a config, or none.
    Loaded(Option<UserConfig>),
    /// The config could not be loaded.
    Failed(String),
}

/// What a [`LoadedConfig`] stands for.
pub enum LoadedConfigView {
    Loaded(Option<UserConfigView>),
    Failed(Seq<char>),
}

impl DeepView for LoadedConfig {
    type V = LoadedConfigView;

    open spec fn deep_view(&self) -> LoadedConfigView {
        match self {
            LoadedConfig::Loaded(c) => LoadedConfigView::Loaded(c.deep_view()),
            LoadedConfig::Failed(why) => LoadedConfigView::Failed(why@),
        }
    }
}

/// The config to go by, and what is said: one that cannot be loaded is passed
/// over with a warning.
pub open spec fn usable_config(loaded: LoadedConfigView) -> (
    Option<UserConfigView>,
    Seq<MessageView>,
) {
    match loaded {
        LoadedConfigView::Loaded(c) => (c, seq![]),
        LoadedConfigView::Failed(why) => (
            None,
            seq![says(Level::Info, "Warning: Failed to load user config: "@ + why)],
        ),
    }
}

/// Takes the user's config as it was loaded, or none, with a warning, where it
/// could not be.
pub fn load_bootstrap_user_config(loaded: LoadedConfig) -> (out: (
    Option<UserConfig>,
    Vec<Message>,
))
    ensures
        (out.0.deep_view(), out.1.deep_view()) == usable_config(loaded.deep_view()),
{
    match loaded {
        LoadedConfig::Loaded(c) => (c, silent()),
        LoadedConfig::Failed(why) => {
            let said = "Warning: Failed to load user config: ".to_owned().concat(why.as_str());
            (None, one(message(Level::Info, said)))
        },
    }
}

/// The sources to search: the one that was asked for, or all that are
/// `configured`.
pub open spec fn sources_of(
    cfg: BootstrapConfigView,
    configured: Seq<Seq<char>>,
) -> Seq<Seq<char>> {
    match cfg.source {
        Some(source) => seq![source],
        None => configured,
    }
}

/// Returns the sources to search: an explicit one wins over all that are
/// `configured`.
pub fn bootstrap_sources(cfg: &BootstrapConfig, configured: Vec<String>) -> (out: Vec<String>)
    ensures
        out.deep_view() == sources_of(cfg.deep_view(), configured.deep_view()),
        cfg.source matches Some(source) ==> out.deep_view() == seq![source@],
        cfg.source is None ==> out.deep_view() == configured.deep_view(),
{
    match &cfg.source {
        Some(source) => {
            let mut out: Vec<String> = Vec::new();
            out.push(source.clone());
            assert(out.deep_view() =~= seq![source@]);
            out
        },
        None => configured,
    }
}

/// The phases to run: those that the user has set, or the default ones.
pub open spec fn phases_of(
    user_config: Option<UserConfigView>,
    default_phases: Seq<Seq<char>>,
) -> Seq<Seq<char>> {
    match user_config {
        Some(c) => match c.bootstrap.phases {
            Some(phases) => phases,
            None => default_phases,
        },
        None => default_phases,
    }
}

/// Returns the phases to run after the workspace was initialised.
pub fn bootstrap_phases(user_config: &Option<UserConfig>, default_phases: Vec<String>) -> (out:
    Vec<String>)
    ensures
        out.deep_view() == phases_of(user_config.deep_view(), default_phases.deep_view()),
        user_config is Some && user_config->0.bootstrap.phases is Some ==> out.deep_view()
            == user_config->0.bootstrap.phases->0.deep_view(),
        user_config is None || user_config->0.bootstrap.phases is None ==> out.deep_view()
            == default_phases.deep_view(),
{
    match user_config {
        Some(c) => match &c.bootstrap.phases {
            Some(phases) => copy_strings(phases),
            None => default_phases,
        },
        None => default_phases,
    }
}

/// How many jobs each phase runs in parallel: what the user has set, unless
/// that is zero, or the default.
pub open spec fn jobs_of(user_config: Option<UserConfigView>, default_jobs: nat) -> nat {
    match user_config {
        Some(c) => match c.bootstrap.jobs {
            Some(jobs) => if jobs > 0 {
                jobs as nat
            } else {
                default_jobs
            },
            None => default_jobs,
        },
        None => default_jobs,
    }
}

/// Returns how many jobs each phase runs in parallel.
pub fn bootstrap_jobs(user_config: &Option<UserConfig>, default_jobs: usize) -> (out: usize)
    ensures
        out == jobs_of(user_config.deep_view(), default_jobs as nat),
        user_config is Some && user_config->0.bootstrap.jobs is Some
            && user_config->0.bootstrap.jobs->0 > 0 ==> out == user_config->0.bootstrap.jobs->0,
        user_config is None || user_config->0.bootstrap.jobs is None
            || user_config->0.bootstrap.jobs->0 == 0 ==> out == default_jobs,
{
    match user_config {
        Some(c) => match c.bootstrap.jobs {
            Some(jobs) => if jobs > 0 {
                jobs as usize
            } else {
                default_jobs
            },
            None => default_jobs,
        },
        None => default_jobs,
    }
}

/// Whether the user has set that an existing workspace may be replaced.
pub open spec fn force_of(user_config: Option<UserConfigView>) -> bool {
    match user_config {
        Some(c) => c.bootstrap.force == Some(true),
        None => false,
    }
}

/// Whether the user has set that the environment is linked into the mirror.
pub open spec fn symlink_of(user_config: Option<UserConfigView>) -> bool {
    match user_config {
        Some(c) => c.bootstrap.symlink == Some(true),
        None => false,
    }
}

/// Returns whether an existing workspace may be replaced and whether the
/// environment is linked into the mirror. Neither is so by default.
pub fn bootstrap_flags(user_config: &Option<UserConfig>) -> (out: (bool, bool))
    ensures
        out.0 == force_of(user_config.deep_view()),
        out.1 == symlink_of(user_config.deep_view()),
        out.0 <==> (user_config matches Some(c) && c.bootstrap.force == Some(true)),
        out.1 <==> (user_config matches Some(c) && c.bootstrap.symlink == Some(true)),
{
    match user_config {
        Some(c) => {
            let force = match c.bootstrap.force {
                Some(force) => force,
                None => false,
            };
            let symlink = match c.bootstrap.symlink {
                Some(symlink) => symlink,
                None => false,
            };
            (force, symlink)
        },
        None => (false, false),
    }
}

// ----------------------------------------------------------------------------
// Target and version
// ----------------------------------------------------------------------------

/// How the target is arrived at.
#[derive(Debug, PartialEq, Eq)]
pub enum TargetDecision {
    /// It was given, with its source or without.
    Given { target: String, source: Option<String> },
    /// It is to be picked from a menu.
    Pick,
    /// It is not: none was given and nobody can be asked. This is to be said
    /// before leaving with exit code 1.
    Refuse(Vec<Message>),
}

/// What a [`TargetDecision`] stands for.
pub enum TargetDecisionView {
    Given { target: Seq<char>, source: Option<Seq<char>> },
    Pick,
    Refuse(Seq<MessageView>),
}

impl DeepView for TargetDecision {
    type V = TargetDecisionView;

    open spec fn deep_view(&self) -> TargetDecisionView {
        match self {
            TargetDecision::Given { target, source } => TargetDecisionView::Given {
                target: target@,
                source: source.deep_view(),
            },
            TargetDecision::Pick => TargetDecisionView::Pick,
            TargetDecision::Refuse(said) => TargetDecisionView::Refuse(said.deep_view()),
        }
    }
}

/// What is said where no target was given and nobody can be asked.
pub open spec fn no_target_messages() -> Seq<MessageView> {
    seq![
        says(
            Level::Error,
            "--target is required when not running interactively (no TTY detected)"@,
        ),
        says(Level::Status, "Use 'cim list-targets' to see available targets"@),
    ]
}

/// How the target is arrived at: one that was given is taken as it is, else one
/// is picked if somebody can be asked.
pub open spec fn target_decision(cfg: BootstrapConfigView, interactive: bool) ->
    TargetDecisionView {
    match cfg.target {
        Some(target) => TargetDecisionView::Given { target, source: cfg.source },
        None => if interactive {
            TargetDecisionView::Pick
        } else {
            TargetDecisionView::Refuse(no_target_messages())
        },
    }
}

/// Decides how the target is arrived at.
pub fn resolve_bootstrap_target(cfg: &BootstrapConfig, interactive: bool) -> (out: TargetDecision)
    ensures
        out.deep_view() == target_decision(cfg.deep_view(), interactive),
{
    match &cfg.target {
        Some(target) => TargetDecision::Given {
            target: target.clone(),
            source: cfg.source.clone(),
        },
        None => if interactive {
            TargetDecision::Pick
        } else {
            TargetDecision::Refuse(
                two(
                    fixed(
                        Level::Error,
                        "--target is required when not running interactively (no TTY detected)",
                    ),
                    fixed(Level::Status, "Use 'cim list-targets' to see available targets"),
                ),
            )
        },
    }
}

/// How the version is arrived at.
#[derive(Debug, PartialEq, Eq)]
pub enum VersionDecision {
    /// It was given, or is the default one.
    Given(Option<String>),
    /// It is to be picked from the versions that this source lists.
    Pick(String),
}

/// What a [`VersionDecision`] stands for.
pub enum VersionDecisionView {
    Given(Option<Seq<char>>),
    Pick(Seq<char>),
}

impl DeepView for VersionDecision {
    type V = VersionDecisionView;

    open spec fn deep_view(&self) -> VersionDecisionView {
        match self {
            VersionDecision::Given(version) => VersionDecisionView::Given(version.deep_view()),
            VersionDecision::Pick(source) => VersionDecisionView::Pick(source@),
        }
    }
}

/// How the version is arrived at: one that was given is taken as it is; one is
/// picked only if somebody can be asked and the source of the target is known;
/// else it is the default one.
pub open spec fn version_decision(
    cfg: BootstrapConfigView,
    interactive: bool,
    resolved_source: Option<Seq<char>>,
) -> VersionDecisionView {
    if cfg.version is Some {
        VersionDecisionView::Given(cfg.version)
    } else if interactive && resolved_source is Some {
        VersionDecisionView::Pick(resolved_source->0)
    } else {
        VersionDecisionView::Given(None)
    }
}

/// Decides how the version is arrived at.
pub fn resolve_bootstrap_version(
    cfg: &BootstrapConfig,
    interactive: bool,
    resolved_source: &Option<String>,
) -> (out: VersionDecision)
    ensures
        out.deep_view() == version_decision(
            cfg.deep_view(),
            interactive,
            resolved_source.deep_view(),
        ),
{
    if cfg.version.is_some() {
        return VersionDecision::Given(cfg.version.clone());
    }
    if !interactive {
        return VersionDecision::Given(None);
    }
    match resolved_source {
        Some(source) => VersionDecision::Pick(source.clone()),
        None => VersionDecision::Given(None),
    }
}

// ----------------------------------------------------------------------------
// Initialising the workspace
// ----------------------------------------------------------------------------

/// What initialising the workspace is asked to do: the installation is part of
/// it, but not the full one, and `sudo` may be used.
pub open spec fn init_config(
    cfg: BootstrapConfigView,
    target: Seq<char>,
    source: Option<Seq<char>>,
    version: Option<Seq<char>>,
    workspace: Seq<u8>,
    force: bool,
    symlink: bool,
) -> InitConfigView {
    InitConfigView {
        target,
        source,
        version,
        workspace: Some(workspace),
        no_mirror: cfg.no_mirror,
        mirror: cfg.mirror,
        force,
        match_pattern: cfg.match_pattern,
        include_group: cfg.include_group,
        exclude_group: cfg.exclude_group,
        verbose: cfg.verbose,
        install: true,
        full: false,
        no_sudo: false,
        symlink,
        yes: cfg.yes,
        cert_validation: cfg.cert_validation,
    }
}

/// Works out what initialising the workspace is asked to do.
pub fn run_workspace_init(
    cfg: &BootstrapConfig,
    target: &str,
    resolved_source: &Option<String>,
    version: &Option<String>,
    workspace_path: &FsPath,
    force: bool,
    symlink: bool,
) -> (out: InitConfig)
    ensures
        out.deep_view() == init_config(
            cfg.deep_view(),
            target@,
            resolved_source.deep_view(),
            version.deep_view(),
            workspace_path@,
            force,
            symlink,
        ),
        out.target@ == target@,
        out.source.deep_view() == resolved_source.deep_view(),
        out.version.deep_view() == version.deep_view(),
        out.no_mirror == cfg.no_mirror,
        out.mirror.deep_view() == cfg.mirror.deep_view(),
        out.force == force,
        out.match_pattern.deep_view() == cfg.match_pattern.deep_view(),
        out.include_group.deep_view() == cfg.include_group.deep_view(),
        out.exclude_group.deep_view() == cfg.exclude_group.deep_view(),
        out.verbose == cfg.verbose,
        out.install && !out.full && !out.no_sudo,
        out.symlink == symlink,
        out.yes == cfg.yes,
        out.cert_validation.deep_view() == cfg.cert_validation.deep_view(),
{
    InitConfig {
        target: target.to_owned(),
        source: resolved_source.clone(),
        version: version.clone(),
        workspace: Some(workspace_path.clone()),
        no_mirror: cfg.no_mirror,
        mirror: cfg.mirror.clone(),
        force,
        match_pattern: cfg.match_pattern.clone(),
        include_group: cfg.include_group.clone(),
        exclude_group: cfg.exclude_group.clone(),
        verbose: cfg.verbose,
        install: true,
        full: false,
        no_sudo: false,
        symlink,
        yes: cfg.yes,
        cert_validation: cfg.cert_validation.clone(),
    }
}

// ----------------------------------------------------------------------------
// Laws
// ----------------------------------------------------------------------------

/// What was given explicitly is taken as it is, whether somebody can be asked
/// or not.
pub proof fn law_explicit_request_is_honoured(
    cfg: BootstrapConfigView,
    interactive: bool,
    resolved_source: Option<Seq<char>>,
    configured: Seq<Seq<char>>,
)
    ensures
        cfg.target is Some ==> target_decision(cfg, interactive) == (TargetDecisionView::Given {
            target: cfg.target->0,
            source: cfg.source,
        }),
        cfg.version is Some ==> version_decision(cfg, interactive, resolved_source)
            == VersionDecisionView::Given(cfg.version),
        cfg.source is Some ==> sources_of(cfg, configured) == seq![cfg.source->0],
{
}

/// Where nobody can be asked, nothing is picked.
pub proof fn law_nothing_is_picked_unattended(
    cfg: BootstrapConfigView,
    resolved_source: Option<Seq<char>>,
)
    ensures
        !(target_decision(cfg, false) is Pick),
        !(version_decision(cfg, false, resolved_source) is Pick),
{
}

/// As long as the default is at least one job, no phase runs without any.
pub proof fn law_jobs_are_positive(user_config: Option<UserConfigView>, default_jobs: nat)
    requires
        default_jobs > 0,
    ensures
        jobs_of(user_config, default_jobs) > 0,
{
}

/// Force is on exactly where the user's config is there and turns it on; so is
/// the link into the mirror. What is turned off, or not set, is off.
pub proof fn law_flags_are_what_the_user_set(user_config: Option<UserConfigView>)
    ensures
        user_config is None ==> !force_of(user_config) && !symlink_of(user_config),
        user_config matches Some(c) ==> {
            &&& c.bootstrap.force is None ==> !force_of(user_config)
            &&& c.bootstrap.force matches Some(on) ==> force_of(user_config) == on
            &&& c.bootstrap.symlink is None ==> !symlink_of(user_config)
            &&& c.bootstrap.symlink matches Some(on) ==> symlink_of(user_config) == on
        },
{
}

/// Phases and jobs are what the user has set, and else the default: phases that
/// are set are taken as they are, even if there are none, and jobs unless they
/// are zero.
pub proof fn law_settings_win_over_defaults(
    user_config: Option<UserConfigView>,
    default_phases: Seq<Seq<char>>,
    default_jobs: nat,
)
    ensures
        user_config is None ==> phases_of(user_config, default_phases) == default_phases
            && jobs_of(user_config, default_jobs) == default_jobs,
        user_config matches Some(c) ==> {
            &&& c.bootstrap.phases is None ==> phases_of(user_config, default_phases)
                == default_phases
            &&& c.bootstrap.phases matches Some(phases) ==> phases_of(user_config, default_phases)
                == phases
            &&& c.bootstrap.jobs is None || c.bootstrap.jobs == Some(0u32) ==> jobs_of(
                user_config,
                default_jobs,
            ) == default_jobs
            &&& c.bootstrap.jobs is Some && c.bootstrap.jobs->0 > 0 ==> jobs_of(
                user_config,
                default_jobs,
            ) == c.bootstrap.jobs->0
        },
{
}

/// A config that was loaded is gone by, without a word; one that could not be is
/// passed over, with a warning that says why.
pub proof fn law_loaded_config_is_used(config: Option<UserConfigView>, why: Seq<char>)
    ensures
        usable_config(LoadedConfigView::Loaded(config)).0 == config,
        usable_config(LoadedConfigView::Loaded(config)).1.len() == 0,
        usable_config(LoadedConfigView::Failed(why)).0 is None,
        usable_config(LoadedConfigView::Failed(why)).1 == seq![
            MessageView {
                level: Level::Info,
                text: "Warning: Failed to load user config: "@ + why,
            },
        ],
{
}

/// Without an explicit source, every source that is configured is searched, in
/// its order.
pub proof fn law_configured_sources_are_searched(
    cfg: BootstrapConfigView,
    configured: Seq<Seq<char>>,
)
    ensures
        cfg.source is None ==> sources_of(cfg, configured) == configured,
        cfg.source is Some ==> sources_of(cfg, configured).len() == 1 && sources_of(
            cfg,
            configured,
        )[0] == cfg.source->0,
{
}

/// What was not given is picked where somebody can be asked: the target always,
/// the version from the source of the target if it is known. Where nobody can,
/// a missing target is refused and a missing version is the default one.
pub proof fn law_what_was_not_given_is_asked_for(
    cfg: BootstrapConfigView,
    source: Option<Seq<char>>,
)
    ensures
        cfg.target is None ==> target_decision(cfg, true) is Pick,
        cfg.target is None ==> target_decision(cfg, false) == TargetDecisionView::Refuse(
            seq![
                MessageView {
                    level: Level::Error,
                    text:
                        "--target is required when not running interactively (no TTY detected)"@,
                },
                MessageView {
                    level: Level::Status,
                    text: "Use 'cim list-targets' to see available targets"@,
                },
            ],
        ),
        cfg.version is None && source is Some ==> version_decision(cfg, true, source)
            == VersionDecisionView::Pick(source->0),
        cfg.version is None && source is None ==> version_decision(cfg, true, source)
            == VersionDecisionView::Given(None),
        cfg.version is None ==> version_decision(cfg, false, source)
            == VersionDecisionView::Given(None),
{
}

/// The workspace is initialised with what was asked for and what was found out,
/// each in its place.
pub proof fn law_init_is_given_the_request(
    cfg: BootstrapConfigView,
    target: Seq<char>,
    source: Option<Seq<char>>,
    version: Option<Seq<char>>,
    workspace: Seq<u8>,
    force: bool,
    symlink: bool,
)
    ensures
        ({
            let c = init_config(cfg, target, source, version, workspace, force, symlink);
            &&& c.target == target
            &&& c.source == source
            &&& c.version == version
            &&& c.workspace == Some(workspace)
            &&& c.no_mirror == cfg.no_mirror
            &&& c.mirror == cfg.mirror
            &&& c.force == force
            &&& c.match_pattern == cfg.match_pattern
            &&& c.include_group == cfg.include_group
            &&& c.exclude_group == cfg.exclude_group
            &&& c.verbose == cfg.verbose
            &&& c.install
            &&& !c.full
            &&& !c.no_sudo
            &&& c.symlink == symlink
            &&& c.yes == cfg.yes
            &&& c.cert_validation == cfg.cert_validation
        }),
{
}

} // verus!
