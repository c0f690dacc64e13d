//! The supervisor: startup order, shutdown order, and what is reported when
//! either goes wrong.

use crate::config::{default_config, loaded_view, Config, ConfigError, ConfigErrorView, ConfigView};
use crate::consts::DEFAULT_TRIDENT_CONF_FILE;
use crate::handler::{ConfigHandler, ConfigHandlerView, ModuleConfig, ResourceLimits};
use crate::net::{IpAddress, MacAddr};
use crate::state::AgentState;
use crate::text::str_eq;
use std::sync::Arc;
use vstd::prelude::*;

verus! {

/// How the agent is deployed: under a controller, or on its own.
#[derive(Clone, Copy, Debug, PartialEq, Eq, Structural)]
pub enum RunningMode {
    Managed,
    Standalone,
}

impl Default for RunningMode {
    fn default() -> (r: Self)
        ensures
            r == RunningMode::Managed,
    {
        RunningMode::Managed
    }
}

/// The stages of the agent's life, in the order they are passed through.
#[derive(Clone, Copy, Debug, PartialEq, Eq, Structural)]
pub enum Phase {
    Loading,
    ResolvingIdentity,
    Running,
    Stopping,
    Stopped,
}

impl Phase {
    /// The place of the phase in the order of the lifecycle.
    pub open spec fn rank(self) -> nat {
        match self {
            Phase::Loading => 0,
            Phase::ResolvingIdentity => 1,
            Phase::Running => 2,
            Phase::Stopping => 3,
            Phase::Stopped => 4,
        }
    }
}

/// The identity under which the agent talks to its controller.
#[derive(Clone, Copy, Debug, PartialEq, Eq)]
pub struct Identity {
    pub ctrl_ip: IpAddress,
    pub ctrl_mac: MacAddr,
}

/// An `Identity` as plain values.
pub struct IdentityView {
    pub ctrl_ip: IpAddress,
    pub ctrl_mac: Seq<u8>,
}

impl View for Identity {
    type V = IdentityView;

    open spec fn view(&self) -> IdentityView {
        IdentityView { ctrl_ip: self.ctrl_ip, ctrl_mac: self.ctrl_mac@ }
    }
}

impl Identity {
    /// The fixed identity of an agent that talks to nobody but its own
    /// host: the loopback address and the hardware address of all zeros.
    pub fn loopback() -> (r: Identity)
        ensures
            r.ctrl_ip matches IpAddress::V4(o) && o@ == seq![127u8, 0u8, 0u8, 1u8],
            r.ctrl_mac@ == seq![0u8, 0u8, 0u8, 0u8, 0u8, 0u8],
    {
        Identity { ctrl_ip: IpAddress::loopback(), ctrl_mac: MacAddr::zero() }
    }
}

/// Why the agent did not start, or stopped on its own.
#[derive(Clone, Debug, PartialEq, Eq)]
pub enum StartError {
    /// No configuration could be loaded, or the one loaded names no
    /// controller.
    Config(ConfigError),
    /// A resource the agent needs could not be had.
    Resource(String),
    /// The control-plane identity could not be determined.
    IdentityResolution(String),
    /// A worker thread could not be started.
    ThreadSpawn(String),
}

/// A `StartError` with its texts as character sequences.
pub enum StartErrorView {
    Config(ConfigErrorView),
    Resource(Seq<char>),
    IdentityResolution(Seq<char>),
    ThreadSpawn(Seq<char>),
}

impl View for StartError {
    type V = StartErrorView;

    open spec fn view(&self) -> StartErrorView {
        match self {
            StartError::Config(e) => StartErrorView::Config(e@),
            StartError::Resource(detail) => StartErrorView::Resource(detail@),
            StartError::IdentityResolution(detail) => StartErrorView::IdentityResolution(detail@),
            StartError::ThreadSpawn(detail) => StartErrorView::ThreadSpawn(detail@),
        }
    }
}

impl StartErrorView {
    /// The message shown for the error.
    pub open spec fn message(self) -> Seq<char> {
        match self {
            StartErrorView::Config(e) => e.message(),
            StartErrorView::Resource(detail) => detail,
            StartErrorView::IdentityResolution(detail) => detail,
            StartErrorView::ThreadSpawn(detail) => "Failed to create main-loop thread: "@ + detail,
        }
    }
}

/// The message for a pid file that could not be created.
pub open spec fn pid_file_failure(path: Seq<char>, detail: Seq<char>) -> Seq<char> {
    "Create pid file "@ + path + " failed: "@ + detail
}

/// The message for an identity that could not be resolved.
pub open spec fn identity_failure(detail: Seq<char>) -> Seq<char> {
    "get ctrl ip and mac failed: "@ + detail
}

impl StartError {
    /// The message shown for the error.
    pub fn to_string(&self) -> (r: String)
        ensures
            r@ == self@.message(),
    {
        match self {
            StartError::Config(e) => e.to_string(),
            StartError::Resource(detail) => detail.clone(),
            StartError::IdentityResolution(detail) => detail.clone(),
            StartError::ThreadSpawn(detail) => {
                "Failed to create main-loop thread: ".to_owned().concat(detail.as_str())
            },
        }
    }
}

/// What the host reports back to the supervisor.
#[derive(Debug)]
pub enum Event {
    /// A configuration document was read and loaded, or could not be.
    ConfigLoaded(Result<Config, ConfigError>),
    /// The pid file was created, or could not be.
    PidFileCreated(Result<(), String>),
    /// The control-plane identity was determined, or could not be.
    IdentityResolved(Result<Identity, String>),
    /// The container's resource limits, where the platform reports any.
    ResourceLimitsRead(Option<ResourceLimits>),
    /// The worker thread was started, or could not be.
    WorkerSpawned(Result<(), String>),
    /// A termination signal arrived, or a worker met a fatal condition.
    TerminationRequested,
    /// Every worker has ended.
    WorkersJoined,
}

/// An `Event` as plain values.
pub enum EventView {
    ConfigLoaded(Result<ConfigView, ConfigErrorView>),
    PidFileCreated(Result<(), Seq<char>>),
    IdentityResolved(Result<IdentityView, Seq<char>>),
    ResourceLimitsRead(Option<ResourceLimits>),
    WorkerSpawned(Result<(), Seq<char>>),
    TerminationRequested,
    WorkersJoined,
}

impl View for Event {
    type V = EventView;

    open spec fn view(&self) -> EventView {
        match self {
            Event::ConfigLoaded(r) => EventView::ConfigLoaded(loaded_view(*r)),
            Event::PidFileCreated(r) => EventView::PidFileCreated(
                match r {
                    Ok(_) => Ok(()),
                    Err(detail) => Err(detail@),
                },
            ),
            Event::IdentityResolved(r) => EventView::IdentityResolved(
                match r {
                    Ok(identity) => Ok(identity@),
                    Err(detail) => Err(detail@),
                },
            ),
            Event::ResourceLimitsRead(limits) => EventView::ResourceLimitsRead(*limits),
            Event::WorkerSpawned(r) => EventView::WorkerSpawned(
                match r {
                    Ok(_) => Ok(()),
                    Err(detail) => Err(detail@),
                },
            ),
            Event::TerminationRequested => EventView::TerminationRequested,
            Event::WorkersJoined => EventView::WorkersJoined,
        }
    }
}

/// What the supervisor asks of the host.
#[derive(Clone, Debug, PartialEq, Eq)]
pub enum Action {
    /// Read and load the configuration document at the path given.
    LoadConfig(String),
    /// Read and load the legacy document at the path given.
    LoadLegacyConfig(String),
    /// Create the pid file at the path given.
    CreatePidFile(String),
    /// Determine the identity by which the controller at the address given
    /// is reached.
    ResolveIdentity(String),
    /// Read the container's resource limits.
    ReadResourceLimits,
    /// Start the worker thread.
    SpawnWorker,
    /// Wait for a termination signal.
    AwaitTermination,
    /// Join the workers. The supervisor has asked every thread to
    /// terminate by then.
    Shutdown,
    /// Leave with the exit code given.
    Exit(i32),
}

/// An `Action` with its texts as character sequences.
pub enum ActionView {
    LoadConfig(Seq<char>),
    LoadLegacyConfig(Seq<char>),
    CreatePidFile(Seq<char>),
    ResolveIdentity(Seq<char>),
    ReadResourceLimits,
    SpawnWorker,
    AwaitTermination,
    Shutdown,
    Exit(i32),
}

impl View for Action {
    type V = ActionView;

    open spec fn view(&self) -> ActionView {
        match self {
            Action::LoadConfig(path) => ActionView::LoadConfig(path@),
            Action::LoadLegacyConfig(path) => ActionView::LoadLegacyConfig(path@),
            Action::CreatePidFile(path) => ActionView::CreatePidFile(path@),
            Action::ResolveIdentity(address) => ActionView::ResolveIdentity(address@),
            Action::ReadResourceLimits => ActionView::ReadResourceLimits,
            Action::SpawnWorker => ActionView::SpawnWorker,
            Action::AwaitTermination => ActionView::AwaitTermination,
            Action::Shutdown => ActionView::Shutdown,
            Action::Exit(code) => ActionView::Exit(*code),
        }
    }
}

/// Where the supervisor stands, with what it holds there.
pub enum Stage {
    LoadConfig,
    LoadLegacyConfig { primary_error: ConfigError },
    CreatePidFile { config: Config },
    ResolveIdentity { config: Config, controller: String },
    ReadResourceLimits { config: Config, identity: Identity },
    SpawnWorker { handler: ConfigHandler },
    AwaitTermination { handler: ConfigHandler },
    Shutdown { handler: ConfigHandler },
    Exit,
}

/// A `Stage` as plain values.
pub enum StageView {
    LoadConfig,
    LoadLegacyConfig { primary_error: ConfigErrorView },
    CreatePidFile { config: ConfigView },
    ResolveIdentity { config: ConfigView, controller: Seq<char> },
    ReadResourceLimits { config: ConfigView, identity: IdentityView },
    SpawnWorker { handler: ConfigHandlerView },
    AwaitTermination { handler: ConfigHandlerView },
    Shutdown { handler: ConfigHandlerView },
    Exit,
}

impl View for Stage {
    type V = StageView;

    open spec fn view(&self) -> StageView {
        match self {
            Stage::LoadConfig => StageView::LoadConfig,
            Stage::LoadLegacyConfig { primary_error } => StageView::LoadLegacyConfig {
                primary_error: primary_error@,
            },
            Stage::CreatePidFile { config } => StageView::CreatePidFile { config: config@ },
            Stage::ResolveIdentity { config, controller } => StageView::ResolveIdentity {
                config: config@,
                controller: controller@,
            },
            Stage::ReadResourceLimits { config, identity } => StageView::ReadResourceLimits {
                config: config@,
                identity: identity@,
            },
            Stage::SpawnWorker { handler } => StageView::SpawnWorker { handler: handler@ },
            Stage::AwaitTermination { handler } => StageView::AwaitTermination {
                handler: handler@,
            },
            Stage::Shutdown { handler } => StageView::Shutdown { handler: handler@ },
            Stage::Exit => StageView::Exit,
        }
    }
}

impl StageView {
    /// The phase of the lifecycle that the stage belongs to.
    pub open spec fn phase(self) -> Phase {
        match self {
            StageView::LoadConfig => Phase::Loading,
            StageView::LoadLegacyConfig { .. } => Phase::Loading,
            StageView::CreatePidFile { .. } => Phase::Loading,
            StageView::ResolveIdentity { .. } => Phase::ResolvingIdentity,
            StageView::ReadResourceLimits { .. } => Phase::Running,
            StageView::SpawnWorker { .. } => Phase::Running,
            StageView::AwaitTermination { .. } => Phase::Running,
            StageView::Shutdown { .. } => Phase::Stopping,
            StageView::Exit => Phase::Stopped,
        }
    }
}

/// The supervisor as plain values.
pub struct TridentView {
    pub stage: StageView,
    pub config_path: Seq<char>,
    pub agent_mode: RunningMode,
    pub sidecar_mode: bool,
    pub cgroups_disabled: bool,
    pub failure: Option<StartErrorView>,
    pub exit_code: i32,
}

/// The configuration of an agent that runs on its own: the defaults, with
/// the loopback address as its one controller.
pub open spec fn standalone_config() -> ConfigView {
    ConfigView {
        controller_ips: seq!["127.0.0.1"@],
        agent_mode: RunningMode::Standalone,
        ..default_config()
    }
}

impl TridentView {
    /// The supervisor stopped by a fatal error: nothing is left to do but
    /// to leave with a non-zero exit code.
    pub open spec fn fail(self, error: StartErrorView) -> TridentView {
        TridentView { stage: StageView::Exit, failure: Some(error), exit_code: 1, ..self }
    }

    /// The supervisor once a configuration is in hand: resource limits are
    /// not enforced if either the command line or the configuration says
    /// so, and a pid file is created first where one is configured.
    pub open spec fn accept_config(self, config: ConfigView) -> TridentView {
        let merged = TridentView {
            cgroups_disabled: self.cgroups_disabled || config.cgroups_disabled,
            ..self
        };
        if config.pid_file.len() > 0 {
            TridentView { stage: StageView::CreatePidFile { config }, ..merged }
        } else {
            merged.seek_identity(config)
        }
    }

    /// The supervisor on its way to resolve its identity, which takes a
    /// controller address to start from.
    pub open spec fn seek_identity(self, config: ConfigView) -> TridentView {
        if config.controller_ips.len() == 0 {
            self.fail(StartErrorView::Config(ConfigErrorView::ControllerIpsEmpty))
        } else {
            TridentView {
                stage: StageView::ResolveIdentity { config, controller: config.controller_ips[0] },
                ..self
            }
        }
    }

    /// The supervisor after an event. An event that does not answer what is
    /// pending changes nothing.
    pub open spec fn next(self, event: EventView) -> TridentView {
        match (self.stage, event) {
            (StageView::LoadConfig, EventView::ConfigLoaded(Ok(config))) => self.accept_config(
                config,
            ),
            (StageView::LoadConfig, EventView::ConfigLoaded(Err(error))) => {
                if error is YamlConfigInvalid {
                    TridentView {
                        stage: StageView::LoadLegacyConfig { primary_error: error },
                        ..self
                    }
                } else {
                    self.fail(StartErrorView::Config(error))
                }
            },
            (StageView::LoadLegacyConfig { .. }, EventView::ConfigLoaded(Ok(config))) => {
                self.accept_config(config)
            },
            (StageView::LoadLegacyConfig { primary_error }, EventView::ConfigLoaded(Err(_))) => {
                self.fail(StartErrorView::Config(primary_error))
            },
            (StageView::CreatePidFile { config }, EventView::PidFileCreated(Ok(_))) => {
                self.seek_identity(config)
            },
            (StageView::CreatePidFile { config }, EventView::PidFileCreated(Err(detail))) => {
                self.fail(StartErrorView::Resource(pid_file_failure(config.pid_file, detail)))
            },
            (
                StageView::ResolveIdentity { config, .. },
                EventView::IdentityResolved(Ok(identity)),
            ) => {
                TridentView { stage: StageView::ReadResourceLimits { config, identity }, ..self }
            },
            (StageView::ResolveIdentity { .. }, EventView::IdentityResolved(Err(detail))) => {
                self.fail(StartErrorView::IdentityResolution(identity_failure(detail)))
            },
            (
                StageView::ReadResourceLimits { config, identity },
                EventView::ResourceLimitsRead(limits),
            ) => TridentView {
                stage: StageView::SpawnWorker {
                    handler: ConfigHandlerView::initial(
                        config,
                        identity.ctrl_ip,
                        identity.ctrl_mac,
                        limits,
                    ),
                },
                ..self
            },
            (StageView::SpawnWorker { handler }, EventView::WorkerSpawned(Ok(_))) => TridentView {
                stage: StageView::AwaitTermination { handler },
                ..self
            },
            (StageView::SpawnWorker { handler }, EventView::WorkerSpawned(Err(detail))) => {
                TridentView {
                    stage: StageView::Shutdown { handler },
                    failure: Some(StartErrorView::ThreadSpawn(detail)),
                    exit_code: 1,
                    ..self
                }
            },
            (StageView::AwaitTermination { handler }, EventView::TerminationRequested) => {
                TridentView { stage: StageView::Shutdown { handler }, ..self }
            },
            (StageView::Shutdown { .. }, EventView::WorkersJoined) => TridentView {
                stage: StageView::Exit,
                ..self
            },
            _ => self,
        }
    }

    /// What the supervisor is waiting for the host to do.
    pub open spec fn pending(self) -> ActionView {
        match self.stage {
            StageView::LoadConfig => ActionView::LoadConfig(self.config_path),
            StageView::LoadLegacyConfig { .. } => ActionView::LoadLegacyConfig(
                DEFAULT_TRIDENT_CONF_FILE@,
            ),
            StageView::CreatePidFile { config } => ActionView::CreatePidFile(config.pid_file),
            StageView::ResolveIdentity { controller, .. } => ActionView::ResolveIdentity(
                controller,
            ),
            StageView::ReadResourceLimits { .. } => ActionView::ReadResourceLimits,
            StageView::SpawnWorker { .. } => ActionView::SpawnWorker,
            StageView::AwaitTermination { .. } => ActionView::AwaitTermination,
            StageView::Shutdown { .. } => ActionView::Shutdown,
            StageView::Exit => ActionView::Exit(self.exit_code),
        }
    }

    /// What holds of the supervisor at every point of its life: it has
    /// failed exactly if its exit code is not zero, the code is then one,
    /// a supervisor that has failed is stopping or has stopped, and the
    /// controller address from which an identity is sought is the first of
    /// the configuration.
    pub open spec fn consistent(self) -> bool {
        &&& self.failure is Some <==> self.exit_code != 0
        &&& self.exit_code == 0 || self.exit_code == 1
        &&& self.failure is Some ==> self.stage is Exit || self.stage is Shutdown
        &&& self.stage matches StageView::ResolveIdentity { config, controller }
            ==> config.controller_ips.len() > 0 && controller == config.controller_ips[0]
    }
}

/// The supervisor at the start. A managed agent begins by loading its
/// configuration; an agent on its own takes the standalone configuration
/// and goes on from there.
pub open spec fn start_spec(
    config_path: Seq<char>,
    agent_mode: RunningMode,
    sidecar_mode: bool,
    cgroups_disabled: bool,
) -> TridentView {
    let fresh = TridentView {
        stage: StageView::LoadConfig,
        config_path,
        agent_mode,
        sidecar_mode,
        cgroups_disabled,
        failure: None,
        exit_code: 0,
    };
    match agent_mode {
        RunningMode::Managed => fresh,
        RunningMode::Standalone => fresh.accept_config(standalone_config()),
    }
}

/// The supervisor. It is started once, told of every event by `handle`, and
/// says through `pending` what it waits for; the host does that and nothing
/// else.
pub struct Trident {
    stage: Stage,
    state: Arc<AgentState>,
    config_path: String,
    agent_mode: RunningMode,
    sidecar_mode: bool,
    cgroups_disabled: bool,
    failure: Option<StartError>,
    exit_code: i32,
}

impl View for Trident {
    type V = TridentView;

    closed spec fn view(&self) -> TridentView {
        TridentView {
            stage: self.stage@,
            config_path: self.config_path@,
            agent_mode: self.agent_mode,
            sidecar_mode: self.sidecar_mode,
            cgroups_disabled: self.cgroups_disabled,
            failure: match self.failure {
                Some(e) => Some(e@),
                None => None,
            },
            exit_code: self.exit_code,
        }
    }
}

/// The configuration of an agent that runs on its own.
fn standalone() -> (config: Config)
    ensures
        config@ == standalone_config(),
{
    let mut config = Config::default();
    let mut ips: Vec<String> = Vec::new();
    ips.push("127.0.0.1".to_owned());
    config.controller_ips = ips;
    config.agent_mode = RunningMode::Standalone;
    assert(config@.controller_ips =~= seq!["127.0.0.1"@]);
    config
}

impl Trident {
    /// Starts the supervisor for the configuration document at
    /// `config_path`.
    pub fn start(
        config_path: &str,
        agent_mode: RunningMode,
        sidecar_mode: bool,
        cgroups_disabled: bool,
    ) -> (r: Trident)
        ensures
            r@ == start_spec(config_path@, agent_mode, sidecar_mode, cgroups_disabled),
            r@.consistent(),
    {
        let fresh = Trident {
            stage: Stage::LoadConfig,
            state: AgentState::shared(),
            config_path: config_path.to_owned(),
            agent_mode,
            sidecar_mode,
            cgroups_disabled,
            failure: None,
            exit_code: 0,
        };
        proof {
            lemma_start_is_consistent(config_path@, agent_mode, sidecar_mode, cgroups_disabled);
        }
        match agent_mode {
            RunningMode::Managed => fresh,
            RunningMode::Standalone => fresh.accept_config(standalone()),
        }
    }

    fn fail(self, error: StartError) -> (r: Trident)
        ensures
            r@ == self@.fail(error@),
            r.signal() == self.signal(),
    {
        Trident {
            stage: Stage::Exit,
            state: self.state,
            config_path: self.config_path,
            agent_mode: self.agent_mode,
            sidecar_mode: self.sidecar_mode,
            cgroups_disabled: self.cgroups_disabled,
            failure: Some(error),
            exit_code: 1,
        }
    }

    fn at(self, stage: Stage) -> (r: Trident)
        ensures
            r@ == (TridentView { stage: stage@, ..self@ }),
            r.signal() == self.signal(),
    {
        Trident {
            stage,
            state: self.state,
            config_path: self.config_path,
            agent_mode: self.agent_mode,
            sidecar_mode: self.sidecar_mode,
            cgroups_disabled: self.cgroups_disabled,
            failure: self.failure,
            exit_code: self.exit_code,
        }
    }

    fn accept_config(self, config: Config) -> (r: Trident)
        ensures
            r@ == self@.accept_config(config@),
            r.signal() == self.signal(),
    {
        let merged = Trident {
            stage: self.stage,
            state: self.state,
            config_path: self.config_path,
            agent_mode: self.agent_mode,
            sidecar_mode: self.sidecar_mode,
            cgroups_disabled: self.cgroups_disabled || config.cgroups_disabled,
            failure: self.failure,
            exit_code: self.exit_code,
        };
        if !config.pid_file.as_str().is_empty() {
            merged.at(Stage::CreatePidFile { config })
        } else {
            merged.seek_identity(config)
        }
    }

    fn seek_identity(self, config: Config) -> (r: Trident)
        ensures
            r@ == self@.seek_identity(config@),
            r.signal() == self.signal(),
    {
        if config.controller_ips.len() == 0 {
            self.fail(StartError::Config(ConfigError::ControllerIpsEmpty))
        } else {
            let controller = config.controller_ips[0].clone();
            self.at(Stage::ResolveIdentity { config, controller })
        }
    }

    /// Takes in an event and moves to the stage that follows from it. On
    /// the way into shutdown the supervisor asks every thread to terminate,
    /// before the host is told to join them.
    pub fn handle(self, event: Event) -> (r: Trident)
        ensures
            r@ == self@.next(event@),
            self@.consistent() ==> r@.consistent(),
            r.signal() == self.signal(),
    {
        proof {
            if self@.consistent() {
                lemma_next_keeps_consistent(self@, event@);
            }
        }
        let Trident {
            stage,
            state,
            config_path,
            agent_mode,
            sidecar_mode,
            cgroups_disabled,
            failure,
            exit_code,
        } = self;
        let rest = Trident {
            stage: Stage::Exit,
            state,
            config_path,
            agent_mode,
            sidecar_mode,
            cgroups_disabled,
            failure,
            exit_code,
        };
        match (stage, event) {
            (Stage::LoadConfig, Event::ConfigLoaded(Ok(config))) => rest.accept_config(config),
            (Stage::LoadConfig, Event::ConfigLoaded(Err(error))) => {
                match error {
                    ConfigError::YamlConfigInvalid(_) => rest.at(
                        Stage::LoadLegacyConfig { primary_error: error },
                    ),
                    _ => rest.fail(StartError::Config(error)),
                }
            },
            (Stage::LoadLegacyConfig { .. }, Event::ConfigLoaded(Ok(config))) => {
                rest.accept_config(config)
            },
            (Stage::LoadLegacyConfig { primary_error }, Event::ConfigLoaded(Err(_))) => {
                rest.fail(StartError::Config(primary_error))
            },
            (Stage::CreatePidFile { config }, Event::PidFileCreated(Ok(_))) => {
                rest.seek_identity(config)
            },
            (Stage::CreatePidFile { config }, Event::PidFileCreated(Err(detail))) => {
                let message = "Create pid file ".to_owned().concat(config.pid_file.as_str()).concat(
                    " failed: ",
                ).concat(detail.as_str());
                rest.fail(StartError::Resource(message))
            },
            (Stage::ResolveIdentity { config, .. }, Event::IdentityResolved(Ok(identity))) => {
                rest.at(Stage::ReadResourceLimits { config, identity })
            },
            (Stage::ResolveIdentity { .. }, Event::IdentityResolved(Err(detail))) => {
                let message = "get ctrl ip and mac failed: ".to_owned().concat(detail.as_str());
                rest.fail(StartError::IdentityResolution(message))
            },
            (Stage::ReadResourceLimits { config, identity }, Event::ResourceLimitsRead(limits)) => {
                let handler = ConfigHandler::new(
                    config,
                    identity.ctrl_ip,
                    identity.ctrl_mac,
                    limits,
                );
                rest.at(Stage::SpawnWorker { handler })
            },
            (Stage::SpawnWorker { handler }, Event::WorkerSpawned(Ok(_))) => {
                rest.at(Stage::AwaitTermination { handler })
            },
            (Stage::SpawnWorker { handler }, Event::WorkerSpawned(Err(detail))) => {
                rest.state.request_termination();
                Trident {
                    stage: Stage::Shutdown { handler },
                    state: rest.state,
                    config_path: rest.config_path,
                    agent_mode: rest.agent_mode,
                    sidecar_mode: rest.sidecar_mode,
                    cgroups_disabled: rest.cgroups_disabled,
                    failure: Some(StartError::ThreadSpawn(detail)),
                    exit_code: 1,
                }
            },
            (Stage::AwaitTermination { handler }, Event::TerminationRequested) => {
                rest.state.request_termination();
                rest.at(Stage::Shutdown { handler })
            },
            (Stage::Shutdown { .. }, Event::WorkersJoined) => rest,
            (stage, _) => rest.at(stage),
        }
    }

    /// What the supervisor waits for the host to do.
    pub fn pending(&self) -> (r: Action)
        ensures
            r@ == self@.pending(),
    {
        match &self.stage {
            Stage::LoadConfig => Action::LoadConfig(self.config_path.clone()),
            Stage::LoadLegacyConfig { .. } => Action::LoadLegacyConfig(
                DEFAULT_TRIDENT_CONF_FILE.to_owned(),
            ),
            Stage::CreatePidFile { config } => Action::CreatePidFile(config.pid_file.clone()),
            Stage::ResolveIdentity { controller, .. } => Action::ResolveIdentity(
                controller.clone(),
            ),
            Stage::ReadResourceLimits { .. } => Action::ReadResourceLimits,
            Stage::SpawnWorker { .. } => Action::SpawnWorker,
            Stage::AwaitTermination { .. } => Action::AwaitTermination,
            Stage::Shutdown { .. } => Action::Shutdown,
            Stage::Exit => Action::Exit(self.exit_code),
        }
    }
}

/// The supervisor starts out consistent.
pub proof fn lemma_start_is_consistent(
    config_path: Seq<char>,
    agent_mode: RunningMode,
    sidecar_mode: bool,
    cgroups_disabled: bool,
)
    ensures
        start_spec(config_path, agent_mode, sidecar_mode, cgroups_disabled).consistent(),
{
    assert(standalone_config().controller_ips.len() > 0);
}

/// No event takes a consistent supervisor to one that is not.
pub proof fn lemma_next_keeps_consistent(s: TridentView, event: EventView)
    requires
        s.consistent(),
    ensures
        s.next(event).consistent(),
{
}

impl Trident {
    /// The lifecycle signal that the supervisor holds from its start to its
    /// end, and through which it asks for termination on its way into
    /// shutdown.
    pub closed spec fn signal(&self) -> AgentState {
        *self.state
    }

    /// The lifecycle signal, to hand to a worker: another pointer to the
    /// supervisor's own.
    pub fn state(&self) -> (r: Arc<AgentState>)
        ensures
            *r == self.signal(),
    {
        AgentState::share(&self.state)
    }

    /// The phase of the lifecycle that the supervisor is in.
    pub fn phase(&self) -> (r: Phase)
        ensures
            r == self@.stage.phase(),
    {
        match &self.stage {
            Stage::LoadConfig => Phase::Loading,
            Stage::LoadLegacyConfig { .. } => Phase::Loading,
            Stage::CreatePidFile { .. } => Phase::Loading,
            Stage::ResolveIdentity { .. } => Phase::ResolvingIdentity,
            Stage::ReadResourceLimits { .. } => Phase::Running,
            Stage::SpawnWorker { .. } => Phase::Running,
            Stage::AwaitTermination { .. } => Phase::Running,
            Stage::Shutdown { .. } => Phase::Stopping,
            Stage::Exit => Phase::Stopped,
        }
    }

    /// The code to leave with: zero unless the supervisor has failed.
    pub fn exit_code(&self) -> (r: i32)
        ensures
            r == self@.exit_code,
    {
        self.exit_code
    }

    /// The error that stopped the supervisor, if one did.
    pub fn failure(&self) -> (r: &Option<StartError>)
        ensures
            match *r {
                Some(e) => self@.failure == Some(e@),
                None => self@.failure is None,
            },
    {
        &self.failure
    }

    /// Whether resource limits go unenforced: asked for on the command
    /// line, or by the configuration once one is in hand.
    pub fn cgroups_disabled(&self) -> (r: bool)
        ensures
            r == self@.cgroups_disabled,
    {
        self.cgroups_disabled
    }

    /// The deployment mode the supervisor was started in.
    pub fn agent_mode(&self) -> (r: RunningMode)
        ensures
            r == self@.agent_mode,
    {
        self.agent_mode
    }

    /// Whether the agent runs as a sidecar.
    pub fn sidecar_mode(&self) -> (r: bool)
        ensures
            r == self@.sidecar_mode,
    {
        self.sidecar_mode
    }

    /// The configuration handler, from the time workers are about to start
    /// until they have all ended.
    pub fn handler(&self) -> (r: Option<&ConfigHandler>)
        ensures
            match r {
                Some(h) => self@.stage.handler() == Some(h@),
                None => self@.stage.handler() is None,
            },
    {
        match &self.stage {
            Stage::SpawnWorker { handler } => Some(handler),
            Stage::AwaitTermination { handler } => Some(handler),
            Stage::Shutdown { handler } => Some(handler),
            _ => None,
        }
    }

    /// Publishes a module configuration through the handler while the
    /// workers run. Before they start and once shutdown has begun, nothing
    /// is published and nothing changes.
    pub fn publish(self, next: ModuleConfig) -> (r: Trident)
        ensures
            r@ == self@.publish(next),
            r.signal() == self.signal(),
    {
        let Trident {
            stage,
            state,
            config_path,
            agent_mode,
            sidecar_mode,
            cgroups_disabled,
            failure,
            exit_code,
        } = self;
        let stage = match stage {
            Stage::AwaitTermination { handler } => {
                let mut handler = handler;
                handler.publish(next);
                Stage::AwaitTermination { handler }
            },
            other => other,
        };
        Trident {
            stage,
            state,
            config_path,
            agent_mode,
            sidecar_mode,
            cgroups_disabled,
            failure,
            exit_code,
        }
    }
}

impl StageView {
    /// The configuration handler that the stage holds, if it holds one.
    pub open spec fn handler(self) -> Option<ConfigHandlerView> {
        match self {
            StageView::SpawnWorker { handler } => Some(handler),
            StageView::AwaitTermination { handler } => Some(handler),
            StageView::Shutdown { handler } => Some(handler),
            _ => None,
        }
    }
}

impl TridentView {
    /// The supervisor after `next` was published: while the workers run,
    /// the handler holds it; at any other time nothing changes.
    pub open spec fn publish(self, next: ModuleConfig) -> TridentView {
        match self.stage {
            StageView::AwaitTermination { handler } => TridentView {
                stage: StageView::AwaitTermination { handler: handler.publish(next) },
                ..self
            },
            _ => self,
        }
    }
}

/// The legacy document stands in for a primary document that does not
/// parse: if the legacy one loads, the supervisor goes on exactly as if the
/// primary one had loaded to that configuration; if it does not, the error
/// reported is the primary document's, not the legacy one's. A primary
/// document that fails in any other way is fatal at once.
pub proof fn lemma_legacy_fallback(
    s: TridentView,
    primary: ConfigErrorView,
    legacy: Result<ConfigView, ConfigErrorView>,
)
    requires
        s.stage is LoadConfig,
    ensures
        primary is YamlConfigInvalid ==> s.next(EventView::ConfigLoaded(Err(primary))).pending()
            == ActionView::LoadLegacyConfig(DEFAULT_TRIDENT_CONF_FILE@),
        primary is YamlConfigInvalid && legacy is Ok ==> s.next(
            EventView::ConfigLoaded(Err(primary)),
        ).next(EventView::ConfigLoaded(legacy)) == s.next(EventView::ConfigLoaded(legacy)),
        primary is YamlConfigInvalid && legacy is Err ==> s.next(
            EventView::ConfigLoaded(Err(primary)),
        ).next(EventView::ConfigLoaded(legacy)) == s.fail(StartErrorView::Config(primary)),
        !(primary is YamlConfigInvalid) ==> s.next(EventView::ConfigLoaded(Err(primary)))
            == s.fail(StartErrorView::Config(primary)),
{
}

/// The lifecycle only moves forward: no event takes the supervisor back to
/// an earlier phase.
pub proof fn lemma_phases_move_forward(s: TridentView, event: EventView)
    ensures
        s.stage.phase().rank() <= s.next(event).stage.phase().rank(),
{
}

/// A supervisor that has stopped stays as it is.
pub proof fn lemma_stopped_is_final(s: TridentView, event: EventView)
    requires
        s.stage is Exit,
    ensures
        s.next(event) == s,
{
}

/// A failure before any worker was asked for stops the supervisor at once,
/// with nothing left to join; a worker that cannot be started leads to an
/// orderly shutdown instead. Either way the exit code is then not zero.
pub proof fn lemma_failure_starts_no_worker(s: TridentView, event: EventView)
    requires
        s.failure is None,
        s.next(event).failure is Some,
    ensures
        s.stage is SpawnWorker ==> s.next(event).stage is Shutdown,
        !(s.stage is SpawnWorker) ==> s.stage.phase().rank() < Phase::Running.rank() && s.next(
            event,
        ).stage is Exit,
        s.next(event).exit_code == 1,
{
}

/// Workers are asked for only with a handler in hand, built from the
/// configuration that was loaded and the identity that was resolved.
pub proof fn lemma_worker_needs_handler(s: TridentView, event: EventView)
    requires
        !(s.stage is SpawnWorker),
        s.next(event).stage is SpawnWorker,
    ensures
        s.stage matches StageView::ReadResourceLimits { config, identity } && event
            matches EventView::ResourceLimitsRead(limits) && s.next(event).stage.handler() == Some(
            ConfigHandlerView::initial(config, identity.ctrl_ip, identity.ctrl_mac, limits),
        ),
{
}

/// Shutdown is entered only from a running supervisor, and left only when
/// every worker has ended; the exit code it had is the one it leaves with.
pub proof fn lemma_shutdown_is_orderly(s: TridentView, event: EventView)
    ensures
        !(s.stage is Shutdown) && s.next(event).stage is Shutdown ==> s.stage.phase()
            == Phase::Running,
        s.stage is Shutdown && s.next(event).stage is Exit ==> event is WorkersJoined && s.next(
            event,
        ).exit_code == s.exit_code,
        s.stage is Shutdown ==> s.next(event).stage is Shutdown || s.next(event).stage is Exit,
{
}

/// What the build recorded of itself.
#[derive(Clone, Copy, Debug)]
pub struct VersionInfo {
    pub name: &'static str,
    pub branch: &'static str,
    pub commit_id: &'static str,
    pub rev_count: &'static str,
    pub compiler: &'static str,
    pub compile_time: &'static str,
    pub revision: &'static str,
}

/// The edition that a build name stands for, if it is one of the two known
/// builds.
pub open spec fn edition_of(name: Seq<char>) -> Option<Seq<char>> {
    if name == "deepflow-agent-ce"@ {
        Some("deepflow-agent community edition"@)
    } else if name == "deepflow-agent-ee"@ {
        Some("deepflow-agent enterprise edition"@)
    } else {
        None
    }
}

impl VersionInfo {
    /// The version report: the revision count and commit on the first line,
    /// then one labelled line for each of edition, branch, commit, revision
    /// count, compiler and compile time.
    pub open spec fn report(self) -> Seq<char> {
        self.rev_count@ + "-"@ + self.commit_id@ + "\nName: "@ + edition_of(self.name@)->Some_0
            + "\nBranch: "@ + self.branch@ + "\nCommitId: "@ + self.commit_id@ + "\nRevCount: "@
            + self.rev_count@ + "\nCompiler: "@ + self.compiler@ + "\nCompileTime: "@
            + self.compile_time@
    }

    /// The edition of this build, or `None` for a build name that is not
    /// known.
    pub fn edition(&self) -> (r: Option<&'static str>)
        ensures
            match r {
                Some(e) => edition_of(self.name@) == Some(e@),
                None => edition_of(self.name@) is None,
            },
    {
        if str_eq(self.name, "deepflow-agent-ce") {
            Some("deepflow-agent community edition")
        } else if str_eq(self.name, "deepflow-agent-ee") {
            Some("deepflow-agent enterprise edition")
        } else {
            None
        }
    }

    /// The version report as text. The build name must be a known one.
    pub fn to_string(&self) -> (r: String)
        requires
            edition_of(self.name@) is Some,
        ensures
            r@ == self.report(),
    {
        let edition = match self.edition() {
            Some(e) => e,
            None => "",
        };
        let mut out = self.rev_count.to_owned();
        out.append("-");
        out.append(self.commit_id);
        out.append("\nName: ");
        out.append(edition);
        out.append("\nBranch: ");
        out.append(self.branch);
        out.append("\nCommitId: ");
        out.append(self.commit_id);
        out.append("\nRevCount: ");
        out.append(self.rev_count);
        out.append("\nCompiler: ");
        out.append(self.compiler);
        out.append("\nCompileTime: ");
        out.append(self.compile_time);
        out
    }
}

} // verus!
