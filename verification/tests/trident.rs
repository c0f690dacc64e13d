use deepflow_agent::config::{Config, ConfigError};
use deepflow_agent::handler::{ModuleConfig, ResourceLimits};
use deepflow_agent::net::{IpAddress, MacAddr};
use deepflow_agent::trident::{
    Action, Event, Identity, Phase, RunningMode, StartError, Trident, VersionInfo,
};

fn managed() -> Trident {
    Trident::start("/etc/deepflow-agent.yaml", RunningMode::Managed, false, false)
}

fn config_with(ip: &str) -> Config {
    Config { controller_ips: vec![ip.to_string()], ..Config::default() }
}

fn yaml_error(detail: &str) -> ConfigError {
    ConfigError::YamlConfigInvalid(detail.to_string())
}

fn identity() -> Identity {
    Identity { ctrl_ip: IpAddress::V4([10, 0, 0, 5]), ctrl_mac: MacAddr::from([0, 1, 2, 3, 4, 5]) }
}

fn running() -> Trident {
    managed()
        .handle(Event::ConfigLoaded(Ok(config_with("10.0.0.1"))))
        .handle(Event::IdentityResolved(Ok(identity())))
        .handle(Event::ResourceLimitsRead(None))
        .handle(Event::WorkerSpawned(Ok(())))
}

#[test]
fn running_mode_defaults_to_managed() {
    assert_eq!(RunningMode::default(), RunningMode::Managed);
}

#[test]
fn managed_agent_begins_by_loading_its_configuration() {
    let t = managed();
    assert_eq!(t.phase(), Phase::Loading);
    assert_eq!(t.pending(), Action::LoadConfig("/etc/deepflow-agent.yaml".to_string()));
    assert_eq!(t.exit_code(), 0);
    assert_eq!(t.failure(), &None);
    assert_eq!(t.agent_mode(), RunningMode::Managed);
    assert!(!t.sidecar_mode());
    assert!(!t.cgroups_disabled());
    assert!(t.handler().is_none());
}

#[test]
fn standalone_agent_skips_loading_and_uses_loopback() {
    let t = Trident::start("/ignored.yaml", RunningMode::Standalone, true, false);
    assert_eq!(t.phase(), Phase::ResolvingIdentity);
    assert_eq!(t.pending(), Action::ResolveIdentity("127.0.0.1".to_string()));
    assert_eq!(t.agent_mode(), RunningMode::Standalone);
    assert!(t.sidecar_mode());
    let t = t
        .handle(Event::IdentityResolved(Ok(Identity::loopback())))
        .handle(Event::ResourceLimitsRead(None));
    let h = t.handler().unwrap();
    let mut expected = Config::default();
    expected.controller_ips = vec!["127.0.0.1".to_string()];
    expected.agent_mode = RunningMode::Standalone;
    assert_eq!(h.static_config, expected);
    assert_eq!(h.ctrl_ip, IpAddress::V4([127, 0, 0, 1]));
    assert_eq!(h.ctrl_mac, MacAddr::zero());
}

#[test]
fn startup_runs_through_its_phases_in_order() {
    let t = managed().handle(Event::ConfigLoaded(Ok(config_with("10.0.0.1"))));
    assert_eq!(t.phase(), Phase::ResolvingIdentity);
    assert_eq!(t.pending(), Action::ResolveIdentity("10.0.0.1".to_string()));
    let t = t.handle(Event::IdentityResolved(Ok(identity())));
    assert_eq!(t.phase(), Phase::Running);
    assert_eq!(t.pending(), Action::ReadResourceLimits);
    assert!(t.handler().is_none());
    let t = t.handle(Event::ResourceLimitsRead(Some(ResourceLimits {
        cpu_millicores: 2000,
        memory_bytes: 4096,
    })));
    assert_eq!(t.pending(), Action::SpawnWorker);
    {
        let h = t.handler().unwrap();
        assert_eq!(h.static_config, config_with("10.0.0.1"));
        assert_eq!(h.ctrl_ip, IpAddress::V4([10, 0, 0, 5]));
        assert_eq!(h.ctrl_mac, MacAddr::from([0, 1, 2, 3, 4, 5]));
        assert_eq!(h.container_cpu_limit, 2000);
        assert_eq!(h.container_mem_limit, 4096);
        assert_eq!(*h.read(), ModuleConfig { enabled: false });
    }
    let t = t.handle(Event::WorkerSpawned(Ok(())));
    assert_eq!(t.phase(), Phase::Running);
    assert_eq!(t.pending(), Action::AwaitTermination);
    let signal = t.state();
    assert!(!signal.is_terminated());
    let t = t.handle(Event::TerminationRequested);
    assert!(signal.is_terminated());
    assert!(t.state().is_terminated());
    assert_eq!(t.phase(), Phase::Stopping);
    assert_eq!(t.pending(), Action::Shutdown);
    assert!(t.handler().is_some());
    let t = t.handle(Event::WorkersJoined);
    assert_eq!(t.phase(), Phase::Stopped);
    assert_eq!(t.pending(), Action::Exit(0));
    assert_eq!(t.failure(), &None);
    assert!(t.handler().is_none());
}

#[test]
fn legacy_document_stands_in_for_a_primary_that_does_not_parse() {
    let t = managed().handle(Event::ConfigLoaded(Err(yaml_error("primary is broken"))));
    assert_eq!(t.phase(), Phase::Loading);
    assert_eq!(t.pending(), Action::LoadLegacyConfig("/etc/trident.yaml".to_string()));
    assert_eq!(t.failure(), &None);
    let t = t.handle(Event::ConfigLoaded(Ok(config_with("10.9.9.9"))));
    assert_eq!(t.pending(), Action::ResolveIdentity("10.9.9.9".to_string()));
    let t = t
        .handle(Event::IdentityResolved(Ok(identity())))
        .handle(Event::ResourceLimitsRead(None));
    assert_eq!(t.handler().unwrap().static_config, config_with("10.9.9.9"));
    assert_eq!(t.exit_code(), 0);
}

#[test]
fn two_broken_documents_report_the_primary_error() {
    let t = managed()
        .handle(Event::ConfigLoaded(Err(yaml_error("primary is broken"))))
        .handle(Event::ConfigLoaded(Err(yaml_error("legacy is broken too"))));
    assert_eq!(t.phase(), Phase::Stopped);
    assert_eq!(t.failure(), &Some(StartError::Config(yaml_error("primary is broken"))));
    assert_eq!(t.pending(), Action::Exit(1));
}

#[test]
fn legacy_that_fails_otherwise_still_reports_the_primary_error() {
    let t = managed()
        .handle(Event::ConfigLoaded(Err(yaml_error("primary is broken"))))
        .handle(Event::ConfigLoaded(Err(ConfigError::ControllerIpsInvalid)));
    assert_eq!(t.failure(), &Some(StartError::Config(yaml_error("primary is broken"))));
    assert_eq!(t.exit_code(), 1);
}

#[test]
fn other_load_errors_are_fatal_without_fallback() {
    let t = managed().handle(Event::ConfigLoaded(Err(ConfigError::ControllerIpsInvalid)));
    assert_eq!(t.phase(), Phase::Stopped);
    assert_eq!(t.failure(), &Some(StartError::Config(ConfigError::ControllerIpsInvalid)));
    assert_eq!(t.pending(), Action::Exit(1));
}

#[test]
fn configuration_without_a_controller_is_fatal() {
    let t = managed().handle(Event::ConfigLoaded(Ok(Config::default())));
    assert_eq!(t.phase(), Phase::Stopped);
    assert_eq!(t.failure(), &Some(StartError::Config(ConfigError::ControllerIpsEmpty)));
    assert_eq!(t.exit_code(), 1);
}

#[test]
fn pid_file_is_created_where_one_is_configured() {
    let mut config = config_with("10.0.0.1");
    config.pid_file = "/run/agent.pid".to_string();
    let t = managed().handle(Event::ConfigLoaded(Ok(config)));
    assert_eq!(t.phase(), Phase::Loading);
    assert_eq!(t.pending(), Action::CreatePidFile("/run/agent.pid".to_string()));
    let t = t.handle(Event::PidFileCreated(Ok(())));
    assert_eq!(t.pending(), Action::ResolveIdentity("10.0.0.1".to_string()));
}

#[test]
fn pid_file_failure_is_fatal() {
    let mut config = config_with("10.0.0.1");
    config.pid_file = "/run/agent.pid".to_string();
    let t = managed()
        .handle(Event::ConfigLoaded(Ok(config)))
        .handle(Event::PidFileCreated(Err("permission denied".to_string())));
    assert_eq!(t.phase(), Phase::Stopped);
    assert_eq!(
        t.failure(),
        &Some(StartError::Resource(
            "Create pid file /run/agent.pid failed: permission denied".to_string()
        ))
    );
    assert_eq!(t.pending(), Action::Exit(1));
}

#[test]
fn identity_failure_is_fatal() {
    let t = managed()
        .handle(Event::ConfigLoaded(Ok(config_with("10.0.0.1"))))
        .handle(Event::IdentityResolved(Err("no route to host".to_string())));
    assert_eq!(t.phase(), Phase::Stopped);
    assert!(!t.state().is_terminated());
    assert_eq!(
        t.failure(),
        &Some(StartError::IdentityResolution(
            "get ctrl ip and mac failed: no route to host".to_string()
        ))
    );
    assert_eq!(t.exit_code(), 1);
    assert!(t.handler().is_none());
}

#[test]
fn worker_that_cannot_start_leads_to_an_orderly_shutdown() {
    let t = managed()
        .handle(Event::ConfigLoaded(Ok(config_with("10.0.0.1"))))
        .handle(Event::IdentityResolved(Ok(identity())))
        .handle(Event::ResourceLimitsRead(None))
        .handle(Event::WorkerSpawned(Err("resource temporarily unavailable".to_string())));
    assert!(t.state().is_terminated());
    assert_eq!(t.phase(), Phase::Stopping);
    assert_eq!(t.pending(), Action::Shutdown);
    assert_eq!(
        t.failure(),
        &Some(StartError::ThreadSpawn("resource temporarily unavailable".to_string()))
    );
    let t = t.handle(Event::WorkersJoined);
    assert_eq!(t.pending(), Action::Exit(1));
}

#[test]
fn cgroups_are_disabled_by_flag_or_by_configuration() {
    let by_flag = Trident::start("/c.yaml", RunningMode::Managed, false, true)
        .handle(Event::ConfigLoaded(Ok(config_with("10.0.0.1"))));
    assert!(by_flag.cgroups_disabled());
    let mut config = config_with("10.0.0.1");
    config.cgroups_disabled = true;
    let by_config = managed().handle(Event::ConfigLoaded(Ok(config)));
    assert!(by_config.cgroups_disabled());
    let neither = managed().handle(Event::ConfigLoaded(Ok(config_with("10.0.0.1"))));
    assert!(!neither.cgroups_disabled());
}

#[test]
fn supervisor_ignores_events_out_of_turn() {
    let t = managed()
        .handle(Event::WorkersJoined)
        .handle(Event::TerminationRequested)
        .handle(Event::WorkerSpawned(Ok(())))
        .handle(Event::PidFileCreated(Err("x".to_string())))
        .handle(Event::IdentityResolved(Err("x".to_string())))
        .handle(Event::ResourceLimitsRead(None));
    assert_eq!(t.phase(), Phase::Loading);
    assert_eq!(t.pending(), Action::LoadConfig("/etc/deepflow-agent.yaml".to_string()));
    assert_eq!(t.failure(), &None);
    let t = running().handle(Event::ConfigLoaded(Err(ConfigError::ControllerIpsInvalid)));
    assert_eq!(t.pending(), Action::AwaitTermination);
    assert_eq!(t.exit_code(), 0);
}

#[test]
fn stopped_supervisor_stays_stopped() {
    let t = running().handle(Event::TerminationRequested).handle(Event::WorkersJoined);
    let t = t
        .handle(Event::ConfigLoaded(Ok(config_with("10.0.0.1"))))
        .handle(Event::WorkerSpawned(Ok(())))
        .handle(Event::TerminationRequested)
        .handle(Event::WorkersJoined);
    assert_eq!(t.phase(), Phase::Stopped);
    assert_eq!(t.pending(), Action::Exit(0));
}

#[test]
fn publish_reaches_the_handler_while_workers_run() {
    let t = running().publish(ModuleConfig { enabled: true });
    assert_eq!(*t.handler().unwrap().read(), ModuleConfig { enabled: true });
    assert_eq!(t.handler().unwrap().candidate_config, ModuleConfig { enabled: true });
    assert_eq!(t.pending(), Action::AwaitTermination);
}

#[test]
fn publish_outside_of_running_changes_nothing() {
    let t = managed().publish(ModuleConfig { enabled: true });
    assert_eq!(t.pending(), Action::LoadConfig("/etc/deepflow-agent.yaml".to_string()));
    let t = running().handle(Event::TerminationRequested).publish(ModuleConfig { enabled: true });
    assert_eq!(*t.handler().unwrap().read(), ModuleConfig { enabled: false });
}

#[test]
fn supervisor_keeps_one_signal_through_its_life() {
    let t = managed();
    let first = t.state();
    let t = t
        .handle(Event::ConfigLoaded(Ok(config_with("10.0.0.1"))))
        .handle(Event::IdentityResolved(Ok(identity())))
        .handle(Event::ResourceLimitsRead(None))
        .handle(Event::WorkerSpawned(Ok(())))
        .publish(ModuleConfig { enabled: true });
    assert!(std::ptr::eq(&*first, &*t.state()));
    let t = t.handle(Event::TerminationRequested).handle(Event::WorkersJoined);
    assert!(std::ptr::eq(&*first, &*t.state()));
    assert!(first.is_terminated());
    assert!(!std::ptr::eq(&*first, &*managed().state()));
}

#[test]
fn loopback_identity_is_fixed() {
    let id = Identity::loopback();
    assert_eq!(id.ctrl_ip, IpAddress::V4([127, 0, 0, 1]));
    assert_eq!(id.ctrl_mac, MacAddr::zero());
}

fn version(name: &'static str) -> VersionInfo {
    VersionInfo {
        name,
        branch: "main",
        commit_id: "abc1234",
        rev_count: "5678",
        compiler: "rustc 1.77.0",
        compile_time: "2024-03-01 12:00:00",
        revision: "main 5678-abc1234",
    }
}

#[test]
fn version_report_names_the_edition() {
    assert_eq!(
        version("deepflow-agent-ce").to_string(),
        "5678-abc1234\nName: deepflow-agent community edition\nBranch: main\nCommitId: abc1234\nRevCount: 5678\nCompiler: rustc 1.77.0\nCompileTime: 2024-03-01 12:00:00"
    );
    assert_eq!(
        version("deepflow-agent-ee").to_string(),
        "5678-abc1234\nName: deepflow-agent enterprise edition\nBranch: main\nCommitId: abc1234\nRevCount: 5678\nCompiler: rustc 1.77.0\nCompileTime: 2024-03-01 12:00:00"
    );
}

#[test]
fn edition_is_known_for_the_two_builds_only() {
    assert_eq!(version("deepflow-agent-ce").edition(), Some("deepflow-agent community edition"));
    assert_eq!(version("deepflow-agent-ee").edition(), Some("deepflow-agent enterprise edition"));
    assert_eq!(version("deepflow-agent").edition(), None);
    assert_eq!(version("").edition(), None);
}
