use deepflow_agent::config::Config;
use deepflow_agent::handler::{ConfigHandler, ModuleConfig, ResourceLimits};
use deepflow_agent::net::{IpAddress, MacAddr};

fn handler() -> ConfigHandler {
    ConfigHandler::new(
        Config::default(),
        IpAddress::V4([10, 0, 0, 5]),
        MacAddr::from([0, 1, 2, 3, 4, 5]),
        None,
    )
}

#[test]
fn new_handler_holds_what_it_was_given() {
    let mut config = Config::default();
    config.team_id = "t".to_string();
    let h = ConfigHandler::new(
        config.clone(),
        IpAddress::V4([10, 0, 0, 5]),
        MacAddr::from([0, 1, 2, 3, 4, 5]),
        Some(ResourceLimits { cpu_millicores: 1500, memory_bytes: 1 << 30 }),
    );
    assert_eq!(h.static_config, config);
    assert_eq!(h.ctrl_ip, IpAddress::V4([10, 0, 0, 5]));
    assert_eq!(h.ctrl_mac, MacAddr::from([0, 1, 2, 3, 4, 5]));
    assert_eq!(h.container_cpu_limit, 1500);
    assert_eq!(h.container_mem_limit, 1 << 30);
    assert_eq!(h.candidate_config, ModuleConfig { enabled: false });
    assert_eq!(*h.read(), ModuleConfig { enabled: false });
}

#[test]
fn limits_default_to_zero() {
    let h = handler();
    assert_eq!(h.container_cpu_limit, 0);
    assert_eq!(h.container_mem_limit, 0);
}

#[test]
fn publish_makes_the_value_current() {
    let mut h = handler();
    h.publish(ModuleConfig { enabled: true });
    assert_eq!(*h.read(), ModuleConfig { enabled: true });
    assert_eq!(h.candidate_config, ModuleConfig { enabled: true });
    h.publish(ModuleConfig { enabled: false });
    assert_eq!(*h.read(), ModuleConfig { enabled: false });
    assert_eq!(h.candidate_config, ModuleConfig { enabled: false });
}

#[test]
fn publish_leaves_the_rest_alone() {
    let mut h = handler();
    h.publish(ModuleConfig { enabled: true });
    assert_eq!(h.static_config, Config::default());
    assert_eq!(h.ctrl_ip, IpAddress::V4([10, 0, 0, 5]));
    assert_eq!(h.ctrl_mac, MacAddr::from([0, 1, 2, 3, 4, 5]));
    assert_eq!(h.container_cpu_limit, 0);
    assert_eq!(h.container_mem_limit, 0);
}

#[test]
fn a_snapshot_taken_outlives_the_next_publish() {
    let mut h = handler();
    let before = h.read();
    h.publish(ModuleConfig { enabled: true });
    assert_eq!(*before, ModuleConfig { enabled: false });
    assert_eq!(*h.read(), ModuleConfig { enabled: true });
}

#[test]
fn readers_see_what_is_published() {
    let mut h = handler();
    let reader = h.reader();
    assert_eq!(*reader.read(), ModuleConfig { enabled: false });
    h.publish(ModuleConfig { enabled: true });
    assert_eq!(*reader.read(), ModuleConfig { enabled: true });
    let late = h.reader();
    assert_eq!(*late.read(), ModuleConfig { enabled: true });
}

#[test]
fn handlers_do_not_share_their_slot() {
    let mut a = handler();
    let b = handler();
    a.publish(ModuleConfig { enabled: true });
    assert_eq!(*b.read(), ModuleConfig { enabled: false });
    assert_eq!(*b.reader().read(), ModuleConfig { enabled: false });
}

#[test]
fn loopback_is_127_0_0_1() {
    assert_eq!(IpAddress::loopback(), IpAddress::V4([127, 0, 0, 1]));
}
