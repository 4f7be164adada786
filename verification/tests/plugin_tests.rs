use plugin_host::config::{ClusterConfig, ClusterMode, HostConfig, PluginEntry, PluginsConfig};
use plugin_host::error::{HostError, Phase};
use plugin_host::plugin::{
    plugin_environment, Capability, Loaded, Operation, PluginState, Role,
};
use plugin_host::registry::{PluginRegistry, ReloadOutcome, TickAction};

fn slot(instance: &str, stamp: u64) -> PluginState<String> {
    PluginState::load(
        "plugins/dht22/dht22.wasm".to_string(),
        Loaded { instance: instance.to_string(), modified: stamp },
    )
}

fn plugins(enabled: &[Role]) -> PluginsConfig {
    let entry = |role: Role| PluginEntry { enabled: enabled.contains(&role), led: None };
    PluginsConfig {
        dht22: entry(Role::PrimarySensor),
        pi4_monitor: entry(Role::Pi4Monitor),
        revpi_monitor: entry(Role::RevPiMonitor),
        bme680: entry(Role::EnvironmentalSensor),
        dashboard: entry(Role::DashboardRenderer),
        oled: entry(Role::AuxiliaryDisplay),
    }
}

#[test]
fn needs_reload_is_false_right_after_a_load() {
    let s = slot("gen1", 1_000);
    assert_eq!(s.last_modified, 1_000);
    assert_eq!(s.instance, "gen1");
    assert_eq!(s.path, "plugins/dht22/dht22.wasm");
    assert!(!s.needs_reload(Some(1_000)));
    assert!(!s.needs_reload(Some(999)));
    assert!(!s.needs_reload(None));
}

#[test]
fn needs_reload_is_true_only_for_a_strictly_newer_binary() {
    let s = slot("gen1", 1_000);
    assert!(s.needs_reload(Some(1_001)));
    assert!(s.needs_reload(Some(u64::MAX)));
    assert!(!s.needs_reload(Some(1_000)));
    assert!(!s.needs_reload(Some(0)));
}

#[test]
fn reload_swaps_instance_and_stamp_together() {
    let mut s = slot("gen1", 1_000);
    assert!(s.needs_reload(Some(2_000)));
    let report = s.reload(Ok(Loaded { instance: "gen2".to_string(), modified: 2_000 }));
    assert!(report.is_ok());
    assert_eq!(s.instance, "gen2");
    assert_eq!(s.last_modified, 2_000);
    assert_eq!(s.path, "plugins/dht22/dht22.wasm");
    assert!(!s.needs_reload(Some(2_000)));
}

#[test]
fn reload_of_a_corrupted_binary_keeps_the_previous_generation() {
    let mut s = slot("gen1", 1_000);
    let report = s.reload(Err(HostError::Load("malformed binary".to_string())));
    match report {
        Err(HostError::Load(words)) => assert_eq!(words, "malformed binary"),
        _ => panic!("the failure is handed back"),
    }
    // the slot still serves what it served before
    assert_eq!(s.instance, "gen1");
    assert_eq!(s.last_modified, 1_000);
    assert_eq!(s.path, "plugins/dht22/dht22.wasm");
    // and the newer binary is still seen as newer: the next tick tries again
    assert!(s.needs_reload(Some(2_000)));
}

#[test]
fn failed_instantiation_keeps_the_slot_too() {
    let mut s = slot("gen1", 1);
    let report = s.reload(Err(HostError::Instantiation("missing import".to_string())));
    assert!(matches!(report, Err(HostError::Instantiation(_))));
    assert_eq!(s.instance, "gen1");
    assert_eq!(s.last_modified, 1);
}

#[test]
fn only_enabled_roles_are_polled() {
    // primary sensor enabled, environmental sensor disabled
    let plan = plugins(&[Role::PrimarySensor]).startup_plan();
    assert_eq!(plan, vec![Role::PrimarySensor]);

    let mut registry: PluginRegistry<PluginState<String>> = PluginRegistry::new();
    for role in plan {
        registry.install(role, slot("dht22", 1));
    }
    assert!(registry.is_enabled(Role::PrimarySensor));
    assert!(!registry.is_enabled(Role::EnvironmentalSensor));
    assert!(registry.get(Role::EnvironmentalSensor).is_none());
    assert_eq!(registry.get(Role::PrimarySensor).unwrap().instance, "dht22");

    let polled = registry.poll_plan();
    assert_eq!(polled, vec![Role::PrimarySensor]);
    assert!(!polled.contains(&Role::EnvironmentalSensor));
}

#[test]
fn startup_plan_follows_the_load_order() {
    let all = [
        Role::AuxiliaryDisplay,
        Role::DashboardRenderer,
        Role::EnvironmentalSensor,
        Role::RevPiMonitor,
        Role::Pi4Monitor,
        Role::PrimarySensor,
    ];
    assert_eq!(
        plugins(&all).startup_plan(),
        vec![
            Role::PrimarySensor,
            Role::Pi4Monitor,
            Role::RevPiMonitor,
            Role::EnvironmentalSensor,
            Role::DashboardRenderer,
            Role::AuxiliaryDisplay,
        ]
    );
    assert_eq!(plugins(&[]).startup_plan(), Vec::<Role>::new());
    assert_eq!(
        plugins(&[Role::DashboardRenderer, Role::Pi4Monitor]).startup_plan(),
        vec![Role::Pi4Monitor, Role::DashboardRenderer]
    );
    assert!(plugins(&[Role::Pi4Monitor]).is_enabled(Role::Pi4Monitor));
    assert!(!plugins(&[Role::Pi4Monitor]).is_enabled(Role::RevPiMonitor));
}

#[test]
fn poll_plan_polls_sensors_before_monitors_and_never_the_renderer() {
    let mut registry: PluginRegistry<PluginState<String>> = PluginRegistry::new();
    assert_eq!(registry.poll_plan(), Vec::<Role>::new());
    registry.install(Role::DashboardRenderer, slot("dash", 1));
    registry.install(Role::RevPiMonitor, slot("revpi", 1));
    registry.install(Role::AuxiliaryDisplay, slot("oled", 1));
    registry.install(Role::EnvironmentalSensor, slot("bme", 1));
    registry.install(Role::Pi4Monitor, slot("pi4", 1));
    registry.install(Role::PrimarySensor, slot("dht", 1));
    assert_eq!(
        registry.poll_plan(),
        vec![
            Role::PrimarySensor,
            Role::EnvironmentalSensor,
            Role::Pi4Monitor,
            Role::RevPiMonitor,
        ]
    );
}

#[test]
fn registry_reload_touches_only_the_role_asked_for() {
    let mut registry: PluginRegistry<PluginState<String>> = PluginRegistry::new();
    registry.install(Role::PrimarySensor, slot("dht-1", 10));
    registry.install(Role::EnvironmentalSensor, slot("bme-1", 10));

    assert!(registry.needs_reload(Role::PrimarySensor, Some(11)));
    assert!(!registry.needs_reload(Role::PrimarySensor, Some(10)));
    assert!(!registry.needs_reload(Role::PrimarySensor, None));
    assert!(!registry.needs_reload(Role::Pi4Monitor, Some(99)));

    let outcome = registry
        .reload(Role::PrimarySensor, Ok(Loaded { instance: "dht-2".to_string(), modified: 11 }));
    assert!(matches!(outcome, ReloadOutcome::Replaced));
    assert_eq!(registry.get(Role::PrimarySensor).unwrap().instance, "dht-2");
    assert_eq!(registry.get(Role::PrimarySensor).unwrap().last_modified, 11);
    assert_eq!(registry.get(Role::EnvironmentalSensor).unwrap().instance, "bme-1");

    let outcome =
        registry.reload(Role::EnvironmentalSensor, Err(HostError::Load("gone".to_string())));
    match outcome {
        ReloadOutcome::Kept(HostError::Load(words)) => assert_eq!(words, "gone"),
        _ => panic!("a failed reload keeps the slot"),
    }
    assert_eq!(registry.get(Role::EnvironmentalSensor).unwrap().instance, "bme-1");
    assert_eq!(registry.get(Role::EnvironmentalSensor).unwrap().last_modified, 10);

    let outcome = registry
        .reload(Role::Pi4Monitor, Ok(Loaded { instance: "pi4".to_string(), modified: 1 }));
    assert!(matches!(outcome, ReloadOutcome::NotLoaded));
    assert!(registry.get(Role::Pi4Monitor).is_none());
}

#[test]
fn get_mut_reaches_the_instance_of_one_role() {
    let mut registry: PluginRegistry<PluginState<String>> = PluginRegistry::new();
    registry.install(Role::PrimarySensor, slot("dht", 1));
    if let Some(s) = registry.get_mut(Role::PrimarySensor) {
        s.instance.push_str("-polled");
    }
    assert_eq!(registry.get(Role::PrimarySensor).unwrap().instance, "dht-polled");
    assert!(registry.get_mut(Role::DashboardRenderer).is_none());
}

#[test]
fn roles_know_their_binaries_and_names() {
    assert_eq!(Role::PrimarySensor.binary_path(), "plugins/dht22/dht22.wasm");
    assert_eq!(Role::EnvironmentalSensor.binary_path(), "plugins/bme680/bme680.wasm");
    assert_eq!(Role::Pi4Monitor.binary_path(), "plugins/pi4-monitor/pi4-monitor.wasm");
    assert_eq!(Role::RevPiMonitor.binary_path(), "plugins/revpi-monitor/revpi-monitor.wasm");
    assert_eq!(Role::DashboardRenderer.binary_path(), "plugins/dashboard/dashboard.wasm");
    assert_eq!(Role::AuxiliaryDisplay.binary_path(), "plugins/oled/oled.wasm");
    assert_eq!(Role::Pi4Monitor.monitor_id(), Some("pi4-monitor"));
    assert_eq!(Role::RevPiMonitor.monitor_id(), Some("revpi-monitor"));
    assert_eq!(Role::PrimarySensor.monitor_id(), None);
    assert!(Role::PrimarySensor.is_polled());
    assert!(Role::RevPiMonitor.is_polled());
    assert!(!Role::DashboardRenderer.is_polled());
    assert!(!Role::AuxiliaryDisplay.is_polled());
    assert!(Role::Pi4Monitor.is_monitor());
    assert!(!Role::EnvironmentalSensor.is_monitor());
}

#[test]
fn plugin_environment_marks_passive_nodes() {
    let vars = plugin_environment("pi4-sensor-node");
    assert_eq!(vars, vec![("HARVESTER_NODE_ID".to_string(), "pi4-sensor-node".to_string())]);
    let vars = plugin_environment("my-pizero-2");
    assert_eq!(
        vars,
        vec![
            ("HARVESTER_NODE_ID".to_string(), "my-pizero-2".to_string()),
            ("HARVESTER_PASSIVE".to_string(), "1".to_string()),
        ]
    );
}

#[test]
fn only_a_plugin_that_cannot_start_at_startup_is_fatal() {
    let words = || "x".to_string();
    assert!(HostError::Load(words()).is_fatal(Phase::Startup));
    assert!(HostError::Instantiation(words()).is_fatal(Phase::Startup));
    assert!(!HostError::Load(words()).is_fatal(Phase::Running));
    assert!(!HostError::Instantiation(words()).is_fatal(Phase::Running));
    for phase in [Phase::Startup, Phase::Running] {
        assert!(!HostError::Capability(words()).is_fatal(phase));
        assert!(!HostError::Poll(words()).is_fatal(phase));
        assert!(!HostError::Forward(words()).is_fatal(phase));
        assert!(!HostError::Render(words()).is_fatal(phase));
    }
    assert_eq!(HostError::Forward("timed out".to_string()).message(), "timed out");
    assert_eq!(HostError::Capability("bus".to_string()).message(), "bus");
}

#[test]
fn defaults_are_those_of_a_node_on_its_own() {
    let config = HostConfig::default();
    assert_eq!(config.polling.interval_seconds, 5);
    assert_eq!(config.sensors.dht22.gpio_pin, 4);
    assert_eq!(config.sensors.bme680.i2c_address, "0x77");
    assert_eq!(config.leds.count, 11);
    assert_eq!(config.leds.gpio_pin, 18);
    assert_eq!(config.leds.brightness, 50);
    assert_eq!(config.buzzer.gpio_pin, 17);
    assert_eq!(config.logging.level, "info");
    assert!(config.logging.show_sensor_data);
    assert_eq!(config.cluster.role, "standalone");
    assert_eq!(config.cluster.hub_url, "");
    assert_eq!(config.cluster.node_id, "unknown");
    assert_eq!(config.cluster.mode(), ClusterMode::Standalone);
    assert_eq!(config.plugins.startup_plan(), Vec::<Role>::new());
    let entry = PluginEntry::default();
    assert!(!entry.enabled);
    assert_eq!(entry.led, None);
}

#[test]
fn cluster_mode_reads_the_role() {
    let with = |role: &str| ClusterConfig {
        role: role.to_string(),
        hub_url: String::new(),
        node_id: String::new(),
    };
    assert_eq!(with("hub").mode(), ClusterMode::Hub);
    assert_eq!(with("spoke").mode(), ClusterMode::Spoke);
    assert_eq!(with("standalone").mode(), ClusterMode::Standalone);
    assert_eq!(with("").mode(), ClusterMode::Standalone);
    assert_eq!(with("HUB").mode(), ClusterMode::Standalone);
    assert_eq!(ClusterConfig::default().mode(), ClusterMode::Standalone);
}

#[test]
fn each_role_is_granted_its_own_capabilities() {
    let all = [
        Capability::HardwareIo,
        Capability::VisualIndicator,
        Capability::AudibleIndicator,
        Capability::SystemStats,
        Capability::Bus,
    ];
    let granted = |role: Role| -> Vec<Capability> {
        all.iter().copied().filter(|c| role.grants(*c)).collect()
    };
    let common =
        vec![Capability::HardwareIo, Capability::VisualIndicator, Capability::AudibleIndicator];
    assert_eq!(granted(Role::PrimarySensor), common);
    let mut with_bus = common.clone();
    with_bus.push(Capability::Bus);
    assert_eq!(granted(Role::EnvironmentalSensor), with_bus);
    let mut with_stats = common.clone();
    with_stats.push(Capability::SystemStats);
    assert_eq!(granted(Role::Pi4Monitor), with_stats);
    assert_eq!(granted(Role::RevPiMonitor), with_stats);
    assert_eq!(granted(Role::DashboardRenderer), Vec::<Capability>::new());
    assert_eq!(granted(Role::AuxiliaryDisplay), vec![Capability::Bus]);
}

#[test]
fn each_role_has_one_operation() {
    assert_eq!(Role::PrimarySensor.operation(), Operation::Poll);
    assert_eq!(Role::EnvironmentalSensor.operation(), Operation::Poll);
    assert_eq!(Role::Pi4Monitor.operation(), Operation::Poll);
    assert_eq!(Role::RevPiMonitor.operation(), Operation::Poll);
    assert_eq!(Role::DashboardRenderer.operation(), Operation::Render);
    assert_eq!(Role::AuxiliaryDisplay.operation(), Operation::Update);
}

#[test]
fn tick_checks_reloads_then_polls_then_flushes() {
    let mut registry: PluginRegistry<PluginState<String>> = PluginRegistry::new();
    assert_eq!(registry.tick_plan(), vec![TickAction::Flush]);
    registry.install(Role::DashboardRenderer, slot("dash", 1));
    registry.install(Role::Pi4Monitor, slot("pi4", 1));
    registry.install(Role::EnvironmentalSensor, slot("bme", 1));
    assert_eq!(
        registry.loaded_roles(),
        vec![Role::Pi4Monitor, Role::EnvironmentalSensor, Role::DashboardRenderer]
    );
    assert_eq!(
        registry.tick_plan(),
        vec![
            TickAction::CheckReload(Role::Pi4Monitor),
            TickAction::CheckReload(Role::EnvironmentalSensor),
            TickAction::CheckReload(Role::DashboardRenderer),
            TickAction::Poll(Role::EnvironmentalSensor),
            TickAction::Poll(Role::Pi4Monitor),
            TickAction::Flush,
        ]
    );
}
