//! The configuration the host runs under, and the defaults it falls back on.

use vstd::prelude::*;
use vstd::string::StringExecFns;

verus! {

/// Everything the host is configured with.
#[derive(Debug, Clone)]
pub struct HostConfig {
    pub polling: PollingConfig,
    pub sensors: SensorsConfig,
    pub leds: LedConfig,
    pub buzzer: BuzzerConfig,
    pub logging: LoggingConfig,
    pub cluster: ClusterConfig,
    pub plugins: PluginsConfig,
}

/// How often the sensors are polled.
#[derive(Debug, Clone)]
pub struct PollingConfig {
    pub interval_seconds: u64,
}

/// Where the sensors are attached.
#[derive(Debug, Clone)]
pub struct SensorsConfig {
    pub dht22: Dht22Config,
    pub bme680: Bme680Config,
}

/// The pin of the temperature and humidity sensor.
#[derive(Debug, Clone)]
pub struct Dht22Config {
    pub gpio_pin: u8,
}

/// The bus address of the environmental sensor, as written by the operator:
/// hexadecimal after `0x`, decimal otherwise.
#[derive(Debug, Clone)]
pub struct Bme680Config {
    pub i2c_address: String,
}

/// The indicator strip.
#[derive(Debug, Clone)]
pub struct LedConfig {
    pub count: u8,
    pub gpio_pin: u8,
    pub brightness: u8,
}

/// The pin of the buzzer's relay.
#[derive(Debug, Clone)]
pub struct BuzzerConfig {
    pub gpio_pin: u8,
}

/// What is logged.
#[derive(Debug, Clone)]
pub struct LoggingConfig {
    pub level: String,
    pub show_sensor_data: bool,
}

/// The node's place among the other nodes.
#[derive(Debug, Clone)]
pub struct ClusterConfig {
    /// `"hub"`, `"spoke"`, or anything else for a node on its own.
    pub role: String,
    /// Where a spoke sends its readings.
    pub hub_url: String,
    /// The name that the node's readings are filed under.
    pub node_id: String,
}

/// Whether one plugin is loaded, and which indicator it owns.
#[derive(Debug, Clone)]
pub struct PluginEntry {
    pub enabled: bool,
    pub led: Option<u8>,
}

/// One entry for each plugin role.
#[derive(Debug, Clone)]
pub struct PluginsConfig {
    pub dht22: PluginEntry,
    pub pi4_monitor: PluginEntry,
    pub revpi_monitor: PluginEntry,
    pub bme680: PluginEntry,
    pub dashboard: PluginEntry,
    pub oled: PluginEntry,
}

/// What a node does with the readings it has polled.
#[derive(Debug, Clone, Copy, PartialEq, Eq, Structural)]
pub enum ClusterMode {
    /// Keeps them.
    Standalone,
    /// Keeps them, and takes in what spokes push.
    Hub,
    /// Keeps them, and pushes them to the hub.
    Spoke,
}

/// The mode that a role name stands for.
pub open spec fn mode_of(role: Seq<char>) -> ClusterMode {
    if role == "hub"@ {
        ClusterMode::Hub
    } else if role == "spoke"@ {
        ClusterMode::Spoke
    } else {
        ClusterMode::Standalone
    }
}

impl ClusterConfig {
    /// The mode that the configured role stands for. A role that is neither
    /// `"hub"` nor `"spoke"` leaves the node on its own.
    pub fn mode(&self) -> (mode: ClusterMode)
        ensures
            mode == mode_of(self.role@),
    {
        if self.role == String::from_str("hub") {
            ClusterMode::Hub
        } else if self.role == String::from_str("spoke") {
            ClusterMode::Spoke
        } else {
            ClusterMode::Standalone
        }
    }
}

impl Default for ClusterConfig {
    fn default() -> (config: Self)
        ensures
            config.role@ == "standalone"@,
            config.hub_url@ == ""@,
            config.node_id@ == "unknown"@,
            mode_of(config.role@) == ClusterMode::Standalone,
    {
        proof {
            reveal_strlit("standalone");
            reveal_strlit("hub");
            reveal_strlit("spoke");
            assert("standalone"@.len() != "hub"@.len());
            assert("standalone"@.len() != "spoke"@.len());
        }
        ClusterConfig {
            role: String::from_str("standalone"),
            hub_url: String::from_str(""),
            node_id: String::from_str("unknown"),
        }
    }
}

impl Default for PluginEntry {
    fn default() -> (entry: Self)
        ensures
            !entry.enabled,
            entry.led is None,
    {
        PluginEntry { enabled: false, led: None }
    }
}

impl PluginsConfig {
    /// No plugin is enabled.
    pub open spec fn none_enabled(&self) -> bool {
        &&& !self.dht22.enabled
        &&& !self.pi4_monitor.enabled
        &&& !self.revpi_monitor.enabled
        &&& !self.bme680.enabled
        &&& !self.dashboard.enabled
        &&& !self.oled.enabled
    }
}

impl Default for PluginsConfig {
    fn default() -> (plugins: Self)
        ensures
            plugins.none_enabled(),
    {
        PluginsConfig {
            dht22: PluginEntry::default(),
            pi4_monitor: PluginEntry::default(),
            revpi_monitor: PluginEntry::default(),
            bme680: PluginEntry::default(),
            dashboard: PluginEntry::default(),
            oled: PluginEntry::default(),
        }
    }
}

impl Default for HostConfig {
    fn default() -> (config: Self)
        ensures
            config.polling.interval_seconds == 5,
            config.sensors.dht22.gpio_pin == 4,
            config.sensors.bme680.i2c_address@ == "0x77"@,
            config.leds.count == 11,
            config.leds.gpio_pin == 18,
            config.leds.brightness == 50,
            config.buzzer.gpio_pin == 17,
            config.logging.level@ == "info"@,
            config.logging.show_sensor_data,
            config.cluster.role@ == "standalone"@,
            config.cluster.hub_url@ == ""@,
            config.cluster.node_id@ == "unknown"@,
            config.plugins.none_enabled(),
    {
        HostConfig {
            polling: PollingConfig { interval_seconds: 5 },
            sensors: SensorsConfig {
                dht22: Dht22Config { gpio_pin: 4 },
                bme680: Bme680Config { i2c_address: String::from_str("0x77") },
            },
            leds: LedConfig { count: 11, gpio_pin: 18, brightness: 50 },
            buzzer: BuzzerConfig { gpio_pin: 17 },
            logging: LoggingConfig { level: String::from_str("info"), show_sensor_data: true },
            cluster: ClusterConfig::default(),
            plugins: PluginsConfig::default(),
        }
    }
}

} // verus!
