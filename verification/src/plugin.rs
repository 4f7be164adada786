//! Plugin roles and the slot that holds one loaded plugin.

use vstd::prelude::*;
use crate::config::PluginsConfig;
use vstd::string::StringExecFns;
use crate::error::HostError;
use crate::text::{contains, occurs_in};

verus! {

/// What a plugin is loaded for. The set is closed.
#[derive(Debug, Clone, Copy, PartialEq, Eq, Structural)]
pub enum Role {
    /// The temperature and humidity sensor.
    PrimarySensor,
    /// The environmental sensor.
    EnvironmentalSensor,
    /// The system monitor of a Pi 4 board.
    Pi4Monitor,
    /// The system monitor of a RevPi board.
    RevPiMonitor,
    /// Renders the dashboard.
    DashboardRenderer,
    /// Drives the auxiliary display.
    AuxiliaryDisplay,
}

/// A group of operations that the host can grant to a plugin. A plugin
/// reaches the outside world through the groups it was granted, and through
/// nothing else.
#[derive(Debug, Clone, Copy, PartialEq, Eq, Structural)]
pub enum Capability {
    /// Sensor reads, the processor's temperature and the time.
    HardwareIo,
    /// The indicator strip.
    VisualIndicator,
    /// The buzzer.
    AudibleIndicator,
    /// Memory, load and uptime of the machine.
    SystemStats,
    /// Transfers on the generic bus.
    Bus,
}

/// What the host invokes on a plugin.
#[derive(Debug, Clone, Copy, PartialEq, Eq, Structural)]
pub enum Operation {
    /// Asks for readings.
    Poll,
    /// Turns the aggregate view into a page.
    Render,
    /// Shows the aggregate view on the display.
    Update,
}

/// The order in which plugins are brought up.
pub open spec fn load_order() -> Seq<Role> {
    seq![
        Role::PrimarySensor,
        Role::Pi4Monitor,
        Role::RevPiMonitor,
        Role::EnvironmentalSensor,
        Role::DashboardRenderer,
        Role::AuxiliaryDisplay,
    ]
}

/// The order in which plugins are polled: sensors before monitors.
pub open spec fn poll_order() -> Seq<Role> {
    seq![Role::PrimarySensor, Role::EnvironmentalSensor, Role::Pi4Monitor, Role::RevPiMonitor]
}

impl Role {
    /// The role produces readings when polled.
    pub open spec fn polled(self) -> bool {
        self == Role::PrimarySensor || self == Role::EnvironmentalSensor || self
            == Role::Pi4Monitor || self == Role::RevPiMonitor
    }

    /// The role is a system monitor: each poll gives one reading, filed
    /// under the monitor's own name.
    pub open spec fn monitors(self) -> bool {
        self == Role::Pi4Monitor || self == Role::RevPiMonitor
    }

    /// The host grants `capability` to a plugin of this role. Sensors and
    /// monitors get the hardware, the strip and the buzzer; monitors also
    /// the machine's figures; the environmental sensor also the bus. The
    /// display gets the bus alone, and the renderer gets nothing.
    pub open spec fn granted(self, capability: Capability) -> bool {
        match capability {
            Capability::HardwareIo | Capability::VisualIndicator
            | Capability::AudibleIndicator => self.polled(),
            Capability::SystemStats => self.monitors(),
            Capability::Bus => self == Role::EnvironmentalSensor || self
                == Role::AuxiliaryDisplay,
        }
    }

    /// Whether the host grants `capability` to a plugin of this role.
    pub fn grants(self, capability: Capability) -> (granted: bool)
        ensures
            granted == self.granted(capability),
    {
        match capability {
            Capability::HardwareIo | Capability::VisualIndicator
            | Capability::AudibleIndicator => self.is_polled(),
            Capability::SystemStats => self.is_monitor(),
            Capability::Bus => match self {
                Role::EnvironmentalSensor | Role::AuxiliaryDisplay => true,
                _ => false,
            },
        }
    }

    /// What the host invokes on a plugin of this role.
    pub open spec fn invoked(self) -> Operation {
        match self {
            Role::DashboardRenderer => Operation::Render,
            Role::AuxiliaryDisplay => Operation::Update,
            _ => Operation::Poll,
        }
    }

    /// What the host invokes on a plugin of this role: sensors and monitors
    /// are polled, the renderer renders, the display is updated.
    pub fn operation(self) -> (operation: Operation)
        ensures
            operation == self.invoked(),
            operation == Operation::Poll <==> self.polled(),
    {
        match self {
            Role::DashboardRenderer => Operation::Render,
            Role::AuxiliaryDisplay => Operation::Update,
            _ => Operation::Poll,
        }
    }

    /// Whether the role produces readings when polled.
    pub fn is_polled(self) -> (polled: bool)
        ensures
            polled == self.polled(),
            polled == poll_order().contains(self),
    {
        proof {
            let order = poll_order();
            assert(order[0] == Role::PrimarySensor);
            assert(order[1] == Role::EnvironmentalSensor);
            assert(order[2] == Role::Pi4Monitor);
            assert(order[3] == Role::RevPiMonitor);
        }
        match self {
            Role::PrimarySensor | Role::EnvironmentalSensor | Role::Pi4Monitor
            | Role::RevPiMonitor => true,
            _ => false,
        }
    }

    /// Whether the role is a system monitor.
    pub fn is_monitor(self) -> (monitors: bool)
        ensures
            monitors == self.monitors(),
    {
        match self {
            Role::Pi4Monitor | Role::RevPiMonitor => true,
            _ => false,
        }
    }

    /// Where the role's binary lies below the host's base directory.
    pub open spec fn binary_of(self) -> Seq<char> {
        match self {
            Role::PrimarySensor => "plugins/dht22/dht22.wasm"@,
            Role::EnvironmentalSensor => "plugins/bme680/bme680.wasm"@,
            Role::Pi4Monitor => "plugins/pi4-monitor/pi4-monitor.wasm"@,
            Role::RevPiMonitor => "plugins/revpi-monitor/revpi-monitor.wasm"@,
            Role::DashboardRenderer => "plugins/dashboard/dashboard.wasm"@,
            Role::AuxiliaryDisplay => "plugins/oled/oled.wasm"@,
        }
    }

    /// Where the role's binary lies below the host's base directory.
    pub fn binary_path(self) -> (path: &'static str)
        ensures
            path@ == self.binary_of(),
    {
        match self {
            Role::PrimarySensor => "plugins/dht22/dht22.wasm",
            Role::EnvironmentalSensor => "plugins/bme680/bme680.wasm",
            Role::Pi4Monitor => "plugins/pi4-monitor/pi4-monitor.wasm",
            Role::RevPiMonitor => "plugins/revpi-monitor/revpi-monitor.wasm",
            Role::DashboardRenderer => "plugins/dashboard/dashboard.wasm",
            Role::AuxiliaryDisplay => "plugins/oled/oled.wasm",
        }
    }

    /// The name a monitor's reading is filed under.
    pub open spec fn monitor_name(self) -> Seq<char> {
        if self == Role::RevPiMonitor {
            "revpi-monitor"@
        } else {
            "pi4-monitor"@
        }
    }

    /// The name a monitor's reading is filed under; nothing for a role that
    /// is no monitor.
    pub fn monitor_id(self) -> (id: Option<&'static str>)
        ensures
            id is Some <==> self.monitors(),
            id matches Some(name) ==> name@ == self.monitor_name(),
    {
        match self {
            Role::Pi4Monitor => Some("pi4-monitor"),
            Role::RevPiMonitor => Some("revpi-monitor"),
            _ => None,
        }
    }
}

impl PluginsConfig {
    /// The configuration enables the plugin of `role`.
    pub open spec fn enables(&self, role: Role) -> bool {
        match role {
            Role::PrimarySensor => self.dht22.enabled,
            Role::EnvironmentalSensor => self.bme680.enabled,
            Role::Pi4Monitor => self.pi4_monitor.enabled,
            Role::RevPiMonitor => self.revpi_monitor.enabled,
            Role::DashboardRenderer => self.dashboard.enabled,
            Role::AuxiliaryDisplay => self.oled.enabled,
        }
    }

    /// Whether the configuration enables the plugin of `role`.
    pub fn is_enabled(&self, role: Role) -> (enabled: bool)
        ensures
            enabled == self.enables(role),
    {
        match role {
            Role::PrimarySensor => self.dht22.enabled,
            Role::EnvironmentalSensor => self.bme680.enabled,
            Role::Pi4Monitor => self.pi4_monitor.enabled,
            Role::RevPiMonitor => self.revpi_monitor.enabled,
            Role::DashboardRenderer => self.dashboard.enabled,
            Role::AuxiliaryDisplay => self.oled.enabled,
        }
    }

    /// The roles to bring up at startup: those that the configuration
    /// enables, in load order.
    pub fn startup_plan(&self) -> (plan: Vec<Role>)
        ensures
            plan@ == load_order().filter(|role: Role| self.enables(role)),
    {
        let order = [
            Role::PrimarySensor,
            Role::Pi4Monitor,
            Role::RevPiMonitor,
            Role::EnvironmentalSensor,
            Role::DashboardRenderer,
            Role::AuxiliaryDisplay,
        ];
        let ghost wanted = |role: Role| self.enables(role);
        let mut plan: Vec<Role> = Vec::new();
        let mut i: usize = 0;
        assert(order@ =~= load_order());
        assert(order@.take(0).filter(wanted) =~= Seq::<Role>::empty()) by {
            reveal(Seq::filter);
        }
        while i < 6
            invariant
                i <= 6,
                order@ == load_order(),
                wanted == (|role: Role| self.enables(role)),
                plan@ == order@.take(i as int).filter(wanted),
            decreases 6 - i,
        {
            let role = order[i];
            proof {
                let head = order@.take(i as int);
                let next = order@.take(i as int + 1);
                assert(next.drop_last() =~= head);
                assert(next.last() == role);
                reveal(Seq::filter);
            }
            if self.is_enabled(role) {
                plan.push(role);
            }
            i += 1;
        }
        assert(order@.take(6) =~= order@);
        plan
    }
}

/// The variables that a plugin of the node `node_id` starts with: the
/// node's name, and the mark of a passive node where the name holds
/// `pizero`.
pub open spec fn environment_of(node_id: Seq<char>) -> Seq<(Seq<char>, Seq<char>)> {
    if occurs_in("pizero"@, node_id) {
        seq![("HARVESTER_NODE_ID"@, node_id), ("HARVESTER_PASSIVE"@, "1"@)]
    } else {
        seq![("HARVESTER_NODE_ID"@, node_id)]
    }
}

/// The variables that a plugin of the node `node_id` starts with.
pub fn plugin_environment(node_id: &str) -> (vars: Vec<(String, String)>)
    ensures
        vars@.len() == environment_of(node_id@).len(),
        forall|i: int|
            0 <= i < vars@.len() ==> (#[trigger] vars@[i]).0@ == environment_of(node_id@)[i].0
                && vars@[i].1@ == environment_of(node_id@)[i].1,
{
    let mut vars: Vec<(String, String)> = Vec::new();
    vars.push((String::from_str("HARVESTER_NODE_ID"), String::from_str(node_id)));
    if contains(node_id, "pizero") {
        vars.push((String::from_str("HARVESTER_PASSIVE"), String::from_str("1")));
    }
    vars
}

/// A freshly built plugin instance, with the modification stamp of the
/// binary it was built from.
pub struct Loaded<T> {
    /// The execution context together with the handle bound to it.
    pub instance: T,
    /// The stamp recorded for the instance.
    pub modified: u64,
}

/// One loaded plugin. The instance is the execution context together with
/// the interface handle bound to it: one value, so that the two are always
/// of the same generation.
pub struct PluginState<T> {
    /// Where the binary lies.
    pub path: String,
    /// The stamp recorded at the last load that succeeded.
    pub last_modified: u64,
    /// The running instance.
    pub instance: T,
}

impl<T> PluginState<T> {
    /// The binary on disk is newer than the running instance. `on_disk` is
    /// the stamp read from the binary, or nothing where it could not be
    /// read.
    pub open spec fn stale(&self, on_disk: Option<u64>) -> bool {
        on_disk matches Some(stamp) && stamp > self.last_modified
    }

    /// The slot of a plugin that was just brought up from `path`.
    pub fn load(path: String, loaded: Loaded<T>) -> (slot: Self)
        ensures
            slot.path == path,
            slot.last_modified == loaded.modified,
            slot.instance == loaded.instance,
            !slot.stale(Some(loaded.modified)),
    {
        PluginState { path, last_modified: loaded.modified, instance: loaded.instance }
    }

    /// Whether the binary on disk is newer than the running instance. Where
    /// the stamp could not be read, it is not.
    pub fn needs_reload(&self, on_disk: Option<u64>) -> (stale: bool)
        ensures
            stale == self.stale(on_disk),
            stale <==> (on_disk matches Some(stamp) && stamp > self.last_modified),
    {
        match on_disk {
            Some(stamp) => stamp > self.last_modified,
            None => false,
        }
    }

    /// Ends a reload. `attempt` is what building a new instance from the
    /// binary gave, while the old instance went on serving. A new instance
    /// takes the old one's place together with its stamp; a failure leaves
    /// the slot as it was and is handed back.
    pub fn reload(&mut self, attempt: Result<Loaded<T>, HostError>) -> (report: Result<
        (),
        HostError,
    >)
        ensures
            match attempt {
                Ok(loaded) => {
                    &&& report is Ok
                    &&& final(self).instance == loaded.instance
                    &&& final(self).last_modified == loaded.modified
                    &&& final(self).path == old(self).path
                    &&& !final(self).stale(Some(loaded.modified))
                },
                Err(failure) => {
                    &&& report == Err::<(), HostError>(failure)
                    &&& *final(self) == *old(self)
                },
            },
    {
        match attempt {
            Ok(loaded) => {
                self.instance = loaded.instance;
                self.last_modified = loaded.modified;
                Ok(())
            },
            Err(failure) => Err(failure),
        }
    }
}

/// A slot that was loaded or reloaded under a stamp is not stale as long as
/// the binary's stamp does not exceed it.
pub proof fn lemma_fresh_slot_is_not_stale<T>(slot: PluginState<T>, on_disk: Option<u64>)
    requires
        on_disk matches Some(stamp) ==> stamp <= slot.last_modified,
    ensures
        !slot.stale(on_disk),
{
}

} // verus!
