//! The render path: which reading feeds which card of the dashboard, and
//! what the caller gets back.

use vstd::prelude::*;
use vstd::string::StringExecFns;
use crate::domain::{views, ReadingView, SensorReading};
use crate::error::HostError;
use crate::text::{contains, occurs_in};

verus! {

/// A card of the dashboard.
#[derive(Debug, Clone, Copy, PartialEq, Eq, Structural)]
pub enum DashboardSource {
    /// The temperature and humidity sensor.
    Dht22,
    /// The environmental sensor.
    Bme680,
    /// The hub's own system monitor.
    Hub,
    /// The system monitor of the Pi 4 node.
    Pi4,
    /// The system monitor of the Pi Zero node.
    PiZero,
    /// The network health probe.
    Network,
}

/// The card that a reading filed under `sensor_id` feeds, if any. The rules
/// are tried in this order, and the first that fits decides.
pub open spec fn source_of(sensor_id: Seq<char>) -> Option<DashboardSource> {
    if occurs_in("dht22"@, sensor_id) {
        Some(DashboardSource::Dht22)
    } else if occurs_in("bme680"@, sensor_id) {
        Some(DashboardSource::Bme680)
    } else if occurs_in("revpi-monitor"@, sensor_id) {
        Some(DashboardSource::Hub)
    } else if occurs_in("pi4-monitor"@, sensor_id) {
        Some(DashboardSource::Pi4)
    } else if occurs_in("pizero"@, sensor_id) && occurs_in("monitor"@, sensor_id) {
        Some(DashboardSource::PiZero)
    } else if occurs_in("network"@, sensor_id) {
        Some(DashboardSource::Network)
    } else {
        None
    }
}

/// `at` is the last reading of `readings` that feeds the card `source`.
pub open spec fn is_latest_for(readings: Seq<ReadingView>, source: DashboardSource, at: int) -> bool {
    &&& 0 <= at < readings.len()
    &&& source_of(readings[at].sensor_id) == Some(source)
    &&& forall|j: int|
        at < j < readings.len() ==> source_of(#[trigger] readings[j].sensor_id) != Some(source)
}

/// No reading of `readings` feeds the card `source`.
pub open spec fn feeds_nothing(readings: Seq<ReadingView>, source: DashboardSource) -> bool {
    forall|j: int|
        0 <= j < readings.len() ==> source_of(#[trigger] readings[j].sensor_id) != Some(source)
}

impl DashboardSource {
    /// The key of the card in the data handed to the renderer.
    pub open spec fn key_of(self) -> Seq<char> {
        match self {
            DashboardSource::Dht22 => "dht22"@,
            DashboardSource::Bme680 => "bme680"@,
            DashboardSource::Hub => "hub"@,
            DashboardSource::Pi4 => "pi4"@,
            DashboardSource::PiZero => "pizero"@,
            DashboardSource::Network => "network"@,
        }
    }

    /// The key of the card in the data handed to the renderer.
    pub fn key(self) -> (key: &'static str)
        ensures
            key@ == self.key_of(),
    {
        match self {
            DashboardSource::Dht22 => "dht22",
            DashboardSource::Bme680 => "bme680",
            DashboardSource::Hub => "hub",
            DashboardSource::Pi4 => "pi4",
            DashboardSource::PiZero => "pizero",
            DashboardSource::Network => "network",
        }
    }

    /// The card that a reading filed under `sensor_id` feeds, if any.
    pub fn of(sensor_id: &str) -> (source: Option<DashboardSource>)
        ensures
            source == source_of(sensor_id@),
    {
        if contains(sensor_id, "dht22") {
            Some(DashboardSource::Dht22)
        } else if contains(sensor_id, "bme680") {
            Some(DashboardSource::Bme680)
        } else if contains(sensor_id, "revpi-monitor") {
            Some(DashboardSource::Hub)
        } else if contains(sensor_id, "pi4-monitor") {
            Some(DashboardSource::Pi4)
        } else if contains(sensor_id, "pizero") && contains(sensor_id, "monitor") {
            Some(DashboardSource::PiZero)
        } else if contains(sensor_id, "network") {
            Some(DashboardSource::Network)
        } else {
            None
        }
    }

    /// The reading that the card shows: the last of `readings` that feeds
    /// it. Nothing where none does.
    pub fn latest(self, readings: &Vec<SensorReading>) -> (found: Option<usize>)
        ensures
            match found {
                Some(at) => is_latest_for(views(readings@), self, at as int),
                None => feeds_nothing(views(readings@), self),
            },
    {
        let ghost all = views(readings@);
        let mut i: usize = readings.len();
        while i > 0
            invariant
                i <= readings.len(),
                all == views(readings@),
                forall|j: int|
                    i <= j < all.len() ==> source_of(#[trigger] all[j].sensor_id) != Some(self),
            decreases i,
        {
            i -= 1;
            assert(all[i as int] == readings@[i as int]@);
            let fed = DashboardSource::of(readings[i].sensor_id.as_str());
            let hit = match fed {
                Some(source) => source == self,
                None => false,
            };
            if hit {
                return Some(i);
            }
        }
        None
    }
}

/// What is shown where no renderer is loaded.
pub open spec fn not_loaded_page() -> Seq<char> {
    "<h1 style='color:red'>Dashboard Plugin Not Loaded</h1>"@
}

/// What the words of a failed render are reported as.
pub open spec fn render_failure(words: Seq<char>) -> Seq<char> {
    "Dashboard render failed: "@ + words
}

/// What the caller of a render gets. `outcome` is what the renderer gave,
/// or nothing where none is loaded. The renderer's page is passed through
/// as it is; without a renderer a fixed page says so; a failure of the
/// renderer is reported as a rendering error.
pub fn render_reply(outcome: Option<Result<String, String>>) -> (reply: Result<String, HostError>)
    ensures
        match outcome {
            None => reply matches Ok(page) && page@ == not_loaded_page(),
            Some(Ok(html)) => reply == Ok::<String, HostError>(html),
            Some(Err(words)) => reply matches Err(HostError::Render(report)) && report@
                == render_failure(words@),
        },
{
    match outcome {
        None => Ok(String::from_str("<h1 style='color:red'>Dashboard Plugin Not Loaded</h1>")),
        Some(Ok(html)) => Ok(html),
        Some(Err(words)) => {
            let mut report = String::from_str("Dashboard render failed: ");
            report.append(words.as_str());
            Err(HostError::Render(report))
        },
    }
}

} // verus!
