//! The periodic cycle: what a tick does with the readings that were polled.

use vstd::prelude::*;
use vstd::string::StringExecFns;
use crate::config::{mode_of, ClusterConfig, ClusterMode};
use crate::domain::{merged, views, AppState, ReadingView, SensorReading};
use crate::error::HostError;
use crate::plugin::Role;

verus! {

/// The identifier that a reading of `sensor_id` is filed under when it
/// comes from the node `node_id`.
pub open spec fn qualified(node_id: Seq<char>, sensor_id: Seq<char>) -> Seq<char> {
    node_id + ":"@ + sensor_id
}

/// A reading as it is filed when it comes from the node `node_id`.
pub open spec fn filed(node_id: Seq<char>, r: ReadingView) -> ReadingView {
    ReadingView { sensor_id: qualified(node_id, r.sensor_id), ..r }
}

/// A batch as it is filed when it comes from the node `node_id`.
pub open spec fn filed_batch(node_id: Seq<char>, batch: Seq<ReadingView>) -> Seq<ReadingView> {
    Seq::new(batch.len(), |i: int| filed(node_id, batch[i]))
}

/// Puts the node's name and a colon before a sensor's identifier.
pub fn qualify(node_id: &str, sensor_id: &str) -> (id: String)
    ensures
        id@ == qualified(node_id@, sensor_id@),
{
    let mut id = String::from_str(node_id);
    id.append(":");
    id.append(sensor_id);
    id
}

/// Files every reading of a batch under the node's name.
pub fn qualify_batch(node_id: &str, batch: &Vec<SensorReading>) -> (out: Vec<SensorReading>)
    ensures
        views(out@) == filed_batch(node_id@, views(batch@)),
{
    let mut out: Vec<SensorReading> = Vec::new();
    let mut i: usize = 0;
    while i < batch.len()
        invariant
            i <= batch.len(),
            out@.len() == i,
            forall|j: int| 0 <= j < i ==> (#[trigger] out@[j])@ == filed(node_id@, batch@[j]@),
        decreases batch.len() - i,
    {
        let reading = &batch[i];
        out.push(
            SensorReading {
                sensor_id: qualify(node_id, reading.sensor_id.as_str()),
                timestamp_ms: reading.timestamp_ms,
                data: reading.data.clone(),
            },
        );
        i += 1;
    }
    assert(views(out@) =~= filed_batch(node_id@, views(batch@)));
    out
}

/// Names of nodes that hold no colon keep their sensors apart: readings of
/// two such nodes are never filed under one identifier.
pub proof fn lemma_nodes_do_not_collide(
    node_a: Seq<char>,
    sensor_a: Seq<char>,
    node_b: Seq<char>,
    sensor_b: Seq<char>,
)
    requires
        !node_a.contains(':'),
        !node_b.contains(':'),
        node_a != node_b,
    ensures
        qualified(node_a, sensor_a) != qualified(node_b, sensor_b),
{
    reveal_strlit(":");
    let a = qualified(node_a, sensor_a);
    let b = qualified(node_b, sensor_b);
    if a == b {
        assert(":"@.len() == 1);
        assert(":"@[0] == ':');
        assert(a[node_a.len() as int] == ':');
        assert(b[node_b.len() as int] == ':');
        if node_a.len() < node_b.len() {
            assert(b[node_a.len() as int] == node_b[node_a.len() as int]);
            assert(node_b.contains(':'));
        } else if node_b.len() < node_a.len() {
            assert(a[node_b.len() as int] == node_a[node_b.len() as int]);
            assert(node_a.contains(':'));
        } else {
            assert forall|i: int| 0 <= i < node_a.len() implies node_a[i] == node_b[i] by {
                assert(a[i] == node_a[i]);
                assert(b[i] == node_b[i]);
            }
            assert(node_a =~= node_b);
        }
    }
}

/// One node files different sensors under different identifiers.
pub proof fn lemma_sensors_stay_apart(node: Seq<char>, sensor_a: Seq<char>, sensor_b: Seq<char>)
    requires
        sensor_a != sensor_b,
    ensures
        qualified(node, sensor_a) != qualified(node, sensor_b),
{
    let a = qualified(node, sensor_a);
    let b = qualified(node, sensor_b);
    let lead = node + ":"@;
    if a == b {
        assert(a.len() == lead.len() + sensor_a.len());
        assert(b.len() == lead.len() + sensor_b.len());
        assert forall|i: int| 0 <= i < sensor_a.len() implies sensor_a[i] == sensor_b[i] by {
            assert(a[lead.len() + i] == sensor_a[i]);
            assert(b[lead.len() + i] == sensor_b[i]);
        }
        assert(sensor_a =~= sensor_b);
    }
}

/// What polling one role gave.
pub enum PollOutcome {
    /// The plugin answered with these readings.
    Readings(Vec<SensorReading>),
    /// The poll failed. The role's readings are missing from this tick, and
    /// the next tick is the retry.
    Failed(HostError),
}

impl PollOutcome {
    /// The readings that the outcome adds to a tick.
    pub open spec fn yield_of(&self) -> Seq<ReadingView> {
        match self {
            PollOutcome::Readings(readings) => views(readings@),
            PollOutcome::Failed(_) => Seq::empty(),
        }
    }
}

/// The readings of a tick: those of every poll that succeeded, in the order
/// of the polls.
pub open spec fn gathered(outcomes: Seq<PollOutcome>) -> Seq<ReadingView>
    decreases outcomes.len(),
{
    if outcomes.len() == 0 {
        Seq::empty()
    } else {
        gathered(outcomes.drop_last()) + outcomes.last().yield_of()
    }
}

/// Collects the readings of a tick from the outcomes of its polls. A failed
/// poll adds nothing and takes nothing from the others.
pub fn gather(outcomes: &Vec<PollOutcome>) -> (batch: Vec<SensorReading>)
    ensures
        views(batch@) == gathered(outcomes@),
{
    let mut batch: Vec<SensorReading> = Vec::new();
    let mut i: usize = 0;
    assert(outcomes@.take(0) =~= Seq::<PollOutcome>::empty());
    assert(views(batch@) =~= gathered(outcomes@.take(0)));
    while i < outcomes.len()
        invariant
            i <= outcomes.len(),
            views(batch@) == gathered(outcomes@.take(i as int)),
        decreases outcomes.len() - i,
    {
        let ghost head = outcomes@.take(i as int);
        let ghost next = outcomes@.take(i as int + 1);
        proof {
            assert(next.drop_last() =~= head);
            assert(next.last() == outcomes@[i as int]);
        }
        match &outcomes[i] {
            PollOutcome::Readings(readings) => {
                let ghost before = views(batch@);
                let mut j: usize = 0;
                while j < readings.len()
                    invariant
                        j <= readings.len(),
                        views(batch@) == before + views(readings@).take(j as int),
                    decreases readings.len() - j,
                {
                    let ghost held = batch@;
                    let reading = readings[j].clone();
                    batch.push(reading);
                    proof {
                        let taken = views(readings@).take(j as int);
                        assert(views(batch@) =~= views(held).push(reading@));
                        assert(views(readings@).take(j as int + 1) =~= taken.push(reading@));
                        assert((before + taken).push(reading@) =~= before + taken.push(reading@));
                    }
                    j += 1;
                }
                assert(views(readings@).take(readings@.len() as int) =~= views(readings@));
            },
            PollOutcome::Failed(_) => {
                assert(views(batch@) + Seq::<ReadingView>::empty() =~= views(batch@));
            },
        }
        i += 1;
    }
    assert(outcomes@.take(outcomes@.len() as int) =~= outcomes@);
    batch
}

/// The single reading that a monitor's answer becomes: filed under the
/// monitor's own name. Nothing for a role that is no monitor.
pub fn monitor_reading(role: Role, timestamp_ms: u64, data: serde_json::Value) -> (reading: Option<
    SensorReading,
>)
    ensures
        reading is Some <==> role.monitors(),
        reading matches Some(r) ==> r@ == (ReadingView {
            sensor_id: role.monitor_name(),
            timestamp_ms,
            data,
        }),
{
    match role.monitor_id() {
        Some(name) => Some(SensorReading { sensor_id: String::from_str(name), timestamp_ms, data }),
        None => None,
    }
}

/// How long a push to a peer may take, in seconds. A push that takes longer
/// is given up for this tick.
pub const FORWARD_TIMEOUT_SECONDS: u64 = 5;

/// What a tick leaves to be done outside.
pub struct TickReport {
    /// The readings of the tick, filed under the node's name.
    pub batch: Vec<SensorReading>,
    /// The batch is to be pushed to the hub.
    pub forward: bool,
}

/// A node in `mode` with the hub at `hub_url` pushes a batch of `count`
/// readings: a spoke that knows its hub does, when there is anything to push.
pub open spec fn forwards(mode: ClusterMode, hub_url: Seq<char>, count: nat) -> bool {
    mode == ClusterMode::Spoke && hub_url.len() > 0 && count > 0
}

/// The aggregate after a tick that polled `polled` at the time `now`.
pub open spec fn after_tick(
    before: crate::domain::StateView,
    node_id: Seq<char>,
    polled: Seq<ReadingView>,
    now: u64,
) -> crate::domain::StateView {
    if polled.len() == 0 {
        before
    } else {
        crate::domain::StateView {
            readings: merged(before.readings, filed_batch(node_id, polled)),
            last_update: now,
        }
    }
}

/// Ends a tick: files the polled readings under the node's name, merges
/// them into the aggregate and decides whether they are pushed to the hub. A
/// tick without readings leaves the aggregate as it was.
pub fn tick(state: &mut AppState, cluster: &ClusterConfig, polled: &Vec<SensorReading>, now: u64)
    -> (report: TickReport)
    ensures
        views(report.batch@) == filed_batch(cluster.node_id@, views(polled@)),
        final(state)@ == after_tick(old(state)@, cluster.node_id@, views(polled@), now),
        report.forward == forwards(mode_of(cluster.role@), cluster.hub_url@, polled@.len()),
{
    let batch = qualify_batch(cluster.node_id.as_str(), polled);
    assert(views(batch@).len() == views(polled@).len());
    let mut forward = false;
    if batch.len() > 0 {
        state.merge(&batch, now);
        let spoke = match cluster.mode() {
            ClusterMode::Spoke => true,
            _ => false,
        };
        forward = spoke && !cluster.hub_url.as_str().is_empty();
    }
    TickReport { batch, forward }
}

} // verus!
