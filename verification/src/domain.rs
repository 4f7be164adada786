//! Sensor readings and the aggregate state they are merged into.

use vstd::prelude::*;
use crate::merge::{
    entry, last_of, lemma_merged_entry, lemma_merged_keeps_distinct, lemma_upsert_entry,
    lemma_upsert_keeps_distinct,
};

verus! {

/// `serde_json::Value`, the free-form payload of a reading. The library
/// carries it through and never looks inside.
#[verifier::external_type_specification]
#[verifier::external_body]
pub struct ExJsonValue(serde_json::Value);

/// `Clone::clone` of `serde_json::Value`: the derived clone, which builds a
/// value with the same structure as its argument.
pub assume_specification[ <serde_json::Value as Clone>::clone ](v: &serde_json::Value) -> (res:
    serde_json::Value)
    ensures
        res == *v,
;

/// One reading of one sensor.
pub struct SensorReading {
    /// Identifies the physical source within a node.
    pub sensor_id: String,
    /// When the reading was taken, in milliseconds since the Unix epoch.
    pub timestamp_ms: u64,
    /// Named values of the reading, in no fixed schema.
    pub data: serde_json::Value,
}

/// What a reading is to the contracts.
pub ghost struct ReadingView {
    pub sensor_id: Seq<char>,
    pub timestamp_ms: u64,
    pub data: serde_json::Value,
}

impl View for SensorReading {
    type V = ReadingView;

    open spec fn view(&self) -> ReadingView {
        ReadingView { sensor_id: self.sensor_id@, timestamp_ms: self.timestamp_ms, data: self.data }
    }
}

impl Clone for SensorReading {
    fn clone(&self) -> (res: Self)
        ensures
            res@ == self@,
    {
        SensorReading {
            sensor_id: self.sensor_id.clone(),
            timestamp_ms: self.timestamp_ms,
            data: self.data.clone(),
        }
    }
}

/// The views of a sequence of readings, in order.
pub open spec fn views(readings: Seq<SensorReading>) -> Seq<ReadingView> {
    readings.map_values(|r: SensorReading| r@)
}

/// Some entry of `s` carries the identifier `id`.
pub open spec fn has_id(s: Seq<ReadingView>, id: Seq<char>) -> bool {
    exists|i: int| 0 <= i < s.len() && #[trigger] s[i].sensor_id == id
}

/// `i` is the first place in `s` that carries the identifier `id`.
pub open spec fn is_first(s: Seq<ReadingView>, id: Seq<char>, i: int) -> bool {
    &&& 0 <= i < s.len()
    &&& s[i].sensor_id == id
    &&& forall|j: int| 0 <= j < i ==> #[trigger] s[j].sensor_id != id
}

/// The first place in `s` that carries `id`, if there is one.
pub open spec fn position(s: Seq<ReadingView>, id: Seq<char>) -> Option<int> {
    if exists|i: int| is_first(s, id, i) {
        Some(choose|i: int| is_first(s, id, i))
    } else {
        None
    }
}

/// No identifier occurs twice in `s`.
pub open spec fn distinct_ids(s: Seq<ReadingView>) -> bool {
    forall|i: int, j: int|
        0 <= i < j < s.len() ==> #[trigger] s[i].sensor_id != #[trigger] s[j].sensor_id
}

/// `s` after one reading was merged: it replaces the first entry with its
/// identifier, or is appended when there is none.
pub open spec fn upsert(s: Seq<ReadingView>, r: ReadingView) -> Seq<ReadingView> {
    match position(s, r.sensor_id) {
        Some(i) => s.update(i, r),
        None => s.push(r),
    }
}

/// `s` after the readings of `batch` were merged one by one, first to last.
pub open spec fn merged(s: Seq<ReadingView>, batch: Seq<ReadingView>) -> Seq<ReadingView>
    decreases batch.len(),
{
    if batch.len() == 0 {
        s
    } else {
        merged(upsert(s, batch.first()), batch.drop_first())
    }
}

/// Two first places of one identifier are the same place.
pub proof fn lemma_first_is_unique(s: Seq<ReadingView>, id: Seq<char>, i: int, j: int)
    requires
        is_first(s, id, i),
        is_first(s, id, j),
    ensures
        i == j,
{
    if i < j {
        assert(s[i].sensor_id == id);
    } else if j < i {
        assert(s[j].sensor_id == id);
    }
}

/// `position` finds the first place where there is one, and nothing where no
/// entry carries the identifier.
pub proof fn lemma_position(s: Seq<ReadingView>, id: Seq<char>)
    ensures
        has_id(s, id) <==> position(s, id) is Some,
        position(s, id) matches Some(i) ==> is_first(s, id, i),
    decreases s.len(),
{
    if has_id(s, id) {
        let k = choose|i: int| 0 <= i < s.len() && #[trigger] s[i].sensor_id == id;
        lemma_least_place(s, id, k);
    }
    if position(s, id) is Some {
        let i = choose|i: int| is_first(s, id, i);
        assert(s[i].sensor_id == id);
    }
}

/// Below any place that carries `id` lies a first one.
proof fn lemma_least_place(s: Seq<ReadingView>, id: Seq<char>, k: int)
    requires
        0 <= k < s.len(),
        s[k].sensor_id == id,
    ensures
        exists|i: int| is_first(s, id, i),
    decreases k,
{
    if forall|j: int| 0 <= j < k ==> #[trigger] s[j].sensor_id != id {
        assert(is_first(s, id, k));
    } else {
        let j = choose|j: int| 0 <= j < k && #[trigger] s[j].sensor_id == id;
        lemma_least_place(s, id, j);
    }
}

/// The aggregate of the latest reading of every sensor.
pub struct AppState {
    /// The latest reading of each sensor, in the order in which the sensors
    /// were first seen.
    pub readings: Vec<SensorReading>,
    /// When the last merge happened, in milliseconds since the Unix epoch.
    pub last_update: u64,
}

/// What the aggregate state is to the contracts.
pub ghost struct StateView {
    pub readings: Seq<ReadingView>,
    pub last_update: u64,
}

impl View for AppState {
    type V = StateView;

    open spec fn view(&self) -> StateView {
        StateView { readings: views(self.readings@), last_update: self.last_update }
    }
}

impl Clone for AppState {
    fn clone(&self) -> (res: Self)
        ensures
            res@ == self@,
    {
        let mut readings: Vec<SensorReading> = Vec::new();
        let mut i: usize = 0;
        while i < self.readings.len()
            invariant
                i <= self.readings.len(),
                views(readings@) == views(self.readings@).take(i as int),
            decreases self.readings.len() - i,
        {
            let ghost held = readings@;
            let reading = self.readings[i].clone();
            readings.push(reading);
            proof {
                assert(views(readings@) =~= views(held).push(reading@));
                assert(views(self.readings@).take(i as int + 1) =~= views(self.readings@).take(
                    i as int,
                ).push(reading@));
            }
            i += 1;
        }
        assert(views(self.readings@).take(self.readings@.len() as int) =~= views(self.readings@));
        AppState { readings, last_update: self.last_update }
    }
}

impl Default for AppState {
    fn default() -> (state: Self)
        ensures
            state@.readings == Seq::<ReadingView>::empty(),
            state@.last_update == 0,
            state.wf(),
    {
        let state = AppState { readings: Vec::new(), last_update: 0 };
        assert(state@.readings =~= Seq::<ReadingView>::empty());
        state
    }
}

impl AppState {
    /// Every sensor has at most one entry.
    pub open spec fn wf(&self) -> bool {
        distinct_ids(self@.readings)
    }

    /// The place of the first entry with the identifier `id`.
    pub fn find(&self, id: &String) -> (found: Option<usize>)
        ensures
            match found {
                Some(i) => position(self@.readings, id@) == Some(i as int),
                None => position(self@.readings, id@) is None,
            },
    {
        let ghost s = self@.readings;
        let mut i: usize = 0;
        while i < self.readings.len()
            invariant
                i <= self.readings.len(),
                s == views(self.readings@),
                forall|j: int| 0 <= j < i ==> #[trigger] s[j].sensor_id != id@,
            decreases self.readings.len() - i,
        {
            if self.readings[i].sensor_id == *id {
                proof {
                    assert(s[i as int] == self.readings@[i as int]@);
                    assert(is_first(s, id@, i as int));
                    lemma_position(s, id@);
                    lemma_first_is_unique(s, id@, i as int, position(s, id@).unwrap());
                }
                return Some(i);
            }
            assert(s[i as int] == self.readings@[i as int]@);
            i += 1;
        }
        proof {
            lemma_position(s, id@);
        }
        None
    }

    /// Merges one reading: it takes the place of the entry with its
    /// identifier, or is appended when the sensor is new.
    pub fn upsert(&mut self, reading: SensorReading)
        ensures
            final(self)@.readings == upsert(old(self)@.readings, reading@),
            final(self)@.last_update == old(self)@.last_update,
            entry(final(self)@.readings, reading@.sensor_id) == Some(reading@),
            old(self).wf() ==> final(self).wf(),
    {
        let found = self.find(&reading.sensor_id);
        let ghost before = self@.readings;
        proof {
            lemma_upsert_entry(before, reading@, reading@.sensor_id);
            if distinct_ids(before) {
                lemma_upsert_keeps_distinct(before, reading@);
            }
        }
        match found {
            Some(i) => {
                proof {
                    lemma_position(before, reading@.sensor_id);
                }
                self.readings[i] = reading;
                assert(self@.readings =~= before.update(i as int, reading@));
            },
            None => {
                self.readings.push(reading);
                assert(self@.readings =~= before.push(reading@));
            },
        }
    }

    /// Merges a batch, first reading to last, and records `now` as the time
    /// of the update.
    pub fn merge(&mut self, batch: &Vec<SensorReading>, now: u64)
        ensures
            final(self)@.readings == merged(old(self)@.readings, views(batch@)),
            final(self)@.last_update == now,
            forall|k: int|
                0 <= k < batch@.len() ==> entry(
                    final(self)@.readings,
                    (#[trigger] batch@[k])@.sensor_id,
                ) == last_of(views(batch@), batch@[k]@.sensor_id),
            old(self).wf() ==> final(self).wf(),
    {
        let ghost all = views(batch@);
        let ghost start = self@.readings;
        proof {
            if distinct_ids(start) {
                lemma_merged_keeps_distinct(start, all);
            }
            assert forall|k: int| 0 <= k < batch@.len() implies entry(
                merged(start, all),
                (#[trigger] batch@[k])@.sensor_id,
            ) == last_of(all, batch@[k]@.sensor_id) by {
                lemma_merged_entry(start, all, batch@[k]@.sensor_id);
                crate::merge::lemma_last_of_present(all, k);
            }
        }
        let mut k: usize = 0;
        assert(all.skip(0) =~= all);
        while k < batch.len()
            invariant
                k <= batch.len(),
                all == views(batch@),
                merged(self@.readings, all.skip(k as int)) == merged(start, all),
            decreases batch.len() - k,
        {
            let reading = batch[k].clone();
            proof {
                let rest = all.skip(k as int);
                assert(rest.first() == reading@);
                assert(rest.drop_first() =~= all.skip(k as int + 1));
            }
            self.upsert(reading);
            k += 1;
        }
        assert(all.skip(k as int).len() == 0);
        self.last_update = now;
    }
}

} // verus!
