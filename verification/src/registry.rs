//! The registry: one slot for each role, filled where the role is enabled.

use vstd::prelude::*;
use crate::error::HostError;
use crate::plugin::{load_order, poll_order, Loaded, PluginState, Role};

verus! {

/// One optional slot for each role. A role whose plugin was not brought up
/// has none. What a slot is, is left to the owner: the loaded plugin itself,
/// or a lock around it where the roles are used side by side, so that each
/// role has a lock of its own and the question whether a role is enabled
/// needs none.
pub struct PluginRegistry<S> {
    pub primary_sensor: Option<S>,
    pub environmental_sensor: Option<S>,
    pub pi4_monitor: Option<S>,
    pub revpi_monitor: Option<S>,
    pub dashboard: Option<S>,
    pub auxiliary_display: Option<S>,
}

/// One step of a tick.
#[derive(Debug, Clone, Copy, PartialEq, Eq, Structural)]
pub enum TickAction {
    /// Look whether the role's binary changed, and reload it if so.
    CheckReload(Role),
    /// Ask the role's plugin for readings.
    Poll(Role),
    /// Push the indicator buffer to the strip.
    Flush,
}

/// The steps of a tick for the roles that `enabled` holds of: the reload
/// checks in load order, then the polls, sensors before monitors, then the
/// flush of the indicators.
pub open spec fn tick_actions(enabled: spec_fn(Role) -> bool) -> Seq<TickAction> {
    load_order().filter(enabled).map_values(|role: Role| TickAction::CheckReload(role))
        + poll_order().filter(enabled).map_values(|role: Role| TickAction::Poll(role)) + seq![
        TickAction::Flush,
    ]
}

/// How a reload of one role ended.
pub enum ReloadOutcome {
    /// The role has no slot: nothing was done.
    NotLoaded,
    /// The new instance serves from now on.
    Replaced,
    /// The old instance goes on serving; the failure is for the log.
    Kept(HostError),
}

impl<S> PluginRegistry<S> {
    /// The slot of `role`.
    pub open spec fn slot(&self, role: Role) -> Option<S> {
        match role {
            Role::PrimarySensor => self.primary_sensor,
            Role::EnvironmentalSensor => self.environmental_sensor,
            Role::Pi4Monitor => self.pi4_monitor,
            Role::RevPiMonitor => self.revpi_monitor,
            Role::DashboardRenderer => self.dashboard,
            Role::AuxiliaryDisplay => self.auxiliary_display,
        }
    }

    /// The role has a slot.
    pub open spec fn enabled(&self, role: Role) -> bool {
        self.slot(role) is Some
    }

    /// A registry without any slot.
    pub fn new() -> (registry: Self)
        ensures
            forall|role: Role| registry.slot(role) is None,
    {
        PluginRegistry {
            primary_sensor: None,
            environmental_sensor: None,
            pi4_monitor: None,
            revpi_monitor: None,
            dashboard: None,
            auxiliary_display: None,
        }
    }

    /// Gives `role` the slot `slot`. The other roles keep theirs.
    pub fn install(&mut self, role: Role, slot: S)
        ensures
            final(self).slot(role) == Some(slot),
            forall|other: Role| other != role ==> final(self).slot(other) == old(self).slot(other),
    {
        match role {
            Role::PrimarySensor => {
                self.primary_sensor = Some(slot);
            },
            Role::EnvironmentalSensor => {
                self.environmental_sensor = Some(slot);
            },
            Role::Pi4Monitor => {
                self.pi4_monitor = Some(slot);
            },
            Role::RevPiMonitor => {
                self.revpi_monitor = Some(slot);
            },
            Role::DashboardRenderer => {
                self.dashboard = Some(slot);
            },
            Role::AuxiliaryDisplay => {
                self.auxiliary_display = Some(slot);
            },
        }
    }

    /// Whether `role` has a slot.
    pub fn is_enabled(&self, role: Role) -> (enabled: bool)
        ensures
            enabled == self.enabled(role),
    {
        self.get(role).is_some()
    }

    /// The slot of `role`; nothing where the role was not brought up, which
    /// is a reason to skip it and no fault.
    pub fn get(&self, role: Role) -> (slot: Option<&S>)
        ensures
            slot is Some <==> self.enabled(role),
            slot matches Some(s) ==> self.slot(role) == Some(*s),
    {
        match role {
            Role::PrimarySensor => self.primary_sensor.as_ref(),
            Role::EnvironmentalSensor => self.environmental_sensor.as_ref(),
            Role::Pi4Monitor => self.pi4_monitor.as_ref(),
            Role::RevPiMonitor => self.revpi_monitor.as_ref(),
            Role::DashboardRenderer => self.dashboard.as_ref(),
            Role::AuxiliaryDisplay => self.auxiliary_display.as_ref(),
        }
    }

    /// The slot of `role`, to invoke its plugin through.
    pub fn get_mut(&mut self, role: Role) -> (slot: &mut Option<S>)
        ensures
            *slot == old(self).slot(role),
            final(self).slot(role) == *final(slot),
            forall|other: Role| other != role ==> final(self).slot(other) == old(self).slot(other),
    {
        match role {
            Role::PrimarySensor => &mut self.primary_sensor,
            Role::EnvironmentalSensor => &mut self.environmental_sensor,
            Role::Pi4Monitor => &mut self.pi4_monitor,
            Role::RevPiMonitor => &mut self.revpi_monitor,
            Role::DashboardRenderer => &mut self.dashboard,
            Role::AuxiliaryDisplay => &mut self.auxiliary_display,
        }
    }

    /// The roles that have a slot, in load order.
    pub fn loaded_roles(&self) -> (roles: Vec<Role>)
        ensures
            roles@ == load_order().filter(|role: Role| self.enabled(role)),
    {
        let order = [
            Role::PrimarySensor,
            Role::Pi4Monitor,
            Role::RevPiMonitor,
            Role::EnvironmentalSensor,
            Role::DashboardRenderer,
            Role::AuxiliaryDisplay,
        ];
        let ghost wanted = |role: Role| self.enabled(role);
        let mut roles: Vec<Role> = Vec::new();
        let mut i: usize = 0;
        assert(order@ =~= load_order());
        assert(order@.take(0).filter(wanted) =~= Seq::<Role>::empty()) by {
            reveal(Seq::filter);
        }
        while i < 6
            invariant
                i <= 6,
                order@ == load_order(),
                wanted == (|role: Role| self.enabled(role)),
                roles@ == order@.take(i as int).filter(wanted),
            decreases 6 - i,
        {
            let role = order[i];
            proof {
                let next = order@.take(i as int + 1);
                assert(next.drop_last() =~= order@.take(i as int));
                assert(next.last() == role);
                reveal(Seq::filter);
            }
            if self.is_enabled(role) {
                roles.push(role);
            }
            i += 1;
        }
        assert(order@.take(6) =~= order@);
        roles
    }

    /// The steps of a tick, in the order in which they are taken. A role
    /// without a slot has no step.
    pub fn tick_plan(&self) -> (plan: Vec<TickAction>)
        ensures
            plan@ == tick_actions(|role: Role| self.enabled(role)),
    {
        let loaded = self.loaded_roles();
        let polled = self.poll_plan();
        let mut plan: Vec<TickAction> = Vec::new();
        let mut i: usize = 0;
        while i < loaded.len()
            invariant
                i <= loaded.len(),
                plan@ == loaded@.take(i as int).map_values(
                    |role: Role| TickAction::CheckReload(role),
                ),
            decreases loaded.len() - i,
        {
            plan.push(TickAction::CheckReload(loaded[i]));
            i += 1;
            assert(plan@ =~= loaded@.take(i as int).map_values(
                |role: Role| TickAction::CheckReload(role),
            ));
        }
        assert(loaded@.take(loaded@.len() as int) =~= loaded@);
        let ghost checks = plan@;
        let mut j: usize = 0;
        while j < polled.len()
            invariant
                j <= polled.len(),
                plan@ == checks + polled@.take(j as int).map_values(
                    |role: Role| TickAction::Poll(role),
                ),
            decreases polled.len() - j,
        {
            plan.push(TickAction::Poll(polled[j]));
            j += 1;
            assert(plan@ =~= checks + polled@.take(j as int).map_values(
                |role: Role| TickAction::Poll(role),
            ));
        }
        assert(polled@.take(polled@.len() as int) =~= polled@);
        plan.push(TickAction::Flush);
        plan
    }

    /// The roles to poll in a tick: those that have a slot and produce
    /// readings, sensors before monitors. A role without a slot is never
    /// among them.
    pub fn poll_plan(&self) -> (plan: Vec<Role>)
        ensures
            plan@ == poll_order().filter(|role: Role| self.enabled(role)),
            forall|role: Role| plan@.contains(role) <==> role.polled() && self.enabled(role),
    {
        let order = [
            Role::PrimarySensor,
            Role::EnvironmentalSensor,
            Role::Pi4Monitor,
            Role::RevPiMonitor,
        ];
        let ghost wanted = |role: Role| self.enabled(role);
        let mut plan: Vec<Role> = Vec::new();
        let mut i: usize = 0;
        assert(order@ =~= poll_order());
        assert(order@.take(0).filter(wanted) =~= Seq::<Role>::empty()) by {
            reveal(Seq::filter);
        }
        while i < 4
            invariant
                i <= 4,
                order@ == poll_order(),
                wanted == (|role: Role| self.enabled(role)),
                plan@ == order@.take(i as int).filter(wanted),
                forall|role: Role|
                    plan@.contains(role) <==> order@.take(i as int).contains(role) && self.enabled(
                        role,
                    ),
            decreases 4 - i,
        {
            let role = order[i];
            let ghost before = plan@;
            proof {
                let head = order@.take(i as int);
                let next = order@.take(i as int + 1);
                assert(next.drop_last() =~= head);
                assert(next.last() == role);
                assert(next =~= head.push(role));
                reveal(Seq::filter);
            }
            if self.is_enabled(role) {
                plan.push(role);
            }
            proof {
                let head = order@.take(i as int);
                let next = order@.take(i as int + 1);
                assert forall|r: Role|
                    plan@.contains(r) <==> next.contains(r) && self.enabled(r) by {
                    if plan@.contains(r) {
                        let k = choose|k: int| 0 <= k < plan@.len() && plan@[k] == r;
                        if k < before.len() {
                            assert(before[k] == r);
                            assert(before.contains(r));
                            let m = choose|m: int| 0 <= m < head.len() && head[m] == r;
                            assert(next[m] == r);
                        } else {
                            assert(r == role);
                            assert(next[i as int] == r);
                        }
                    }
                    if next.contains(r) && self.enabled(r) {
                        let m = choose|m: int| 0 <= m < next.len() && next[m] == r;
                        if m < i {
                            assert(head[m] == r);
                            assert(head.contains(r));
                            let k = choose|k: int| 0 <= k < before.len() && before[k] == r;
                            assert(plan@[k] == r);
                        } else {
                            assert(r == role);
                            assert(plan@[plan@.len() - 1] == r);
                        }
                    }
                }
            }
            i += 1;
        }
        proof {
            assert(order@.take(4) =~= order@);
            assert forall|role: Role| poll_order().contains(role) <==> role.polled() by {
                let o = poll_order();
                assert(o[0] == Role::PrimarySensor);
                assert(o[1] == Role::EnvironmentalSensor);
                assert(o[2] == Role::Pi4Monitor);
                assert(o[3] == Role::RevPiMonitor);
            }
        }
        plan
    }
}

impl<T> PluginRegistry<PluginState<T>> {
    /// Whether the binary of `role` is newer than its running instance. A
    /// role without a slot never is.
    pub fn needs_reload(&self, role: Role, on_disk: Option<u64>) -> (stale: bool)
        ensures
            stale == (self.slot(role) matches Some(slot) && slot.stale(on_disk)),
    {
        match self.get(role) {
            Some(slot) => slot.needs_reload(on_disk),
            None => false,
        }
    }

    /// Ends a reload of `role` with what building a new instance gave. Only
    /// the slot of `role` can change, and only when the attempt succeeded.
    pub fn reload(&mut self, role: Role, attempt: Result<Loaded<T>, HostError>) -> (outcome:
        ReloadOutcome)
        ensures
            forall|other: Role| other != role ==> final(self).slot(other) == old(self).slot(other),
            match (old(self).slot(role), attempt) {
                (None, _) => outcome is NotLoaded && final(self).slot(role) is None,
                (Some(before), Ok(loaded)) => {
                    &&& outcome is Replaced
                    &&& final(self).slot(role) == Some(
                        PluginState {
                            path: before.path,
                            last_modified: loaded.modified,
                            instance: loaded.instance,
                        },
                    )
                },
                (Some(before), Err(failure)) => {
                    &&& outcome == ReloadOutcome::Kept(failure)
                    &&& final(self).slot(role) == Some(before)
                },
            },
    {
        let slot = self.get_mut(role);
        match slot {
            Some(state) => match state.reload(attempt) {
                Ok(()) => ReloadOutcome::Replaced,
                Err(failure) => ReloadOutcome::Kept(failure),
            },
            None => ReloadOutcome::NotLoaded,
        }
    }
}

/// In every tick each poll comes before the flush, and no sensor is polled
/// after a monitor.
pub proof fn lemma_tick_order(enabled: spec_fn(Role) -> bool, i: int, j: int)
    requires
        0 <= i < j < tick_actions(enabled).len(),
    ensures
        tick_actions(enabled)[i] != TickAction::Flush,
        tick_actions(enabled)[j] is Poll ==> !(tick_actions(enabled)[i] matches TickAction::Poll(
            earlier,
        ) && earlier.monitors() && !tick_actions(enabled)[j]->Poll_0.monitors()),
        tick_actions(enabled).last() == TickAction::Flush,
{
    let checks = load_order().filter(enabled).map_values(
        |role: Role| TickAction::CheckReload(role),
    );
    let roles = poll_order().filter(enabled);
    let polls = roles.map_values(|role: Role| TickAction::Poll(role));
    let all = tick_actions(enabled);
    assert(all == checks + polls + seq![TickAction::Flush]);
    assert(all.len() == checks.len() + polls.len() + 1);
    if checks.len() <= i && all[j] is Poll {
        let a = i - checks.len();
        let b = j - checks.len();
        assert(all[i] == polls[a]);
        assert(all[j] == polls[b]);
        lemma_polls_sensors_first(enabled, a, b);
    }
}

/// Among the roles polled, a monitor never comes before a sensor.
proof fn lemma_polls_sensors_first(enabled: spec_fn(Role) -> bool, a: int, b: int)
    requires
        0 <= a < b < poll_order().filter(enabled).len(),
    ensures
        !(poll_order().filter(enabled)[a].monitors() && !poll_order().filter(enabled)[b].monitors()),
{
    reveal_with_fuel(Seq::filter, 5);
    let o = poll_order();
    let o3 = o.drop_last();
    let o2 = o3.drop_last();
    let o1 = o2.drop_last();
    let o0 = o1.drop_last();
    assert(o.last() == Role::RevPiMonitor);
    assert(o3.last() == Role::Pi4Monitor);
    assert(o2.last() == Role::EnvironmentalSensor);
    assert(o1.last() == Role::PrimarySensor);
    assert(o0.len() == 0);
    let f0 = o0.filter(enabled);
    let f1 = o1.filter(enabled);
    let f2 = o2.filter(enabled);
    let f3 = o3.filter(enabled);
    let f4 = o.filter(enabled);
    assert(f0.len() == 0);
    assert(forall|k: int| 0 <= k < f1.len() ==> !(#[trigger] f1[k]).monitors());
    assert(forall|k: int| 0 <= k < f2.len() ==> !(#[trigger] f2[k]).monitors());
    assert(forall|k: int| 0 <= k < f2.len() ==> f3[k] == f2[k]);
    assert(forall|k: int| f2.len() <= k < f3.len() ==> (#[trigger] f3[k]).monitors());
    assert(forall|k: int| 0 <= k < f3.len() ==> f4[k] == f3[k]);
    assert(forall|k: int| f3.len() <= k < f4.len() ==> (#[trigger] f4[k]).monitors());
}

} // verus!
