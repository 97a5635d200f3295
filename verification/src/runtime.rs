//! Decisions of the device polling loop and of start-up: which clusters to
//! announce as changed, reachability tracking, and the device count check.

use vstd::prelude::*;
use std::collections::HashMap;

verus! {

broadcast use vstd::std_specs::hash::group_hash_axioms;

/// Which parts of a device status differ from the previous successful poll.
#[derive(Debug, PartialEq, Eq, Clone, Copy, Structural)]
pub struct StatusDelta {
    pub power: bool,
    pub mode: bool,
    /// The temperature targets.
    pub temperature: bool,
    /// The indoor temperature reading.
    pub sensor_temperature: bool,
    /// The outdoor temperature reading.
    pub outdoor_temperature: bool,
    pub wind: bool,
    pub humidity: bool,
    pub power_consumption: bool,
}

/// Clusters of a bridged device whose attributes are announced as changed.
#[derive(Debug, PartialEq, Eq, Clone, Copy, Structural)]
pub struct ClusterUpdates {
    pub on_off: bool,
    pub thermostat: bool,
    pub fan_control: bool,
    pub humidity: bool,
    pub power: bool,
}

/// The clusters to announce after a successful poll. With no previous status
/// (`None`) every cluster is announced; power measurement only on devices
/// that have it.
pub open spec fn updates_for(delta: Option<StatusDelta>, has_power: bool) -> ClusterUpdates {
    match delta {
        None => ClusterUpdates {
            on_off: true,
            thermostat: true,
            fan_control: true,
            humidity: true,
            power: has_power,
        },
        Some(d) => ClusterUpdates {
            on_off: d.power || d.mode,
            thermostat: d.mode || d.temperature || d.sensor_temperature || d.outdoor_temperature,
            fan_control: d.wind || d.mode,
            humidity: d.humidity,
            power: has_power && d.power_consumption,
        },
    }
}

/// What a poll announces, change by change: a change of the power state
/// announces on/off; of the mode, on/off, thermostat and fan control; of a
/// temperature target or reading, the thermostat; of the airflow settings,
/// fan control; of the humidity, the humidity cluster; of the energy
/// reading, power measurement on a device that has it. A cluster is
/// announced only when one of the values it shows changed, and power
/// measurement never on a device without it.
pub proof fn lemma_changes_are_announced(d: StatusDelta, has_power: bool)
    ensures
        d.power ==> updates_for(Some(d), has_power).on_off,
        d.mode ==> updates_for(Some(d), has_power).on_off,
        d.mode ==> updates_for(Some(d), has_power).thermostat,
        d.mode ==> updates_for(Some(d), has_power).fan_control,
        d.temperature ==> updates_for(Some(d), has_power).thermostat,
        d.sensor_temperature ==> updates_for(Some(d), has_power).thermostat,
        d.outdoor_temperature ==> updates_for(Some(d), has_power).thermostat,
        d.wind ==> updates_for(Some(d), has_power).fan_control,
        d.humidity ==> updates_for(Some(d), has_power).humidity,
        has_power && d.power_consumption ==> updates_for(Some(d), has_power).power,
        updates_for(Some(d), has_power).on_off ==> d.power || d.mode,
        updates_for(Some(d), has_power).thermostat ==> d.mode || d.temperature || d.sensor_temperature
            || d.outdoor_temperature,
        updates_for(Some(d), has_power).fan_control ==> d.wind || d.mode,
        updates_for(Some(d), has_power).humidity ==> d.humidity,
        updates_for(Some(d), has_power).power ==> has_power && d.power_consumption,
{
}

/// The first poll of a device (no earlier status) announces every cluster
/// it has, power measurement only when it has it.
pub proof fn lemma_first_poll_announces_all(has_power: bool)
    ensures
        updates_for(None, has_power).on_off,
        updates_for(None, has_power).thermostat,
        updates_for(None, has_power).fan_control,
        updates_for(None, has_power).humidity,
        updates_for(None, has_power).power == has_power,
{
}

/// Decides which clusters of a polled device to announce as changed.
pub fn clusters_to_notify(delta: Option<StatusDelta>, has_power: bool) -> (u: ClusterUpdates)
    ensures
        u == updates_for(delta, has_power),
{
    match delta {
        None => ClusterUpdates {
            on_off: true,
            thermostat: true,
            fan_control: true,
            humidity: true,
            power: has_power,
        },
        Some(d) => ClusterUpdates {
            on_off: d.power || d.mode,
            thermostat: d.mode || d.temperature || d.sensor_temperature || d.outdoor_temperature,
            fan_control: d.wind || d.mode,
            humidity: d.humidity,
            power: has_power && d.power_consumption,
        },
    }
}

/// Reachability of each polled endpoint as of its last poll.
pub struct Reachability {
    last: HashMap<u16, bool>,
}

impl Reachability {
    /// Endpoint → reachability recorded at its last poll.
    pub closed spec fn recorded(&self) -> Map<u16, bool> {
        self.last@
    }

    /// Reachability of `ep` before its next poll: what was recorded, and
    /// reachable for an endpoint never polled.
    pub open spec fn before(&self, ep: u16) -> bool {
        if self.recorded().contains_key(ep) {
            self.recorded()[ep]
        } else {
            true
        }
    }

    /// Nothing recorded yet.
    pub fn new() -> (r: Reachability)
        ensures
            r.recorded() == Map::<u16, bool>::empty(),
    {
        Reachability { last: HashMap::new() }
    }

    /// Reachability of `ep` before its next poll.
    pub fn reachable_before(&self, ep: u16) -> (r: bool)
        ensures
            r == self.before(ep),
    {
        match self.last.get(&ep) {
            Some(v) => *v,
            None => true,
        }
    }

    /// Records the reachability that a poll of `ep` found; returns whether it
    /// differs from what held before (the bridged device information is then
    /// announced as changed).
    pub fn record(&mut self, ep: u16, now: bool) -> (changed: bool)
        ensures
            changed == (old(self).before(ep) != now),
            final(self).recorded() == old(self).recorded().insert(ep, now),
    {
        let before = self.reachable_before(ep);
        self.last.insert(ep, now);
        before != now
    }
}

/// A recorded reachability is what a later look-up gives back, and recording
/// one endpoint leaves the others as they were.
pub proof fn lemma_reachability_read_after_record(r: Reachability, after: Reachability, ep: u16, now: bool, other: u16)
    requires
        after.recorded() == r.recorded().insert(ep, now),
    ensures
        after.before(ep) == now,
        other != ep ==> after.before(other) == r.before(other),
{
}

/// The status of each endpoint at its last successful poll.
pub struct PollHistory<S> {
    last: HashMap<u16, S>,
}

impl<S> PollHistory<S> {
    /// Endpoint → status at its last successful poll.
    pub closed spec fn statuses(&self) -> Map<u16, S> {
        self.last@
    }

    /// No endpoint polled yet.
    pub fn new() -> (h: PollHistory<S>)
        ensures
            h.statuses() == Map::<u16, S>::empty(),
    {
        PollHistory { last: HashMap::new() }
    }

    /// The status of `ep` at its last successful poll, if it had one.
    pub fn previous(&self, ep: u16) -> (r: Option<&S>)
        ensures
            match r {
                Some(s) => self.statuses().contains_key(ep) && *s == self.statuses()[ep],
                None => !self.statuses().contains_key(ep),
            },
    {
        self.last.get(&ep)
    }

    /// Remembers the status that a successful poll of `ep` found.
    pub fn remember(&mut self, ep: u16, status: S)
        ensures
            final(self).statuses() == old(self).statuses().insert(ep, status),
    {
        self.last.insert(ep, status);
    }
}

/// A remembered status is what the next look-up of its endpoint gives back,
/// and remembering one endpoint leaves the others as they were.
pub proof fn lemma_history_read_after_remember<S>(h: PollHistory<S>, after: PollHistory<S>, ep: u16, status: S, other: u16)
    requires
        after.statuses() == h.statuses().insert(ep, status),
    ensures
        after.statuses().contains_key(ep) && after.statuses()[ep] == status,
        other != ep ==> after.statuses().contains_key(other) == h.statuses().contains_key(other),
        other != ep && h.statuses().contains_key(other) ==> after.statuses()[other] == h.statuses()[other],
{
}

/// Number of devices that means "no limit was asked for".
pub const DEFAULT_DEVICE_COUNT: usize = 128;

/// Why start-up ends without a bridge.
#[derive(Debug, PartialEq, Eq, Clone, Copy, Structural)]
pub enum DeviceCountError {
    /// No device was found.
    NoDevices,
    /// Fewer devices than explicitly requested were found.
    TooFew { found: usize, requested: usize },
}

/// Discovery stops once this many devices were found.
pub fn discovery_done(found: usize, requested: usize) -> (r: bool)
    ensures
        r == (found >= requested),
{
    found >= requested
}

/// Checks the number of devices connected at start-up against the number
/// requested (`DEFAULT_DEVICE_COUNT` when none was given).
pub fn check_device_count(found: usize, requested: usize) -> (r: Result<(), DeviceCountError>)
    ensures
        found == 0 ==> r == Err::<(), DeviceCountError>(DeviceCountError::NoDevices),
        found > 0 && requested != DEFAULT_DEVICE_COUNT && found < requested ==> r == Err::<(), DeviceCountError>(
            DeviceCountError::TooFew { found, requested },
        ),
        r is Ok <==> (found > 0 && (requested == DEFAULT_DEVICE_COUNT || found >= requested)),
{
    if found == 0 {
        Err(DeviceCountError::NoDevices)
    } else if requested != DEFAULT_DEVICE_COUNT && found < requested {
        Err(DeviceCountError::TooFew { found, requested })
    } else {
        Ok(())
    }
}

} // verus!
