//! Endpoint layout of the Matter bridge and routing of requests to the
//! clusters of a bridged device.

use vstd::prelude::*;

verus! {

/// Entry `k` of `devices` is the first one that carries its endpoint id.
pub open spec fn is_first_entry(devices: Seq<(u16, bool)>, k: int) -> bool {
    &&& 0 <= k < devices.len()
    &&& forall|j: int| 0 <= j < k ==> devices[j].0 != devices[k].0
}

/// Endpoint ids strictly increase along `plan`.
pub open spec fn ids_increasing(plan: Seq<(u16, bool)>) -> bool {
    forall|i: int, j: int| 0 <= i < j < plan.len() ==> plan[i].0 < plan[j].0
}

/// `e` is the first entry of `devices[..k]` with its id.
pub open spec fn first_entry_below(devices: Seq<(u16, bool)>, k: int, e: (u16, bool)) -> bool {
    exists|kk: int| #[trigger] is_first_entry(devices, kk) && kk < k && devices[kk] == e
}

/// Every entry of `plan` is the first entry of `devices[..k]` with its id.
pub open spec fn drawn_from_prefix(devices: Seq<(u16, bool)>, plan: Seq<(u16, bool)>, k: int) -> bool {
    forall|i: int| 0 <= i < plan.len() ==> #[trigger] first_entry_below(devices, k, plan[i])
}

/// Some entry of `q` carries endpoint id `id`.
pub open spec fn has_id(q: Seq<(u16, bool)>, id: u16) -> bool {
    exists|k: int| 0 <= k < q.len() && #[trigger] q[k].0 == id
}

/// Every id of `devices[..k]` occurs in `plan`.
pub open spec fn covers_prefix(devices: Seq<(u16, bool)>, plan: Seq<(u16, bool)>, k: int) -> bool {
    forall|kk: int| 0 <= kk < k ==> #[trigger] has_id(plan, devices[kk].0)
}

proof fn lemma_insert_increasing(old_plan: Seq<(u16, bool)>, p: int, e: (u16, bool))
    requires
        0 <= p <= old_plan.len(),
        ids_increasing(old_plan),
        forall|i: int| 0 <= i < p ==> old_plan[i].0 < e.0,
        forall|i: int| p <= i < old_plan.len() ==> old_plan[i].0 > e.0,
    ensures
        ids_increasing(old_plan.insert(p, e)),
{
    let plan = old_plan.insert(p, e);
    assert forall|i: int, j: int| 0 <= i < j < plan.len() implies plan[i].0 < plan[j].0 by {
        if j < p {
            assert(plan[i] == old_plan[i] && plan[j] == old_plan[j]);
        } else if j == p {
            assert(plan[i] == old_plan[i]);
        } else if i < p {
            assert(plan[i] == old_plan[i] && plan[j] == old_plan[j - 1]);
        } else if i == p {
            assert(plan[j] == old_plan[j - 1]);
        } else {
            assert(plan[i] == old_plan[i - 1] && plan[j] == old_plan[j - 1]);
        }
    }
}

proof fn lemma_new_id_is_first(devices: Seq<(u16, bool)>, old_plan: Seq<(u16, bool)>, k: int)
    requires
        0 <= k < devices.len(),
        covers_prefix(devices, old_plan, k),
        forall|i: int| 0 <= i < old_plan.len() ==> old_plan[i].0 != devices[k].0,
    ensures
        is_first_entry(devices, k),
{
    assert forall|j: int| 0 <= j < k implies devices[j].0 != devices[k].0 by {
        assert(has_id(old_plan, devices[j].0));
        let i = choose|i: int| 0 <= i < old_plan.len() && #[trigger] old_plan[i].0 == devices[j].0;
    }
}

proof fn lemma_insert_drawn(devices: Seq<(u16, bool)>, old_plan: Seq<(u16, bool)>, k: int, p: int)
    requires
        0 <= p <= old_plan.len(),
        is_first_entry(devices, k),
        drawn_from_prefix(devices, old_plan, k),
    ensures
        drawn_from_prefix(devices, old_plan.insert(p, devices[k]), k + 1),
{
    let plan = old_plan.insert(p, devices[k]);
    assert forall|i: int| 0 <= i < plan.len() implies #[trigger] first_entry_below(devices, k + 1, plan[i]) by {
        if i < p {
            assert(plan[i] == old_plan[i]);
            assert(first_entry_below(devices, k, old_plan[i]));
        } else if i == p {
            assert(is_first_entry(devices, k) && devices[k] == plan[i]);
        } else {
            assert(plan[i] == old_plan[i - 1]);
            assert(first_entry_below(devices, k, old_plan[i - 1]));
        }
    }
}

proof fn lemma_drawn_grows(devices: Seq<(u16, bool)>, plan: Seq<(u16, bool)>, k: int)
    requires
        drawn_from_prefix(devices, plan, k),
    ensures
        drawn_from_prefix(devices, plan, k + 1),
{
    assert forall|i: int| 0 <= i < plan.len() implies #[trigger] first_entry_below(devices, k + 1, plan[i]) by {
        assert(first_entry_below(devices, k, plan[i]));
    }
}

proof fn lemma_insert_covers(devices: Seq<(u16, bool)>, old_plan: Seq<(u16, bool)>, k: int, p: int)
    requires
        0 <= k < devices.len(),
        0 <= p <= old_plan.len(),
        covers_prefix(devices, old_plan, k),
    ensures
        covers_prefix(devices, old_plan.insert(p, devices[k]), k + 1),
{
    let plan = old_plan.insert(p, devices[k]);
    assert forall|kk: int| 0 <= kk < k + 1 implies #[trigger] has_id(plan, devices[kk].0) by {
        if kk == k {
            assert(plan[p].0 == devices[kk].0);
        } else {
            assert(has_id(old_plan, devices[kk].0));
            let i = choose|i: int| 0 <= i < old_plan.len() && #[trigger] old_plan[i].0 == devices[kk].0;
            if i < p {
                assert(plan[i] == old_plan[i]);
            } else {
                assert(plan[i + 1] == old_plan[i]);
            }
        }
    }
}

/// `plan` lists each endpoint id of `devices` once, in increasing order, with
/// the power flag of the first entry that carries it.
pub open spec fn is_endpoint_plan(devices: Seq<(u16, bool)>, plan: Seq<(u16, bool)>) -> bool {
    &&& ids_increasing(plan)
    &&& drawn_from_prefix(devices, plan, devices.len() as int)
    &&& covers_prefix(devices, plan, devices.len() as int)
}

/// The first slot of a plan whose id is not below `id`.
fn plan_slot(plan: &Vec<(u16, bool)>, id: u16) -> (p: usize)
    requires
        ids_increasing(plan@),
    ensures
        p <= plan@.len(),
        forall|i: int| 0 <= i < p ==> plan@[i].0 < id,
        forall|i: int| p <= i < plan@.len() ==> plan@[i].0 >= id,
{
    let mut p: usize = 0;
    while p < plan.len() && plan[p].0 < id
        invariant
            p <= plan@.len(),
            forall|i: int| 0 <= i < p ==> plan@[i].0 < id,
        decreases plan@.len() - p,
    {
        p = p + 1;
    }
    assert forall|i: int| p <= i < plan@.len() implies plan@[i].0 >= id by {
        if i > p {
            assert(plan@[p as int].0 < plan@[i].0);
        }
    }
    p
}

/// The bridged endpoints of the node, from `(endpoint id, has power
/// metering)` pairs: sorted by id, and of several entries with one id the
/// first is kept.
#[verifier::spinoff_prover]
pub fn endpoint_plan(devices: &[(u16, bool)]) -> (plan: Vec<(u16, bool)>)
    ensures
        is_endpoint_plan(devices@, plan@),
{
    let n = devices.len();
    let mut plan: Vec<(u16, bool)> = Vec::new();
    let mut k: usize = 0;
    while k < n
        invariant
            n == devices@.len(),
            k <= n,
            ids_increasing(plan@),
            drawn_from_prefix(devices@, plan@, k as int),
            covers_prefix(devices@, plan@, k as int),
        decreases n - k,
    {
        let entry = devices[k];
        let p = plan_slot(&plan, entry.0);
        if p < plan.len() && plan[p].0 == entry.0 {
            assert(covers_prefix(devices@, plan@, k + 1)) by {
                assert(plan@[p as int].0 == devices@[k as int].0);
            }
            proof {
                lemma_drawn_grows(devices@, plan@, k as int);
            }
        } else {
            proof {
                let ghost old_plan = plan@;
                assert forall|i: int| 0 <= i < old_plan.len() implies old_plan[i].0 != entry.0 by {
                    if i >= p {
                        assert(old_plan[p as int].0 > entry.0);
                    }
                }
                lemma_new_id_is_first(devices@, old_plan, k as int);
                lemma_insert_increasing(old_plan, p as int, entry);
                lemma_insert_drawn(devices@, old_plan, k as int, p as int);
                lemma_insert_covers(devices@, old_plan, k as int, p as int);
            }
            plan.insert(p, entry);
        }
        k = k + 1;
    }
    plan
}

/// Every id of `p` occurs in `q`.
pub open spec fn ids_within(p: Seq<(u16, bool)>, q: Seq<(u16, bool)>) -> bool {
    forall|i: int| 0 <= i < p.len() ==> #[trigger] has_id(q, p[i].0)
}

proof fn lemma_plan_ids_within(devices: Seq<(u16, bool)>, p1: Seq<(u16, bool)>, p2: Seq<(u16, bool)>)
    requires
        drawn_from_prefix(devices, p1, devices.len() as int),
        covers_prefix(devices, p2, devices.len() as int),
    ensures
        ids_within(p1, p2),
{
    assert forall|i: int| 0 <= i < p1.len() implies #[trigger] has_id(p2, p1[i].0) by {
        assert(first_entry_below(devices, devices.len() as int, p1[i]));
        let kk = choose|kk: int| #[trigger] is_first_entry(devices, kk) && kk < devices.len() && devices[kk] == p1[i];
        assert(has_id(p2, devices[kk].0));
    }
}

proof fn lemma_increasing_agree(p1: Seq<(u16, bool)>, p2: Seq<(u16, bool)>, i: int)
    requires
        ids_increasing(p1),
        ids_increasing(p2),
        ids_within(p1, p2),
        ids_within(p2, p1),
        0 <= i < p1.len(),
    ensures
        i < p2.len(),
        p1[i].0 == p2[i].0,
    decreases i,
{
    assert(has_id(p2, p1[i].0));
    let k = choose|k: int| 0 <= k < p2.len() && #[trigger] p2[k].0 == p1[i].0;
    if k < i {
        lemma_increasing_agree(p1, p2, k);
        assert(p1[k].0 < p1[i].0);
    }
    assert(has_id(p1, p2[i].0));
    let m = choose|m: int| 0 <= m < p1.len() && #[trigger] p1[m].0 == p2[i].0;
    if m < i {
        lemma_increasing_agree(p1, p2, m);
        assert(p2[m].0 < p2[i].0);
    }
    if k > i {
        assert(p2[i].0 < p2[k].0);
        if m > i {
            assert(p1[i].0 < p1[m].0);
        }
    }
}

proof fn lemma_same_entry(devices: Seq<(u16, bool)>, p1: Seq<(u16, bool)>, p2: Seq<(u16, bool)>, i: int)
    requires
        drawn_from_prefix(devices, p1, devices.len() as int),
        drawn_from_prefix(devices, p2, devices.len() as int),
        0 <= i < p1.len(),
        i < p2.len(),
        p1[i].0 == p2[i].0,
    ensures
        p1[i] == p2[i],
{
    assert(first_entry_below(devices, devices.len() as int, p1[i]));
    assert(first_entry_below(devices, devices.len() as int, p2[i]));
    let k1 = choose|kk: int| #[trigger] is_first_entry(devices, kk) && kk < devices.len() && devices[kk] == p1[i];
    let k2 = choose|kk: int| #[trigger] is_first_entry(devices, kk) && kk < devices.len() && devices[kk] == p2[i];
    assert(p1[i] == devices[k1]);
    assert(p2[i] == devices[k2]);
    if k1 < k2 {
        assert(devices[k1].0 != devices[k2].0);
    } else if k2 < k1 {
        assert(devices[k2].0 != devices[k1].0);
    }
}

/// The endpoint plan of a device list is unique: two plans of the same
/// devices are equal.
pub proof fn lemma_endpoint_plan_unique(devices: Seq<(u16, bool)>, p1: Seq<(u16, bool)>, p2: Seq<(u16, bool)>)
    requires
        is_endpoint_plan(devices, p1),
        is_endpoint_plan(devices, p2),
    ensures
        p1 == p2,
{
    lemma_plan_ids_within(devices, p1, p2);
    lemma_plan_ids_within(devices, p2, p1);
    if p1.len() > p2.len() {
        lemma_increasing_agree(p1, p2, p2.len() as int);
    }
    if p2.len() > p1.len() {
        lemma_increasing_agree(p2, p1, p1.len() as int);
    }
    assert forall|i: int| 0 <= i < p1.len() implies p1[i] == p2[i] by {
        lemma_increasing_agree(p1, p2, i);
        lemma_same_entry(devices, p1, p2, i);
    }
    assert(p1 =~= p2);
}

proof fn lemma_increasing_is_own_plan(plan: Seq<(u16, bool)>)
    requires
        ids_increasing(plan),
    ensures
        is_endpoint_plan(plan, plan),
{
    assert forall|k: int| 0 <= k < plan.len() implies #[trigger] is_first_entry(plan, k) by {
        assert forall|j: int| 0 <= j < k implies plan[j].0 != plan[k].0 by {
            assert(plan[j].0 < plan[k].0);
        }
    }
    assert forall|i: int| 0 <= i < plan.len() implies #[trigger] first_entry_below(plan, plan.len() as int, plan[i]) by {
        assert(is_first_entry(plan, i));
    }
    assert forall|kk: int| 0 <= kk < plan.len() implies #[trigger] has_id(plan, plan[kk].0) by {
        assert(plan[kk].0 == plan[kk].0);
    }
}

/// Planning the endpoints of a plan gives that plan back.
pub proof fn lemma_endpoint_plan_idempotent(devices: Seq<(u16, bool)>, plan: Seq<(u16, bool)>, again: Seq<(u16, bool)>)
    requires
        is_endpoint_plan(devices, plan),
        is_endpoint_plan(plan, again),
    ensures
        again == plan,
{
    lemma_increasing_is_own_plan(plan);
    lemma_endpoint_plan_unique(plan, plan, again);
}

/// The Matter cluster ids that a bridged endpoint serves.
#[derive(Debug, PartialEq, Eq, Clone, Copy, Structural)]
pub struct ClusterIds {
    pub descriptor: u32,
    pub identify: u32,
    pub bridged_info: u32,
    pub on_off: u32,
    pub thermostat: u32,
    pub fan_control: u32,
    pub humidity: u32,
    pub power: u32,
    pub power_topology: u32,
    pub wifi_diag: u32,
}

/// The cluster handler that a request is given to.
#[derive(Debug, PartialEq, Eq, Clone, Copy, Structural)]
pub enum ClusterKind {
    Descriptor,
    Identify,
    BridgedInfo,
    OnOff,
    Thermostat,
    FanControl,
    Humidity,
    Power,
    PowerTopology,
    WifiDiag,
}

/// Why a request to the bridge is refused.
#[derive(Debug, PartialEq, Eq, Clone, Copy, Structural)]
pub enum RouteError {
    EndpointNotFound,
    ClusterNotFound,
    AttributeNotFound,
    CommandNotFound,
}

/// A bridged device as the request router sees it.
#[derive(Debug, PartialEq, Eq, Clone, Copy, Structural)]
pub struct DeviceSlot {
    /// Its Matter endpoint.
    pub ep_id: u16,
    /// It serves the power measurement cluster.
    pub has_power: bool,
    /// It serves the power topology cluster.
    pub has_power_topology: bool,
}

impl DeviceSlot {
    /// A bridged device on endpoint `ep_id`; the power measurement and power
    /// topology clusters are served when the adapter reports instantaneous
    /// power.
    pub fn new(ep_id: u16, en_ipower: bool) -> (d: DeviceSlot)
        ensures
            d.ep_id == ep_id,
            d.has_power == en_ipower,
            d.has_power_topology == en_ipower,
    {
        DeviceSlot { ep_id, has_power: en_ipower, has_power_topology: en_ipower }
    }
}

/// Index of the first device on endpoint `ep`.
pub open spec fn first_device(devices: Seq<DeviceSlot>, ep: u16) -> Option<int>
    decreases devices.len(),
{
    if devices.len() == 0 {
        None
    } else if devices.last().ep_id == ep && !(first_device(devices.drop_last(), ep) is Some) {
        Some(devices.len() - 1)
    } else {
        first_device(devices.drop_last(), ep)
    }
}

/// Finds the first device on endpoint `ep`.
pub fn find(devices: &[DeviceSlot], ep: u16) -> (r: Option<usize>)
    ensures
        match r {
            Some(i) => first_device(devices@, ep) == Some(i as int),
            None => first_device(devices@, ep) is None,
        },
        r matches Some(i) ==> i < devices@.len() && devices@[i as int].ep_id == ep,
        r is None <==> forall|i: int| 0 <= i < devices@.len() ==> devices@[i].ep_id != ep,
{
    let mut i: usize = 0;
    while i < devices.len()
        invariant
            i <= devices@.len(),
            first_device(devices@.take(i as int), ep) is None,
            forall|j: int| 0 <= j < i ==> devices@[j].ep_id != ep,
        decreases devices@.len() - i,
    {
        assert(devices@.take(i + 1).drop_last() == devices@.take(i as int));
        if devices[i].ep_id == ep {
            proof {
                lemma_first_device_extend(devices@, ep, i as int);
            }
            return Some(i);
        }
        i = i + 1;
    }
    assert(devices@.take(devices@.len() as int) == devices@);
    None
}

proof fn lemma_first_device_extend(devices: Seq<DeviceSlot>, ep: u16, i: int)
    requires
        0 <= i < devices.len(),
        devices[i].ep_id == ep,
        first_device(devices.take(i), ep) is None,
    ensures
        first_device(devices, ep) == Some(i),
    decreases devices.len(),
{
    if devices.len() == i + 1 {
        assert(devices.drop_last() == devices.take(i));
    } else {
        assert(devices.drop_last().take(i) == devices.take(i));
        lemma_first_device_extend(devices.drop_last(), ep, i);
    }
}

/// An endpoint at or above 2 is a bridged device (0 is the root node and 1
/// the aggregator).
pub open spec fn is_bridged_endpoint(ep: u16) -> bool {
    ep >= 2
}

/// Selects the requests addressed to bridged endpoints.
pub struct BridgedMatcher;

impl BridgedMatcher {
    /// The request is addressed to a bridged endpoint.
    pub fn matches(&self, endpoint: Option<u16>) -> (r: bool)
        ensures
            r == (endpoint matches Some(e) && is_bridged_endpoint(e)),
    {
        match endpoint {
            Some(e) => e >= 2,
            None => false,
        }
    }
}

/// The cluster handler that serves an attribute read, or why there is none.
pub open spec fn read_route(ids: ClusterIds, cl: u32, dev: DeviceSlot) -> Result<ClusterKind, RouteError> {
    if cl == ids.descriptor {
        Ok(ClusterKind::Descriptor)
    } else if cl == ids.identify {
        Ok(ClusterKind::Identify)
    } else if cl == ids.bridged_info {
        Ok(ClusterKind::BridgedInfo)
    } else if cl == ids.on_off {
        Ok(ClusterKind::OnOff)
    } else if cl == ids.thermostat {
        Ok(ClusterKind::Thermostat)
    } else if cl == ids.fan_control {
        Ok(ClusterKind::FanControl)
    } else if cl == ids.humidity {
        Ok(ClusterKind::Humidity)
    } else if cl == ids.power {
        if dev.has_power { Ok(ClusterKind::Power) } else { Err(RouteError::ClusterNotFound) }
    } else if cl == ids.power_topology {
        if dev.has_power_topology { Ok(ClusterKind::PowerTopology) } else { Err(RouteError::ClusterNotFound) }
    } else if cl == ids.wifi_diag {
        Ok(ClusterKind::WifiDiag)
    } else {
        Err(RouteError::ClusterNotFound)
    }
}

/// The cluster handler that serves an attribute write, or why there is none.
pub open spec fn write_route(ids: ClusterIds, cl: u32) -> Result<ClusterKind, RouteError> {
    if cl == ids.bridged_info {
        Ok(ClusterKind::BridgedInfo)
    } else if cl == ids.identify {
        Ok(ClusterKind::Identify)
    } else if cl == ids.on_off {
        Ok(ClusterKind::OnOff)
    } else if cl == ids.thermostat {
        Ok(ClusterKind::Thermostat)
    } else if cl == ids.fan_control {
        Ok(ClusterKind::FanControl)
    } else {
        Err(RouteError::AttributeNotFound)
    }
}

/// The cluster handler that serves a command, or why there is none.
pub open spec fn invoke_route(ids: ClusterIds, cl: u32) -> Result<ClusterKind, RouteError> {
    if cl == ids.identify {
        Ok(ClusterKind::Identify)
    } else if cl == ids.on_off {
        Ok(ClusterKind::OnOff)
    } else if cl == ids.thermostat {
        Ok(ClusterKind::Thermostat)
    } else if cl == ids.fan_control {
        Ok(ClusterKind::FanControl)
    } else if cl == ids.wifi_diag {
        Ok(ClusterKind::WifiDiag)
    } else {
        Err(RouteError::CommandNotFound)
    }
}

/// The cluster whose data version is bumped, if it is one the bridge versions.
pub open spec fn bump_route(ids: ClusterIds, cl: u32, dev: DeviceSlot) -> Option<ClusterKind> {
    if cl == ids.on_off {
        Some(ClusterKind::OnOff)
    } else if cl == ids.thermostat {
        Some(ClusterKind::Thermostat)
    } else if cl == ids.fan_control {
        Some(ClusterKind::FanControl)
    } else if cl == ids.humidity {
        Some(ClusterKind::Humidity)
    } else if cl == ids.bridged_info {
        Some(ClusterKind::BridgedInfo)
    } else if cl == ids.power {
        if dev.has_power { Some(ClusterKind::Power) } else { None }
    } else if cl == ids.power_topology {
        if dev.has_power_topology { Some(ClusterKind::PowerTopology) } else { None }
    } else {
        None
    }
}

/// Which kind of request is routed.
#[derive(Debug, PartialEq, Eq, Clone, Copy, Structural)]
pub enum Operation {
    Read,
    Write,
    Invoke,
}

/// Where a request goes: the device (by index) and the cluster handler; an
/// absent endpoint, or one that no device serves, is `EndpointNotFound`, an
/// absent cluster `ClusterNotFound`.
pub open spec fn request_route(
    ids: ClusterIds,
    op: Operation,
    devices: Seq<DeviceSlot>,
    endpoint: Option<u16>,
    cluster: Option<u32>,
) -> Result<(int, ClusterKind), RouteError> {
    match endpoint {
        None => Err(RouteError::EndpointNotFound),
        Some(ep) => match cluster {
            None => Err(RouteError::ClusterNotFound),
            Some(cl) => match first_device(devices, ep) {
                None => Err(RouteError::EndpointNotFound),
                Some(i) => {
                    let routed = match op {
                        Operation::Read => read_route(ids, cl, devices[i]),
                        Operation::Write => write_route(ids, cl),
                        Operation::Invoke => invoke_route(ids, cl),
                    };
                    match routed {
                        Ok(kind) => Ok((i, kind)),
                        Err(e) => Err(e),
                    }
                },
            },
        },
    }
}

/// Whether the cluster ids are pairwise different, as Matter's cluster ids
/// are.
pub open spec fn ids_distinct(ids: ClusterIds) -> bool {
    &&& ids.descriptor != ids.identify
    &&& ids.descriptor != ids.bridged_info
    &&& ids.descriptor != ids.on_off
    &&& ids.descriptor != ids.thermostat
    &&& ids.descriptor != ids.fan_control
    &&& ids.descriptor != ids.humidity
    &&& ids.descriptor != ids.power
    &&& ids.descriptor != ids.power_topology
    &&& ids.descriptor != ids.wifi_diag
    &&& ids.identify != ids.bridged_info
    &&& ids.identify != ids.on_off
    &&& ids.identify != ids.thermostat
    &&& ids.identify != ids.fan_control
    &&& ids.identify != ids.humidity
    &&& ids.identify != ids.power
    &&& ids.identify != ids.power_topology
    &&& ids.identify != ids.wifi_diag
    &&& ids.bridged_info != ids.on_off
    &&& ids.bridged_info != ids.thermostat
    &&& ids.bridged_info != ids.fan_control
    &&& ids.bridged_info != ids.humidity
    &&& ids.bridged_info != ids.power
    &&& ids.bridged_info != ids.power_topology
    &&& ids.bridged_info != ids.wifi_diag
    &&& ids.on_off != ids.thermostat
    &&& ids.on_off != ids.fan_control
    &&& ids.on_off != ids.humidity
    &&& ids.on_off != ids.power
    &&& ids.on_off != ids.power_topology
    &&& ids.on_off != ids.wifi_diag
    &&& ids.thermostat != ids.fan_control
    &&& ids.thermostat != ids.humidity
    &&& ids.thermostat != ids.power
    &&& ids.thermostat != ids.power_topology
    &&& ids.thermostat != ids.wifi_diag
    &&& ids.fan_control != ids.humidity
    &&& ids.fan_control != ids.power
    &&& ids.fan_control != ids.power_topology
    &&& ids.fan_control != ids.wifi_diag
    &&& ids.humidity != ids.power
    &&& ids.humidity != ids.power_topology
    &&& ids.humidity != ids.wifi_diag
    &&& ids.power != ids.power_topology
    &&& ids.power != ids.wifi_diag
    &&& ids.power_topology != ids.wifi_diag
}

/// The cluster id of a handler kind.
pub open spec fn id_of(ids: ClusterIds, k: ClusterKind) -> u32 {
    match k {
        ClusterKind::Descriptor => ids.descriptor,
        ClusterKind::Identify => ids.identify,
        ClusterKind::BridgedInfo => ids.bridged_info,
        ClusterKind::OnOff => ids.on_off,
        ClusterKind::Thermostat => ids.thermostat,
        ClusterKind::FanControl => ids.fan_control,
        ClusterKind::Humidity => ids.humidity,
        ClusterKind::Power => ids.power,
        ClusterKind::PowerTopology => ids.power_topology,
        ClusterKind::WifiDiag => ids.wifi_diag,
    }
}

/// Whether a bridged device declares the cluster of kind `k`: every kind,
/// power measurement and power topology only when the device has them.
pub open spec fn declares(dev: DeviceSlot, k: ClusterKind) -> bool {
    match k {
        ClusterKind::Power => dev.has_power,
        ClusterKind::PowerTopology => dev.has_power_topology,
        _ => true,
    }
}

/// Whether attributes of clusters of kind `k` can be written through the
/// bridge: bridged information, identify, on/off, thermostat, fan control.
pub open spec fn writable(k: ClusterKind) -> bool {
    k == ClusterKind::BridgedInfo || k == ClusterKind::Identify || k == ClusterKind::OnOff
        || k == ClusterKind::Thermostat || k == ClusterKind::FanControl
}

/// Whether clusters of kind `k` take commands through the bridge: identify,
/// on/off, thermostat, fan control, Wi-Fi diagnostics.
pub open spec fn takes_commands(k: ClusterKind) -> bool {
    k == ClusterKind::Identify || k == ClusterKind::OnOff || k == ClusterKind::Thermostat
        || k == ClusterKind::FanControl || k == ClusterKind::WifiDiag
}

/// A request to a device found on its endpoint goes to the handler of the
/// cluster it names: a read to every cluster the device declares (refused
/// with `ClusterNotFound` for one it does not), a write to the writable
/// ones (else `AttributeNotFound`), a command to those that take commands
/// (else `CommandNotFound`); and any request naming an id that is no
/// cluster of the bridge is refused.
pub proof fn lemma_requests_reach_their_cluster(
    ids: ClusterIds,
    devices: Seq<DeviceSlot>,
    ep: u16,
    i: int,
    k: ClusterKind,
    other: u32,
)
    requires
        ids_distinct(ids),
        first_device(devices, ep) == Some(i),
    ensures
        declares(devices[i], k) ==> request_route(ids, Operation::Read, devices, Some(ep), Some(id_of(ids, k)))
            == Ok::<(int, ClusterKind), RouteError>((i, k)),
        !declares(devices[i], k) ==> request_route(ids, Operation::Read, devices, Some(ep), Some(id_of(ids, k)))
            == Err::<(int, ClusterKind), RouteError>(RouteError::ClusterNotFound),
        writable(k) ==> request_route(ids, Operation::Write, devices, Some(ep), Some(id_of(ids, k)))
            == Ok::<(int, ClusterKind), RouteError>((i, k)),
        !writable(k) ==> request_route(ids, Operation::Write, devices, Some(ep), Some(id_of(ids, k)))
            == Err::<(int, ClusterKind), RouteError>(RouteError::AttributeNotFound),
        takes_commands(k) ==> request_route(ids, Operation::Invoke, devices, Some(ep), Some(id_of(ids, k)))
            == Ok::<(int, ClusterKind), RouteError>((i, k)),
        !takes_commands(k) ==> request_route(ids, Operation::Invoke, devices, Some(ep), Some(id_of(ids, k)))
            == Err::<(int, ClusterKind), RouteError>(RouteError::CommandNotFound),
        (forall|c: ClusterKind| id_of(ids, c) != other) ==> request_route(ids, Operation::Read, devices, Some(ep), Some(other))
            == Err::<(int, ClusterKind), RouteError>(RouteError::ClusterNotFound),
        (forall|c: ClusterKind| id_of(ids, c) != other) ==> request_route(ids, Operation::Write, devices, Some(ep), Some(other))
            == Err::<(int, ClusterKind), RouteError>(RouteError::AttributeNotFound),
        (forall|c: ClusterKind| id_of(ids, c) != other) ==> request_route(ids, Operation::Invoke, devices, Some(ep), Some(other))
            == Err::<(int, ClusterKind), RouteError>(RouteError::CommandNotFound),
{
    if forall|c: ClusterKind| id_of(ids, c) != other {
        assert(id_of(ids, ClusterKind::Descriptor) != other);
        assert(id_of(ids, ClusterKind::Identify) != other);
        assert(id_of(ids, ClusterKind::BridgedInfo) != other);
        assert(id_of(ids, ClusterKind::OnOff) != other);
        assert(id_of(ids, ClusterKind::Thermostat) != other);
        assert(id_of(ids, ClusterKind::FanControl) != other);
        assert(id_of(ids, ClusterKind::Humidity) != other);
        assert(id_of(ids, ClusterKind::Power) != other);
        assert(id_of(ids, ClusterKind::PowerTopology) != other);
        assert(id_of(ids, ClusterKind::WifiDiag) != other);
    }
}

/// A request for a device on an endpoint where none is found is refused
/// with `EndpointNotFound`, whatever it asks.
pub proof fn lemma_unknown_endpoints_are_refused(
    ids: ClusterIds,
    op: Operation,
    devices: Seq<DeviceSlot>,
    ep: u16,
    cl: u32,
)
    requires
        first_device(devices, ep) is None,
    ensures
        request_route(ids, op, devices, Some(ep), Some(cl)) == Err::<(int, ClusterKind), RouteError>(
            RouteError::EndpointNotFound,
        ),
        request_route(ids, op, devices, None, Some(cl)) == Err::<(int, ClusterKind), RouteError>(
            RouteError::EndpointNotFound,
        ),
{
}

fn read_target(ids: &ClusterIds, cl: u32, dev: DeviceSlot) -> (r: Result<ClusterKind, RouteError>)
    ensures
        r == read_route(*ids, cl, dev),
{
    if cl == ids.descriptor {
        Ok(ClusterKind::Descriptor)
    } else if cl == ids.identify {
        Ok(ClusterKind::Identify)
    } else if cl == ids.bridged_info {
        Ok(ClusterKind::BridgedInfo)
    } else if cl == ids.on_off {
        Ok(ClusterKind::OnOff)
    } else if cl == ids.thermostat {
        Ok(ClusterKind::Thermostat)
    } else if cl == ids.fan_control {
        Ok(ClusterKind::FanControl)
    } else if cl == ids.humidity {
        Ok(ClusterKind::Humidity)
    } else if cl == ids.power {
        if dev.has_power { Ok(ClusterKind::Power) } else { Err(RouteError::ClusterNotFound) }
    } else if cl == ids.power_topology {
        if dev.has_power_topology { Ok(ClusterKind::PowerTopology) } else { Err(RouteError::ClusterNotFound) }
    } else if cl == ids.wifi_diag {
        Ok(ClusterKind::WifiDiag)
    } else {
        Err(RouteError::ClusterNotFound)
    }
}

fn write_target(ids: &ClusterIds, cl: u32) -> (r: Result<ClusterKind, RouteError>)
    ensures
        r == write_route(*ids, cl),
{
    if cl == ids.bridged_info {
        Ok(ClusterKind::BridgedInfo)
    } else if cl == ids.identify {
        Ok(ClusterKind::Identify)
    } else if cl == ids.on_off {
        Ok(ClusterKind::OnOff)
    } else if cl == ids.thermostat {
        Ok(ClusterKind::Thermostat)
    } else if cl == ids.fan_control {
        Ok(ClusterKind::FanControl)
    } else {
        Err(RouteError::AttributeNotFound)
    }
}

fn invoke_target(ids: &ClusterIds, cl: u32) -> (r: Result<ClusterKind, RouteError>)
    ensures
        r == invoke_route(*ids, cl),
{
    if cl == ids.identify {
        Ok(ClusterKind::Identify)
    } else if cl == ids.on_off {
        Ok(ClusterKind::OnOff)
    } else if cl == ids.thermostat {
        Ok(ClusterKind::Thermostat)
    } else if cl == ids.fan_control {
        Ok(ClusterKind::FanControl)
    } else if cl == ids.wifi_diag {
        Ok(ClusterKind::WifiDiag)
    } else {
        Err(RouteError::CommandNotFound)
    }
}

/// Routes a read, write or command request to a bridged device's cluster.
pub fn route(
    ids: &ClusterIds,
    op: Operation,
    devices: &[DeviceSlot],
    endpoint: Option<u16>,
    cluster: Option<u32>,
) -> (r: Result<(usize, ClusterKind), RouteError>)
    ensures
        match r {
            Ok((i, kind)) => request_route(*ids, op, devices@, endpoint, cluster) == Ok::<
                (int, ClusterKind),
                RouteError,
            >((i as int, kind)),
            Err(e) => request_route(*ids, op, devices@, endpoint, cluster) == Err::<
                (int, ClusterKind),
                RouteError,
            >(e),
        },
{
    let ep = match endpoint {
        Some(ep) => ep,
        None => return Err(RouteError::EndpointNotFound),
    };
    let cl = match cluster {
        Some(cl) => cl,
        None => return Err(RouteError::ClusterNotFound),
    };
    let i = match find(devices, ep) {
        Some(i) => i,
        None => return Err(RouteError::EndpointNotFound),
    };
    let routed = match op {
        Operation::Read => read_target(ids, cl, devices[i]),
        Operation::Write => write_target(ids, cl),
        Operation::Invoke => invoke_target(ids, cl),
    };
    match routed {
        Ok(kind) => Ok((i, kind)),
        Err(e) => Err(e),
    }
}

/// The device and cluster whose data version a bump is for; nothing when the
/// endpoint or cluster is absent, no device serves the endpoint, or the
/// cluster is not one that the bridge versions.
pub fn bump_target(ids: &ClusterIds, devices: &[DeviceSlot], endpoint: Option<u16>, cluster: Option<u32>) -> (r: Option<(usize, ClusterKind)>)
    ensures
        r == (match (endpoint, cluster) {
            (Some(ep), Some(cl)) => match first_device(devices@, ep) {
                Some(i) => match bump_route(*ids, cl, devices@[i]) {
                    Some(kind) => Some((i as usize, kind)),
                    None => None,
                },
                None => None,
            },
            _ => None,
        }),
{
    let ep = match endpoint {
        Some(ep) => ep,
        None => return None,
    };
    let cl = match cluster {
        Some(cl) => cl,
        None => return None,
    };
    let i = match find(devices, ep) {
        Some(i) => i,
        None => return None,
    };
    let dev = devices[i];
    if cl == ids.on_off {
        Some((i, ClusterKind::OnOff))
    } else if cl == ids.thermostat {
        Some((i, ClusterKind::Thermostat))
    } else if cl == ids.fan_control {
        Some((i, ClusterKind::FanControl))
    } else if cl == ids.humidity {
        Some((i, ClusterKind::Humidity))
    } else if cl == ids.bridged_info {
        Some((i, ClusterKind::BridgedInfo))
    } else if cl == ids.power {
        if dev.has_power { Some((i, ClusterKind::Power)) } else { None }
    } else if cl == ids.power_topology {
        if dev.has_power_topology { Some((i, ClusterKind::PowerTopology)) } else { None }
    } else {
        None
    }
}

/// The clusters announced as changed after a successful write or command on
/// endpoint `ep`: on/off, thermostat, fan control and humidity always, and
/// power measurement when the first device on `ep` has it.
pub fn clusters_changed_by_request(devices: &[DeviceSlot], ep: u16) -> (r: Vec<ClusterKind>)
    ensures
        r@ == (if first_device(devices@, ep) matches Some(i) && devices@[i].has_power {
            seq![ClusterKind::OnOff, ClusterKind::Thermostat, ClusterKind::FanControl, ClusterKind::Humidity, ClusterKind::Power]
        } else {
            seq![ClusterKind::OnOff, ClusterKind::Thermostat, ClusterKind::FanControl, ClusterKind::Humidity]
        }),
{
    let mut r: Vec<ClusterKind> = Vec::new();
    r.push(ClusterKind::OnOff);
    r.push(ClusterKind::Thermostat);
    r.push(ClusterKind::FanControl);
    r.push(ClusterKind::Humidity);
    match find(devices, ep) {
        Some(i) => {
            if devices[i].has_power {
                r.push(ClusterKind::Power);
            }
        },
        None => {},
    }
    r
}

/// The clusters announced as changed after a write or command on endpoint
/// `ep` whose handler succeeded (`ok`) or failed: on success, those of
/// `clusters_changed_by_request`; on failure, none.
pub fn clusters_to_announce(ok: bool, devices: &[DeviceSlot], ep: u16) -> (r: Vec<ClusterKind>)
    ensures
        !ok ==> r@.len() == 0,
        ok ==> r@ == (if first_device(devices@, ep) matches Some(i) && devices@[i].has_power {
            seq![ClusterKind::OnOff, ClusterKind::Thermostat, ClusterKind::FanControl, ClusterKind::Humidity, ClusterKind::Power]
        } else {
            seq![ClusterKind::OnOff, ClusterKind::Thermostat, ClusterKind::FanControl, ClusterKind::Humidity]
        }),
{
    if ok {
        clusters_changed_by_request(devices, ep)
    } else {
        Vec::new()
    }
}

/// The endpoint id of a device: the low 16 bits of its EDID.
pub open spec fn endpoint_of_edid(edid: u64) -> u16 {
    (edid % 0x1_0000) as u16
}

/// The endpoint id of a device with the given EDID.
pub fn endpoint_id(edid: u64) -> (ep: u16)
    ensures
        ep == endpoint_of_edid(edid),
{
    (edid % 0x1_0000) as u16
}

/// The endpoint of a device with the given EDID, when it is a bridged
/// endpoint; `None` when the low 16 bits would give the root node (0) or the
/// aggregator (1).
pub fn bridged_endpoint_id(edid: u64) -> (r: Option<u16>)
    ensures
        r == (if is_bridged_endpoint(endpoint_of_edid(edid)) {
            Some(endpoint_of_edid(edid))
        } else {
            None::<u16>
        }),
{
    let ep = endpoint_id(edid);
    if ep >= 2 {
        Some(ep)
    } else {
        None
    }
}

/// A device's endpoint is the low 16 bits of its EDID: an EDID below 2^16
/// is its own endpoint, EDIDs that differ by a multiple of 2^16 share one,
/// and it is a bridged endpoint exactly when those bits are neither 0 (the
/// root node) nor 1 (the aggregator).
pub proof fn lemma_endpoint_from_edid(edid: u64, k: u64)
    ensures
        edid < 0x1_0000 ==> endpoint_of_edid(edid) == edid,
        edid as int + 0x1_0000 * (k as int) <= u64::MAX ==> endpoint_of_edid((edid as int + 0x1_0000 * (k as int)) as u64)
            == endpoint_of_edid(edid),
        is_bridged_endpoint(endpoint_of_edid(edid)) <==> edid % 0x1_0000 >= 2,
{
    vstd::arithmetic::div_mod::lemma_mod_multiples_vanish(k as int, edid as int, 0x1_0000);
}

} // verus!
