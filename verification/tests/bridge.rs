use daikin_matter::bridge::{
    bridged_endpoint_id, bump_target, clusters_changed_by_request, clusters_to_announce, endpoint_id, endpoint_plan, find, route, BridgedMatcher, ClusterIds,
    ClusterKind, DeviceSlot, Operation, RouteError,
};
use daikin_matter::energy::{cumulative_energy_mwh, periodic_energy_mwh, sum_wh};
use daikin_matter::mdns::{select_mdns_interface, InterfaceAddress, IpAddress};
use daikin_matter::runtime::{
    check_device_count, clusters_to_notify, discovery_done, ClusterUpdates, DeviceCountError, PollHistory, Reachability,
    StatusDelta, DEFAULT_DEVICE_COUNT,
};

#[test]
fn endpoints_are_sorted_and_deduplicated_keeping_the_first() {
    let plan = endpoint_plan(&[(5, true), (3, false), (5, false), (9, true), (3, true)]);
    assert_eq!(plan, vec![(3, false), (5, true), (9, true)]);
    assert_eq!(endpoint_plan(&[]), vec![]);
    let again = endpoint_plan(&plan);
    assert_eq!(again, plan);
}

fn ids() -> ClusterIds {
    ClusterIds {
        descriptor: 0x001D,
        identify: 0x0003,
        bridged_info: 0x0039,
        on_off: 0x0006,
        thermostat: 0x0201,
        fan_control: 0x0202,
        humidity: 0x0405,
        power: 0x0090,
        power_topology: 0x009C,
        wifi_diag: 0x0036,
    }
}

fn devices() -> Vec<DeviceSlot> {
    vec![DeviceSlot::new(0x4567, true), DeviceSlot::new(0x1234, false), DeviceSlot::new(0x4567, false)]
}

#[test]
fn devices_are_found_by_endpoint() {
    let d = devices();
    assert_eq!(find(&d, 0x4567), Some(0));
    assert_eq!(find(&d, 0x1234), Some(1));
    assert_eq!(find(&d, 7), None);
}

#[test]
fn reads_are_routed_by_cluster() {
    let d = devices();
    let ids = ids();
    assert_eq!(route(&ids, Operation::Read, &d, Some(0x1234), Some(0x0006)), Ok((1, ClusterKind::OnOff)));
    assert_eq!(route(&ids, Operation::Read, &d, Some(0x4567), Some(0x0090)), Ok((0, ClusterKind::Power)));
    assert_eq!(route(&ids, Operation::Read, &d, Some(0x1234), Some(0x0090)), Err(RouteError::ClusterNotFound));
    assert_eq!(route(&ids, Operation::Read, &d, Some(0x1234), Some(0x009C)), Err(RouteError::ClusterNotFound));
    assert_eq!(route(&ids, Operation::Read, &d, Some(0x4567), Some(0x009C)), Ok((0, ClusterKind::PowerTopology)));
    assert_eq!(route(&ids, Operation::Read, &d, Some(0x4567), Some(0x001D)), Ok((0, ClusterKind::Descriptor)));
    assert_eq!(route(&ids, Operation::Read, &d, Some(0x4567), Some(0x0036)), Ok((0, ClusterKind::WifiDiag)));
    assert_eq!(route(&ids, Operation::Read, &d, Some(0x4567), Some(0x9999)), Err(RouteError::ClusterNotFound));
    assert_eq!(route(&ids, Operation::Read, &d, None, Some(0x0006)), Err(RouteError::EndpointNotFound));
    assert_eq!(route(&ids, Operation::Read, &d, Some(0x4567), None), Err(RouteError::ClusterNotFound));
    assert_eq!(route(&ids, Operation::Read, &d, Some(8), Some(0x0006)), Err(RouteError::EndpointNotFound));
}

#[test]
fn writes_and_commands_are_routed_by_cluster() {
    let d = devices();
    let ids = ids();
    assert_eq!(route(&ids, Operation::Write, &d, Some(0x1234), Some(0x0039)), Ok((1, ClusterKind::BridgedInfo)));
    assert_eq!(route(&ids, Operation::Write, &d, Some(0x1234), Some(0x0405)), Err(RouteError::AttributeNotFound));
    assert_eq!(route(&ids, Operation::Invoke, &d, Some(0x1234), Some(0x0036)), Ok((1, ClusterKind::WifiDiag)));
    assert_eq!(route(&ids, Operation::Invoke, &d, Some(0x1234), Some(0x0039)), Err(RouteError::CommandNotFound));
    assert_eq!(route(&ids, Operation::Invoke, &d, Some(0x1234), Some(0x0202)), Ok((1, ClusterKind::FanControl)));
}

#[test]
fn data_version_bumps_are_routed() {
    let d = devices();
    let ids = ids();
    assert_eq!(bump_target(&ids, &d, Some(0x1234), Some(0x0201)), Some((1, ClusterKind::Thermostat)));
    assert_eq!(bump_target(&ids, &d, Some(0x1234), Some(0x0090)), None);
    assert_eq!(bump_target(&ids, &d, Some(0x4567), Some(0x0090)), Some((0, ClusterKind::Power)));
    assert_eq!(bump_target(&ids, &d, Some(0x4567), Some(0x001D)), None);
    assert_eq!(bump_target(&ids, &d, None, Some(0x0006)), None);
}

#[test]
fn successful_requests_announce_the_device_clusters() {
    let d = devices();
    let base = vec![ClusterKind::OnOff, ClusterKind::Thermostat, ClusterKind::FanControl, ClusterKind::Humidity];
    assert_eq!(clusters_changed_by_request(&d, 0x1234), base);
    let mut with_power = base.clone();
    with_power.push(ClusterKind::Power);
    assert_eq!(clusters_changed_by_request(&d, 0x4567), with_power);
    assert_eq!(clusters_changed_by_request(&d, 1), base);
}

#[test]
fn endpoints_come_from_the_edid() {
    assert_eq!(endpoint_id(19088743), 0x4567);
    assert_eq!(endpoint_id(0x1_0001), 1);
    assert!(BridgedMatcher.matches(Some(2)));
    assert!(!BridgedMatcher.matches(Some(1)));
    assert!(!BridgedMatcher.matches(None));
}

#[test]
fn energy_is_reported_in_milliwatt_hours() {
    assert_eq!(sum_wh(None), 0);
    assert_eq!(sum_wh(Some(&[100, 200, -50])), 250);
    assert_eq!(cumulative_energy_mwh(Some(&[1000, 2000]), Some(&[500])), 3_500_000);
    assert_eq!(cumulative_energy_mwh(None, None), 0);
    assert_eq!(cumulative_energy_mwh(Some(&[i32::MAX; 8]), Some(&[i32::MAX; 8])), (i32::MAX as i64) * 16 * 1000);
    assert_eq!(periodic_energy_mwh(Some(&[1234, 99])), 1_234_000);
    assert_eq!(periodic_energy_mwh(Some(&[])), 0);
    assert_eq!(periodic_energy_mwh(None), 0);
}

#[test]
fn polls_announce_the_clusters_that_changed() {
    assert_eq!(
        clusters_to_notify(None, true),
        ClusterUpdates { on_off: true, thermostat: true, fan_control: true, humidity: true, power: true }
    );
    assert_eq!(
        clusters_to_notify(None, false),
        ClusterUpdates { on_off: true, thermostat: true, fan_control: true, humidity: true, power: false }
    );
    let quiet = StatusDelta {
        power: false,
        mode: false,
        temperature: false,
        sensor_temperature: false,
        outdoor_temperature: false,
        wind: false,
        humidity: false,
        power_consumption: false,
    };
    assert_eq!(
        clusters_to_notify(Some(quiet), true),
        ClusterUpdates { on_off: false, thermostat: false, fan_control: false, humidity: false, power: false }
    );
    let mode = StatusDelta { mode: true, ..quiet };
    assert_eq!(
        clusters_to_notify(Some(mode), true),
        ClusterUpdates { on_off: true, thermostat: true, fan_control: true, humidity: false, power: false }
    );
    let watts = StatusDelta { power_consumption: true, humidity: true, ..quiet };
    assert_eq!(
        clusters_to_notify(Some(watts), true),
        ClusterUpdates { on_off: false, thermostat: false, fan_control: false, humidity: true, power: true }
    );
    assert!(!clusters_to_notify(Some(watts), false).power);
    let outdoor = StatusDelta { outdoor_temperature: true, ..quiet };
    assert!(clusters_to_notify(Some(outdoor), false).thermostat);
}

#[test]
fn reachability_changes_are_reported_once() {
    let mut r = Reachability::new();
    assert!(r.reachable_before(5));
    assert!(!r.record(5, true));
    assert!(r.record(5, false));
    assert!(!r.reachable_before(5));
    assert!(!r.record(5, false));
    assert!(r.record(5, true));
    assert!(r.record(6, false));
    assert!(r.reachable_before(5));
}

#[test]
fn device_counts_are_checked() {
    assert_eq!(check_device_count(0, DEFAULT_DEVICE_COUNT), Err(DeviceCountError::NoDevices));
    assert_eq!(check_device_count(0, 2), Err(DeviceCountError::NoDevices));
    assert_eq!(check_device_count(1, 3), Err(DeviceCountError::TooFew { found: 1, requested: 3 }));
    assert_eq!(check_device_count(3, 3), Ok(()));
    assert_eq!(check_device_count(2, DEFAULT_DEVICE_COUNT), Ok(()));
    assert!(discovery_done(4, 4));
    assert!(!discovery_done(3, 4));
}

fn entry(name: &str, up: bool, loopback: bool, address: IpAddress) -> InterfaceAddress {
    InterfaceAddress { name: name.to_string(), up, broadcast: true, loopback, point_to_point: false, address }
}

#[test]
fn mdns_uses_the_first_interface_with_both_address_families() {
    let v6a = [0xfe, 0x80, 0, 0, 0, 0, 0, 0, 0, 0, 0, 0, 0, 0, 0, 1];
    let v6b = [0xfe, 0x80, 0, 0, 0, 0, 0, 0, 0, 0, 0, 0, 0, 0, 0, 2];
    let ifaces = vec![
        entry("lo", true, true, IpAddress::V6(v6a)),
        entry("lo", true, true, IpAddress::V4([127, 0, 0, 1])),
        entry("eth0", true, false, IpAddress::V6(v6a)),
        entry("wlan0", true, false, IpAddress::V6(v6b)),
        entry("wlan0", true, false, IpAddress::V4([192, 168, 1, 10])),
        entry("eth0", false, false, IpAddress::V4([10, 0, 0, 1])),
        entry("wlan0", true, false, IpAddress::V4([192, 168, 1, 11])),
    ];
    let chosen = select_mdns_interface(&ifaces).unwrap();
    assert_eq!(chosen.name, "wlan0");
    assert_eq!(chosen.ipv4, [192, 168, 1, 10]);
    assert_eq!(chosen.ipv6, v6b);
    assert!(select_mdns_interface(&ifaces[..3]).is_none());
    assert!(select_mdns_interface(&[]).is_none());
}

#[test]
fn poll_history_remembers_the_last_status() {
    let mut h: PollHistory<&str> = PollHistory::new();
    assert_eq!(h.previous(5), None);
    h.remember(5, "first");
    h.remember(6, "other");
    h.remember(5, "second");
    assert_eq!(h.previous(5), Some(&"second"));
    assert_eq!(h.previous(6), Some(&"other"));
    assert_eq!(h.previous(7), None);
}

#[test]
fn only_successful_requests_announce_changes() {
    let d = devices();
    assert_eq!(clusters_to_announce(false, &d, 0x4567), vec![]);
    assert_eq!(clusters_to_announce(true, &d, 0x4567), clusters_changed_by_request(&d, 0x4567));
    assert_eq!(clusters_to_announce(true, &d, 0x1234).len(), 4);
}

#[test]
fn root_and_aggregator_endpoints_are_refused() {
    assert_eq!(bridged_endpoint_id(19088743), Some(0x4567));
    assert_eq!(bridged_endpoint_id(0x1_0000), None);
    assert_eq!(bridged_endpoint_id(0x2_0001), None);
    assert_eq!(bridged_endpoint_id(2), Some(2));
}
