//! Choice of the network interface that mDNS announcements go out on.

use vstd::prelude::*;

verus! {

/// The address of a network interface entry.
#[derive(Debug, Clone, Copy)]
pub enum IpAddress {
    V4([u8; 4]),
    V6([u8; 16]),
    /// No address, or one of another family.
    Other,
}

/// One address entry of a network interface, with the interface's flags.
pub struct InterfaceAddress {
    pub name: String,
    pub up: bool,
    pub broadcast: bool,
    pub loopback: bool,
    pub point_to_point: bool,
    pub address: IpAddress,
}

/// The interface chosen for mDNS, with one IPv4 and one IPv6 address of it.
pub struct MdnsInterface {
    pub name: String,
    pub ipv4: [u8; 4],
    pub ipv6: [u8; 16],
}

/// An entry of an interface that is up and can broadcast, and is neither a
/// loopback nor a point-to-point link.
pub open spec fn suitable(ia: InterfaceAddress) -> bool {
    ia.up && ia.broadcast && !ia.loopback && !ia.point_to_point
}

/// The IPv4 address of the first suitable entry of `ifaces` on interface `name`.
pub open spec fn first_ipv4(ifaces: Seq<InterfaceAddress>, name: Seq<char>) -> Option<[u8; 4]>
    decreases ifaces.len(),
{
    if ifaces.len() == 0 {
        None
    } else if suitable(ifaces[0]) && ifaces[0].name@ == name && ifaces[0].address is V4 {
        Some(ifaces[0].address->V4_0)
    } else {
        first_ipv4(ifaces.drop_first(), name)
    }
}

/// Going through `candidates` in order, the first suitable IPv6 entry whose
/// interface also has a suitable IPv4 entry in `all`: the interface's name,
/// that IPv4 address and the IPv6 address.
pub open spec fn mdns_choice(candidates: Seq<InterfaceAddress>, all: Seq<InterfaceAddress>) -> Option<
    (Seq<char>, [u8; 4], [u8; 16]),
>
    decreases candidates.len(),
{
    if candidates.len() == 0 {
        None
    } else if suitable(candidates[0]) && candidates[0].address is V6 && first_ipv4(
        all,
        candidates[0].name@,
    ) is Some {
        Some(
            (
                candidates[0].name@,
                first_ipv4(all, candidates[0].name@).unwrap(),
                candidates[0].address->V6_0,
            ),
        )
    } else {
        mdns_choice(candidates.drop_first(), all)
    }
}

fn is_suitable(ia: &InterfaceAddress) -> (r: bool)
    ensures
        r == suitable(*ia),
{
    ia.up && ia.broadcast && !ia.loopback && !ia.point_to_point
}

fn find_ipv4(ifaces: &[InterfaceAddress], name: &String) -> (r: Option<[u8; 4]>)
    ensures
        r == first_ipv4(ifaces@, name@),
{
    let mut i: usize = 0;
    assert(ifaces@.skip(0) == ifaces@);
    while i < ifaces.len()
        invariant
            i <= ifaces@.len(),
            first_ipv4(ifaces@, name@) == first_ipv4(ifaces@.skip(i as int), name@),
        decreases ifaces@.len() - i,
    {
        let ia = &ifaces[i];
        assert(ifaces@.skip(i as int)[0] == ifaces@[i as int]);
        assert(ifaces@.skip(i as int).drop_first() == ifaces@.skip(i + 1));
        if is_suitable(ia) && ia.name == *name {
            match ia.address {
                IpAddress::V4(v4) => return Some(v4),
                _ => {},
            }
        }
        i = i + 1;
    }
    None
}

/// Picks the interface for mDNS: the first suitable IPv6 entry whose
/// interface also has a suitable IPv4 entry.
pub fn select_mdns_interface(ifaces: &[InterfaceAddress]) -> (r: Option<MdnsInterface>)
    ensures
        match mdns_choice(ifaces@, ifaces@) {
            None => r is None,
            Some((name, v4, v6)) => r matches Some(m) && m.name@ == name && m.ipv4 == v4 && m.ipv6 == v6,
        },
{
    let mut i: usize = 0;
    assert(ifaces@.skip(0) == ifaces@);
    while i < ifaces.len()
        invariant
            i <= ifaces@.len(),
            mdns_choice(ifaces@, ifaces@) == mdns_choice(ifaces@.skip(i as int), ifaces@),
        decreases ifaces@.len() - i,
    {
        let ia = &ifaces[i];
        assert(ifaces@.skip(i as int)[0] == ifaces@[i as int]);
        assert(ifaces@.skip(i as int).drop_first() == ifaces@.skip(i + 1));
        if is_suitable(ia) {
            match ia.address {
                IpAddress::V6(v6) => {
                    match find_ipv4(ifaces, &ia.name) {
                        Some(v4) => {
                            return Some(MdnsInterface { name: ia.name.clone(), ipv4: v4, ipv6: v6 });
                        },
                        None => {},
                    }
                },
                _ => {},
            }
        }
        i = i + 1;
    }
    None
}

} // verus!
