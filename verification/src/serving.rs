//! The serving gate: whether a request that reached the static-file branch
//! may be served, decided from the client's IP address and the configured
//! policy.

use vstd::prelude::*;

verus! {

/// An IP address as a plain value: the 32 bits of an IPv4 address or the
/// 128 bits of an IPv6 address.
#[derive(Clone, Copy, Debug, PartialEq, Eq, Structural)]
pub enum IpAddress {
    V4(u32),
    V6(u128),
}

/// The canonical form of an address, as `IpAddr::to_canonical` gives it:
/// an IPv4-mapped IPv6 address (`::ffff:a.b.c.d`) becomes the IPv4 address
/// it maps; every other address stays as it is.
pub open spec fn spec_canonical_ip(ip: IpAddress) -> IpAddress {
    match ip {
        IpAddress::V4(a) => IpAddress::V4(a),
        IpAddress::V6(a) => {
            if a >> 32 == 0xffff {
                IpAddress::V4((a & 0xffff_ffff) as u32)
            } else {
                IpAddress::V6(a)
            }
        },
    }
}

pub fn canonical_ip(ip: IpAddress) -> (r: IpAddress)
    ensures
        r == spec_canonical_ip(ip),
{
    match ip {
        IpAddress::V4(a) => IpAddress::V4(a),
        IpAddress::V6(a) => {
            if a >> 32u128 == 0xffff {
                IpAddress::V4((a & 0xffff_ffff) as u32)
            } else {
                IpAddress::V6(a)
            }
        },
    }
}

/// A CIDR network: an address of either family and a prefix length.
#[derive(Clone, Copy, Debug, PartialEq, Eq, Structural)]
pub struct CidrNetwork {
    pub v6: bool,
    pub addr: u128,
    pub prefix: u8,
}

impl CidrNetwork {
    /// The prefix fits the family and an IPv4 address fits 32 bits.
    pub open spec fn wf(self) -> bool {
        if self.v6 {
            self.prefix <= 128
        } else {
            self.addr <= 0xffff_ffff && self.prefix <= 32
        }
    }
}

/// The bit mask selecting the prefix of an IPv4 network.
pub open spec fn spec_v4_mask(prefix: u8) -> u32
    recommends
        prefix <= 32,
{
    !(0xffff_ffff_u64 >> prefix) as u32
}

/// The bit mask selecting the prefix of an IPv6 network.
pub open spec fn spec_v6_mask(prefix: u8) -> u128
    recommends
        prefix <= 128,
{
    if prefix == 0 {
        0
    } else {
        !0u128 << ((128 - prefix) as u128)
    }
}

/// CIDR membership: the address is of the network's family and agrees with
/// the network's address on the prefix bits.
pub open spec fn spec_cidr_contains(net: CidrNetwork, ip: IpAddress) -> bool {
    match ip {
        IpAddress::V4(a) => !net.v6 && (a & spec_v4_mask(net.prefix)) == (
        (net.addr as u32) & spec_v4_mask(net.prefix)),
        IpAddress::V6(a) => net.v6 && (a & spec_v6_mask(net.prefix)) == (
        net.addr & spec_v6_mask(net.prefix)),
    }
}

pub fn cidr_contains(net: &CidrNetwork, ip: IpAddress) -> (r: bool)
    requires
        net.wf(),
    ensures
        r == spec_cidr_contains(*net, ip),
{
    match ip {
        IpAddress::V4(a) => {
            if net.v6 {
                false
            } else {
                let mask = !(0xffff_ffff_u64 >> net.prefix) as u32;
                (a & mask) == ((net.addr as u32) & mask)
            }
        },
        IpAddress::V6(a) => {
            if !net.v6 {
                false
            } else {
                let mask: u128 = if net.prefix == 0 {
                    0
                } else {
                    !0u128 << ((128 - net.prefix) as u128)
                };
                (a & mask) == (net.addr & mask)
            }
        },
    }
}

/// The serving policy: a global prohibition, and otherwise an optional
/// allow-list of networks the client must fall in.
#[derive(Clone, Debug)]
pub struct ServingControl {
    pub prohibit_serving: bool,
    pub allowed_networks: Vec<CidrNetwork>,
}

impl ServingControl {
    pub open spec fn wf(self) -> bool {
        forall|i: int|
            0 <= i < self.allowed_networks@.len() ==> (
            #[trigger] self.allowed_networks@[i]).wf()
    }
}

/// Whether some configured network contains the address.
pub open spec fn spec_ip_allowed(nets: Seq<CidrNetwork>, ip: IpAddress) -> bool {
    exists|i: int| 0 <= i < nets.len() && spec_cidr_contains(#[trigger] nets[i], ip)
}

/// The decision: serving is allowed unless it is prohibited
/// globally, or an allow-list is configured and the canonical client
/// address is in none of its networks.
pub open spec fn spec_serving_allowed(ctl: ServingControl, ip: IpAddress) -> bool {
    !ctl.prohibit_serving && (ctl.allowed_networks@.len() == 0 || spec_ip_allowed(
        ctl.allowed_networks@,
        spec_canonical_ip(ip),
    ))
}

pub fn serving_allowed(ctl: &ServingControl, ip: IpAddress) -> (r: bool)
    requires
        ctl.wf(),
    ensures
        r == spec_serving_allowed(*ctl, ip),
{
    if ctl.prohibit_serving {
        return false;
    }
    let n = ctl.allowed_networks.len();
    if n == 0 {
        return true;
    }
    let canonical = canonical_ip(ip);
    let mut i: usize = 0;
    while i < n
        invariant
            0 <= i <= n,
            n == ctl.allowed_networks@.len(),
            ctl.wf(),
            !ctl.prohibit_serving,
            canonical == spec_canonical_ip(ip),
            forall|j: int|
                0 <= j < i ==> !spec_cidr_contains(
                    #[trigger] ctl.allowed_networks@[j],
                    canonical,
                ),
        decreases n - i,
    {
        if cidr_contains(&ctl.allowed_networks[i], canonical) {
            return true;
        }
        i = i + 1;
    }
    false
}

/// Prohibition alone decides: with `prohibit_serving` set, no client
/// address is served, whatever the allow-list holds.
pub proof fn lemma_prohibit_serving_denies(ctl: ServingControl, ip: IpAddress)
    requires
        ctl.prohibit_serving,
    ensures
        !spec_serving_allowed(ctl, ip),
{
}

/// What the standard CIDR notation parses to, if anything: the network of
/// `addr/prefix` text. The result is a function of the text alone.
pub uninterp spec fn cidr_of(s: Seq<char>) -> Option<CidrNetwork>;

/// Relies on ipnetwork's `IpNetwork::from_str`: parses CIDR text and
/// rejects a prefix longer than the address family's bit width. The parse
/// result is named `cidr_of`.
#[verifier::external_body]
pub(crate) fn parse_cidr(s: &str) -> (r: Option<CidrNetwork>)
    ensures
        r == cidr_of(s@),
        r matches Some(n) ==> n.wf(),
{
    match s.parse::<ipnetwork::IpNetwork>() {
        Ok(ipnetwork::IpNetwork::V4(n)) => Some(
            CidrNetwork { v6: false, addr: u32::from(n.ip()) as u128, prefix: n.prefix() },
        ),
        Ok(ipnetwork::IpNetwork::V6(n)) => Some(
            CidrNetwork { v6: true, addr: u128::from(n.ip()), prefix: n.prefix() },
        ),
        Err(_) => None,
    }
}

} // verus!
