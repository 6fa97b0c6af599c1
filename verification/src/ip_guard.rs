//! Which addresses may connect to a periphery.

use vstd::prelude::*;

verus! {

/// An ip address.
#[derive(Debug, Clone, Copy, PartialEq, Eq, Structural)]
pub enum IpAddr {
    V4(u32),
    V6(u128),
}

/// A network: an address, and how many of its first bits the addresses of the
/// network share with it.
#[derive(Debug, Clone, Copy, PartialEq, Eq, Structural)]
pub enum IpNetwork {
    V4(u32, u8),
    V6(u128, u8),
}

impl IpNetwork {
    /// The prefix is no longer than an address.
    pub open spec fn wf(self) -> bool {
        match self {
            IpNetwork::V4(address, prefix) => prefix <= 32,
            IpNetwork::V6(address, prefix) => prefix <= 128,
        }
    }

    /// Whether `ip` is an address of the network.
    pub open spec fn has(self, ip: IpAddr) -> bool {
        match (self, ip) {
            (IpNetwork::V4(address, prefix), IpAddr::V4(ip)) => prefix == 0 || ip >> ((32 - prefix) as u32)
                == address >> ((32 - prefix) as u32),
            (IpNetwork::V6(address, prefix), IpAddr::V6(ip)) => prefix == 0 || ip >> ((128 - prefix) as u128)
                == address >> ((128 - prefix) as u128),
            _ => false,
        }
    }

    /// Whether `ip` is an address of the network.
    pub fn contains(&self, ip: IpAddr) -> (r: bool)
        requires
            self.wf(),
        ensures
            r == self.has(ip),
    {
        match (*self, ip) {
            (IpNetwork::V4(address, prefix), IpAddr::V4(ip)) => {
                if prefix == 0 {
                    return true;
                }
                let shift: u32 = (32 - prefix) as u32;
                ip >> shift == address >> shift
            },
            (IpNetwork::V6(address, prefix), IpAddr::V6(ip)) => {
                if prefix == 0 {
                    return true;
                }
                let shift: u128 = (128 - prefix) as u128;
                ip >> shift == address >> shift
            },
            _ => false,
        }
    }
}

/// An IPv4 address as an IPv6 address: `::ffff:a.b.c.d`.
pub open spec fn mapped(ip: u32) -> u128 {
    (0xffff_0000_0000 + ip) as u128
}

/// An IPv4 address as an IPv6 address: `::ffff:a.b.c.d`.
pub fn to_ipv6_mapped(ip: u32) -> (r: u128)
    ensures
        r == mapped(ip),
{
    0xffff_0000_0000u128 + ip as u128
}

/// The address itself, or for an IPv6 address that stands for an IPv4 address
/// that one.
pub open spec fn canonical(ip: IpAddr) -> IpAddr {
    match ip {
        IpAddr::V4(_) => ip,
        IpAddr::V6(v6) => if v6 / 0x1_0000_0000 == 0xffff {
            IpAddr::V4((v6 % 0x1_0000_0000) as u32)
        } else {
            ip
        },
    }
}

/// The address itself, or for an IPv6 address that stands for an IPv4 address
/// that one.
pub fn to_canonical(ip: IpAddr) -> (r: IpAddr)
    ensures
        r == canonical(ip),
{
    match ip {
        IpAddr::V4(_) => ip,
        IpAddr::V6(v6) => {
            if v6 / 0x1_0000_0000 == 0xffff {
                IpAddr::V4((v6 % 0x1_0000_0000) as u32)
            } else {
                ip
            }
        },
    }
}

/// Whether `network` lets `ip` in, as it is or as the same address of the other
/// version.
pub open spec fn lets_in(network: IpNetwork, ip: IpAddr) -> bool {
    network.has(ip) || match ip {
        IpAddr::V4(v4) => network.has(IpAddr::V6(mapped(v4))),
        IpAddr::V6(_) => network.has(canonical(ip)),
    }
}

/// What becomes of a request.
#[derive(Debug, Clone, Copy, PartialEq, Eq, Structural)]
pub enum Guarded {
    /// The request is let in.
    Allowed,
    /// Could not get the address of the request.
    NoAddress,
    /// The address is not allowed.
    NotAllowed,
}

/// What becomes of a request from `ip`. Without a list, every request is let
/// in.
pub open spec fn guarded(allowed_ips: Seq<IpNetwork>, ip: Option<IpAddr>) -> Guarded {
    if allowed_ips.len() == 0 {
        Guarded::Allowed
    } else {
        match ip {
            None => Guarded::NoAddress,
            Some(ip) => if exists|i: int| 0 <= i < allowed_ips.len() && lets_in(#[trigger] allowed_ips[i], ip) {
                Guarded::Allowed
            } else {
                Guarded::NotAllowed
            },
        }
    }
}

impl Guarded {
    /// The HTTP status of a request that is not let in.
    pub fn status(&self) -> (r: Option<u16>)
        ensures
            r == (if *self == Guarded::Allowed {
                None
            } else {
                Some(401u16)
            }),
    {
        match self {
            Guarded::Allowed => None,
            _ => Some(401),
        }
    }
}

/// Decides on a request by its address.
pub fn guard_request_by_ip(allowed_ips: &Vec<IpNetwork>, ip: Option<IpAddr>) -> (r: Guarded)
    requires
        forall|i: int| 0 <= i < allowed_ips@.len() ==> (#[trigger] allowed_ips@[i]).wf(),
    ensures
        r == guarded(allowed_ips@, ip),
{
    if allowed_ips.len() == 0 {
        return Guarded::Allowed;
    }
    let from: IpAddr = match ip {
        Some(from) => from,
        None => return Guarded::NoAddress,
    };
    let mut i: usize = 0;
    while i < allowed_ips.len()
        invariant
            i <= allowed_ips@.len(),
            ip == Some(from),
            allowed_ips@.len() > 0,
            forall|j: int| 0 <= j < allowed_ips@.len() ==> (#[trigger] allowed_ips@[j]).wf(),
            forall|j: int| 0 <= j < i ==> !lets_in(#[trigger] allowed_ips@[j], from),
        decreases allowed_ips@.len() - i,
    {
        let network: IpNetwork = allowed_ips[i];
        let matches: bool = network.contains(from) || match from {
            IpAddr::V4(v4) => network.contains(IpAddr::V6(to_ipv6_mapped(v4))),
            IpAddr::V6(_) => network.contains(to_canonical(from)),
        };
        if matches {
            assert(lets_in(allowed_ips@[i as int], from));
            return Guarded::Allowed;
        }
        i = i + 1;
    }
    Guarded::NotAllowed
}

/// An IPv4 client is treated alike whether it comes with its IPv4 address or
/// with the IPv6 address that stands for it.
pub proof fn law_mapped_address_is_treated_alike(allowed_ips: Seq<IpNetwork>, ip: u32)
    ensures
        guarded(allowed_ips, Some(IpAddr::V4(ip))) == guarded(allowed_ips, Some(IpAddr::V6(mapped(ip)))),
{
    assert(canonical(IpAddr::V6(mapped(ip))) == IpAddr::V4(ip));
    assert forall|i: int| 0 <= i < allowed_ips.len() implies lets_in(#[trigger] allowed_ips[i], IpAddr::V4(ip))
        == lets_in(allowed_ips[i], IpAddr::V6(mapped(ip))) by {}
}

/// A list with a network that holds every address lets every address of its
/// version in.
pub proof fn law_empty_prefix_lets_in(address: u32, ip: u32, rest: Seq<IpNetwork>)
    ensures
        guarded(
            seq![IpNetwork::V4(address, 0)] + rest,
            Some(IpAddr::V4(ip)),
        ) == Guarded::Allowed,
{
    let list = seq![IpNetwork::V4(address, 0)] + rest;
    assert(lets_in(list[0], IpAddr::V4(ip)));
}

/// A network holds the addresses of its version that share its first `prefix`
/// bits: those whose number, without the remaining bits, is that of its address.
pub proof fn law_network_holds_what_shares_its_prefix(
    v4: u32,
    v4_prefix: u8,
    v4_ip: u32,
    v6: u128,
    v6_prefix: u8,
    v6_ip: u128,
)
    requires
        v4_prefix <= 32,
        v6_prefix <= 128,
    ensures
        IpNetwork::V4(v4, v4_prefix).has(IpAddr::V4(v4_ip)) <==> v4_ip as nat / vstd::arithmetic::power2::pow2(
            (32 - v4_prefix) as nat,
        ) == v4 as nat / vstd::arithmetic::power2::pow2((32 - v4_prefix) as nat),
        IpNetwork::V6(v6, v6_prefix).has(IpAddr::V6(v6_ip)) <==> v6_ip as nat / vstd::arithmetic::power2::pow2(
            (128 - v6_prefix) as nat,
        ) == v6 as nat / vstd::arithmetic::power2::pow2((128 - v6_prefix) as nat),
        !IpNetwork::V4(v4, v4_prefix).has(IpAddr::V6(v6_ip)),
        !IpNetwork::V6(v6, v6_prefix).has(IpAddr::V4(v4_ip)),
{
    if v4_prefix == 0 {
        vstd::arithmetic::power2::lemma2_to64();
        assert(vstd::arithmetic::power2::pow2(32) == 0x1_0000_0000);
        assert(v4_ip as nat / 0x1_0000_0000 == 0 && v4 as nat / 0x1_0000_0000 == 0);
    } else {
        let shift = (32 - v4_prefix) as u32;
        vstd::bits::lemma_u32_shr_is_div(v4_ip, shift);
        vstd::bits::lemma_u32_shr_is_div(v4, shift);
    }
    if v6_prefix == 0 {
        let all = vstd::arithmetic::power2::pow2(128);
        vstd::arithmetic::power2::lemma2_to64_rest();
        vstd::arithmetic::power2::lemma_pow2_adds(64, 64);
        assert(all == 0x1_0000_0000_0000_0000 * 0x1_0000_0000_0000_0000);
        assert(v6_ip < all && v6 < all);
        vstd::arithmetic::div_mod::lemma_basic_div(v6_ip as int, all as int);
        vstd::arithmetic::div_mod::lemma_basic_div(v6 as int, all as int);
    } else {
        let shift = (128 - v6_prefix) as u128;
        vstd::bits::lemma_u128_shr_is_div(v6_ip, shift);
        vstd::bits::lemma_u128_shr_is_div(v6, shift);
    }
}

/// The IPv6 addresses that stand for IPv4 addresses are those from
/// `::ffff:0:0` on, one for each; only they have another canonical form.
pub proof fn law_mapped_addresses(v4: u32, v6: u128)
    ensures
        mapped(v4) == 0xffff_0000_0000 + v4,
        canonical(IpAddr::V4(v4)) == IpAddr::V4(v4),
        canonical(IpAddr::V6(mapped(v4))) == IpAddr::V4(v4),
        canonical(IpAddr::V6(v6)) == IpAddr::V4(v4) ==> v6 == mapped(v4),
        v6 < 0xffff_0000_0000 || v6 >= 0x1_0000_0000_0000 ==> canonical(IpAddr::V6(v6)) == IpAddr::V6(v6),
{
}

/// A list lets a request in exactly where one of its networks holds the address
/// of the request, or the same address of the other version. An empty list lets
/// every request in, and any other list none without an address.
pub proof fn law_some_network_lets_in(
    allowed_ips: Seq<IpNetwork>,
    ip: Option<IpAddr>,
    v4: u32,
    v6: u128,
    network: IpNetwork,
)
    ensures
        allowed_ips.len() == 0 ==> guarded(allowed_ips, ip) == Guarded::Allowed,
        allowed_ips.len() > 0 ==> guarded(allowed_ips, None) == Guarded::NoAddress,
        allowed_ips.len() > 0 ==> (guarded(allowed_ips, Some(IpAddr::V4(v4))) == Guarded::Allowed <==> exists|i: int|
            0 <= i < allowed_ips.len() && ((#[trigger] allowed_ips[i]).has(IpAddr::V4(v4)) || allowed_ips[i].has(
                IpAddr::V6((0xffff_0000_0000 + v4) as u128),
            ))),
        allowed_ips.len() > 0 ==> (guarded(allowed_ips, Some(IpAddr::V6(v6))) == Guarded::Allowed <==> exists|i: int|
            0 <= i < allowed_ips.len() && ((#[trigger] allowed_ips[i]).has(IpAddr::V6(v6)) || (v6 / 0x1_0000_0000
                == 0xffff && allowed_ips[i].has(IpAddr::V4((v6 % 0x1_0000_0000) as u32))))),
        allowed_ips.len() > 0 && ip is Some && guarded(allowed_ips, ip) != Guarded::Allowed ==> guarded(allowed_ips, ip)
            == Guarded::NotAllowed,
        allowed_ips.len() > 0 && guarded(allowed_ips, ip) == Guarded::Allowed ==> guarded(
            allowed_ips.push(network),
            ip,
        ) == Guarded::Allowed,
{
    if allowed_ips.len() > 0 {
        assert forall|i: int| 0 <= i < allowed_ips.len() implies lets_in(#[trigger] allowed_ips[i], IpAddr::V4(v4)) == (
        allowed_ips[i].has(IpAddr::V4(v4)) || allowed_ips[i].has(IpAddr::V6((0xffff_0000_0000 + v4) as u128))) by {}
        assert forall|i: int| 0 <= i < allowed_ips.len() implies lets_in(#[trigger] allowed_ips[i], IpAddr::V6(v6)) == (
        allowed_ips[i].has(IpAddr::V6(v6)) || (v6 / 0x1_0000_0000 == 0xffff && allowed_ips[i].has(
            IpAddr::V4((v6 % 0x1_0000_0000) as u32),
        ))) by {}
        if guarded(allowed_ips, ip) == Guarded::Allowed {
            let i = choose|i: int| 0 <= i < allowed_ips.len() && lets_in(#[trigger] allowed_ips[i], ip->0);
            assert(lets_in(allowed_ips.push(network)[i], ip->0));
        }
    }
}

} // verus!
