//! IPv4 addresses with a prefix length, as WireGuard peers and node networks use them.
use vstd::prelude::*;
use vstd::arithmetic::power2::pow2;
use vstd::bits::lemma_u64_shr_is_div;
use crate::text::{dec_text, decimal};

verus! {

/// An IPv4 address (as its 32-bit number) with a prefix length.
#[derive(Clone, Copy, Debug, PartialEq, Eq, Structural)]
pub struct IpMask {
    pub addr: u32,
    pub cidr: u8,
}

/// The number of the address that follows `ip`, if any.
pub open spec fn spec_next_ip(ip: u32) -> Option<u32> {
    if ip < u32::MAX {
        Some((ip + 1) as u32)
    } else {
        None
    }
}

/// `ip` lies in the network `net`: the prefix length is at most 32 and the
/// first `cidr` bits of `ip` and of the network address agree.
pub open spec fn in_network(net: IpMask, ip: u32) -> bool {
    &&& net.cidr <= 32
    &&& ip as nat / pow2((32 - net.cidr) as nat) == net.addr as nat / pow2(
        (32 - net.cidr) as nat,
    )
}

/// A network holds its own address whenever its prefix length is valid; a
/// prefix of 32 bits holds only that address, and a prefix of 0 bits holds
/// every address; a prefix longer than 32 holds none.
pub proof fn lemma_network_bounds(net: IpMask, ip: u32)
    ensures
        in_network(net, net.addr) <==> net.cidr <= 32,
        net.cidr == 32 ==> (in_network(net, ip) <==> ip == net.addr),
        net.cidr == 0 ==> in_network(net, ip),
        net.cidr > 32 ==> !in_network(net, ip),
{
    vstd::arithmetic::power2::lemma2_to64();
    if net.cidr == 0 {
        assert(pow2(32) == 0x1_0000_0000);
        assert(ip as nat / pow2(32) == 0);
        assert(net.addr as nat / pow2(32) == 0);
    }
    if net.cidr == 32 {
        assert(pow2(0) == 1);
        assert(ip as nat / 1 == ip as nat);
        assert(net.addr as nat / 1 == net.addr as nat);
    }
}

/// The address after `ip`; `None` after 255.255.255.255.
pub fn increment_ip(ip: u32) -> (r: Option<u32>)
    ensures
        r == spec_next_ip(ip),
{
    if ip < u32::MAX {
        Some(ip + 1)
    } else {
        None
    }
}

/// Whether `ip` lies in the network `net`.
pub fn ip_in_mask(net: &IpMask, ip: u32) -> (r: bool)
    ensures
        r == in_network(*net, ip),
{
    if net.cidr > 32 {
        return false;
    }
    let sh: u64 = (32 - net.cidr) as u64;
    let a: u64 = ip as u64;
    let b: u64 = net.addr as u64;
    proof {
        lemma_u64_shr_is_div(a, sh);
        lemma_u64_shr_is_div(b, sh);
    }
    (a >> sh) == (b >> sh)
}

impl IpMask {
    pub fn new(addr: u32, cidr: u8) -> (r: IpMask)
        ensures
            r.addr == addr,
            r.cidr == cidr,
    {
        IpMask { addr, cidr }
    }
}

/// The dotted-decimal text of an IPv4 address.
pub open spec fn ipv4_text(a: u32) -> Seq<char> {
    dec_text((a as nat / 0x100_0000) % 256) + "."@ + dec_text((a as nat / 0x1_0000) % 256) + "."@
        + dec_text((a as nat / 0x100) % 256) + "."@ + dec_text(a as nat % 256)
}

/// The text of an address with its prefix length, `a.b.c.d/n`.
pub open spec fn mask_text(m: IpMask) -> Seq<char> {
    ipv4_text(m.addr) + "/"@ + dec_text(m.cidr as nat)
}

/// The dotted-decimal text of an IPv4 address.
pub fn ipv4_string(a: u32) -> (r: String)
    ensures
        r@ == ipv4_text(a),
{
    let mut s = decimal(((a / 0x100_0000) % 256) as u64);
    s.append(".");
    let b = decimal(((a / 0x1_0000) % 256) as u64);
    s.append(b.as_str());
    s.append(".");
    let c = decimal(((a / 0x100) % 256) as u64);
    s.append(c.as_str());
    s.append(".");
    let d = decimal((a % 256) as u64);
    s.append(d.as_str());
    s
}

/// The text `a.b.c.d/n` of an address with its prefix length.
pub fn mask_string(m: &IpMask) -> (r: String)
    ensures
        r@ == mask_text(*m),
{
    let mut s = ipv4_string(m.addr);
    s.append("/");
    let n = decimal(m.cidr as u64);
    s.append(n.as_str());
    s
}

} // verus!
