//! Destination addresses: the three address families a CONNECT request can
//! carry, and the big-endian port helper.

use vstd::prelude::*;
use vstd::utf8::valid_utf8;

verus! {

/// The address-type byte of an IPv4 destination.
pub const IPV4_TYPE: u8 = 0x01;
/// The address-type byte of a domain-name destination.
pub const DOMAIN_TYPE: u8 = 0x03;
/// The address-type byte of an IPv6 destination.
pub const IPV6_TYPE: u8 = 0x04;

/// A decoded destination address: four octets, sixteen octets, or a domain
/// name, each with a port.
#[derive(Debug, PartialEq, Eq)]
pub enum Address {
    Ipv4 { octets: Vec<u8>, port: u16 },
    Domain { name: Vec<u8>, port: u16 },
    Ipv6 { octets: Vec<u8>, port: u16 },
}

/// The mathematical shape of a destination address.
pub enum AddressModel {
    Ipv4 { octets: Seq<u8>, port: u16 },
    Domain { name: Seq<u8>, port: u16 },
    Ipv6 { octets: Seq<u8>, port: u16 },
}

impl View for Address {
    type V = AddressModel;

    open spec fn view(&self) -> AddressModel {
        match self {
            Address::Ipv4 { octets, port } => AddressModel::Ipv4 {
                octets: octets@,
                port: *port,
            },
            Address::Domain { name, port } => AddressModel::Domain { name: name@, port: *port },
            Address::Ipv6 { octets, port } => AddressModel::Ipv6 {
                octets: octets@,
                port: *port,
            },
        }
    }
}

/// A well-formed address: the right octet count for its family, and for a
/// domain a valid UTF-8 name of at most 255 bytes.
pub open spec fn spec_addr_wf(a: AddressModel) -> bool {
    match a {
        AddressModel::Ipv4 { octets, .. } => octets.len() == 4,
        AddressModel::Domain { name, .. } => name.len() <= 255 && valid_utf8(name),
        AddressModel::Ipv6 { octets, .. } => octets.len() == 16,
    }
}

/// A big-endian 16-bit port from its two wire bytes.
pub open spec fn spec_be16(hi: u8, lo: u8) -> u16 {
    ((hi as int) * 256 + (lo as int)) as u16
}

/// Reads a big-endian 16-bit integer from its two wire bytes.
pub fn be16(hi: u8, lo: u8) -> (r: u16)
    ensures
        r == spec_be16(hi, lo),
{
    (hi as u16) * 256 + (lo as u16)
}

/// Copies the first `n` bytes of a buffer into a fresh vector.
pub fn take_bytes(buf: &Vec<u8>, n: usize) -> (r: Vec<u8>)
    requires
        n <= buf@.len(),
    ensures
        r@ == buf@.take(n as int),
{
    let mut out: Vec<u8> = Vec::new();
    let mut i: usize = 0;
    while i < n
        invariant
            n <= buf@.len(),
            0 <= i <= n,
            out@ =~= buf@.take(i as int),
        decreases n - i,
    {
        out.push(buf[i]);
        assert(out@ =~= buf@.take(i as int + 1));
        i += 1;
    }
    out
}

} // verus!
