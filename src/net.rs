use vstd::prelude::*;

verus! {

/// An IP address as plain values: four octets, or eight 16-bit segments.
#[derive(Clone, Copy, Debug)]
pub enum IpAddress {
    V4([u8; 4]),
    V6([u16; 8]),
}

/// Global routability of a single IPv4 address (`o` holds its four octets):
/// the two routable IETF protocol assignments 192.0.0.9 and 192.0.0.10, or an
/// address outside 0.0.0.0/8, the private ranges 10.0.0.0/8, 172.16.0.0/12 and
/// 192.168.0.0/16, 192.0.0.0/24, shared space 100.64.0.0/10, loopback
/// 127.0.0.0/8, link-local 169.254.0.0/16, the documentation ranges
/// 192.0.2.0/24, 198.51.100.0/24 and 203.0.113.0/24, benchmarking
/// 198.18.0.0/15, and 240.0.0.0/4 (reserved, with the broadcast address).
pub open spec fn ipv4_is_global(o: Seq<u8>) -> bool {
    if o[0] == 192 && o[1] == 0 && o[2] == 0 && (o[3] == 9 || o[3] == 10) {
        true
    } else {
        !(o[0] == 0 || o[0] == 10 || (o[0] == 172 && 16 <= o[1] <= 31) || (o[0] == 192 && o[1]
            == 168) || (o[0] == 192 && o[1] == 0 && o[2] == 0) || (o[0] == 100 && 64 <= o[1]
            < 128) || o[0] == 127 || (o[0] == 169 && o[1] == 254) || (o[0] == 192 && o[1] == 0
            && o[2] == 2) || (o[0] == 198 && o[1] == 51 && o[2] == 100) || (o[0] == 203 && o[1]
            == 0 && o[2] == 113) || (o[0] == 198 && (o[1] == 18 || o[1] == 19)) || o[0] >= 240)
    }
}

/// Global routability of a single IPv6 address, given by its eight segments.
/// A multicast address (ff00::/8) is global when its scope (the low four bits of
/// the first segment) is 14. Any other address is global unless it is the
/// unspecified address `::`, loopback `::1`, link-local fe80::/10, site-local
/// fec0::/10, unique local fc00::/7 or documentation 2001:db8::/32.
pub open spec fn ipv6_is_global(s: Seq<u16>) -> bool {
    if s[0] >= 0xff00 {
        s[0] % 16 == 14
    } else {
        let unspecified = forall|i: int| 0 <= i < 8 ==> s[i] == 0;
        let loopback = (forall|i: int| 0 <= i < 7 ==> s[i] == 0) && s[7] == 1;
        !(unspecified || loopback || (0xfe80 <= s[0] <= 0xfebf) || (0xfec0 <= s[0] <= 0xfeff)
            || (0xfc00 <= s[0] <= 0xfdff) || (s[0] == 0x2001 && s[1] == 0xdb8))
    }
}

/// Relies on ip_network::Ipv4Network::is_global, on the network that holds the
/// one address (netmask 32).
#[verifier::external_body]
fn ipv4_network_is_global(octets: [u8; 4]) -> (r: bool)
    ensures
        r == ipv4_is_global(octets@),
{
    ip_network::Ipv4Network::from(core::net::Ipv4Addr::from(octets)).is_global()
}

/// Relies on ip_network::Ipv6Network::is_global, on the network that holds the
/// one address (netmask 128).
#[verifier::external_body]
fn ipv6_network_is_global(segments: [u16; 8]) -> (r: bool)
    ensures
        r == ipv6_is_global(segments@),
{
    ip_network::Ipv6Network::from(core::net::Ipv6Addr::from(segments)).is_global()
}

/// Whether `ip` is routable on the public internet. Multicast addresses
/// (224.0.0.0/4 and ff00::/8) are never public.
pub fn is_public_ip(ip: IpAddress) -> (r: bool)
    ensures
        r == match ip {
            IpAddress::V4(o) => !(224 <= o@[0] <= 239) && ipv4_is_global(o@),
            IpAddress::V6(s) => s@[0] < 0xff00 && ipv6_is_global(s@),
        },
{
    match ip {
        IpAddress::V4(o) => {
            if o[0] >= 224 && o[0] <= 239 {
                false
            } else {
                ipv4_network_is_global(o)
            }
        },
        IpAddress::V6(s) => {
            if s[0] >= 0xff00 {
                false
            } else {
                ipv6_network_is_global(s)
            }
        },
    }
}

} // verus!
