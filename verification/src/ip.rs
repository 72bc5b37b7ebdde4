//! IP addresses and networks in CIDR notation, with the address arithmetic
//! that allocation relies on.

use vstd::arithmetic::power2::{lemma_pow2_pos, lemma_pow2_strictly_increases, pow2};
use vstd::prelude::*;

verus! {

/// An IPv4 or IPv6 address, held as the integer its bytes spell in network
/// order.
#[derive(Clone, Copy, Debug, PartialEq, Eq, Structural)]
pub enum IpAddress {
    V4(u32),
    V6(u128),
}

impl IpAddress {
    /// The address as a mathematical integer.
    pub open spec fn bits(self) -> int {
        match self {
            IpAddress::V4(a) => a as int,
            IpAddress::V6(a) => a as int,
        }
    }

    /// The width of the address in bits: 32 or 128.
    pub open spec fn width(self) -> nat {
        match self {
            IpAddress::V4(_) => 32,
            IpAddress::V6(_) => 128,
        }
    }

    /// Whether two addresses belong to the same family.
    pub open spec fn same_family(self, other: IpAddress) -> bool {
        (self is V4) == (other is V4)
    }

    /// The address of the same family as `self` whose integer is `bits`.
    pub open spec fn with_bits(self, bits: int) -> IpAddress {
        match self {
            IpAddress::V4(_) => IpAddress::V4(bits as u32),
            IpAddress::V6(_) => IpAddress::V6(bits as u128),
        }
    }

    /// The address in its usual notation: dotted decimal for IPv4, groups of
    /// hexadecimal digits for IPv6.
    pub fn to_text(&self) -> (r: String)
        ensures
            r@ == ip_address_text(*self),
    {
        address_to_text(self)
    }

    /// The longest prefix a network of this family can have.
    pub fn max_prefix_len(&self) -> (r: u8)
        ensures
            r == self.width(),
    {
        match self {
            IpAddress::V4(_) => 32,
            IpAddress::V6(_) => 128,
        }
    }
}

/// An address together with a prefix length: a network in CIDR notation, or
/// the address of one interface inside that network.
#[derive(Clone, Copy, Debug, PartialEq, Eq, Structural)]
pub struct IpNetwork {
    pub addr: IpAddress,
    pub prefix_len: u8,
}

/// A prefix length that is longer than the address.
#[derive(Clone, Copy, Debug, PartialEq, Eq, Structural)]
pub struct PrefixLenError;

impl IpNetwork {
    /// The prefix is no longer than the address.
    pub open spec fn wf(self) -> bool {
        self.prefix_len <= self.addr.width()
    }

    /// The number of addresses the network spans.
    pub open spec fn block_size(self) -> int {
        pow2((self.addr.width() - self.prefix_len) as nat) as int
    }

    /// The lowest address of the network.
    pub open spec fn network_bits(self) -> int {
        self.addr.bits() - self.addr.bits() % self.block_size()
    }

    /// The highest address of the network.
    pub open spec fn broadcast_bits(self) -> int {
        self.network_bits() + self.block_size() - 1
    }

    /// Whether `a` lies inside the network. An address of the other family
    /// never does.
    pub open spec fn contains(self, a: IpAddress) -> bool {
        &&& self.addr.same_family(a)
        &&& self.network_bits() <= a.bits() <= self.broadcast_bits()
    }

    /// Whether the lowest and the highest address are left out of the host
    /// addresses: so for IPv4 networks with room for more than two.
    pub open spec fn reserves_ends(self) -> bool {
        self.addr is V4 && self.prefix_len < 31
    }

    /// The first host address.
    pub open spec fn first_host_bits(self) -> int {
        if self.reserves_ends() {
            self.network_bits() + 1
        } else {
            self.network_bits()
        }
    }

    /// The last host address.
    pub open spec fn last_host_bits(self) -> int {
        if self.reserves_ends() {
            self.broadcast_bits() - 1
        } else {
            self.broadcast_bits()
        }
    }

    /// How many host addresses the network has.
    pub open spec fn host_count(self) -> nat {
        (self.last_host_bits() - self.first_host_bits() + 1) as nat
    }

    /// The `i`-th host address, counted from zero.
    pub open spec fn host(self, i: int) -> IpAddress {
        self.addr.with_bits(self.first_host_bits() + i)
    }

    /// The host addresses in the order in which they are handed out.
    pub open spec fn hosts(self) -> Seq<IpAddress> {
        Seq::new(self.host_count(), |i: int| self.host(i))
    }

    /// The network of one address: the full-length prefix.
    pub open spec fn single(addr: IpAddress) -> IpNetwork {
        IpNetwork { addr, prefix_len: addr.width() as u8 }
    }

    /// Pairs an address with a prefix length, which must not be longer than
    /// the address.
    pub fn new(addr: IpAddress, prefix_len: u8) -> (r: Result<IpNetwork, PrefixLenError>)
        ensures
            prefix_len <= addr.width() ==> r == Ok::<IpNetwork, PrefixLenError>(
                IpNetwork { addr, prefix_len },
            ),
            prefix_len > addr.width() ==> r is Err,
    {
        if prefix_len > addr.max_prefix_len() {
            Err(PrefixLenError)
        } else {
            Ok(IpNetwork { addr, prefix_len })
        }
    }

    /// Whether the prefix is no longer than the address.
    pub fn is_wf(&self) -> (r: bool)
        ensures
            r == self.wf(),
    {
        self.prefix_len <= self.addr.max_prefix_len()
    }

    /// The single-host network of `addr`: `/32` for IPv4, `/128` for IPv6.
    pub fn from_addr(addr: IpAddress) -> (r: IpNetwork)
        ensures
            r == IpNetwork::single(addr),
            r.wf(),
    {
        IpNetwork { addr, prefix_len: addr.max_prefix_len() }
    }

    /// The network in CIDR notation: the address, a slash and the prefix
    /// length.
    pub fn to_text(&self) -> (r: String)
        requires
            self.wf(),
        ensures
            r@ == ip_network_text(*self),
    {
        network_to_text(self)
    }

    /// Reads a network in CIDR notation. `None` where the text is none.
    pub fn parse(text: &str) -> (r: Option<IpNetwork>)
        ensures
            r == parsed_ip_network(text@),
            r matches Some(n) ==> n.wf(),
    {
        match parse_network(text) {
            Ok(n) => Some(n),
            Err(_) => None,
        }
    }

    /// Whether `addr` lies inside this network.
    pub fn contains_addr(&self, addr: &IpAddress) -> (r: bool)
        requires
            self.wf(),
        ensures
            r == self.contains(*addr),
    {
        network_contains(self, addr)
    }
}

/// The addresses of a network are those of its family between its lowest and
/// highest address; the span is a power of two that fits the family.
pub proof fn lemma_network_bounds(net: IpNetwork)
    requires
        net.wf(),
    ensures
        1 <= net.block_size() <= pow2(net.addr.width()),
        0 <= net.network_bits() <= net.addr.bits() <= net.broadcast_bits() < pow2(
            net.addr.width(),
        ),
        net.contains(net.addr),
{
    let w = net.addr.width();
    let h = (w - net.prefix_len) as nat;
    lemma_pow2_pos(h);
    lemma_width_limit(net.addr);
    let b = pow2(h) as int;
    let a = net.addr.bits();
    vstd::arithmetic::div_mod::lemma_fundamental_div_mod(a, b);
    lemma_pow2_split(h, w);
    // the block that holds `a` ends below the family's limit
    let q = pow2((w - h) as nat) as int;
    assert(a / b < q) by (nonlinear_arith)
        requires
            0 <= a < b * q,
            b > 0,
    ;
    assert(b * (a / b) + b <= b * q) by (nonlinear_arith)
        requires
            a / b < q,
            b > 0,
    ;
}

/// An address is below two to the power of its width.
pub proof fn lemma_width_limit(a: IpAddress)
    ensures
        0 <= a.bits() < pow2(a.width()),
        pow2(32) == 0x1_0000_0000,
        pow2(128) == 0x1_0000_0000_0000_0000_0000_0000_0000_0000,
{
    vstd::arithmetic::power2::lemma2_to64();
    vstd::arithmetic::power2::lemma_pow2_adds(64, 64);
}

proof fn lemma_pow2_split(h: nat, w: nat)
    requires
        h <= w,
    ensures
        pow2(h) * pow2((w - h) as nat) == pow2(w),
{
    vstd::arithmetic::power2::lemma_pow2_adds(h, (w - h) as nat);
}

/// A network has at least one host address, and exactly as many as lie
/// between its first and its last.
pub proof fn lemma_host_count(net: IpNetwork)
    requires
        net.wf(),
    ensures
        net.host_count() == net.last_host_bits() - net.first_host_bits() + 1,
        net.host_count() >= 1,
        net.reserves_ends() ==> net.host_count() == net.block_size() - 2 && net.block_size() >= 4,
        !net.reserves_ends() ==> net.host_count() == net.block_size(),
{
    lemma_network_bounds(net);
    if net.reserves_ends() {
        let h = (32 - net.prefix_len) as nat;
        vstd::arithmetic::power2::lemma2_to64();
        if h > 2 {
            lemma_pow2_strictly_increases(2, h);
        }
    }
}

/// Every host address of a network lies inside it, and `host` names each of
/// them once.
pub proof fn lemma_hosts_inside(net: IpNetwork, i: int)
    requires
        net.wf(),
        0 <= i < net.host_count(),
    ensures
        net.contains(net.host(i)),
        net.host(i).bits() == net.first_host_bits() + i,
        net.host(i).same_family(net.addr),
        net.hosts()[i] == net.host(i),
{
    lemma_network_bounds(net);
    lemma_width_limit(net.addr);
    lemma_host_count(net);
    match net.addr {
        IpAddress::V4(_) => {
        },
        IpAddress::V6(_) => {
        },
    }
}

/// The remaining addresses of an address range of the `ipnet` crate, in the
/// order in which it yields them.
pub uninterp spec fn remaining_hosts(r: ipnet::IpAddrRange) -> Seq<IpAddress>;

/// What the `Display` impl of `ipnet::IpNet` writes for a network.
pub uninterp spec fn ip_network_text(net: IpNetwork) -> Seq<char>;

/// What the `Display` impl of std's `IpAddr` writes for an address.
pub uninterp spec fn ip_address_text(addr: IpAddress) -> Seq<char>;

/// The network that the `FromStr` impl of `ipnet::IpNet` reads from a text,
/// or `None` where it refuses the text.
pub uninterp spec fn parsed_ip_network(text: Seq<char>) -> Option<IpNetwork>;

#[verifier::external_type_specification]
#[verifier::external_body]
pub struct ExIpAddrRange(ipnet::IpAddrRange);

#[verifier::external_type_specification]
#[verifier::external_body]
pub struct ExAddrParseError(ipnet::AddrParseError);

/// `Display` of `ipnet::IpNet`: the address, a slash and the prefix length.
#[verifier::external_body]
fn network_to_text(net: &IpNetwork) -> (r: String)
    requires
        net.wf(),
    ensures
        r@ == ip_network_text(*net),
{
    let n = match net.addr {
        IpAddress::V4(a) => ipnet::IpNet::V4(ipnet::Ipv4Net::new_assert(a.into(), net.prefix_len)),
        IpAddress::V6(a) => ipnet::IpNet::V6(ipnet::Ipv6Net::new_assert(a.into(), net.prefix_len)),
    };
    n.to_string()
}

/// `Display` of std's `IpAddr`, reached through `ipnet::IpNet::addr`: the
/// address in its usual notation, which depends on the address alone.
#[verifier::external_body]
fn address_to_text(addr: &IpAddress) -> (r: String)
    ensures
        r@ == ip_address_text(*addr),
{
    match *addr {
        IpAddress::V4(a) => ipnet::Ipv4Net::new_assert(a.into(), 32).addr().to_string(),
        IpAddress::V6(a) => ipnet::Ipv6Net::new_assert(a.into(), 128).addr().to_string(),
    }
}

/// `FromStr` of `ipnet::IpNet`: reads an address, a slash and a prefix
/// length that is at most 32 for IPv4 and at most 128 for IPv6, and nothing
/// else.
#[verifier::external_body]
fn parse_network(text: &str) -> (r: Result<IpNetwork, ipnet::AddrParseError>)
    ensures
        match r {
            Ok(n) => parsed_ip_network(text@) == Some(n) && n.wf(),
            Err(_) => parsed_ip_network(text@) is None,
        },
{
    match text.parse::<ipnet::IpNet>() {
        Ok(ipnet::IpNet::V4(n)) => Ok(
            IpNetwork { addr: IpAddress::V4(n.addr().into()), prefix_len: n.prefix_len() },
        ),
        Ok(ipnet::IpNet::V6(n)) => Ok(
            IpNetwork { addr: IpAddress::V6(n.addr().into()), prefix_len: n.prefix_len() },
        ),
        Err(e) => Err(e),
    }
}

/// `ipnet::IpNet::contains` on an address: true when the address is of the
/// network's family and lies between the network's lowest address (the
/// address with its host bits cleared) and its highest (host bits set).
#[verifier::external_body]
fn network_contains(net: &IpNetwork, addr: &IpAddress) -> (r: bool)
    requires
        net.wf(),
    ensures
        r == net.contains(*addr),
{
    let n = match net.addr {
        IpAddress::V4(a) => ipnet::IpNet::V4(ipnet::Ipv4Net::new_assert(a.into(), net.prefix_len)),
        IpAddress::V6(a) => ipnet::IpNet::V6(ipnet::Ipv6Net::new_assert(a.into(), net.prefix_len)),
    };
    let host = match *addr {
        IpAddress::V4(a) => ipnet::IpNet::V4(ipnet::Ipv4Net::new_assert(a.into(), 32)),
        IpAddress::V6(a) => ipnet::IpNet::V6(ipnet::Ipv6Net::new_assert(a.into(), 128)),
    };
    n.contains(&host.addr())
}

/// `ipnet::IpNet::hosts`: the range from the network's lowest to its highest
/// address, without those two for an IPv4 prefix shorter than 31.
#[verifier::external_body]
pub(crate) fn host_range(net: &IpNetwork) -> (r: ipnet::IpAddrRange)
    requires
        net.wf(),
    ensures
        remaining_hosts(r) == net.hosts(),
{
    match net.addr {
        IpAddress::V4(a) => ipnet::IpNet::V4(
            ipnet::Ipv4Net::new_assert(a.into(), net.prefix_len),
        ).hosts(),
        IpAddress::V6(a) => ipnet::IpNet::V6(
            ipnet::Ipv6Net::new_assert(a.into(), net.prefix_len),
        ).hosts(),
    }
}

/// `Iterator::next` of `ipnet::IpAddrRange`: hands out the first remaining
/// address and drops it from the range, or returns `None` and leaves an
/// exhausted range exhausted.
#[verifier::external_body]
pub(crate) fn next_host(range: &mut ipnet::IpAddrRange) -> (r: Option<IpAddress>)
    ensures
        remaining_hosts(*old(range)).len() > 0 ==> r == Some(remaining_hosts(*old(range))[0])
            && remaining_hosts(*final(range)) == remaining_hosts(*old(range)).drop_first(),
        remaining_hosts(*old(range)).len() == 0 ==> r is None && remaining_hosts(*final(range))
            == remaining_hosts(*old(range)),
{
    match range.next().map(ipnet::IpNet::from) {
        Some(ipnet::IpNet::V4(n)) => Some(IpAddress::V4(n.addr().into())),
        Some(ipnet::IpNet::V6(n)) => Some(IpAddress::V6(n.addr().into())),
        None => None,
    }
}

} // verus!
