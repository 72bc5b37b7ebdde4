//! The address allocator: how a node picks its tunnel address from the
//! overlay subnet.

use crate::ip::{host_range, lemma_hosts_inside, next_host, remaining_hosts, IpAddress, IpNetwork};
use crate::wireguard::{has_address, PeerSet, WgPeerView};
use vstd::prelude::*;

verus! {

/// Why no tunnel address could be settled.
#[derive(Clone, Copy, Debug, PartialEq, Eq, Structural)]
pub enum AddressError {
    /// The address asked for does not lie inside the overlay subnet.
    OutOfRange,
    /// Every host address of the overlay subnet is taken.
    NoFreeAddress,
}

/// Whether the `i`-th host address of `network` is the first that no record
/// of `peers` holds.
pub open spec fn is_first_free(network: IpNetwork, peers: Set<WgPeerView>, i: int) -> bool {
    &&& 0 <= i < network.host_count()
    &&& !has_address(peers, network.host(i))
    &&& forall|j: int| 0 <= j < i ==> has_address(peers, #[trigger] network.host(j))
}

/// Whether every host address of `network` is held by a record of `peers`.
pub open spec fn is_exhausted(network: IpNetwork, peers: Set<WgPeerView>) -> bool {
    forall|j: int| 0 <= j < network.host_count() ==> has_address(peers, #[trigger] network.host(j))
}

/// The address that allocation settles on, or why it settles on none.
pub open spec fn allocated(
    network: IpNetwork,
    peers: Set<WgPeerView>,
    address: Option<IpAddress>,
) -> Result<IpAddress, AddressError> {
    match address {
        Some(a) => if network.contains(a) {
            Ok(a)
        } else {
            Err(AddressError::OutOfRange)
        },
        None => if exists|i: int| is_first_free(network, peers, i) {
            Ok(network.host(choose|i: int| is_first_free(network, peers, i)))
        } else {
            Err(AddressError::NoFreeAddress)
        },
    }
}

/// Finds the first host address of `network`, in the network's own order,
/// that no record of `peers` holds. `None` when all are taken.
pub fn get_free_address(network: &IpNetwork, peers: &PeerSet) -> (r: Option<IpAddress>)
    requires
        network.wf(),
    ensures
        match r {
            Some(a) => exists|i: int| is_first_free(*network, peers@, i) && network.host(i) == a,
            None => is_exhausted(*network, peers@),
        },
{
    let mut range = host_range(network);
    let ghost mut idx: int = 0;
    loop
        invariant
            network.wf(),
            0 <= idx <= network.host_count(),
            remaining_hosts(range) == network.hosts().skip(idx),
            forall|j: int| 0 <= j < idx ==> has_address(peers@, #[trigger] network.host(j)),
        decreases network.host_count() - idx,
    {
        match next_host(&mut range) {
            None => {
                return None;
            },
            Some(host) => {
                if !peers.contains_address(&host) {
                    return Some(host);
                }
                proof {
                    assert(network.hosts().skip(idx).drop_first() =~= network.hosts().skip(
                        idx + 1,
                    ));
                    idx = idx + 1;
                }
            },
        }
    }
}

/// Settles the tunnel address of a node: the address asked for, if it lies
/// inside the overlay subnet, or else the first free host address.
pub fn allocate_address(
    network: &IpNetwork,
    peers: &PeerSet,
    address: Option<IpAddress>,
) -> (r: Result<IpAddress, AddressError>)
    requires
        network.wf(),
    ensures
        r == allocated(*network, peers@, address),
        r matches Ok(a) ==> network.contains(a),
        address is None ==> (r matches Ok(a) ==> !has_address(peers@, a)),
        address is None ==> (r is Err <==> is_exhausted(*network, peers@)),
{
    match address {
        Some(a) => {
            if network.contains_addr(&a) {
                Ok(a)
            } else {
                Err(AddressError::OutOfRange)
            }
        },
        None => {
            match get_free_address(network, peers) {
                Some(a) => {
                    proof {
                        let i = choose|i: int|
                            is_first_free(*network, peers@, i) && network.host(i) == a;
                        lemma_hosts_inside(*network, i);
                        let j = choose|j: int| is_first_free(*network, peers@, j);
                    }
                    Ok(a)
                },
                None => Err(AddressError::NoFreeAddress),
            }
        },
    }
}

/// The address that allocation settles on lies inside the overlay subnet,
/// and where none was asked for, no record of the peer set holds it.
pub proof fn lemma_allocated_address(
    network: IpNetwork,
    peers: Set<WgPeerView>,
    address: Option<IpAddress>,
)
    requires
        network.wf(),
        allocated(network, peers, address) is Ok,
    ensures
        network.contains(allocated(network, peers, address)->Ok_0),
        address is None ==> !has_address(peers, allocated(network, peers, address)->Ok_0),
{
    if address is None {
        let i = choose|i: int| is_first_free(network, peers, i);
        lemma_hosts_inside(network, i);
    }
}

/// Whether no two records of a set share a tunnel address.
pub open spec fn distinct_addresses(peers: Set<WgPeerView>) -> bool {
    forall|p: WgPeerView, q: WgPeerView|
        peers.contains(p) && peers.contains(q) && p != q ==> #[trigger] p.address.addr
            != #[trigger] q.address.addr
}

/// Whether the tunnel address of every record of a set lies inside the
/// overlay subnet.
pub open spec fn addresses_inside(network: IpNetwork, peers: Set<WgPeerView>) -> bool {
    forall|p: WgPeerView| peers.contains(p) ==> network.contains(#[trigger] p.address.addr)
}

/// A node that joins with the address that allocation settled on keeps
/// every tunnel address of the registry inside the overlay subnet.
pub proof fn lemma_join_keeps_addresses_inside(
    network: IpNetwork,
    peers: Set<WgPeerView>,
    address: Option<IpAddress>,
    joined: WgPeerView,
)
    requires
        network.wf(),
        addresses_inside(network, peers),
        allocated(network, peers, address) == Ok::<IpAddress, AddressError>(joined.address.addr),
    ensures
        addresses_inside(network, peers.insert(joined)),
{
    lemma_allocated_address(network, peers, address);
}

/// A node that joins with an address that was allocated against the records
/// of the registry, with none asked for, shares its address with no other
/// node: as long as nodes join one after the other, no two records share an
/// address.
pub proof fn lemma_join_keeps_addresses_distinct(
    network: IpNetwork,
    peers: Set<WgPeerView>,
    joined: WgPeerView,
)
    requires
        network.wf(),
        distinct_addresses(peers),
        allocated(network, peers, None) == Ok::<IpAddress, AddressError>(joined.address.addr),
    ensures
        distinct_addresses(peers.insert(joined)),
{
    lemma_allocated_address(network, peers, None);
}

/// The first free host address is the only one: two that both are the first
/// are the same.
pub proof fn lemma_first_free_unique(network: IpNetwork, peers: Set<WgPeerView>, i: int, j: int)
    requires
        is_first_free(network, peers, i),
        is_first_free(network, peers, j),
    ensures
        i == j,
{
    if i < j {
        assert(has_address(peers, network.host(i)));
    }
}

/// An exhausted subnet has no first free address, and a subnet with one is
/// not exhausted: allocation without an address asked for fails exactly on
/// the exhausted subnets.
pub proof fn lemma_exhausted_iff_none_free(network: IpNetwork, peers: Set<WgPeerView>)
    requires
        network.wf(),
    ensures
        is_exhausted(network, peers) <==> !exists|i: int| is_first_free(network, peers, i),
{
    if is_exhausted(network, peers) {
        assert forall|i: int| !is_first_free(network, peers, i) by {
            if 0 <= i < network.host_count() {
                assert(has_address(peers, network.host(i)));
            }
        }
    } else {
        let j = choose|j: int|
            0 <= j < network.host_count() && !has_address(peers, #[trigger] network.host(j));
        lemma_least_free(network, peers, j);
    }
}

proof fn lemma_least_free(network: IpNetwork, peers: Set<WgPeerView>, j: int)
    requires
        0 <= j < network.host_count(),
        !has_address(peers, network.host(j)),
    ensures
        exists|i: int| is_first_free(network, peers, i),
    decreases j,
{
    if exists|k: int| 0 <= k < j && !has_address(peers, #[trigger] network.host(k)) {
        let k = choose|k: int| 0 <= k < j && !has_address(peers, #[trigger] network.host(k));
        lemma_least_free(network, peers, k);
    } else {
        assert(is_first_free(network, peers, j));
    }
}

/// An address that a node allocated against a peer set differs from the
/// address of every record in that set.
pub proof fn lemma_allocated_differs(
    network: IpNetwork,
    peers: Set<WgPeerView>,
    i: int,
    other: WgPeerView,
)
    requires
        is_first_free(network, peers, i),
        peers.contains(other),
    ensures
        network.host(i) != other.address.addr,
{
}

} // verus!
