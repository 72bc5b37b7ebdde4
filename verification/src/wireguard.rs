//! Peer records and sets of them.

use crate::ip::{IpAddress, IpNetwork};
use crate::keys::PublicKey;
use vstd::prelude::*;

verus! {

/// The record of one node of the mesh: its public key, the endpoint under
/// which other nodes reach it, and its tunnel address.
#[derive(Debug, PartialEq, Eq)]
pub struct WgPeer {
    pub public_key: PublicKey,
    pub endpoint: String,
    /// The tunnel address of the peer as a single-host network: `/32` for
    /// IPv4, `/128` for IPv6.
    pub address: IpNetwork,
}

/// What a peer record says: two records are the same record when their
/// views are equal.
pub ghost struct WgPeerView {
    pub public_key: Seq<u8>,
    pub endpoint: Seq<char>,
    pub address: IpNetwork,
}

impl View for WgPeer {
    type V = WgPeerView;

    open spec fn view(&self) -> WgPeerView {
        WgPeerView {
            public_key: self.public_key@,
            endpoint: self.endpoint@,
            address: self.address,
        }
    }
}

impl Clone for WgPeer {
    fn clone(&self) -> (r: WgPeer)
        ensures
            r@ == self@,
    {
        WgPeer {
            public_key: self.public_key,
            endpoint: self.endpoint.clone(),
            address: self.address,
        }
    }
}

impl WgPeer {
    /// The record of a node with the given key, endpoint and tunnel address.
    pub fn new(public_key: PublicKey, endpoint: &str, address: IpAddress) -> (r: WgPeer)
        ensures
            r@ == (WgPeerView {
                public_key: public_key@,
                endpoint: endpoint@,
                address: IpNetwork::single(address),
            }),
            r.address.wf(),
    {
        WgPeer {
            public_key,
            endpoint: endpoint.to_owned(),
            address: IpNetwork::from_addr(address),
        }
    }

    /// Whether two records agree in key, endpoint and address.
    pub fn same(&self, other: &WgPeer) -> (r: bool)
        ensures
            r == (self@ == other@),
    {
        self.public_key.same(&other.public_key) && self.endpoint == other.endpoint
            && self.address == other.address
    }
}

/// The views of a sequence of records, in the same order.
pub open spec fn views(s: Seq<WgPeer>) -> Seq<WgPeerView> {
    s.map_values(|p: WgPeer| p@)
}

/// Whether a set of records holds one with the given key.
pub open spec fn has_key(s: Set<WgPeerView>, key: Seq<u8>) -> bool {
    exists|p: WgPeerView| s.contains(p) && p.public_key == key
}

/// Whether a set of records holds one with the given tunnel address.
pub open spec fn has_address(s: Set<WgPeerView>, addr: IpAddress) -> bool {
    exists|p: WgPeerView| s.contains(p) && p.address.addr == addr
}

/// Whether every record of a set has a prefix no longer than its address.
pub open spec fn addresses_wf(peers: Set<WgPeerView>) -> bool {
    forall|p: WgPeerView| peers.contains(p) ==> (#[trigger] p.address).wf()
}

/// The records of a set whose key is not `key`.
pub open spec fn without_key(s: Set<WgPeerView>, key: Seq<u8>) -> Set<WgPeerView> {
    s.filter(|p: WgPeerView| p.public_key != key)
}

/// A set of peer records: no record occurs twice.
#[derive(Debug)]
pub struct PeerSet {
    peers: Vec<WgPeer>,
}

impl View for PeerSet {
    type V = Set<WgPeerView>;

    closed spec fn view(&self) -> Set<WgPeerView> {
        views(self.peers@).to_set()
    }
}

proof fn lemma_views_push(s: Seq<WgPeer>, p: WgPeer)
    ensures
        views(s.push(p)) == views(s).push(p@),
        views(s.push(p)).to_set() == views(s).to_set().insert(p@),
{
    assert(views(s.push(p)) =~= views(s).push(p@));
    views(s).lemma_push_to_set_commute(p@);
}

proof fn lemma_views_take(s: Seq<WgPeer>, i: int)
    requires
        0 <= i < s.len(),
    ensures
        views(s.take(i + 1)) == views(s.take(i)).push(s[i]@),
        views(s.take(i + 1)).to_set() == views(s.take(i)).to_set().insert(s[i]@),
{
    assert(s.take(i + 1) =~= s.take(i).push(s[i]));
    lemma_views_push(s.take(i), s[i]);
}

proof fn lemma_views_empty()
    ensures
        views(Seq::<WgPeer>::empty()).to_set() == Set::<WgPeerView>::empty(),
        views(Seq::<WgPeer>::empty()).no_duplicates(),
{
}

proof fn lemma_views_index(s: Seq<WgPeer>)
    ensures
        views(s).len() == s.len(),
        forall|i: int| 0 <= i < s.len() ==> #[trigger] views(s)[i] == s[i]@,
        forall|i: int| 0 <= i < s.len() ==> views(s).to_set().contains(#[trigger] s[i]@),
{
    assert forall|i: int| 0 <= i < s.len() implies views(s).to_set().contains(
        #[trigger] s[i]@,
    ) by {
        assert(views(s)[i] == s[i]@);
    }
}

impl PeerSet {
    /// No record occurs twice.
    pub closed spec fn wf(&self) -> bool {
        views(self.peers@).no_duplicates()
    }

    /// The records in the order in which they were put in.
    pub closed spec fn seq(&self) -> Seq<WgPeer> {
        self.peers@
    }

    /// The set holds what its sequence holds, each record once.
    pub proof fn lemma_seq(&self)
        requires
            self.wf(),
        ensures
            self@ == views(self.seq()).to_set(),
            views(self.seq()).no_duplicates(),
            self@.finite(),
            self@.len() == self.seq().len(),
    {
        vstd::seq_lib::seq_to_set_is_finite(views(self.peers@));
        views(self.peers@).unique_seq_to_set();
    }

    /// The empty set.
    pub fn new() -> (r: PeerSet)
        ensures
            r.wf(),
            r@ == Set::<WgPeerView>::empty(),
    {
        PeerSet { peers: Vec::new() }
    }

    /// The number of records.
    pub fn len(&self) -> (r: usize)
        requires
            self.wf(),
        ensures
            r == self@.len(),
            r == self.seq().len(),
    {
        proof {
            self.lemma_seq();
        }
        self.peers.len()
    }

    /// Whether the set holds no record.
    pub fn is_empty(&self) -> (r: bool)
        requires
            self.wf(),
        ensures
            r == (self@ == Set::<WgPeerView>::empty()),
    {
        proof {
            self.lemma_seq();
            if self.peers@.len() == 0 {
                lemma_views_empty();
                assert(self.peers@ =~= Seq::<WgPeer>::empty());
            } else {
                lemma_views_index(self.peers@);
            }
        }
        self.peers.len() == 0
    }

    /// The `i`-th record in the order in which they were put in.
    pub fn get(&self, i: usize) -> (r: &WgPeer)
        requires
            i < self.seq().len(),
        ensures
            *r == self.seq()[i as int],
            self@.contains(r@),
    {
        proof {
            lemma_views_index(self.peers@);
        }
        &self.peers[i]
    }

    /// Whether the set holds this record.
    pub fn contains(&self, peer: &WgPeer) -> (r: bool)
        ensures
            r == self@.contains(peer@),
    {
        let mut i: usize = 0;
        while i < self.peers.len()
            invariant
                i <= self.peers.len(),
                !views(self.peers@.take(i as int)).to_set().contains(peer@),
            decreases self.peers.len() - i,
        {
            proof {
                lemma_views_take(self.peers@, i as int);
            }
            if self.peers[i].same(peer) {
                proof {
                    lemma_views_index(self.peers@);
                }
                return true;
            }
            i = i + 1;
        }
        proof {
            assert(self.peers@.take(i as int) =~= self.peers@);
        }
        false
    }

    /// Whether the set holds a record with this key.
    pub fn contains_key(&self, key: &PublicKey) -> (r: bool)
        ensures
            r == has_key(self@, key@),
    {
        let mut i: usize = 0;
        while i < self.peers.len()
            invariant
                i <= self.peers.len(),
                !has_key(views(self.peers@.take(i as int)).to_set(), key@),
            decreases self.peers.len() - i,
        {
            proof {
                lemma_views_take(self.peers@, i as int);
            }
            if self.peers[i].public_key.same(key) {
                proof {
                    lemma_views_index(self.peers@);
                }
                return true;
            }
            i = i + 1;
        }
        proof {
            assert(self.peers@.take(i as int) =~= self.peers@);
        }
        false
    }

    /// Whether the set holds a record with this tunnel address.
    pub fn contains_address(&self, addr: &IpAddress) -> (r: bool)
        ensures
            r == has_address(self@, *addr),
    {
        let mut i: usize = 0;
        while i < self.peers.len()
            invariant
                i <= self.peers.len(),
                !has_address(views(self.peers@.take(i as int)).to_set(), *addr),
            decreases self.peers.len() - i,
        {
            proof {
                lemma_views_take(self.peers@, i as int);
            }
            if self.peers[i].address.addr == *addr {
                proof {
                    lemma_views_index(self.peers@);
                }
                return true;
            }
            i = i + 1;
        }
        proof {
            assert(self.peers@.take(i as int) =~= self.peers@);
        }
        false
    }

    /// Whether no record occurs twice.
    pub fn is_wf(&self) -> (r: bool)
        ensures
            r == self.wf(),
    {
        let ghost v = views(self.peers@);
        let mut i: usize = 0;
        while i < self.peers.len()
            invariant
                i <= self.peers.len(),
                v == views(self.peers@),
                v.len() == self.peers@.len(),
                forall|k: int| 0 <= k < v.len() ==> #[trigger] v[k] == self.peers@[k]@,
                forall|a: int, b: int| 0 <= a < b < i ==> v[a] != v[b],
            decreases self.peers.len() - i,
        {
            let mut j: usize = 0;
            while j < i
                invariant
                    j <= i < self.peers.len(),
                    v == views(self.peers@),
                    v.len() == self.peers@.len(),
                    forall|k: int| 0 <= k < v.len() ==> #[trigger] v[k] == self.peers@[k]@,
                    forall|a: int| 0 <= a < j ==> v[a] != v[i as int],
                decreases i - j,
            {
                if self.peers[j].same(&self.peers[i]) {
                    assert(v[j as int] == v[i as int]);
                    return false;
                }
                j = j + 1;
            }
            i = i + 1;
        }
        assert forall|a: int, b: int| 0 <= a < v.len() && 0 <= b < v.len() && a != b implies v[a]
            != v[b] by {
            if a < b {
                assert(v[a] != v[b]);
            } else {
                assert(v[b] != v[a]);
            }
        }
        true
    }

    /// Whether every record has a prefix no longer than its address.
    pub fn addresses_ok(&self) -> (r: bool)
        ensures
            r == addresses_wf(self@),
    {
        let mut i: usize = 0;
        while i < self.peers.len()
            invariant
                i <= self.peers.len(),
                addresses_wf(views(self.peers@.take(i as int)).to_set()),
            decreases self.peers.len() - i,
        {
            proof {
                lemma_views_take(self.peers@, i as int);
            }
            if !self.peers[i].address.is_wf() {
                proof {
                    lemma_views_index(self.peers@);
                    let p = self.peers@[i as int]@;
                    assert(self@.contains(p) && !p.address.wf());
                }
                return false;
            }
            i = i + 1;
        }
        proof {
            assert(self.peers@.take(i as int) =~= self.peers@);
        }
        true
    }

    /// Puts a record in. Returns whether the set did not hold it before.
    pub fn insert(&mut self, peer: WgPeer) -> (r: bool)
        requires
            old(self).wf(),
        ensures
            final(self).wf(),
            final(self)@ == old(self)@.insert(peer@),
            r == !old(self)@.contains(peer@),
            r ==> final(self).seq() == old(self).seq().push(peer),
            !r ==> final(self).seq() == old(self).seq(),
    {
        if self.contains(&peer) {
            false
        } else {
            proof {
                lemma_views_push(self.peers@, peer);
            }
            self.peers.push(peer);
            true
        }
    }

    /// The set of the records of a list, each once.
    pub fn from_vec(peers: &Vec<WgPeer>) -> (r: PeerSet)
        ensures
            r.wf(),
            r@ == views(peers@).to_set(),
    {
        let mut out = PeerSet::new();
        let mut i: usize = 0;
        while i < peers.len()
            invariant
                i <= peers.len(),
                out.wf(),
                out@ == views(peers@.take(i as int)).to_set(),
            decreases peers.len() - i,
        {
            proof {
                lemma_views_take(peers@, i as int);
            }
            out.insert(peers[i].clone());
            i = i + 1;
        }
        proof {
            assert(peers@.take(i as int) =~= peers@);
        }
        out
    }

    /// The records as a list, in the order in which they were put in.
    pub fn to_vec(&self) -> (r: Vec<WgPeer>)
        ensures
            views(r@) == views(self.seq()),
    {
        let mut out: Vec<WgPeer> = Vec::new();
        let mut i: usize = 0;
        while i < self.peers.len()
            invariant
                i <= self.peers.len(),
                views(out@) == views(self.peers@.take(i as int)),
            decreases self.peers.len() - i,
        {
            let p = self.peers[i].clone();
            proof {
                lemma_views_push(out@, p);
            }
            out.push(p);
            i = i + 1;
        }
        out
    }

    /// The records of this set that `other` does not hold.
    pub fn difference(&self, other: &PeerSet) -> (r: PeerSet)
        ensures
            r.wf(),
            r@ == self@.difference(other@),
    {
        let mut out = PeerSet::new();
        let mut i: usize = 0;
        while i < self.peers.len()
            invariant
                i <= self.peers.len(),
                out.wf(),
                out@ == views(self.peers@.take(i as int)).to_set().difference(other@),
            decreases self.peers.len() - i,
        {
            proof {
                lemma_views_take(self.peers@, i as int);
            }
            if !other.contains(&self.peers[i]) {
                out.insert(self.peers[i].clone());
            }
            i = i + 1;
        }
        proof {
            assert(self.peers@.take(i as int) =~= self.peers@);
        }
        out
    }

    /// The records of this set whose key is not `key`.
    pub fn without_key(&self, key: &PublicKey) -> (r: PeerSet)
        ensures
            r.wf(),
            r@ == without_key(self@, key@),
    {
        let mut out = PeerSet::new();
        let mut i: usize = 0;
        while i < self.peers.len()
            invariant
                i <= self.peers.len(),
                out.wf(),
                out@ == without_key(views(self.peers@.take(i as int)).to_set(), key@),
            decreases self.peers.len() - i,
        {
            proof {
                lemma_views_take(self.peers@, i as int);
            }
            if !self.peers[i].public_key.same(key) {
                out.insert(self.peers[i].clone());
            }
            i = i + 1;
        }
        proof {
            assert(self.peers@.take(i as int) =~= self.peers@);
        }
        out
    }

    /// Puts every record of `other` in.
    pub fn extend(&mut self, other: &PeerSet)
        requires
            old(self).wf(),
        ensures
            final(self).wf(),
            final(self)@ == old(self)@.union(other@),
    {
        let mut i: usize = 0;
        while i < other.peers.len()
            invariant
                i <= other.peers.len(),
                self.wf(),
                self@ == old(self)@.union(views(other.peers@.take(i as int)).to_set()),
            decreases other.peers.len() - i,
        {
            proof {
                lemma_views_take(other.peers@, i as int);
            }
            self.insert(other.peers[i].clone());
            i = i + 1;
        }
        proof {
            assert(other.peers@.take(i as int) =~= other.peers@);
        }
    }

    /// Whether every record of this set is in `other`.
    pub fn is_subset(&self, other: &PeerSet) -> (r: bool)
        ensures
            r == self@.subset_of(other@),
    {
        let mut i: usize = 0;
        while i < self.peers.len()
            invariant
                i <= self.peers.len(),
                views(self.peers@.take(i as int)).to_set().subset_of(other@),
            decreases self.peers.len() - i,
        {
            proof {
                lemma_views_take(self.peers@, i as int);
            }
            if !other.contains(&self.peers[i]) {
                proof {
                    lemma_views_index(self.peers@);
                }
                return false;
            }
            i = i + 1;
        }
        proof {
            assert(self.peers@.take(i as int) =~= self.peers@);
        }
        true
    }

    /// Whether two sets hold the same records.
    pub fn same(&self, other: &PeerSet) -> (r: bool)
        ensures
            r == (self@ == other@),
    {
        let r = self.is_subset(other) && other.is_subset(self);
        proof {
            if r {
                assert(self@ =~= other@);
            }
        }
        r
    }
}

impl Clone for PeerSet {
    fn clone(&self) -> (r: PeerSet)
        ensures
            r@ == self@,
            self.wf() ==> r.wf(),
            views(r.seq()) == views(self.seq()),
    {
        PeerSet { peers: self.to_vec() }
    }
}

} // verus!
