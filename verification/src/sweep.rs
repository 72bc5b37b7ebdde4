//! The peer-timeout sweep: which peers have been silent for too long, and
//! when their records may be deleted from the registry.

use crate::keys::{public_key_from_base64, PublicKey};
use crate::text::{parse_u64, parsed_u64, split, split_text, texts};
use vstd::prelude::*;

verus! {

/// The shortest time, in seconds, between two deletions by timeout.
pub const DELETION_DEBOUNCE: u64 = 60;

/// What the sweep remembers of one peer.
#[derive(Clone, Copy, Debug, PartialEq, Eq)]
pub struct PeerActivity {
    pub public_key: PublicKey,
    /// The count of received bytes when it last changed.
    pub last_count: u64,
    /// When the count last changed, in seconds on the agent's clock.
    pub last_change_at: u64,
}

/// The count of received bytes of a peer and the time of its last change.
pub type Activity = (u64, u64);

/// What the sweep remembers of the peer with the given key: where several
/// entries have the key, the last counts.
pub open spec fn lookup(entries: Seq<PeerActivity>, key: Seq<u8>) -> Option<Activity>
    decreases entries.len(),
{
    if entries.len() == 0 {
        None
    } else if entries.last().public_key@ == key {
        Some((entries.last().last_count, entries.last().last_change_at))
    } else {
        lookup(entries.drop_last(), key)
    }
}

/// No two entries have the same key.
pub open spec fn unique_keys(entries: Seq<PeerActivity>) -> bool {
    forall|i: int, j: int|
        0 <= i < j < entries.len() ==> (#[trigger] entries[i]).public_key@ != (
        #[trigger] entries[j]).public_key@
}

/// What the sweep remembers of a peer once it has seen the count `rx_bytes`
/// at the time `now`: a count that changed, or a peer seen for the first
/// time, starts the peer's clock anew.
pub open spec fn next_activity(previous: Option<Activity>, rx_bytes: u64, now: u64) -> Activity {
    match previous {
        Some((count, at)) => if count == rx_bytes {
            (count, at)
        } else {
            (rx_bytes, now)
        },
        None => (rx_bytes, now),
    }
}

/// Whether a peer has been silent for longer than `peer_timeout`: its count
/// is the one remembered, and that one is older than the timeout.
pub open spec fn timed_out(
    previous: Option<Activity>,
    rx_bytes: u64,
    now: u64,
    peer_timeout: u64,
) -> bool {
    previous matches Some((count, at)) && count == rx_bytes && now - at > peer_timeout
}

/// Whether a deletion by timeout is allowed at the time `now`: none has
/// happened in the last 60 seconds.
pub open spec fn debounce_open(last_deletion_at: Option<u64>, now: u64) -> bool {
    match last_deletion_at {
        Some(at) => now - at >= DELETION_DEBOUNCE,
        None => true,
    }
}

/// Whether the record of a peer is to be deleted from the registry.
pub open spec fn should_delete(
    previous: Option<Activity>,
    rx_bytes: u64,
    now: u64,
    peer_timeout: u64,
    last_deletion_at: Option<u64>,
) -> bool {
    peer_timeout > 0 && timed_out(previous, rx_bytes, now, peer_timeout) && debounce_open(
        last_deletion_at,
        now,
    )
}

/// The memory of the peer-timeout sweep.
#[derive(Debug)]
pub struct TimeoutSweeper {
    entries: Vec<PeerActivity>,
    last_deletion_at: Option<u64>,
}

proof fn lemma_lookup_at(entries: Seq<PeerActivity>, i: int)
    requires
        unique_keys(entries),
        0 <= i < entries.len(),
    ensures
        lookup(entries, entries[i].public_key@) == Some(
            (entries[i].last_count, entries[i].last_change_at),
        ),
    decreases entries.len(),
{
    let last = entries.len() - 1;
    if i < last {
        let rest = entries.drop_last();
        assert(unique_keys(rest)) by {
            assert forall|a: int, b: int| 0 <= a < b < rest.len() implies (
            #[trigger] rest[a]).public_key@ != (#[trigger] rest[b]).public_key@ by {
            }
        }
        lemma_lookup_at(rest, i);
    }
}

proof fn lemma_lookup_absent(entries: Seq<PeerActivity>, key: Seq<u8>)
    requires
        forall|i: int| 0 <= i < entries.len() ==> (#[trigger] entries[i]).public_key@ != key,
    ensures
        lookup(entries, key) is None,
    decreases entries.len(),
{
    if entries.len() > 0 {
        let rest = entries.drop_last();
        assert forall|i: int| 0 <= i < rest.len() implies (#[trigger] rest[i]).public_key@
            != key by {
        }
        lemma_lookup_absent(rest, key);
    }
}

proof fn lemma_lookup_update(entries: Seq<PeerActivity>, i: int, entry: PeerActivity, key: Seq<u8>)
    requires
        0 <= i < entries.len(),
        entry.public_key@ == entries[i].public_key@,
        key != entry.public_key@,
    ensures
        lookup(entries.update(i, entry), key) == lookup(entries, key),
    decreases entries.len(),
{
    let last = entries.len() - 1;
    let updated = entries.update(i, entry);
    if i == last {
        assert(updated.drop_last() =~= entries.drop_last());
    } else {
        assert(updated.drop_last() =~= entries.drop_last().update(i, entry));
        if entries.last().public_key@ != key {
            lemma_lookup_update(entries.drop_last(), i, entry, key);
        }
    }
}

impl TimeoutSweeper {
    /// No two entries have the same key.
    pub closed spec fn wf(&self) -> bool {
        unique_keys(self.entries@)
    }

    /// What the sweep remembers of the peer with the given key.
    pub closed spec fn activity(&self, key: Seq<u8>) -> Option<Activity> {
        lookup(self.entries@, key)
    }

    /// When the sweep last had a record deleted.
    pub closed spec fn last_deletion(&self) -> Option<u64> {
        self.last_deletion_at
    }

    /// A sweep that remembers nothing.
    pub fn new() -> (r: TimeoutSweeper)
        ensures
            r.wf(),
            r.last_deletion() is None,
            forall|key: Seq<u8>| r.activity(key) is None,
    {
        TimeoutSweeper { entries: Vec::new(), last_deletion_at: None }
    }

    /// What the sweep remembers of the peer with the given key.
    pub fn get(&self, key: &PublicKey) -> (r: Option<Activity>)
        requires
            self.wf(),
        ensures
            r == self.activity(key@),
    {
        match self.position(key) {
            Some(i) => Some((self.entries[i].last_count, self.entries[i].last_change_at)),
            None => None,
        }
    }

    /// When the sweep last had a record deleted.
    pub fn last_deletion_at(&self) -> (r: Option<u64>)
        ensures
            r == self.last_deletion(),
    {
        self.last_deletion_at
    }

    fn position(&self, key: &PublicKey) -> (r: Option<usize>)
        requires
            self.wf(),
        ensures
            match r {
                Some(i) => i < self.entries@.len() && self.entries@[i as int].public_key@ == key@
                    && lookup(self.entries@, key@) == Some(
                    (self.entries@[i as int].last_count, self.entries@[i as int].last_change_at),
                ),
                None => lookup(self.entries@, key@) is None && forall|i: int|
                    0 <= i < self.entries@.len() ==> (#[trigger] self.entries@[i]).public_key@
                        != key@,
            },
    {
        let mut i: usize = 0;
        while i < self.entries.len()
            invariant
                i <= self.entries.len(),
                self.wf(),
                forall|j: int| 0 <= j < i ==> (#[trigger] self.entries@[j]).public_key@ != key@,
            decreases self.entries.len() - i,
        {
            if self.entries[i].public_key.same(key) {
                proof {
                    lemma_lookup_at(self.entries@, i as int);
                }
                return Some(i);
            }
            i = i + 1;
        }
        proof {
            lemma_lookup_absent(self.entries@, key@);
        }
        None
    }

    /// Takes note of the count of received bytes of one peer at the time
    /// `now`, and says whether the peer's record is to be deleted from the
    /// registry: so when the count has not changed for longer than
    /// `peer_timeout` seconds and no record was deleted in the last 60
    /// seconds. A `peer_timeout` of zero switches the sweep off.
    pub fn observe(&mut self, key: &PublicKey, rx_bytes: u64, now: u64, peer_timeout: u64) -> (delete:
        bool)
        requires
            old(self).wf(),
        ensures
            final(self).wf(),
            delete == should_delete(
                old(self).activity(key@),
                rx_bytes,
                now,
                peer_timeout,
                old(self).last_deletion(),
            ),
            final(self).last_deletion() == (if delete {
                Some(now)
            } else {
                old(self).last_deletion()
            }),
            peer_timeout > 0 ==> final(self).activity(key@) == Some(
                next_activity(old(self).activity(key@), rx_bytes, now),
            ),
            peer_timeout == 0 ==> final(self).activity(key@) == old(self).activity(key@),
            forall|other: Seq<u8>|
                other != key@ ==> final(self).activity(other) == old(self).activity(other),
    {
        if peer_timeout == 0 {
            return false;
        }
        match self.position(key) {
            None => {
                let entry = PeerActivity {
                    public_key: *key,
                    last_count: rx_bytes,
                    last_change_at: now,
                };
                proof {
                    let pushed = self.entries@.push(entry);
                    assert(pushed.drop_last() =~= self.entries@);
                    assert forall|other: Seq<u8>| other != key@ implies lookup(pushed, other)
                        == lookup(self.entries@, other) by {}
                }
                self.entries.push(entry);
                false
            },
            Some(i) => {
                let entry = self.entries[i];
                if entry.last_count != rx_bytes {
                    let changed = PeerActivity {
                        public_key: entry.public_key,
                        last_count: rx_bytes,
                        last_change_at: now,
                    };
                    proof {
                        lemma_lookup_at(self.entries@.update(i as int, changed), i as int);
                        assert forall|other: Seq<u8>| other != key@ implies lookup(
                            self.entries@.update(i as int, changed),
                            other,
                        ) == lookup(self.entries@, other) by {
                            lemma_lookup_update(self.entries@, i as int, changed, other);
                        }
                    }
                    self.entries.set(i, changed);
                    false
                } else if now > entry.last_change_at && now - entry.last_change_at > peer_timeout {
                    let open = match self.last_deletion_at {
                        Some(at) => now >= at && now - at >= DELETION_DEBOUNCE,
                        None => true,
                    };
                    if open {
                        self.last_deletion_at = Some(now);
                    }
                    open
                } else {
                    false
                }
            },
        }
    }
}

/// Two deletions by timeout are at least 60 seconds apart: a record is
/// deleted only when the last deletion, if there was one, is that old.
pub proof fn lemma_debounce(
    previous: Option<Activity>,
    rx_bytes: u64,
    now: u64,
    peer_timeout: u64,
    last_deletion_at: u64,
)
    requires
        should_delete(previous, rx_bytes, now, peer_timeout, Some(last_deletion_at)),
    ensures
        now - last_deletion_at >= DELETION_DEBOUNCE,
{
}

/// A peer whose count of received bytes changed, or that is seen for the
/// first time, is never deleted, and with a timeout of zero no peer is.
pub proof fn lemma_active_peer_stays(
    previous: Option<Activity>,
    rx_bytes: u64,
    now: u64,
    peer_timeout: u64,
    last_deletion_at: Option<u64>,
)
    requires
        previous is None || (previous matches Some((count, at)) && count != rx_bytes)
            || peer_timeout == 0,
    ensures
        !should_delete(previous, rx_bytes, now, peer_timeout, last_deletion_at),
{
}

/// What the fields of one line of the interface's transfer report say: the
/// public key of a peer and its count of received bytes. The line has three
/// fields, of which the third, the count of sent bytes, is not looked at.
pub open spec fn transfer_of(fields: Seq<Seq<char>>) -> Option<(Seq<u8>, u64)> {
    if fields.len() != 3 {
        None
    } else {
        match (public_key_from_base64(fields[0]), parsed_u64(fields[1])) {
            (Some(key), Some(rx_bytes)) => Some((key, rx_bytes)),
            _ => None,
        }
    }
}

/// What the lines of a transfer report say, or `None` where a line that is
/// not empty says nothing.
pub open spec fn transfers_of(lines: Seq<Seq<char>>) -> Option<Seq<(Seq<u8>, u64)>>
    decreases lines.len(),
{
    if lines.len() == 0 {
        Some(Seq::empty())
    } else {
        match transfers_of(lines.drop_last()) {
            None => None,
            Some(entries) => if lines.last().len() == 0 {
                Some(entries)
            } else {
                match transfer_of(split_text(lines.last(), '\t')) {
                    None => None,
                    Some(entry) => Some(entries.push(entry)),
                }
            },
        }
    }
}

/// The keys and counts of a list of entries.
pub open spec fn entry_views(entries: Seq<(PublicKey, u64)>) -> Seq<(Seq<u8>, u64)> {
    entries.map_values(|e: (PublicKey, u64)| (e.0@, e.1))
}

/// Reads the fields of one line of the interface's transfer report.
pub fn transfer_entry(fields: &Vec<String>) -> (r: Option<(PublicKey, u64)>)
    ensures
        match r {
            Some((key, rx_bytes)) => transfer_of(texts(fields@)) == Some((key@, rx_bytes)),
            None => transfer_of(texts(fields@)) is None,
        },
{
    if fields.len() != 3 {
        return None;
    }
    let key = match PublicKey::from_base64(fields[0].as_str()) {
        Some(k) => k,
        None => {
            return None;
        },
    };
    match parse_u64(fields[1].as_str()) {
        Some(rx_bytes) => Some((key, rx_bytes)),
        None => None,
    }
}

/// Once the lines up to some line say nothing, all of them say nothing.
proof fn lemma_transfers_none(lines: Seq<Seq<char>>, n: int)
    requires
        0 <= n <= lines.len(),
        transfers_of(lines.take(n)) is None,
    ensures
        transfers_of(lines) is None,
    decreases lines.len() - n,
{
    if n == lines.len() {
        assert(lines.take(n) =~= lines);
    } else {
        assert(lines.take(n + 1).drop_last() =~= lines.take(n));
        lemma_transfers_none(lines, n + 1);
    }
}

/// Reads the interface's transfer report: one line for each peer, with the
/// peer's public key, its count of received bytes and its count of sent
/// bytes, separated by tabs. Empty lines are passed over.
pub fn transfer_report(report: &str) -> (r: Option<Vec<(PublicKey, u64)>>)
    ensures
        match r {
            Some(entries) => transfers_of(split_text(report@, '\n')) == Some(entry_views(entries@)),
            None => transfers_of(split_text(report@, '\n')) is None,
        },
{
    let lines = split(report, '\n');
    let ghost all = texts(lines@);
    let mut entries: Vec<(PublicKey, u64)> = Vec::new();
    let mut i: usize = 0;
    proof {
        assert(entry_views(entries@) =~= Seq::empty());
    }
    while i < lines.len()
        invariant
            i <= lines.len(),
            all == texts(lines@),
            all == split_text(report@, '\n'),
            transfers_of(all.take(i as int)) == Some(entry_views(entries@)),
        decreases lines.len() - i,
    {
        let line = lines[i].as_str();
        proof {
            assert(all.take(i + 1).drop_last() =~= all.take(i as int));
            assert(all.take(i + 1).last() == line@);
        }
        if line.unicode_len() > 0 {
            let fields = split(line, '\t');
            match transfer_entry(&fields) {
                Some(entry) => {
                    proof {
                        assert(entry_views(entries@.push(entry)) =~= entry_views(entries@).push(
                            (entry.0@, entry.1),
                        ));
                    }
                    entries.push(entry);
                },
                None => {
                    proof {
                        lemma_transfers_none(all, i + 1);
                    }
                    return None;
                },
            }
        }
        i = i + 1;
    }
    proof {
        assert(all.take(i as int) =~= all);
    }
    Some(entries)
}

} // verus!
