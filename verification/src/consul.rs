//! The registry client: the addresses of the registry's endpoints, the
//! requests that open a session and lock a key, and what the registry's
//! answers mean.

use crate::keys::{public_key_urlsafe_text, PublicKey};
use crate::text::{decimal, decimal_text, ends_with_slash, text_of};
use crate::wireguard::{views, PeerSet, WgPeer, WgPeerView};
use vstd::prelude::*;
use vstd::string::StringExecFns;

verus! {

/// The longest time, in seconds, that the registry lets a session live
/// without renewal.
pub const MAX_SESSION_TTL: u64 = 86400;

/// What went wrong between the agent and the registry.
#[derive(Clone, Copy, Debug, PartialEq, Eq, Structural)]
pub enum ConsulError {
    /// An address of the registry could not be put together.
    InvalidUrl,
    /// A session was asked to live longer than the registry allows.
    SessionTooLong,
    /// The registry could not be reached.
    Transport,
    /// The registry answered with a status that reports an error.
    Status(u16),
    /// The registry's answer could not be read.
    Decode,
    /// Another session holds the lock on the key.
    LockContention,
    /// The registry answered a read of one key with no entry.
    EmptyResponse,
    /// No session holds the lock on the key.
    Unlocked,
}

/// The kinds of failure that the agent tells apart.
#[derive(Clone, Copy, Debug, PartialEq, Eq, Structural)]
pub enum ErrorKind {
    /// What the agent was told is wrong. Fatal at startup.
    Validation,
    /// The registry is unreachable or fails.
    Transport,
    /// Another session holds the lock that the agent asked for.
    Contention,
}

impl ConsulError {
    /// The kind of this failure. An answer that cannot be read counts as a
    /// failure of the transport.
    pub fn kind(&self) -> (r: ErrorKind)
        ensures
            r == match *self {
                ConsulError::InvalidUrl | ConsulError::SessionTooLong => ErrorKind::Validation,
                ConsulError::LockContention => ErrorKind::Contention,
                _ => ErrorKind::Transport,
            },
    {
        match self {
            ConsulError::InvalidUrl => ErrorKind::Validation,
            ConsulError::SessionTooLong => ErrorKind::Validation,
            ConsulError::LockContention => ErrorKind::Contention,
            ConsulError::Transport => ErrorKind::Transport,
            ConsulError::Status(_) => ErrorKind::Transport,
            ConsulError::Decode => ErrorKind::Transport,
            ConsulError::EmptyResponse => ErrorKind::Transport,
            ConsulError::Unlocked => ErrorKind::Transport,
        }
    }
}

/// The identifier of a registry session: a UUID as a 128-bit number.
#[derive(Clone, Copy, Debug, PartialEq, Eq, Structural)]
pub struct SessionId {
    pub value: u128,
}

/// The address that `reqwest::Url::join` gives for a reference against a
/// base, or `None` where the base is no URL or the join fails.
pub uninterp spec fn joined_url(base: Seq<char>, reference: Seq<char>) -> Option<Seq<char>>;

/// The address that results when a name and a value are appended to the
/// query of a URL with `append_pair`, or `None` where the text is no URL.
pub uninterp spec fn url_with_pair(url: Seq<char>, name: Seq<char>, value: Seq<char>) -> Option<
    Seq<char>,
>;

/// What the `Display` impl of `uuid::Uuid` writes for the UUID with the
/// given 128-bit value.
pub uninterp spec fn uuid_text(value: u128) -> Seq<char>;

/// The bytes that `base64`'s standard engine decodes from a text, or `None`
/// where it refuses the text.
pub uninterp spec fn base64_decoded(text: Seq<char>) -> Option<Seq<u8>>;

#[verifier::external_type_specification]
#[verifier::external_body]
pub struct ExDecodeError(base64::DecodeError);

/// `reqwest::Url::join`, on a base that `reqwest::Url::parse` has read:
/// resolves a reference against the base as a browser would. The result
/// depends on the two texts alone.
#[verifier::external_body]
fn url_join(base: &str, reference: &str) -> (r: Option<String>)
    ensures
        match r {
            Some(u) => joined_url(base@, reference@) == Some(u@),
            None => joined_url(base@, reference@) is None,
        },
{
    match reqwest::Url::parse(base) {
        Ok(u) => match u.join(reference) {
            Ok(j) => Some(j.into()),
            Err(_) => None,
        },
        Err(_) => None,
    }
}

/// `append_pair` on `reqwest::Url::query_pairs_mut`, on a URL that
/// `reqwest::Url::parse` has read: appends `name=value`, form-encoded, to
/// the query. The result depends on the three texts alone.
#[verifier::external_body]
fn url_append_pair(url: &str, name: &str, value: &str) -> (r: Option<String>)
    ensures
        match r {
            Some(u) => url_with_pair(url@, name@, value@) == Some(u@),
            None => url_with_pair(url@, name@, value@) is None,
        },
{
    match reqwest::Url::parse(url) {
        Ok(mut u) => {
            u.query_pairs_mut().append_pair(name, value);
            Some(u.into())
        },
        Err(_) => None,
    }
}

/// `Display` of `uuid::Uuid`: the UUID in lower-case hexadecimal digits,
/// grouped by hyphens.
#[verifier::external_body]
fn session_id_text(id: &SessionId) -> (r: String)
    ensures
        r@ == uuid_text(id.value),
{
    uuid::Uuid::from_u128(id.value).to_string()
}

/// `base64::Engine::decode` of the standard engine: the bytes that a text in
/// standard base64 with padding stands for.
#[verifier::external_body]
fn base64_decode(text: &str) -> (r: Result<Vec<u8>, base64::DecodeError>)
    ensures
        match r {
            Ok(bytes) => base64_decoded(text@) == Some(bytes@),
            Err(_) => base64_decoded(text@) is None,
        },
{
    base64::Engine::decode(&base64::prelude::BASE64_STANDARD, text)
}

impl SessionId {
    /// The identifier as it stands in addresses and queries.
    pub fn to_text(&self) -> (r: String)
        ensures
            r@ == uuid_text(self.value),
    {
        session_id_text(self)
    }
}

/// Decodes the value of a registry entry, which the registry hands out in
/// standard base64.
pub fn decode_value(value: &str) -> (r: Result<Vec<u8>, ConsulError>)
    ensures
        match r {
            Ok(bytes) => base64_decoded(value@) == Some(bytes@),
            Err(e) => e == ConsulError::Decode && base64_decoded(value@) is None,
        },
{
    match base64_decode(value) {
        Ok(bytes) => Ok(bytes),
        Err(_) => Err(ConsulError::Decode),
    }
}

/// One entry of the registry's answer to a read of its key/value store.
#[derive(Clone, Debug, PartialEq, Eq, Hash)]
pub struct ConsulKvGet {
    pub create_index: u64,
    pub flags: u64,
    pub key: String,
    pub lock_index: u64,
    pub modify_index: u64,
    /// The stored value in standard base64.
    pub value: String,
}

impl ConsulKvGet {
    /// The bytes of the stored value.
    pub fn decode(&self) -> (r: Result<Vec<u8>, ConsulError>)
        ensures
            match r {
                Ok(bytes) => base64_decoded(self.value@) == Some(bytes@),
                Err(e) => e == ConsulError::Decode && base64_decoded(self.value@) is None,
            },
    {
        decode_value(self.value.as_str())
    }
}

/// What the registry does with the keys that a session holds when the
/// session ends.
#[derive(Clone, Copy, Debug, PartialEq, Eq, Structural)]
pub enum SessionInvalidationBehavior {
    /// The keys are deleted.
    Delete,
}

impl SessionInvalidationBehavior {
    /// The behaviour as the registry spells it.
    pub fn to_wire(&self) -> (r: &'static str)
        ensures
            r@ == "delete"@,
    {
        match self {
            SessionInvalidationBehavior::Delete => "delete",
        }
    }
}

/// How long a session lives without renewal.
#[derive(Clone, Copy, Debug, PartialEq, Eq, Structural)]
pub enum SessionDuration {
    Seconds(u32),
}

impl SessionDuration {
    /// The duration in seconds.
    pub open spec fn secs(self) -> nat {
        match self {
            SessionDuration::Seconds(s) => s as nat,
        }
    }

    /// A session duration of `secs` seconds. The registry takes at most 24
    /// hours; a longer duration is refused.
    pub fn try_from(secs: u64) -> (r: Result<SessionDuration, ConsulError>)
        ensures
            secs <= MAX_SESSION_TTL ==> r == Ok::<SessionDuration, ConsulError>(
                SessionDuration::Seconds(secs as u32),
            ),
            secs > MAX_SESSION_TTL ==> r == Err::<SessionDuration, ConsulError>(
                ConsulError::SessionTooLong,
            ),
    {
        if secs > MAX_SESSION_TTL {
            Err(ConsulError::SessionTooLong)
        } else {
            Ok(SessionDuration::Seconds(secs as u32))
        }
    }

    /// The duration as the registry reads it: the seconds in decimal,
    /// followed by `s`.
    pub fn to_wire(&self) -> (r: String)
        ensures
            r@ == decimal_text(self.secs()) + "s"@,
    {
        match self {
            SessionDuration::Seconds(s) => {
                let mut out = decimal(*s as u64);
                out.append("s");
                out
            },
        }
    }
}

/// The name of the session of the node with the given public key.
pub open spec fn session_name(public_key: Seq<u8>) -> Seq<char> {
    "wiresmith-"@ + public_key_urlsafe_text(public_key)
}

/// The request that opens a session.
#[derive(Debug, PartialEq, Eq)]
pub struct CreateSession {
    pub name: String,
    pub behavior: SessionInvalidationBehavior,
    /// How long the session lives without renewal.
    pub ttl: SessionDuration,
}

/// A request to the registry that carries a body: where it goes and what it
/// says.
#[derive(Debug, PartialEq, Eq)]
pub struct SessionRequest {
    pub url: String,
    pub body: CreateSession,
}

/// The addresses of a registry.
#[derive(Clone, Debug, PartialEq, Eq)]
pub struct ConsulClient {
    pub api_base_url: String,
    /// The address of the mesh's key prefix in the key/value store.
    pub kv_api_base_url: String,
}

/// A key prefix with the slash that ends it.
pub open spec fn with_slash(prefix: Seq<char>) -> Seq<char> {
    if prefix.len() > 0 && prefix.last() == '/' {
        prefix
    } else {
        prefix + "/"@
    }
}

/// A reference joined to a base that may be missing.
pub open spec fn join_opt(base: Option<Seq<char>>, reference: Seq<char>) -> Option<Seq<char>> {
    match base {
        Some(b) => joined_url(b, reference),
        None => None,
    }
}

/// A name and a value appended to the query of a URL that may be missing.
pub open spec fn pair_opt(url: Option<Seq<char>>, name: Seq<char>, value: Seq<char>) -> Option<
    Seq<char>,
> {
    match url {
        Some(u) => url_with_pair(u, name, value),
        None => None,
    }
}

/// The address of the key prefix `prefix` in the key/value store of the
/// registry at `address`.
pub open spec fn kv_base_url(address: Seq<char>, prefix: Seq<char>) -> Option<Seq<char>> {
    join_opt(join_opt(joined_url(address, "v1/"@), "kv/"@), with_slash(prefix))
}

/// The address under which all peer records of one datacenter are read, with
/// a hint that a stale answer will do.
pub open spec fn peers_url_of(kv_base: Seq<char>, dc: Seq<char>) -> Option<Seq<char>> {
    pair_opt(
        pair_opt(pair_opt(joined_url(kv_base, "peers/"@), "recurse"@, "true"@), "dc"@, dc),
        "stale"@,
        "1"@,
    )
}

/// The address of the peer record of the node with the given public key.
pub open spec fn peer_url_of(kv_base: Seq<char>, public_key: Seq<u8>) -> Option<Seq<char>> {
    join_opt(joined_url(kv_base, "peers/"@), public_key_urlsafe_text(public_key))
}

/// The address that writes a key while acquiring its lock for a session.
pub open spec fn put_url_of(peer_url: Seq<char>, session: u128) -> Option<Seq<char>> {
    url_with_pair(peer_url, "acquire"@, uuid_text(session))
}

fn join_onto(base: Option<String>, reference: &str) -> (r: Option<String>)
    ensures
        text_of(r) == join_opt(text_of(base), reference@),
{
    match base {
        Some(b) => url_join(b.as_str(), reference),
        None => None,
    }
}

fn pair_onto(url: Option<String>, name: &str, value: &str) -> (r: Option<String>)
    ensures
        text_of(r) == pair_opt(text_of(url), name@, value@),
{
    match url {
        Some(u) => url_append_pair(u.as_str(), name, value),
        None => None,
    }
}

impl ConsulClient {
    /// The client of the registry at `consul_address` for the mesh whose
    /// records live under `consul_prefix`. The prefix is taken with a slash
    /// at its end, whether or not it is given with one.
    pub fn new(consul_address: &str, consul_prefix: &str) -> (r: Result<ConsulClient, ConsulError>)
        ensures
            match r {
                Ok(c) => c.api_base_url@ == consul_address@ && kv_base_url(
                    consul_address@,
                    consul_prefix@,
                ) == Some(c.kv_api_base_url@),
                Err(e) => e == ConsulError::InvalidUrl && kv_base_url(
                    consul_address@,
                    consul_prefix@,
                ) is None,
            },
    {
        let prefix = if ends_with_slash(consul_prefix) {
            String::from_str(consul_prefix)
        } else {
            String::from_str(consul_prefix).concat("/")
        };
        let v1 = url_join(consul_address, "v1/");
        let kv = join_onto(v1, "kv/");
        match join_onto(kv, prefix.as_str()) {
            Some(kv_api_base_url) => Ok(
                ConsulClient { api_base_url: String::from_str(consul_address), kv_api_base_url },
            ),
            None => Err(ConsulError::InvalidUrl),
        }
    }

    /// The address that lists the registry's datacenters.
    pub fn datacenters_url(&self) -> (r: Option<String>)
        ensures
            text_of(r) == joined_url(self.api_base_url@, "v1/catalog/datacenters"@),
    {
        url_join(self.api_base_url.as_str(), "v1/catalog/datacenters")
    }

    /// The address under which all peer records of the datacenter `dc` are
    /// read.
    pub fn peers_url(&self, dc: &str) -> (r: Option<String>)
        ensures
            text_of(r) == peers_url_of(self.kv_api_base_url@, dc@),
    {
        let peers = url_join(self.kv_api_base_url.as_str(), "peers/");
        let recurse = pair_onto(peers, "recurse", "true");
        let with_dc = pair_onto(recurse, "dc", dc);
        pair_onto(with_dc, "stale", "1")
    }

    /// The address of the peer record of the node with the given public key.
    pub fn peer_url(&self, public_key: &PublicKey) -> (r: Option<String>)
        ensures
            text_of(r) == peer_url_of(self.kv_api_base_url@, public_key@),
    {
        let peers = url_join(self.kv_api_base_url.as_str(), "peers/");
        join_onto(peers, public_key.to_base64_urlsafe().as_str())
    }

    /// The address that renews the session `id`.
    pub fn session_renew_url(&self, id: &SessionId) -> (r: Option<String>)
        ensures
            text_of(r) == join_opt(
                joined_url(self.api_base_url@, "v1/session/renew/"@),
                uuid_text(id.value),
            ),
    {
        let base = url_join(self.api_base_url.as_str(), "v1/session/renew/");
        join_onto(base, id.to_text().as_str())
    }

    /// The address that destroys the session `id`.
    pub fn session_destroy_url(&self, id: &SessionId) -> (r: Option<String>)
        ensures
            text_of(r) == join_opt(
                joined_url(self.api_base_url@, "v1/session/destroy/"@),
                uuid_text(id.value),
            ),
    {
        let base = url_join(self.api_base_url.as_str(), "v1/session/destroy/");
        join_onto(base, id.to_text().as_str())
    }

    /// The request that opens the session of the node with the given public
    /// key: named after the key, living `ttl_secs` seconds without renewal,
    /// and deleting its keys when it ends.
    pub fn create_session(&self, public_key: &PublicKey, ttl_secs: u64) -> (r: Result<
        SessionRequest,
        ConsulError,
    >)
        ensures
            match r {
                Ok(req) => joined_url(self.api_base_url@, "v1/session/create"@) == Some(req.url@)
                    && ttl_secs <= MAX_SESSION_TTL && req.body.name@ == session_name(public_key@)
                    && req.body.behavior == SessionInvalidationBehavior::Delete && req.body.ttl
                    == SessionDuration::Seconds(ttl_secs as u32),
                Err(e) => if joined_url(self.api_base_url@, "v1/session/create"@) is None {
                    e == ConsulError::InvalidUrl
                } else {
                    e == ConsulError::SessionTooLong && ttl_secs > MAX_SESSION_TTL
                },
            },
    {
        let url = match url_join(self.api_base_url.as_str(), "v1/session/create") {
            Some(u) => u,
            None => {
                return Err(ConsulError::InvalidUrl);
            },
        };
        let ttl = match SessionDuration::try_from(ttl_secs) {
            Ok(t) => t,
            Err(e) => {
                return Err(e);
            },
        };
        let name = String::from_str("wiresmith-").concat(public_key.to_base64_urlsafe().as_str());
        Ok(
            SessionRequest {
                url,
                body: CreateSession { name, behavior: SessionInvalidationBehavior::Delete, ttl },
            },
        )
    }
}

/// Whether an HTTP status reports an error of the client or the server.
pub open spec fn is_error_status(status: u16) -> bool {
    400 <= status < 600
}

/// The registry's answer to a read of the peer records of one datacenter.
pub enum PeersResponse {
    /// The registry could not be reached.
    Unreachable,
    /// The registry answered. `records` holds the peer records of the
    /// answer's body, or `None` where the body could not be read.
    Answer { status: u16, records: Option<Vec<WgPeer>> },
}

/// The peer records that one datacenter holds, as its answer says: none
/// where the key prefix does not exist yet.
pub open spec fn dc_peers_of(response: PeersResponse) -> Result<Set<WgPeerView>, ConsulError> {
    match response {
        PeersResponse::Unreachable => Err(ConsulError::Transport),
        PeersResponse::Answer { status, records } => if status == 404 {
            Ok(Set::empty())
        } else if is_error_status(status) {
            Err(ConsulError::Status(status))
        } else {
            match records {
                None => Err(ConsulError::Decode),
                Some(v) => Ok(views(v@).to_set()),
            }
        },
    }
}

/// The views of the answers of the datacenters.
pub open spec fn result_views(results: Seq<Result<PeerSet, ConsulError>>) -> Seq<
    Result<Set<WgPeerView>, ConsulError>,
> {
    results.map_values(
        |r: Result<PeerSet, ConsulError>|
            match r {
                Ok(p) => Ok(p@),
                Err(e) => Err(e),
            },
    )
}

/// The peer records of all datacenters together, or the error of the first
/// datacenter that gave one.
pub open spec fn merged(results: Seq<Result<Set<WgPeerView>, ConsulError>>) -> Result<
    Set<WgPeerView>,
    ConsulError,
>
    decreases results.len(),
{
    if results.len() == 0 {
        Ok(Set::empty())
    } else {
        match merged(results.drop_last()) {
            Err(e) => Err(e),
            Ok(peers) => match results.last() {
                Err(e) => Err(e),
                Ok(more) => Ok(peers.union(more)),
            },
        }
    }
}

/// Once the answers up to some datacenter give an error, all of them
/// together give that error.
proof fn lemma_merged_error(results: Seq<Result<Set<WgPeerView>, ConsulError>>, n: int)
    requires
        0 <= n <= results.len(),
        merged(results.take(n)) is Err,
    ensures
        merged(results) == merged(results.take(n)),
    decreases results.len() - n,
{
    if n == results.len() {
        assert(results.take(n) =~= results);
    } else {
        assert(results.take(n + 1).drop_last() =~= results.take(n));
        lemma_merged_error(results, n + 1);
    }
}

/// Where every datacenter answered, the merged set holds every record of
/// every datacenter, and nothing else.
pub proof fn lemma_merged_contains(
    results: Seq<Result<Set<WgPeerView>, ConsulError>>,
    peer: WgPeerView,
)
    requires
        forall|k: int| 0 <= k < results.len() ==> (#[trigger] results[k]) is Ok,
    ensures
        merged(results) is Ok,
        merged(results)->Ok_0.contains(peer) <==> exists|k: int|
            0 <= k < results.len() && (#[trigger] results[k])->Ok_0.contains(peer),
    decreases results.len(),
{
    if results.len() > 0 {
        let rest = results.drop_last();
        assert forall|k: int| 0 <= k < rest.len() implies (#[trigger] rest[k]) is Ok by {
            assert(rest[k] == results[k]);
        }
        lemma_merged_contains(rest, peer);
        let last = results.len() - 1;
        if merged(results)->Ok_0.contains(peer) && !results[last]->Ok_0.contains(peer) {
            let k = choose|k: int|
                0 <= k < rest.len() && (#[trigger] rest[k])->Ok_0.contains(peer);
            assert(results[k] == rest[k]);
        }
        if exists|k: int| 0 <= k < results.len() && (#[trigger] results[k])->Ok_0.contains(peer) {
            let k = choose|k: int|
                0 <= k < results.len() && (#[trigger] results[k])->Ok_0.contains(peer);
            if k < last {
                assert(rest[k] == results[k]);
            }
        }
    }
}

/// The peer records that one datacenter holds, as its answer says.
pub fn dc_peers(response: PeersResponse) -> (r: Result<PeerSet, ConsulError>)
    ensures
        match r {
            Ok(peers) => dc_peers_of(response) == Ok::<Set<WgPeerView>, ConsulError>(peers@)
                && peers.wf(),
            Err(e) => dc_peers_of(response) == Err::<Set<WgPeerView>, ConsulError>(e),
        },
{
    match response {
        PeersResponse::Unreachable => Err(ConsulError::Transport),
        PeersResponse::Answer { status, records } => {
            if status == 404 {
                Ok(PeerSet::new())
            } else if status >= 400 && status < 600 {
                Err(ConsulError::Status(status))
            } else {
                match records {
                    None => Err(ConsulError::Decode),
                    Some(v) => Ok(PeerSet::from_vec(&v)),
                }
            }
        },
    }
}

impl ConsulClient {
    /// Merges the peer records of all datacenters, given in the order in
    /// which the registry lists the datacenters. One datacenter that failed
    /// fails the whole read.
    pub fn get_peers(results: &Vec<Result<PeerSet, ConsulError>>) -> (r: Result<
        PeerSet,
        ConsulError,
    >)
        ensures
            match r {
                Ok(peers) => merged(result_views(results@)) == Ok::<Set<WgPeerView>, ConsulError>(
                    peers@,
                ) && peers.wf(),
                Err(e) => merged(result_views(results@)) == Err::<Set<WgPeerView>, ConsulError>(e),
            },
    {
        let ghost all = result_views(results@);
        let mut peers = PeerSet::new();
        let mut i: usize = 0;
        while i < results.len()
            invariant
                i <= results.len(),
                all == result_views(results@),
                peers.wf(),
                merged(all.take(i as int)) == Ok::<Set<WgPeerView>, ConsulError>(peers@),
            decreases results.len() - i,
        {
            proof {
                assert(all.take(i + 1).drop_last() =~= all.take(i as int));
            }
            match &results[i] {
                Ok(more) => {
                    peers.extend(more);
                },
                Err(e) => {
                    proof {
                        lemma_merged_error(all, i + 1);
                    }
                    return Err(*e);
                },
            }
            i = i + 1;
        }
        proof {
            assert(all.take(i as int) =~= all);
        }
        Ok(peers)
    }
}

/// A session that the registry has opened for this node.
#[derive(Clone, Debug, PartialEq, Eq)]
pub struct ConsulSession {
    pub client: ConsulClient,
    pub id: SessionId,
}

/// Where the node's own record is written, and where it is read back.
#[derive(Debug, PartialEq, Eq)]
pub struct PutRequest {
    /// The address of the record.
    pub peer_url: String,
    /// The address of the record with the clause that acquires its lock.
    pub put_url: String,
}

/// The registry's answer to the write of the node's own record.
#[derive(Clone, Copy, Debug, PartialEq, Eq, Structural)]
pub enum PutResponse {
    /// The registry could not be reached.
    Unreachable,
    /// The registry answered. `acquired` holds the boolean of the answer's
    /// body, or `None` where the body could not be read.
    Answer { status: u16, acquired: Option<bool> },
}

/// What the answer to the write of the own record means: the write counts
/// only where the registry says that the lock was acquired.
pub open spec fn put_result_of(response: PutResponse) -> Result<(), ConsulError> {
    match response {
        PutResponse::Unreachable => Err(ConsulError::Transport),
        PutResponse::Answer { status, acquired } => if is_error_status(status) {
            Err(ConsulError::Status(status))
        } else {
            match acquired {
                None => Err(ConsulError::Decode),
                Some(false) => Err(ConsulError::LockContention),
                Some(true) => Ok(()),
            }
        },
    }
}

impl ConsulSession {
    /// The addresses for writing the record of `wgpeer` under this session's
    /// lock.
    pub fn put_request(&self, wgpeer: &WgPeer) -> (r: Result<PutRequest, ConsulError>)
        ensures
            match r {
                Ok(req) => peer_url_of(self.client.kv_api_base_url@, wgpeer@.public_key) == Some(
                    req.peer_url@,
                ) && put_url_of(req.peer_url@, self.id.value) == Some(req.put_url@),
                Err(e) => e == ConsulError::InvalidUrl && (peer_url_of(
                    self.client.kv_api_base_url@,
                    wgpeer@.public_key,
                ) matches Some(u) ==> put_url_of(u, self.id.value) is None),
            },
    {
        let peer_url = match self.client.peer_url(&wgpeer.public_key) {
            Some(u) => u,
            None => {
                return Err(ConsulError::InvalidUrl);
            },
        };
        match url_append_pair(peer_url.as_str(), "acquire", self.id.to_text().as_str()) {
            Some(put_url) => Ok(PutRequest { peer_url, put_url }),
            None => Err(ConsulError::InvalidUrl),
        }
    }

    /// What the registry's answer to the write of the own record means. An
    /// answer that the lock was not acquired is an error, not a success.
    pub fn put_config(response: PutResponse) -> (r: Result<(), ConsulError>)
        ensures
            r == put_result_of(response),
    {
        match response {
            PutResponse::Unreachable => Err(ConsulError::Transport),
            PutResponse::Answer { status, acquired } => {
                if status >= 400 && status < 600 {
                    Err(ConsulError::Status(status))
                } else {
                    match acquired {
                        None => Err(ConsulError::Decode),
                        Some(got_lock) => if got_lock {
                            Ok(())
                        } else {
                            Err(ConsulError::LockContention)
                        },
                    }
                }
            },
        }
    }
}

} // verus!
