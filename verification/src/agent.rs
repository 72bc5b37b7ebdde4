//! The agent's own decisions: what it publishes about itself, how it joins,
//! how it brings the local configuration in line with the registry, and in
//! which order it shuts down.

use crate::allocator::{allocated, lemma_allocated_address};
use crate::consul::ConsulError;
use crate::ip::{ip_address_text, ip_network_text, IpAddress, IpNetwork};
use crate::networkd::NetworkdConfiguration;
use crate::text::{decimal, decimal_text, text_of};
use crate::wireguard::{addresses_wf, has_key, without_key, PeerSet, WgPeer, WgPeerView};
use vstd::prelude::*;
use vstd::string::StringExecFns;

verus! {

/// The time, in seconds, that a session lives without renewal.
pub const CONSUL_TTL: u64 = 15;

/// How many times the agent tries to publish its own record before it gives
/// the join up.
pub const PUT_ATTEMPTS: u32 = 5;

/// What the agent says when the address asked for is outside the overlay
/// subnet.
pub open spec fn address_error_text(network: IpNetwork, address: IpAddress) -> Seq<char> {
    "Address "@ + ip_address_text(address) + " is not part of network "@ + ip_network_text(network)
}

/// Checks an address that was asked for against the overlay subnet. The
/// error names both.
pub fn validate_address(network: &IpNetwork, address: Option<IpAddress>) -> (r: Result<(), String>)
    requires
        network.wf(),
    ensures
        match address {
            Some(a) => if network.contains(a) {
                r is Ok
            } else {
                r matches Err(message) && message@ == address_error_text(*network, a)
            },
            None => r is Ok,
        },
{
    match address {
        Some(a) => {
            if network.contains_addr(&a) {
                Ok(())
            } else {
                let mut message = String::from_str("Address ");
                message.append(a.to_text().as_str());
                message.append(" is not part of network ");
                message.append(network.to_text().as_str());
                Err(message)
            }
        },
        None => Ok(()),
    }
}

/// Why the agent does not know under which address other nodes reach it.
#[derive(Clone, Copy, Debug, PartialEq, Eq, Structural)]
pub enum EndpointError {
    /// Neither an address nor an interface was given.
    Unspecified,
    /// The interface that was given has no address.
    NoAddressOnInterface,
}

/// The address under which other nodes reach this node: the one given, or
/// else the first address of the interface given.
pub open spec fn endpoint_address_of(
    endpoint_address: Option<Seq<char>>,
    interface_addresses: Option<Seq<String>>,
) -> Result<Seq<char>, EndpointError> {
    match endpoint_address {
        Some(a) => Ok(a),
        None => match interface_addresses {
            None => Err(EndpointError::Unspecified),
            Some(ips) => if ips.len() == 0 {
                Err(EndpointError::NoAddressOnInterface)
            } else {
                Ok(ips[0]@)
            },
        },
    }
}

/// The address under which other nodes reach this node. `interface_addresses`
/// holds the addresses of the endpoint interface, if one was given.
pub fn endpoint_address(
    address: Option<String>,
    interface_addresses: Option<Vec<String>>,
) -> (r: Result<String, EndpointError>)
    ensures
        match r {
            Ok(a) => endpoint_address_of(
                text_of(address),
                match interface_addresses {
                    Some(v) => Some(v@),
                    None => None,
                },
            ) == Ok::<Seq<char>, EndpointError>(a@),
            Err(e) => endpoint_address_of(
                text_of(address),
                match interface_addresses {
                    Some(v) => Some(v@),
                    None => None,
                },
            ) == Err::<Seq<char>, EndpointError>(e),
        },
{
    match address {
        Some(a) => Ok(a),
        None => match interface_addresses {
            None => Err(EndpointError::Unspecified),
            Some(ips) => {
                if ips.len() == 0 {
                    Err(EndpointError::NoAddressOnInterface)
                } else {
                    Ok(ips[0].clone())
                }
            },
        },
    }
}

/// The record that a node publishes about itself.
pub open spec fn own_record(
    public_key: Seq<u8>,
    endpoint_address: Seq<char>,
    wg_port: u16,
    wg_address: IpNetwork,
) -> WgPeerView {
    WgPeerView {
        public_key,
        endpoint: endpoint_address + ":"@ + decimal_text(wg_port as nat),
        address: IpNetwork::single(wg_address.addr),
    }
}

/// The record that the node with the given configuration publishes about
/// itself: its public key, its endpoint address with the WireGuard port,
/// and its tunnel address as a single host.
pub fn own_peer(config: &NetworkdConfiguration, endpoint_address: &str, wg_port: u16) -> (r: WgPeer)
    ensures
        r@ == own_record(config.public_key@, endpoint_address@, wg_port, config.wg_address),
        r.address.wf(),
{
    let mut endpoint = String::from_str(endpoint_address);
    endpoint.append(":");
    endpoint.append(decimal(wg_port as u64).as_str());
    WgPeer::new(config.public_key, endpoint.as_str(), config.wg_address.addr)
}

/// What the agent does after an attempt to publish its own record.
#[derive(Clone, Copy, Debug, PartialEq, Eq, Structural)]
pub enum PutDecision {
    /// The record is published under the session's lock.
    Acquired,
    /// Wait, then try again.
    Retry,
    /// Give the join up.
    GiveUp,
}

/// The number of failed attempts once one more has failed.
pub open spec fn one_more_failure(failures: u32) -> u32 {
    if failures < u32::MAX {
        (failures + 1) as u32
    } else {
        failures
    }
}

/// The agent's decision after an attempt to publish its own record: a
/// failed attempt is repeated until the fifth has failed.
pub open spec fn put_decision(failures: u32, published: Result<(), ConsulError>) -> (
    u32,
    PutDecision,
) {
    match published {
        Ok(_) => (failures, PutDecision::Acquired),
        Err(_) => (
            one_more_failure(failures),
            if one_more_failure(failures) >= PUT_ATTEMPTS {
                PutDecision::GiveUp
            } else {
                PutDecision::Retry
            },
        ),
    }
}

/// Decides what to do after an attempt to publish the own record, from the
/// number of attempts that failed before and the outcome of this one.
pub fn put_retry(failures: u32, published: Result<(), ConsulError>) -> (r: (u32, PutDecision))
    ensures
        r == put_decision(failures, published),
{
    match published {
        Ok(_) => (failures, PutDecision::Acquired),
        Err(_) => {
            let failed: u32 = if failures < u32::MAX {
                failures + 1
            } else {
                failures
            };
            if failed >= PUT_ATTEMPTS {
                (failed, PutDecision::GiveUp)
            } else {
                (failed, PutDecision::Retry)
            }
        },
    }
}

/// The time to wait between two attempts to publish the own record, in
/// seconds: twice the session's lifetime, after which a session left over
/// from an earlier run has expired and its lock is free.
pub fn put_retry_wait(ttl_secs: u64) -> (r: u64)
    requires
        ttl_secs <= crate::consul::MAX_SESSION_TTL,
    ensures
        r == 2 * ttl_secs,
{
    2 * ttl_secs
}

/// The time that a join has waited in all once `failures` attempts have
/// failed, in seconds: the first attempt is made at once.
pub open spec fn join_wait(failures: nat, ttl_secs: nat) -> nat {
    if failures == 0 {
        0
    } else {
        (failures - 1) as nat * (2 * ttl_secs)
    }
}

/// A join that is given up has waited less than five times twice the
/// session's lifetime.
pub proof fn lemma_join_wait_bound(failures: nat, ttl_secs: nat)
    requires
        failures <= PUT_ATTEMPTS,
    ensures
        join_wait(failures, ttl_secs) <= PUT_ATTEMPTS * (2 * ttl_secs),
{
    if failures > 0 {
        assert((failures - 1) * (2 * ttl_secs) <= 5 * (2 * ttl_secs)) by (nonlinear_arith)
            requires
                0 < failures <= 5,
        ;
    }
}

/// The outcome of `n` failed attempts in a row.
pub open spec fn failed_attempts(n: nat, error: ConsulError) -> (u32, PutDecision)
    decreases n,
{
    if n == 0 {
        (0, PutDecision::Retry)
    } else {
        put_decision(failed_attempts((n - 1) as nat, error).0, Err(error))
    }
}

/// The join is given up on the fifth failed attempt and not before.
pub proof fn lemma_fifth_attempt_gives_up(n: nat, error: ConsulError)
    requires
        n <= PUT_ATTEMPTS,
    ensures
        failed_attempts(n, error).0 == n,
        failed_attempts(n, error).1 == PutDecision::GiveUp <==> n == PUT_ATTEMPTS,
    decreases n,
{
    if n > 0 {
        lemma_fifth_attempt_gives_up((n - 1) as nat, error);
    }
}

/// Whether the registry no longer holds a record of this node, so that the
/// node has to publish itself again.
pub fn own_record_missing(remote: &PeerSet, config: &NetworkdConfiguration) -> (r: bool)
    ensures
        r == !has_key(remote@, config.public_key@),
{
    !remote.contains_key(&config.public_key)
}

/// What one reconciliation found.
pub struct ReconcilePlan {
    /// The records that the local configuration is to hold: those of the
    /// registry without the node's own.
    pub target: PeerSet,
    /// The records of the target that the local configuration lacks.
    pub additions: PeerSet,
    /// The records of the local configuration that the target lacks.
    pub removals: PeerSet,
}

impl ReconcilePlan {
    /// Whether the local configuration has to be written anew.
    pub open spec fn changes(&self) -> bool {
        self.additions@ != Set::<WgPeerView>::empty() || self.removals@ != Set::<
            WgPeerView,
        >::empty()
    }

    /// Whether the local configuration has to be written anew and the
    /// interface restarted: so where a record is to be added or removed.
    pub fn changed(&self) -> (r: bool)
        requires
            self.additions.wf(),
            self.removals.wf(),
        ensures
            r == self.changes(),
    {
        !self.additions.is_empty() || !self.removals.is_empty()
    }
}

/// Compares the registry's records with the local configuration.
pub fn reconcile(remote: &PeerSet, config: &NetworkdConfiguration) -> (plan: ReconcilePlan)
    ensures
        plan.target@ == without_key(remote@, config.public_key@),
        plan.additions@ == plan.target@.difference(config.peers@),
        plan.removals@ == config.peers@.difference(plan.target@),
        plan.target.wf(),
        plan.additions.wf(),
        plan.removals.wf(),
        plan.changes() <==> config.peers@ != plan.target@,
{
    let target = remote.without_key(&config.public_key);
    let additions = target.difference(&config.peers);
    let removals = config.peers.difference(&target);
    proof {
        lemma_difference_empty(target@, config.peers@);
    }
    ReconcilePlan { target, additions, removals }
}

/// Two sets are equal exactly when neither holds something that the other
/// lacks.
pub proof fn lemma_difference_empty(a: Set<WgPeerView>, b: Set<WgPeerView>)
    ensures
        (a.difference(b) == Set::<WgPeerView>::empty() && b.difference(a) == Set::<
            WgPeerView,
        >::empty()) <==> a == b,
{
    if a == b {
        assert(b.difference(a) =~= Set::<WgPeerView>::empty());
    }
    if a.difference(b) == Set::<WgPeerView>::empty() && b.difference(a) == Set::<
        WgPeerView,
    >::empty() {
        assert forall|p: WgPeerView| a.contains(p) <==> b.contains(p) by {
            if a.contains(p) && !b.contains(p) {
                assert(a.difference(b).contains(p));
            }
            if b.contains(p) && !a.contains(p) {
                assert(b.difference(a).contains(p));
            }
        }
        assert(a =~= b);
    }
}

/// The peers that the local configuration holds after a reconciliation
/// against the records `remote`: those records without the node's own.
pub open spec fn peers_after(remote: Set<WgPeerView>, own_key: Seq<u8>) -> Set<WgPeerView> {
    without_key(remote, own_key)
}

/// Whether a reconciliation against the records `remote` has the local
/// configuration written anew and the interface restarted.
pub open spec fn needs_write(
    remote: Set<WgPeerView>,
    local: Set<WgPeerView>,
    own_key: Seq<u8>,
) -> bool {
    local != peers_after(remote, own_key)
}

/// One reconciliation: brings the peers of the local configuration in line
/// with the registry's records, the node's own record left out. Returns
/// whether the configuration changed, so that its files have to be written
/// and the interface restarted.
pub fn reconcile_cycle(remote: &PeerSet, config: &mut NetworkdConfiguration) -> (changed: bool)
    requires
        old(config).wf(),
        addresses_wf(remote@),
    ensures
        final(config).peers@ == peers_after(remote@, old(config).public_key@),
        changed == needs_write(remote@, old(config).peers@, old(config).public_key@),
        final(config).wf(),
        final(config).wg_address == old(config).wg_address,
        final(config).wg_interface == old(config).wg_interface,
        final(config).wg_port == old(config).wg_port,
        final(config).private_key == old(config).private_key,
        final(config).public_key == old(config).public_key,
        !changed ==> *final(config) == *old(config),
{
    let plan = reconcile(remote, config);
    if plan.changed() {
        config.peers = plan.target;
        true
    } else {
        false
    }
}

/// After a reconciliation the local peers are the registry's records
/// without the node's own, whatever they were before, so that a second
/// reconciliation against the same records writes nothing.
pub proof fn lemma_reconcile_settles(
    remote: Set<WgPeerView>,
    local: Set<WgPeerView>,
    own_key: Seq<u8>,
)
    ensures
        !has_key(peers_after(remote, own_key), own_key),
        forall|p: WgPeerView|
            peers_after(remote, own_key).contains(p) <==> remote.contains(p) && p.public_key
                != own_key,
        !needs_write(remote, peers_after(remote, own_key), own_key),
        needs_write(remote, local, own_key) <==> local != peers_after(remote, own_key),
{
}

/// Where the agent stands in one run.
#[derive(Clone, Copy, Debug, PartialEq, Eq, Structural)]
pub enum AgentState {
    /// The session is being opened.
    Starting,
    /// The own record is being published; `failures` attempts have failed.
    Joining { failures: u32 },
    /// The own record is published and the agent reconciles periodically.
    Running,
    /// The agent shuts down and waits for the ownership verifier to end.
    /// `by_signal` says whether a signal asked for the shutdown, and not one
    /// of the agent's own tasks.
    StoppingVerifier { by_signal: bool },
    /// The agent shuts down and waits for the session supervisor to end.
    StoppingSession { by_signal: bool },
    /// The run has ended.
    Done,
}

/// What happened to the agent.
#[derive(Clone, Copy, Debug, PartialEq, Eq, Structural)]
pub enum AgentEvent {
    SessionOpened,
    SessionFailed,
    /// The own record is published under the session's lock.
    PutSucceeded,
    PutFailed,
    /// A reconciliation ended without error. `own_record` says whether the
    /// registry still held the node's own record.
    CycleSucceeded { own_record: bool },
    CycleFailed,
    /// The update period has passed.
    SleepElapsed,
    /// The agent was cancelled: by a signal, or else by the session
    /// supervisor or the ownership verifier.
    Cancelled { by_signal: bool },
    VerifierStopped,
    VerifierStopFailed,
    SessionStopped,
    SessionStopFailed,
}

/// What the agent does next.
#[derive(Clone, Copy, Debug, PartialEq, Eq, Structural)]
pub enum AgentAction {
    /// Publish the own record now.
    PutRecord,
    /// Wait twice the session's lifetime, unless cancelled first, then
    /// publish the own record.
    WaitThenPutRecord,
    /// Start the ownership verifier on the record just published, then
    /// reconcile.
    StartVerifierAndReconcile,
    Reconcile,
    /// Sleep for the update period, unless cancelled first.
    Sleep,
    CancelVerifier,
    CancelSession,
    /// End the run after a shutdown that a signal asked for.
    ReturnOk,
    /// End the run after a shutdown that one of the agent's own tasks asked
    /// for: the session or the lock on the own record is lost.
    ReturnCancelled,
    /// End the run with an error.
    ReturnErr,
    /// Nothing: the event does not belong to the state.
    Ignore,
}

/// The agent's transitions in one run.
pub open spec fn agent_transition(state: AgentState, event: AgentEvent) -> (
    AgentState,
    AgentAction,
) {
    match (state, event) {
        (AgentState::Starting, AgentEvent::SessionOpened) => (
            AgentState::Joining { failures: 0 },
            AgentAction::PutRecord,
        ),
        (AgentState::Starting, AgentEvent::SessionFailed) => (
            AgentState::Done,
            AgentAction::ReturnErr,
        ),
        (AgentState::Joining { failures }, AgentEvent::PutSucceeded) => (
            AgentState::Running,
            AgentAction::StartVerifierAndReconcile,
        ),
        (AgentState::Joining { failures }, AgentEvent::PutFailed) => if one_more_failure(failures)
            >= PUT_ATTEMPTS {
            (AgentState::Done, AgentAction::ReturnErr)
        } else {
            (
                AgentState::Joining { failures: one_more_failure(failures) },
                AgentAction::WaitThenPutRecord,
            )
        },
        (AgentState::Joining { failures }, AgentEvent::Cancelled { by_signal }) => (
            AgentState::StoppingVerifier { by_signal },
            AgentAction::CancelVerifier,
        ),
        (AgentState::Running, AgentEvent::CycleSucceeded { own_record }) => if own_record {
            (AgentState::Running, AgentAction::Sleep)
        } else {
            (AgentState::Joining { failures: 0 }, AgentAction::PutRecord)
        },
        (AgentState::Running, AgentEvent::CycleFailed) => (
            AgentState::Done,
            AgentAction::ReturnErr,
        ),
        (AgentState::Running, AgentEvent::SleepElapsed) => (
            AgentState::Running,
            AgentAction::Reconcile,
        ),
        (AgentState::Running, AgentEvent::Cancelled { by_signal }) => (
            AgentState::StoppingVerifier { by_signal },
            AgentAction::CancelVerifier,
        ),
        (AgentState::StoppingVerifier { by_signal }, AgentEvent::VerifierStopped) => (
            AgentState::StoppingSession { by_signal },
            AgentAction::CancelSession,
        ),
        (AgentState::StoppingVerifier { by_signal }, AgentEvent::VerifierStopFailed) => (
            AgentState::Done,
            AgentAction::ReturnErr,
        ),
        (AgentState::StoppingSession { by_signal }, AgentEvent::SessionStopped) => (
            AgentState::Done,
            if by_signal {
                AgentAction::ReturnOk
            } else {
                AgentAction::ReturnCancelled
            },
        ),
        (AgentState::StoppingSession { by_signal }, AgentEvent::SessionStopFailed) => (
            AgentState::Done,
            AgentAction::ReturnErr,
        ),
        _ => (state, AgentAction::Ignore),
    }
}

/// One step of the agent's run: from where the agent stands and what has
/// happened to where it stands next and what it does.
pub fn inner_loop(state: AgentState, event: AgentEvent) -> (r: (AgentState, AgentAction))
    ensures
        r == agent_transition(state, event),
{
    match state {
        AgentState::Starting => match event {
            AgentEvent::SessionOpened => (
                AgentState::Joining { failures: 0 },
                AgentAction::PutRecord,
            ),
            AgentEvent::SessionFailed => (AgentState::Done, AgentAction::ReturnErr),
            _ => (state, AgentAction::Ignore),
        },
        AgentState::Joining { failures } => match event {
            AgentEvent::PutSucceeded => (
                AgentState::Running,
                AgentAction::StartVerifierAndReconcile,
            ),
            AgentEvent::PutFailed => {
                match put_retry(failures, Err(ConsulError::LockContention)) {
                    (_, PutDecision::GiveUp) => (AgentState::Done, AgentAction::ReturnErr),
                    (failed, _) => (
                        AgentState::Joining { failures: failed },
                        AgentAction::WaitThenPutRecord,
                    ),
                }
            },
            AgentEvent::Cancelled { by_signal } => (
                AgentState::StoppingVerifier { by_signal },
                AgentAction::CancelVerifier,
            ),
            _ => (state, AgentAction::Ignore),
        },
        AgentState::Running => match event {
            AgentEvent::CycleSucceeded { own_record } => {
                if own_record {
                    (AgentState::Running, AgentAction::Sleep)
                } else {
                    (AgentState::Joining { failures: 0 }, AgentAction::PutRecord)
                }
            },
            AgentEvent::CycleFailed => (AgentState::Done, AgentAction::ReturnErr),
            AgentEvent::SleepElapsed => (AgentState::Running, AgentAction::Reconcile),
            AgentEvent::Cancelled { by_signal } => (
                AgentState::StoppingVerifier { by_signal },
                AgentAction::CancelVerifier,
            ),
            _ => (state, AgentAction::Ignore),
        },
        AgentState::StoppingVerifier { by_signal } => match event {
            AgentEvent::VerifierStopped => (
                AgentState::StoppingSession { by_signal },
                AgentAction::CancelSession,
            ),
            AgentEvent::VerifierStopFailed => (AgentState::Done, AgentAction::ReturnErr),
            _ => (state, AgentAction::Ignore),
        },
        AgentState::StoppingSession { by_signal } => match event {
            AgentEvent::SessionStopped => {
                if by_signal {
                    (AgentState::Done, AgentAction::ReturnOk)
                } else {
                    (AgentState::Done, AgentAction::ReturnCancelled)
                }
            },
            AgentEvent::SessionStopFailed => (AgentState::Done, AgentAction::ReturnErr),
            _ => (state, AgentAction::Ignore),
        },
        AgentState::Done => (state, AgentAction::Ignore),
    }
}

/// The order of shutdown: the ownership verifier is cancelled first, when
/// the agent is cancelled; the session is cancelled only once the verifier
/// has ended; and the run ends without error only once the session
/// supervisor has ended too.
pub proof fn lemma_shutdown_order(state: AgentState, event: AgentEvent)
    ensures
        agent_transition(state, event).1 == AgentAction::CancelVerifier <==> (state
            == AgentState::Running || state is Joining) && event is Cancelled,
        agent_transition(state, event).1 == AgentAction::CancelSession <==> state is StoppingVerifier
            && event == AgentEvent::VerifierStopped,
        agent_transition(state, event).1 == AgentAction::ReturnOk
            || agent_transition(state, event).1 == AgentAction::ReturnCancelled
            <==> state is StoppingSession && event == AgentEvent::SessionStopped,
{
}

/// A run ends as a clean shutdown only where a signal asked for it: a
/// shutdown that the session supervisor or the ownership verifier asked for
/// ends the run as cancelled.
pub proof fn lemma_clean_shutdown_needs_signal(
    state: AgentState,
    by_signal: bool,
)
    requires
        state == AgentState::Running || state is Joining,
    ensures
        ({
            let stopping = agent_transition(state, AgentEvent::Cancelled { by_signal }).0;
            let waiting = agent_transition(stopping, AgentEvent::VerifierStopped).0;
            let end = agent_transition(waiting, AgentEvent::SessionStopped);
            &&& end.0 == AgentState::Done
            &&& end.1 == (if by_signal {
                AgentAction::ReturnOk
            } else {
                AgentAction::ReturnCancelled
            })
        }),
{
}

/// The agent reconciles only while its own record is published: every
/// reconciliation follows a successful put, directly or after a sleep.
pub proof fn lemma_reconcile_after_put(state: AgentState, event: AgentEvent)
    ensures
        agent_transition(state, event).1 == AgentAction::StartVerifierAndReconcile <==> state is Joining
            && event == AgentEvent::PutSucceeded,
        agent_transition(state, event).1 == AgentAction::Reconcile <==> state == AgentState::Running
            && event == AgentEvent::SleepElapsed,
        agent_transition(state, event).0 == AgentState::Running ==> state == AgentState::Running
            || (state is Joining && event == AgentEvent::PutSucceeded),
{
}

/// How a run of the agent ended.
#[derive(Clone, Copy, Debug, PartialEq, Eq, Structural)]
pub enum RunEnd {
    /// A signal asked the agent to shut down, and it did.
    Clean,
    /// The session or the lock on the own record was lost.
    Cancelled,
    /// The run failed.
    Failed,
}

/// What the process does once a run has ended.
#[derive(Clone, Copy, Debug, PartialEq, Eq, Structural)]
pub enum Supervision {
    /// Exit with the given status.
    Exit { status: u8 },
    /// Start another run.
    Restart,
}

/// Decides what the process does once a run has ended: it exits with status
/// zero after a clean shutdown, exits with a status other than zero when
/// the session or the lock was lost, and starts another run after a failure.
pub fn after_run(end: RunEnd) -> (r: Supervision)
    ensures
        r == match end {
            RunEnd::Clean => Supervision::Exit { status: 0 },
            RunEnd::Cancelled => Supervision::Exit { status: 1 },
            RunEnd::Failed => Supervision::Restart,
        },
{
    match end {
        RunEnd::Clean => Supervision::Exit { status: 0 },
        RunEnd::Cancelled => Supervision::Exit { status: 1 },
        RunEnd::Failed => Supervision::Restart,
    }
}

/// The record that a node publishes once allocation has settled its address
/// carries the node's key, and its address is a single host inside the
/// overlay subnet.
pub proof fn lemma_own_record(
    network: IpNetwork,
    peers: Set<WgPeerView>,
    address: Option<IpAddress>,
    public_key: Seq<u8>,
    endpoint_address: Seq<char>,
    wg_port: u16,
)
    requires
        network.wf(),
        allocated(network, peers, address) is Ok,
    ensures
        ({
            let wg_address = IpNetwork {
                addr: allocated(network, peers, address)->Ok_0,
                prefix_len: network.prefix_len,
            };
            let own = own_record(public_key, endpoint_address, wg_port, wg_address);
            &&& own.public_key == public_key
            &&& own.address.wf()
            &&& own.address.prefix_len == own.address.addr.width()
            &&& network.contains(own.address.addr)
            &&& address is None ==> !crate::wireguard::has_address(peers, own.address.addr)
        }),
{
    lemma_allocated_address(network, peers, address);
}

} // verus!
