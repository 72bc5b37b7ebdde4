use wiresmith::agent::{
    after_run, inner_loop, own_peer, own_record_missing, put_retry, put_retry_wait, reconcile,
    reconcile_cycle, AgentAction, AgentEvent, AgentState, PutDecision, RunEnd, Supervision,
    CONSUL_TTL, PUT_ATTEMPTS,
};
use wiresmith::consul::ConsulError;
use wiresmith::ip::{IpAddress, IpNetwork};
use wiresmith::keys::PrivateKey;
use wiresmith::networkd::NetworkdConfiguration;
use wiresmith::wireguard::PeerSet;

fn v4(a: u8, b: u8, c: u8, d: u8) -> IpAddress {
    IpAddress::V4(u32::from_be_bytes([a, b, c, d]))
}

fn network() -> IpNetwork {
    IpNetwork::parse("10.0.0.0/24").unwrap()
}

/// A node that joins the mesh against the records already in the registry.
fn join(n: u8, registry: &PeerSet) -> NetworkdConfiguration {
    NetworkdConfiguration::with_private_key(
        None,
        network(),
        51820,
        "wg0",
        registry.clone(),
        PrivateKey::new([n; 32]),
    )
    .unwrap()
}

#[test]
fn single_node_bootstrap() {
    let mut registry = PeerSet::new();
    let node = join(1, &registry);
    assert!(node.network_file().contains("Address=10.0.0.1/24"));
    let own = own_peer(&node, "192.168.0.1", 51820);
    assert_eq!(own.address.to_text(), "10.0.0.1/32");
    assert_eq!(own.endpoint, "192.168.0.1:51820");
    assert_eq!(own.public_key, node.public_key);
    assert!(network().contains_addr(&own.address.addr));
    registry.insert(own.clone());
    assert_eq!(registry.len(), 1);
    assert!(registry.get(0).same(&own));
}

#[test]
fn sequential_two_node_join() {
    let mut registry = PeerSet::new();
    let mut node1 = join(1, &registry);
    let own1 = own_peer(&node1, "192.168.0.1", 51820);
    registry.insert(own1.clone());

    let mut node2 = join(2, &registry);
    let own2 = own_peer(&node2, "192.168.0.2", 51820);
    registry.insert(own2.clone());

    assert_eq!(own1.address.to_text(), "10.0.0.1/32");
    assert_eq!(own2.address.to_text(), "10.0.0.2/32");
    assert_eq!(node2.wg_address.to_text(), "10.0.0.2/24");

    assert!(reconcile_cycle(&registry, &mut node1));
    assert!(!reconcile_cycle(&registry, &mut node2));
    assert_eq!(node1.peers.to_vec(), vec![own2.clone()]);
    assert_eq!(node2.peers.to_vec(), vec![own1.clone()]);
    assert_eq!(registry.len(), 2);
}

#[test]
fn three_node_join() {
    let mut registry = PeerSet::new();
    let mut nodes = Vec::new();
    let mut records = Vec::new();
    for n in 1..=3u8 {
        let node = join(n, &registry);
        let own = own_peer(&node, &format!("192.168.0.{n}"), 51820);
        registry.insert(own.clone());
        nodes.push(node);
        records.push(own);
    }
    assert_eq!(records[2].address.to_text(), "10.0.0.3/32");
    for (i, node) in nodes.iter_mut().enumerate() {
        reconcile_cycle(&registry, node);
        assert_eq!(node.peers.len(), 2);
        for (j, record) in records.iter().enumerate() {
            assert_eq!(node.peers.contains(record), i != j);
        }
    }
    // node b leaves: the survivors drop its record
    let survivors = registry.without_key(&records[1].public_key);
    assert!(reconcile_cycle(&survivors, &mut nodes[0]));
    assert_eq!(nodes[0].peers.to_vec(), vec![records[2].clone()]);
    assert!(reconcile_cycle(&survivors, &mut nodes[2]));
    assert_eq!(nodes[2].peers.to_vec(), vec![records[0].clone()]);
}

#[test]
fn reconcile_finds_additions_and_removals() {
    let mut registry = PeerSet::new();
    let node1 = join(1, &registry);
    let own1 = own_peer(&node1, "a", 51820);
    registry.insert(own1.clone());
    let node2 = join(2, &registry);
    let own2 = own_peer(&node2, "b", 51820);
    registry.insert(own2.clone());
    let node3 = join(3, &registry);
    let own3 = own_peer(&node3, "c", 51820);

    // node 2 knows node 1; the registry has lost node 1 and gained node 3
    let mut remote = PeerSet::new();
    remote.insert(own2.clone());
    remote.insert(own3.clone());
    let plan = reconcile(&remote, &node2);
    assert_eq!(plan.target.to_vec(), vec![own3.clone()]);
    assert_eq!(plan.additions.to_vec(), vec![own3.clone()]);
    assert_eq!(plan.removals.to_vec(), vec![own1.clone()]);
    assert!(plan.changed());
}

#[test]
fn second_cycle_against_an_unchanged_registry_changes_nothing() {
    let mut registry = PeerSet::new();
    let mut node1 = join(1, &registry);
    registry.insert(own_peer(&node1, "a", 51820));
    let node2 = join(2, &registry);
    registry.insert(own_peer(&node2, "b", 51820));

    assert!(reconcile_cycle(&registry, &mut node1));
    let netdev = node1.netdev_file(25);
    assert!(!reconcile_cycle(&registry, &mut node1));
    assert!(!reconcile(&registry, &node1).changed());
    assert_eq!(node1.netdev_file(25), netdev);
}

#[test]
fn own_record_is_left_out_of_the_local_peers() {
    let mut registry = PeerSet::new();
    let mut node1 = join(1, &registry);
    assert!(own_record_missing(&registry, &node1));
    registry.insert(own_peer(&node1, "a", 51820));
    assert!(!own_record_missing(&registry, &node1));
    assert!(!reconcile_cycle(&registry, &mut node1));
    assert!(node1.peers.is_empty());
}

#[test]
fn put_is_retried_until_the_fifth_failure() {
    assert_eq!(PUT_ATTEMPTS, 5);
    let mut failures = 0;
    for n in 1..=4 {
        let (f, decision) = put_retry(failures, Err(ConsulError::LockContention));
        assert_eq!((f, decision), (n, PutDecision::Retry));
        failures = f;
    }
    assert_eq!(put_retry(failures, Err(ConsulError::Transport)), (5, PutDecision::GiveUp));
    assert_eq!(put_retry(2, Ok(())), (2, PutDecision::Acquired));
    assert_eq!(put_retry(u32::MAX, Err(ConsulError::Transport)), (u32::MAX, PutDecision::GiveUp));
}

#[test]
fn put_waits_twice_the_session_lifetime() {
    assert_eq!(CONSUL_TTL, 15);
    assert_eq!(put_retry_wait(CONSUL_TTL), 30);
    assert_eq!(put_retry_wait(0), 0);
    assert_eq!(put_retry_wait(86400), 172800);
}

#[test]
fn a_run_from_start_to_clean_shutdown() {
    let steps = [
        (AgentEvent::SessionOpened, AgentState::Joining { failures: 0 }, AgentAction::PutRecord),
        (
            AgentEvent::PutFailed,
            AgentState::Joining { failures: 1 },
            AgentAction::WaitThenPutRecord,
        ),
        (AgentEvent::PutSucceeded, AgentState::Running, AgentAction::StartVerifierAndReconcile),
        (AgentEvent::CycleSucceeded { own_record: true }, AgentState::Running, AgentAction::Sleep),
        (AgentEvent::SleepElapsed, AgentState::Running, AgentAction::Reconcile),
        (AgentEvent::CycleSucceeded { own_record: true }, AgentState::Running, AgentAction::Sleep),
        (
            AgentEvent::Cancelled { by_signal: true },
            AgentState::StoppingVerifier { by_signal: true },
            AgentAction::CancelVerifier,
        ),
        (
            AgentEvent::VerifierStopped,
            AgentState::StoppingSession { by_signal: true },
            AgentAction::CancelSession,
        ),
        (AgentEvent::SessionStopped, AgentState::Done, AgentAction::ReturnOk),
        (AgentEvent::SleepElapsed, AgentState::Done, AgentAction::Ignore),
    ];
    let mut state = AgentState::Starting;
    for (event, next, action) in steps {
        let (s, a) = inner_loop(state, event);
        assert_eq!((s, a), (next, action));
        state = s;
    }
}

#[test]
fn a_run_ends_with_an_error_when_the_join_fails() {
    assert_eq!(
        inner_loop(AgentState::Starting, AgentEvent::SessionFailed),
        (AgentState::Done, AgentAction::ReturnErr)
    );
    let mut state = AgentState::Joining { failures: 0 };
    for _ in 0..4 {
        let (s, a) = inner_loop(state, AgentEvent::PutFailed);
        assert_eq!(a, AgentAction::WaitThenPutRecord);
        state = s;
    }
    assert_eq!(state, AgentState::Joining { failures: 4 });
    assert_eq!(
        inner_loop(state, AgentEvent::PutFailed),
        (AgentState::Done, AgentAction::ReturnErr)
    );
}

#[test]
fn errors_of_a_running_agent_end_the_run() {
    assert_eq!(
        inner_loop(AgentState::Running, AgentEvent::CycleFailed),
        (AgentState::Done, AgentAction::ReturnErr)
    );
    assert_eq!(
        inner_loop(AgentState::StoppingVerifier { by_signal: true }, AgentEvent::VerifierStopFailed),
        (AgentState::Done, AgentAction::ReturnErr)
    );
    assert_eq!(
        inner_loop(AgentState::StoppingSession { by_signal: false }, AgentEvent::SessionStopFailed),
        (AgentState::Done, AgentAction::ReturnErr)
    );
}

#[test]
fn a_lost_own_record_is_published_again() {
    assert_eq!(
        inner_loop(AgentState::Running, AgentEvent::CycleSucceeded { own_record: false }),
        (AgentState::Joining { failures: 0 }, AgentAction::PutRecord)
    );
}

#[test]
fn events_out_of_place_are_ignored() {
    assert_eq!(
        inner_loop(AgentState::Starting, AgentEvent::Cancelled { by_signal: true }),
        (AgentState::Starting, AgentAction::Ignore)
    );
    assert_eq!(
        inner_loop(AgentState::Running, AgentEvent::SessionStopped),
        (AgentState::Running, AgentAction::Ignore)
    );
    assert_eq!(
        inner_loop(AgentState::StoppingVerifier { by_signal: false }, AgentEvent::SessionStopped),
        (AgentState::StoppingVerifier { by_signal: false }, AgentAction::Ignore)
    );
    assert_eq!(v4(10, 0, 0, 1), IpAddress::V4(0x0a00_0001));
}

#[test]
fn a_lost_session_ends_the_agent_with_a_failure_status() {
    // the ownership verifier or the session supervisor cancelled the agent
    let (s, a) = inner_loop(AgentState::Running, AgentEvent::Cancelled { by_signal: false });
    assert_eq!(a, AgentAction::CancelVerifier);
    let (s, a) = inner_loop(s, AgentEvent::VerifierStopped);
    assert_eq!(a, AgentAction::CancelSession);
    let (s, a) = inner_loop(s, AgentEvent::SessionStopped);
    assert_eq!((s, a), (AgentState::Done, AgentAction::ReturnCancelled));
    assert_eq!(after_run(RunEnd::Cancelled), Supervision::Exit { status: 1 });
}

#[test]
fn a_join_can_be_cancelled_while_it_waits() {
    let (s, a) = inner_loop(
        AgentState::Joining { failures: 2 },
        AgentEvent::Cancelled { by_signal: true },
    );
    assert_eq!((s, a), (AgentState::StoppingVerifier { by_signal: true }, AgentAction::CancelVerifier));
}

#[test]
fn what_follows_a_run() {
    assert_eq!(after_run(RunEnd::Clean), Supervision::Exit { status: 0 });
    assert_eq!(after_run(RunEnd::Failed), Supervision::Restart);
}
