use wiresmith::consul::{
    dc_peers, ErrorKind, decode_value, ConsulClient, ConsulError, ConsulKvGet, ConsulSession, PeersResponse,
    PutResponse, SessionDuration, SessionId, SessionInvalidationBehavior, MAX_SESSION_TTL,
};
use wiresmith::ip::IpAddress;
use wiresmith::keys::PublicKey;
use wiresmith::wireguard::{PeerSet, WgPeer};

fn v4(a: u8, b: u8, c: u8, d: u8) -> IpAddress {
    IpAddress::V4(u32::from_be_bytes([a, b, c, d]))
}

fn peer(n: u8) -> WgPeer {
    WgPeer::new(PublicKey::new([n; 32]), &format!("node-{n}:51820"), v4(10, 0, 0, n))
}

fn client() -> ConsulClient {
    ConsulClient::new("http://127.0.0.1:8500", "wiresmith").unwrap()
}

#[test]
fn session_duration_is_bounded_by_a_day() {
    assert_eq!(SessionDuration::try_from(15), Ok(SessionDuration::Seconds(15)));
    assert_eq!(SessionDuration::try_from(0), Ok(SessionDuration::Seconds(0)));
    assert_eq!(SessionDuration::try_from(86400), Ok(SessionDuration::Seconds(86400)));
    assert_eq!(SessionDuration::try_from(86401), Err(ConsulError::SessionTooLong));
    assert_eq!(SessionDuration::try_from(u64::MAX), Err(ConsulError::SessionTooLong));
    assert_eq!(MAX_SESSION_TTL, 86400);
}

#[test]
fn session_duration_on_the_wire() {
    assert_eq!(SessionDuration::Seconds(15).to_wire(), "15s");
    assert_eq!(SessionDuration::Seconds(0).to_wire(), "0s");
    assert_eq!(SessionDuration::Seconds(86400).to_wire(), "86400s");
    assert_eq!(SessionInvalidationBehavior::Delete.to_wire(), "delete");
}

#[test]
fn key_prefix_gets_its_slash() {
    let without = ConsulClient::new("http://127.0.0.1:8500", "wiresmith").unwrap();
    let with = ConsulClient::new("http://127.0.0.1:8500", "wiresmith/").unwrap();
    assert_eq!(without.kv_api_base_url, "http://127.0.0.1:8500/v1/kv/wiresmith/");
    assert_eq!(with.kv_api_base_url, without.kv_api_base_url);
    assert_eq!(without.api_base_url, "http://127.0.0.1:8500");
    let nested = ConsulClient::new("http://consul.example:8500/", "mesh/a").unwrap();
    assert_eq!(nested.kv_api_base_url, "http://consul.example:8500/v1/kv/mesh/a/");
}

#[test]
fn an_address_that_is_no_url_is_refused() {
    assert_eq!(ConsulClient::new("not a url", "wiresmith"), Err(ConsulError::InvalidUrl));
    assert_eq!(ConsulClient::new("", "wiresmith"), Err(ConsulError::InvalidUrl));
}

#[test]
fn registry_addresses() {
    let c = client();
    assert_eq!(
        c.datacenters_url().unwrap(),
        "http://127.0.0.1:8500/v1/catalog/datacenters"
    );
    assert_eq!(
        c.peers_url("dc1").unwrap(),
        "http://127.0.0.1:8500/v1/kv/wiresmith/peers/?recurse=true&dc=dc1&stale=1"
    );
    assert_eq!(
        c.peers_url("a b&c").unwrap(),
        "http://127.0.0.1:8500/v1/kv/wiresmith/peers/?recurse=true&dc=a+b%26c&stale=1"
    );
    let key = PublicKey::new([0xfb; 32]);
    assert_eq!(
        c.peer_url(&key).unwrap(),
        "http://127.0.0.1:8500/v1/kv/wiresmith/peers/-_v7-_v7-_v7-_v7-_v7-_v7-_v7-_v7-_v7-_v7-_s="
    );
    let id = SessionId { value: 0x67e55044_10b1_426f_9247_bb680e5fe0c8 };
    assert_eq!(id.to_text(), "67e55044-10b1-426f-9247-bb680e5fe0c8");
    assert_eq!(
        c.session_renew_url(&id).unwrap(),
        "http://127.0.0.1:8500/v1/session/renew/67e55044-10b1-426f-9247-bb680e5fe0c8"
    );
    assert_eq!(
        c.session_destroy_url(&id).unwrap(),
        "http://127.0.0.1:8500/v1/session/destroy/67e55044-10b1-426f-9247-bb680e5fe0c8"
    );
}

#[test]
fn session_request_is_named_after_the_key() {
    let c = client();
    let key = PublicKey::new([0xfb; 32]);
    let request = c.create_session(&key, 15).unwrap();
    assert_eq!(request.url, "http://127.0.0.1:8500/v1/session/create");
    assert_eq!(
        request.body.name,
        "wiresmith--_v7-_v7-_v7-_v7-_v7-_v7-_v7-_v7-_v7-_v7-_s="
    );
    assert_eq!(request.body.behavior, SessionInvalidationBehavior::Delete);
    assert_eq!(request.body.ttl, SessionDuration::Seconds(15));
    assert_eq!(request.body.ttl.to_wire(), "15s");
    assert_eq!(c.create_session(&key, 86401), Err(ConsulError::SessionTooLong));
}

#[test]
fn own_record_is_written_with_an_acquire_clause() {
    let session = ConsulSession {
        client: client(),
        id: SessionId { value: 0x67e55044_10b1_426f_9247_bb680e5fe0c8 },
    };
    let request = session.put_request(&peer(1)).unwrap();
    assert_eq!(
        request.peer_url,
        "http://127.0.0.1:8500/v1/kv/wiresmith/peers/AQEBAQEBAQEBAQEBAQEBAQEBAQEBAQEBAQEBAQEBAQE="
    );
    assert_eq!(
        request.put_url,
        "http://127.0.0.1:8500/v1/kv/wiresmith/peers/AQEBAQEBAQEBAQEBAQEBAQEBAQEBAQEBAQEBAQEBAQE=?acquire=67e55044-10b1-426f-9247-bb680e5fe0c8"
    );
}

#[test]
fn a_put_counts_only_with_the_lock() {
    let ok = PutResponse::Answer { status: 200, acquired: Some(true) };
    let held = PutResponse::Answer { status: 200, acquired: Some(false) };
    let garbled = PutResponse::Answer { status: 200, acquired: None };
    let failed = PutResponse::Answer { status: 500, acquired: Some(true) };
    let denied = PutResponse::Answer { status: 403, acquired: None };
    assert_eq!(ConsulSession::put_config(ok), Ok(()));
    assert_eq!(ConsulSession::put_config(held), Err(ConsulError::LockContention));
    assert_eq!(ConsulSession::put_config(garbled), Err(ConsulError::Decode));
    assert_eq!(ConsulSession::put_config(failed), Err(ConsulError::Status(500)));
    assert_eq!(ConsulSession::put_config(denied), Err(ConsulError::Status(403)));
    assert_eq!(ConsulSession::put_config(PutResponse::Unreachable), Err(ConsulError::Transport));
}

#[test]
fn registry_values_are_base64() {
    let kv = ConsulKvGet {
        create_index: 10,
        flags: 0,
        key: "wiresmith/peers/abc".to_string(),
        lock_index: 1,
        modify_index: 12,
        value: "eyJhIjoxfQ==".to_string(),
    };
    assert_eq!(decode_value(&kv.value), Ok(b"{\"a\":1}".to_vec()));
    assert_eq!(decode_value(""), Ok(Vec::new()));
    assert_eq!(decode_value("eyJhIjoxfQ"), Err(ConsulError::Decode));
    assert_eq!(decode_value("%%%"), Err(ConsulError::Decode));
}

#[test]
fn a_missing_prefix_is_an_empty_datacenter() {
    let r = dc_peers(PeersResponse::Answer { status: 404, records: None }).unwrap();
    assert!(r.is_empty());
    let r = dc_peers(PeersResponse::Answer { status: 404, records: Some(vec![peer(1)]) }).unwrap();
    assert!(r.is_empty());
}

#[test]
fn answers_of_one_datacenter() {
    let r = dc_peers(PeersResponse::Answer { status: 200, records: Some(vec![peer(1), peer(2)]) })
        .unwrap();
    assert!(r.same(&PeerSet::from_vec(&vec![peer(2), peer(1)])));
    let r = dc_peers(PeersResponse::Answer { status: 200, records: Some(vec![]) }).unwrap();
    assert!(r.is_empty());
    assert_eq!(
        dc_peers(PeersResponse::Answer { status: 500, records: Some(vec![peer(1)]) }).unwrap_err(),
        ConsulError::Status(500)
    );
    assert_eq!(
        dc_peers(PeersResponse::Answer { status: 400, records: None }).unwrap_err(),
        ConsulError::Status(400)
    );
    assert_eq!(
        dc_peers(PeersResponse::Answer { status: 599, records: None }).unwrap_err(),
        ConsulError::Status(599)
    );
    assert_eq!(
        dc_peers(PeersResponse::Answer { status: 200, records: None }).unwrap_err(),
        ConsulError::Decode
    );
    assert_eq!(dc_peers(PeersResponse::Unreachable).unwrap_err(), ConsulError::Transport);
}

#[test]
fn federated_read_merges_all_datacenters() {
    let dc1 = PeerSet::from_vec(&vec![peer(1)]);
    let dc2 = PeerSet::from_vec(&vec![peer(2)]);
    let all = ConsulClient::get_peers(&vec![Ok(dc1), Ok(dc2)]).unwrap();
    assert_eq!(all.len(), 2);
    assert!(all.contains(&peer(1)));
    assert!(all.contains(&peer(2)));
}

#[test]
fn merged_read_holds_shared_records_once() {
    let dc1 = PeerSet::from_vec(&vec![peer(1), peer(2)]);
    let dc2 = PeerSet::from_vec(&vec![peer(2), peer(3)]);
    let all = ConsulClient::get_peers(&vec![Ok(dc1), Ok(PeerSet::new()), Ok(dc2)]).unwrap();
    assert!(all.same(&PeerSet::from_vec(&vec![peer(1), peer(2), peer(3)])));
    assert!(ConsulClient::get_peers(&vec![]).unwrap().is_empty());
}

#[test]
fn one_failed_datacenter_fails_the_read() {
    let dc1 = PeerSet::from_vec(&vec![peer(1)]);
    let r = ConsulClient::get_peers(&vec![
        Ok(dc1),
        Err(ConsulError::Status(500)),
        Err(ConsulError::Transport),
    ]);
    assert_eq!(r.unwrap_err(), ConsulError::Status(500));
}

#[test]
fn failures_by_kind() {
    assert_eq!(ConsulError::InvalidUrl.kind(), ErrorKind::Validation);
    assert_eq!(ConsulError::SessionTooLong.kind(), ErrorKind::Validation);
    assert_eq!(ConsulError::LockContention.kind(), ErrorKind::Contention);
    assert_eq!(ConsulError::Transport.kind(), ErrorKind::Transport);
    assert_eq!(ConsulError::Status(500).kind(), ErrorKind::Transport);
    assert_eq!(ConsulError::Decode.kind(), ErrorKind::Transport);
    assert_eq!(ConsulError::EmptyResponse.kind(), ErrorKind::Transport);
    assert_eq!(ConsulError::Unlocked.kind(), ErrorKind::Transport);
}
