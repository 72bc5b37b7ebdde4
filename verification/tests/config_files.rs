use wiresmith::agent::own_peer;
use wiresmith::ip::{IpAddress, IpNetwork};
use wiresmith::keys::{PrivateKey, PublicKey};
use wiresmith::networkd::{
    address_from, listen_port_from, peer_from_fields, peer_section, private_key_from,
    ConfigError, NetworkdConfiguration,
};
use wiresmith::wireguard::{PeerSet, WgPeer};

fn v4(a: u8, b: u8, c: u8, d: u8) -> IpAddress {
    IpAddress::V4(u32::from_be_bytes([a, b, c, d]))
}

fn config(peers: PeerSet) -> NetworkdConfiguration {
    NetworkdConfiguration::with_private_key(
        Some(v4(10, 0, 0, 1)),
        IpNetwork::parse("10.0.0.0/24").unwrap(),
        51820,
        "wg0",
        peers,
        PrivateKey::new([1; 32]),
    )
    .unwrap()
}

fn peer(n: u8) -> WgPeer {
    WgPeer::new(PublicKey::new([n; 32]), &format!("node-{n}:51820"), v4(10, 0, 0, n))
}

const NETDEV: &str = "[NetDev]
Name=wg0
Kind=wireguard
Description=WireGuard client
MTUBytes=1280

[WireGuard]
ListenPort=51820
PrivateKey=AQEBAQEBAQEBAQEBAQEBAQEBAQEBAQEBAQEBAQEBAQE=
";

const NETWORK: &str = "[Match]
Name=wg0

[Network]
Address=10.0.0.1/24
";

#[test]
fn network_file_is_exact() {
    assert_eq!(config(PeerSet::new()).network_file(), NETWORK);
}

#[test]
fn netdev_file_without_peers_is_exact() {
    assert_eq!(config(PeerSet::new()).netdev_file(25), NETDEV);
}

#[test]
fn netdev_file_has_a_section_for_each_peer() {
    let peers = PeerSet::from_vec(&vec![peer(2), peer(3)]);
    let expected = format!(
        "{NETDEV}

[WireGuardPeer]
PublicKey=AgICAgICAgICAgICAgICAgICAgICAgICAgICAgICAgI=
Endpoint=node-2:51820
AllowedIPs=10.0.0.2/32
PersistentKeepalive=25

[WireGuardPeer]
PublicKey=AwMDAwMDAwMDAwMDAwMDAwMDAwMDAwMDAwMDAwMDAwM=
Endpoint=node-3:51820
AllowedIPs=10.0.0.3/32
PersistentKeepalive=25"
    );
    assert_eq!(config(peers).netdev_file(25), expected);
}

#[test]
fn both_files_are_written_together() {
    let peers = PeerSet::from_vec(&vec![peer(2)]);
    let c = config(peers);
    let files = c.write_config(25);
    assert_eq!(files.network, NETWORK);
    assert_eq!(files.netdev, c.netdev_file(25));
    assert_eq!(files.netdev_mode, 0o640);
    assert_eq!(files.netdev_group, "systemd-network");
    assert!(files.netdev.ends_with("AllowedIPs=10.0.0.2/32\nPersistentKeepalive=25"));
    assert!(c.is_wf());
}

#[test]
fn a_failed_restart_carries_the_output_and_the_journal() {
    assert_eq!(NetworkdConfiguration::restart(true, "", ""), Ok(()));
    assert_eq!(NetworkdConfiguration::restart(true, "warning", "noise"), Ok(()));
    assert_eq!(
        NetworkdConfiguration::restart(false, "unit failed", "line 1\nline 2"),
        Err("Failed to restart systemd-networkd: unit failed\njournalctl -xeu systemd-networkd: line 1\nline 2"
            .to_string())
    );
}

#[test]
fn a_configuration_with_a_foreign_public_key_is_not_well_formed() {
    let mut c = config(PeerSet::new());
    assert!(c.is_wf());
    c.public_key = PublicKey::new([9; 32]);
    assert!(!c.is_wf());
    let mut c = config(PeerSet::new());
    c.wg_address = IpNetwork { addr: v4(10, 0, 0, 1), prefix_len: 33 };
    assert!(!c.is_wf());
}

#[test]
fn keepalive_is_written_in_seconds() {
    assert_eq!(
        peer_section(&peer(2), 0),
        "\n\n[WireGuardPeer]\nPublicKey=AgICAgICAgICAgICAgICAgICAgICAgICAgICAgICAgI=\nEndpoint=node-2:51820\nAllowedIPs=10.0.0.2/32\nPersistentKeepalive=0"
    );
    assert!(peer_section(&peer(2), 120).ends_with("PersistentKeepalive=120"));
}

#[test]
fn written_files_are_read_back() {
    let peers = PeerSet::from_vec(&vec![peer(2), peer(3), peer(4)]);
    let written = config(peers);
    let read = NetworkdConfiguration::from_config(
        &written.netdev_file(25),
        &written.network_file(),
        "wg0",
    )
    .unwrap();
    assert_eq!(read.wg_address, written.wg_address);
    assert_eq!(read.wg_interface, "wg0");
    assert_eq!(read.wg_port, 51820);
    assert!(read.private_key == written.private_key);
    assert_eq!(read.public_key, written.public_key);
    assert!(read.peers.same(&written.peers));
    assert_eq!(read.peers.to_vec(), written.peers.to_vec());
}

#[test]
fn interface_name_comes_from_the_caller() {
    let read = NetworkdConfiguration::from_config(NETDEV, NETWORK, "wg7").unwrap();
    assert_eq!(read.wg_interface, "wg7");
    assert!(read.peers.is_empty());
    assert_eq!(read.public_key, PrivateKey::new([1; 32]).pubkey());
    let own = own_peer(&read, "192.168.0.1", 51820);
    assert_eq!(own.address.to_text(), "10.0.0.1/32");
}

fn read_error(netdev: &str, network: &str) -> ConfigError {
    match NetworkdConfiguration::from_config(netdev, network, "wg0") {
        Ok(_) => panic!("the files give a configuration"),
        Err(e) => e,
    }
}

#[test]
fn netdev_file_errors() {
    assert_eq!(read_error("[NetDev", NETWORK), ConfigError::NetdevUnreadable);
    assert_eq!(read_error("", NETWORK), ConfigError::MissingWireGuardSection);
    assert_eq!(read_error("[NetDev]\nName=wg0\n", NETWORK), ConfigError::MissingWireGuardSection);
    assert_eq!(
        read_error("[WireGuard]\nPrivateKey=AQEBAQEBAQEBAQEBAQEBAQEBAQEBAQEBAQEBAQEBAQE=\n", NETWORK),
        ConfigError::MissingListenPort
    );
    assert_eq!(
        read_error("[WireGuard]\nListenPort=70000\n", NETWORK),
        ConfigError::InvalidListenPort
    );
    assert_eq!(read_error("[WireGuard]\nListenPort=51820\n", NETWORK), ConfigError::MissingPrivateKey);
    assert_eq!(
        read_error("[WireGuard]\nListenPort=51820\nPrivateKey=secret\n", NETWORK),
        ConfigError::InvalidPrivateKey
    );
}

#[test]
fn peer_section_errors() {
    let key = "PublicKey=AgICAgICAgICAgICAgICAgICAgICAgICAgICAgICAgI=\n";
    let with = |section: &str| format!("{NETDEV}\n[WireGuardPeer]\n{section}");
    assert_eq!(
        read_error(&with("Endpoint=a:1\nAllowedIPs=10.0.0.2/32\n"), NETWORK),
        ConfigError::PeerMissingPublicKey
    );
    assert_eq!(
        read_error(&with(&format!("{key}AllowedIPs=10.0.0.2/32\n")), NETWORK),
        ConfigError::PeerMissingEndpoint
    );
    assert_eq!(
        read_error(&with(&format!("{key}Endpoint=a:1\n")), NETWORK),
        ConfigError::PeerMissingAllowedIps
    );
    assert_eq!(
        read_error(&with("PublicKey=AAAA\nEndpoint=a:1\nAllowedIPs=10.0.0.2/32\n"), NETWORK),
        ConfigError::PeerInvalidPublicKey
    );
    assert_eq!(
        read_error(&with(&format!("{key}Endpoint=a:1\nAllowedIPs=10.0.0.2\n")), NETWORK),
        ConfigError::PeerInvalidAllowedIps
    );
    // the first section that fails decides
    let two = format!(
        "{NETDEV}\n[WireGuardPeer]\n{key}Endpoint=a:1\n\n[WireGuardPeer]\nEndpoint=b:1\n"
    );
    assert_eq!(read_error(&two, NETWORK), ConfigError::PeerMissingAllowedIps);
}

#[test]
fn network_file_errors() {
    assert_eq!(read_error(NETDEV, "[Network"), ConfigError::NetworkUnreadable);
    assert_eq!(read_error(NETDEV, "[Match]\nName=wg0\n"), ConfigError::MissingNetworkSection);
    assert_eq!(read_error(NETDEV, "[Network]\nDNS=1.1.1.1\n"), ConfigError::MissingAddress);
    assert_eq!(read_error(NETDEV, "[Network]\nAddress=10.0.0.1\n"), ConfigError::InvalidAddress);
}

#[test]
fn netdev_errors_come_before_network_errors() {
    assert_eq!(read_error("", ""), ConfigError::MissingWireGuardSection);
    assert_eq!(read_error(NETDEV, ""), ConfigError::MissingNetworkSection);
}

#[test]
fn values_of_the_fields() {
    assert_eq!(listen_port_from(Some("51820".to_string())), Ok(51820));
    assert_eq!(listen_port_from(Some("wg".to_string())), Err(ConfigError::InvalidListenPort));
    assert_eq!(listen_port_from(None), Err(ConfigError::MissingListenPort));
    assert!(private_key_from(None) == Err(ConfigError::MissingPrivateKey));
    assert!(
        private_key_from(Some("AQEBAQEBAQEBAQEBAQEBAQEBAQEBAQEBAQEBAQEBAQE=".to_string()))
            == Ok(PrivateKey::new([1; 32]))
    );
    assert_eq!(
        address_from(Some("10.0.0.1/24".to_string())),
        Ok(IpNetwork { addr: v4(10, 0, 0, 1), prefix_len: 24 })
    );
    assert_eq!(address_from(Some("10.0.0.1/40".to_string())), Err(ConfigError::InvalidAddress));
    assert_eq!(address_from(None), Err(ConfigError::MissingAddress));
    assert_eq!(
        peer_from_fields(
            Some("AgICAgICAgICAgICAgICAgICAgICAgICAgICAgICAgI=".to_string()),
            Some("node-2:51820".to_string()),
            Some("10.0.0.2/32".to_string()),
        ),
        Ok(peer(2))
    );
    assert_eq!(peer_from_fields(None, None, None), Err(ConfigError::PeerMissingPublicKey));
}
