//! The local interface configuration of a node, and the two files that
//! describe its WireGuard interface.

use crate::allocator::{allocate_address, allocated, AddressError};
use crate::inifile::{
    field, ini_section, ini_section_all, ini_sections, load_ini, occurrences, parsed_ini,
    properties, property_get, Props, Sections,
};
use crate::ip::{ip_network_text, parsed_ip_network, IpAddress, IpNetwork};
use crate::keys::{
    derived_public_key, private_key_from_text, private_key_text, public_key_from_base64,
    public_key_text, PrivateKey, PublicKey,
};
use crate::text::{decimal, decimal_text, parse_u16, parsed_u16, text_of};
use crate::wireguard::{addresses_wf, views, PeerSet, WgPeer, WgPeerView};
use vstd::prelude::*;
use vstd::string::StringExecFns;

verus! {

/// The installed state of the WireGuard interface of a node.
pub struct NetworkdConfiguration {
    /// The node's tunnel address, with the prefix of the overlay subnet.
    pub wg_address: IpNetwork,
    pub wg_interface: String,
    pub wg_port: u16,
    /// The records of the other nodes.
    pub peers: PeerSet,
    pub private_key: PrivateKey,
    pub public_key: PublicKey,
}

/// The text of the `.network` file of an interface.
pub open spec fn network_file_text(wg_interface: Seq<char>, wg_address: IpNetwork) -> Seq<char> {
    "[Match]\nName="@ + wg_interface + "\n\n[Network]\nAddress="@ + ip_network_text(wg_address)
        + "\n"@
}

/// The text of the `.netdev` file of an interface up to its first peer.
pub open spec fn netdev_head_text(
    wg_interface: Seq<char>,
    wg_port: u16,
    private_key: Seq<u8>,
) -> Seq<char> {
    "[NetDev]\nName="@ + wg_interface
        + "\nKind=wireguard\nDescription=WireGuard client\nMTUBytes=1280\n\n[WireGuard]\nListenPort="@
        + decimal_text(wg_port as nat) + "\nPrivateKey="@ + private_key_text(private_key) + "\n"@
}

/// What the agent says when the network service did not restart.
pub open spec fn restart_error_text(stderr: Seq<char>, journal: Seq<char>) -> Seq<char> {
    "Failed to restart systemd-networkd: "@ + stderr + "\njournalctl -xeu systemd-networkd: "@
        + journal
}

/// The permission bits of the `.netdev` file: the owner reads and writes,
/// the group reads, nobody else does.
pub const NETDEV_MODE: u32 = 0o640;

/// The two files that describe an interface.
#[derive(Debug, PartialEq, Eq)]
pub struct ConfigFiles {
    /// The text of the `.network` file.
    pub network: String,
    /// The text of the `.netdev` file, which holds the private key.
    pub netdev: String,
    /// The permission bits that the `.netdev` file is to have.
    pub netdev_mode: u32,
    /// The group that the `.netdev` file is to belong to.
    pub netdev_group: String,
}

/// The section of the `.netdev` file for one peer.
pub open spec fn peer_section_text(peer: WgPeerView, keepalive: u64) -> Seq<char> {
    "\n\n[WireGuardPeer]\nPublicKey="@ + public_key_text(peer.public_key) + "\nEndpoint="@
        + peer.endpoint + "\nAllowedIPs="@ + ip_network_text(peer.address)
        + "\nPersistentKeepalive="@ + decimal_text(keepalive as nat)
}

/// The sections of the `.netdev` file for a list of peers, in order.
pub open spec fn peer_sections_text(peers: Seq<WgPeerView>, keepalive: u64) -> Seq<char>
    decreases peers.len(),
{
    if peers.len() == 0 {
        Seq::empty()
    } else {
        peer_sections_text(peers.drop_last(), keepalive) + peer_section_text(
            peers.last(),
            keepalive,
        )
    }
}

/// The section of the `.netdev` file for one peer.
pub fn peer_section(peer: &WgPeer, keepalive: u64) -> (r: String)
    requires
        peer.address.wf(),
    ensures
        r@ == peer_section_text(peer@, keepalive),
{
    let mut out = String::from_str("\n\n[WireGuardPeer]\nPublicKey=");
    out.append(peer.public_key.to_base64().as_str());
    out.append("\nEndpoint=");
    out.append(peer.endpoint.as_str());
    out.append("\nAllowedIPs=");
    out.append(peer.address.to_text().as_str());
    out.append("\nPersistentKeepalive=");
    out.append(decimal(keepalive).as_str());
    out
}

impl NetworkdConfiguration {
    /// The address fits its prefix, no peer record occurs twice, each has a
    /// prefix that fits, and the public key belongs to the private key.
    pub open spec fn wf(&self) -> bool {
        &&& self.wg_address.wf()
        &&& self.peers.wf()
        &&& addresses_wf(self.peers@)
        &&& self.public_key@ == derived_public_key(self.private_key@)
    }

    /// Whether the configuration is well formed.
    pub fn is_wf(&self) -> (r: bool)
        ensures
            r == self.wf(),
    {
        self.wg_address.is_wf() && self.peers.is_wf() && self.peers.addresses_ok()
            && self.public_key.same(&self.private_key.pubkey())
    }

    /// Builds the configuration of a node that joins the overlay subnet
    /// `network` with a fresh key pair: see [`Self::with_private_key`].
    pub fn new(
        address: Option<IpAddress>,
        network: IpNetwork,
        port: u16,
        wg_interface: &str,
        peers: PeerSet,
    ) -> (r: Result<NetworkdConfiguration, AddressError>)
        requires
            network.wf(),
            peers.wf(),
            addresses_wf(peers@),
        ensures
            match allocated(network, peers@, address) {
                Ok(a) => r matches Ok(c) && c.wf() && c.wg_address == (IpNetwork {
                    addr: a,
                    prefix_len: network.prefix_len,
                }) && c.wg_interface@ == wg_interface@ && c.wg_port == port && c.peers@ == peers@,
                Err(e) => r matches Err(f) && f == e,
            },
    {
        let private_key = PrivateKey::generate();
        NetworkdConfiguration::with_private_key(
            address,
            network,
            port,
            wg_interface,
            peers,
            private_key,
        )
    }

    /// Builds the configuration of a node that joins the overlay subnet
    /// `network` with the given private key. The tunnel address is `address`
    /// if one is given and lies inside the subnet, else the first free host
    /// address; it carries the subnet's prefix.
    pub fn with_private_key(
        address: Option<IpAddress>,
        network: IpNetwork,
        port: u16,
        wg_interface: &str,
        peers: PeerSet,
        private_key: PrivateKey,
    ) -> (r: Result<NetworkdConfiguration, AddressError>)
        requires
            network.wf(),
            peers.wf(),
            addresses_wf(peers@),
        ensures
            match allocated(network, peers@, address) {
                Ok(a) => r matches Ok(c) && c.wf() && c.wg_address == (IpNetwork {
                    addr: a,
                    prefix_len: network.prefix_len,
                }) && c.wg_interface@ == wg_interface@ && c.wg_port == port && c.peers@ == peers@
                    && c.private_key@ == private_key@ && network.contains(c.wg_address.addr),
                Err(e) => r matches Err(f) && f == e,
            },
    {
        let addr = match allocate_address(&network, &peers, address) {
            Ok(a) => a,
            Err(e) => {
                return Err(e);
            },
        };
        let wg_address = match IpNetwork::new(addr, network.prefix_len) {
            Ok(n) => n,
            Err(_) => {
                return Err(AddressError::OutOfRange);
            },
        };
        let public_key = private_key.pubkey();
        Ok(
            NetworkdConfiguration {
                wg_address,
                wg_interface: wg_interface.to_owned(),
                wg_port: port,
                peers,
                private_key,
                public_key,
            },
        )
    }

    /// The two files of the interface, with `keepalive` seconds of
    /// persistent keepalive for every peer. The `.netdev` file holds the
    /// private key: it is to be readable by its owner and by the group of
    /// the network service only.
    pub fn write_config(&self, keepalive: u64) -> (r: ConfigFiles)
        requires
            self.wf(),
        ensures
            r.network@ == network_file_text(self.wg_interface@, self.wg_address),
            r.netdev@ == netdev_head_text(self.wg_interface@, self.wg_port, self.private_key@)
                + peer_sections_text(views(self.peers.seq()), keepalive),
            r.netdev_mode == NETDEV_MODE,
            r.netdev_group@ == "systemd-network"@,
    {
        ConfigFiles {
            network: self.network_file(),
            netdev: self.netdev_file(keepalive),
            netdev_mode: NETDEV_MODE,
            netdev_group: String::from_str("systemd-network"),
        }
    }

    /// What a restart of the network service came to. A restart that did
    /// not succeed is an error that carries what the service wrote and what
    /// its journal holds.
    pub fn restart(succeeded: bool, stderr: &str, journal: &str) -> (r: Result<(), String>)
        ensures
            succeeded ==> r is Ok,
            !succeeded ==> (r matches Err(message) && message@ == restart_error_text(
                stderr@,
                journal@,
            )),
    {
        if succeeded {
            Ok(())
        } else {
            let mut message = String::from_str("Failed to restart systemd-networkd: ");
            message.append(stderr);
            message.append("\njournalctl -xeu systemd-networkd: ");
            message.append(journal);
            Err(message)
        }
    }

    /// The text of the `.network` file.
    pub fn network_file(&self) -> (r: String)
        requires
            self.wf(),
        ensures
            r@ == network_file_text(self.wg_interface@, self.wg_address),
    {
        let mut out = String::from_str("[Match]\nName=");
        out.append(self.wg_interface.as_str());
        out.append("\n\n[Network]\nAddress=");
        out.append(self.wg_address.to_text().as_str());
        out.append("\n");
        out
    }

    /// The text of the `.netdev` file: the interface, then one section for
    /// each peer in the order of the peer set, each with `keepalive` seconds
    /// of persistent keepalive.
    pub fn netdev_file(&self, keepalive: u64) -> (r: String)
        requires
            self.wf(),
        ensures
            r@ == netdev_head_text(self.wg_interface@, self.wg_port, self.private_key@)
                + peer_sections_text(views(self.peers.seq()), keepalive),
    {
        let mut out = String::from_str("[NetDev]\nName=");
        out.append(self.wg_interface.as_str());
        out.append(
            "\nKind=wireguard\nDescription=WireGuard client\nMTUBytes=1280\n\n[WireGuard]\nListenPort=",
        );
        out.append(decimal(self.wg_port as u64).as_str());
        out.append("\nPrivateKey=");
        out.append(self.private_key.to_base64().as_str());
        out.append("\n");
        let ghost head = out@;
        let n = self.peers.len();
        let mut i: usize = 0;
        while i < n
            invariant
                i <= n,
                n == self.peers.seq().len(),
                self.wf(),
                out@ == head + peer_sections_text(views(self.peers.seq().take(i as int)), keepalive),
            decreases n - i,
        {
            let peer = self.peers.get(i);
            assert(self.peers@.contains(peer@) && peer@.address.wf());
            let section = peer_section(peer, keepalive);
            proof {
                let s = self.peers.seq();
                let before = views(s.take(i as int));
                let after = views(s.take(i + 1));
                assert(after.drop_last() =~= before);
            }
            out.append(section.as_str());
            i = i + 1;
        }
        proof {
            assert(self.peers.seq().take(i as int) =~= self.peers.seq());
        }
        out
    }
}

/// Why the files of an interface do not give a configuration.
#[derive(Clone, Copy, Debug, PartialEq, Eq, Structural)]
pub enum ConfigError {
    /// The `.netdev` file is no INI file.
    NetdevUnreadable,
    /// The `.netdev` file has no `[WireGuard]` section.
    MissingWireGuardSection,
    MissingListenPort,
    InvalidListenPort,
    MissingPrivateKey,
    InvalidPrivateKey,
    /// A `[WireGuardPeer]` section has no `PublicKey`.
    PeerMissingPublicKey,
    PeerMissingEndpoint,
    PeerMissingAllowedIps,
    PeerInvalidPublicKey,
    PeerInvalidAllowedIps,
    /// The `.network` file is no INI file.
    NetworkUnreadable,
    /// The `.network` file has no `[Network]` section.
    MissingNetworkSection,
    MissingAddress,
    InvalidAddress,
}

/// What a configuration says.
pub ghost struct ConfigView {
    pub wg_address: IpNetwork,
    pub wg_interface: Seq<char>,
    pub wg_port: u16,
    pub peers: Set<WgPeerView>,
    pub private_key: Seq<u8>,
    pub public_key: Seq<u8>,
}

impl View for NetworkdConfiguration {
    type V = ConfigView;

    open spec fn view(&self) -> ConfigView {
        ConfigView {
            wg_address: self.wg_address,
            wg_interface: self.wg_interface@,
            wg_port: self.wg_port,
            peers: self.peers@,
            private_key: self.private_key@,
            public_key: self.public_key@,
        }
    }
}

/// The listening port that a `ListenPort` value gives.
pub open spec fn listen_port_of(value: Option<Seq<char>>) -> Result<u16, ConfigError> {
    match value {
        None => Err(ConfigError::MissingListenPort),
        Some(text) => match parsed_u16(text) {
            None => Err(ConfigError::InvalidListenPort),
            Some(port) => Ok(port),
        },
    }
}

/// The private key that a `PrivateKey` value gives.
pub open spec fn private_key_of(value: Option<Seq<char>>) -> Result<Seq<u8>, ConfigError> {
    match value {
        None => Err(ConfigError::MissingPrivateKey),
        Some(text) => match private_key_from_text(text) {
            None => Err(ConfigError::InvalidPrivateKey),
            Some(key) => Ok(key),
        },
    }
}

/// The peer record that the values of a `[WireGuardPeer]` section give. A
/// missing value is reported before an invalid one, in the order public
/// key, endpoint, allowed addresses.
pub open spec fn peer_of(
    public_key: Option<Seq<char>>,
    endpoint: Option<Seq<char>>,
    allowed_ips: Option<Seq<char>>,
) -> Result<WgPeerView, ConfigError> {
    if public_key is None {
        Err(ConfigError::PeerMissingPublicKey)
    } else if endpoint is None {
        Err(ConfigError::PeerMissingEndpoint)
    } else if allowed_ips is None {
        Err(ConfigError::PeerMissingAllowedIps)
    } else if public_key_from_base64(public_key->0) is None {
        Err(ConfigError::PeerInvalidPublicKey)
    } else if parsed_ip_network(allowed_ips->0) is None {
        Err(ConfigError::PeerInvalidAllowedIps)
    } else {
        Ok(
            WgPeerView {
                public_key: public_key_from_base64(public_key->0)->0,
                endpoint: endpoint->0,
                address: parsed_ip_network(allowed_ips->0)->0,
            },
        )
    }
}

/// The peer record of one `[WireGuardPeer]` section.
pub open spec fn section_peer(props: Props) -> Result<WgPeerView, ConfigError> {
    peer_of(field(props, "PublicKey"@), field(props, "Endpoint"@), field(props, "AllowedIPs"@))
}

/// The peer records of the `[WireGuardPeer]` sections, or the error of the
/// first section that gives none.
pub open spec fn section_peers(sections: Seq<Props>) -> Result<Set<WgPeerView>, ConfigError>
    decreases sections.len(),
{
    if sections.len() == 0 {
        Ok(Set::empty())
    } else {
        match section_peers(sections.drop_last()) {
            Err(e) => Err(e),
            Ok(peers) => match section_peer(sections.last()) {
                Err(e) => Err(e),
                Ok(peer) => Ok(peers.insert(peer)),
            },
        }
    }
}

/// The tunnel address that an `Address` value gives.
pub open spec fn address_of(value: Option<Seq<char>>) -> Result<IpNetwork, ConfigError> {
    match value {
        None => Err(ConfigError::MissingAddress),
        Some(text) => match parsed_ip_network(text) {
            None => Err(ConfigError::InvalidAddress),
            Some(net) => Ok(net),
        },
    }
}

/// The tunnel address that the sections of a `.network` file give.
pub open spec fn network_address(network: Option<Sections>) -> Result<IpNetwork, ConfigError> {
    match network {
        None => Err(ConfigError::NetworkUnreadable),
        Some(sections) => if occurrences(sections, "Network"@).len() == 0 {
            Err(ConfigError::MissingNetworkSection)
        } else {
            address_of(field(occurrences(sections, "Network"@)[0], "Address"@))
        },
    }
}

/// The configuration that the two files of an interface give: the port and
/// the private key from the first `[WireGuard]` section of the `.netdev`
/// file, a peer from each of its `[WireGuardPeer]` sections, and the tunnel
/// address from the first `[Network]` section of the `.network` file. The
/// first thing that is missing or invalid, in this order, is the error.
pub open spec fn config_of(
    netdev: Option<Sections>,
    network: Option<Sections>,
    wg_interface: Seq<char>,
) -> Result<ConfigView, ConfigError> {
    if netdev is None {
        Err(ConfigError::NetdevUnreadable)
    } else if occurrences(netdev->0, "WireGuard"@).len() == 0 {
        Err(ConfigError::MissingWireGuardSection)
    } else {
        let wireguard = occurrences(netdev->0, "WireGuard"@)[0];
        match listen_port_of(field(wireguard, "ListenPort"@)) {
            Err(e) => Err(e),
            Ok(wg_port) => match private_key_of(field(wireguard, "PrivateKey"@)) {
                Err(e) => Err(e),
                Ok(private_key) => match section_peers(occurrences(netdev->0, "WireGuardPeer"@)) {
                    Err(e) => Err(e),
                    Ok(peers) => match network_address(network) {
                        Err(e) => Err(e),
                        Ok(wg_address) => Ok(
                            ConfigView {
                                wg_address,
                                wg_interface,
                                wg_port,
                                peers,
                                private_key,
                                public_key: derived_public_key(private_key),
                            },
                        ),
                    },
                },
            },
        }
    }
}

/// The listening port that a `ListenPort` value gives.
pub fn listen_port_from(value: Option<String>) -> (r: Result<u16, ConfigError>)
    ensures
        r == listen_port_of(
            match value {
                Some(v) => Some(v@),
                None => None,
            },
        ),
{
    match value {
        None => Err(ConfigError::MissingListenPort),
        Some(text) => match parse_u16(text.as_str()) {
            None => Err(ConfigError::InvalidListenPort),
            Some(port) => Ok(port),
        },
    }
}

/// The private key that a `PrivateKey` value gives.
pub fn private_key_from(value: Option<String>) -> (r: Result<PrivateKey, ConfigError>)
    ensures
        match r {
            Ok(k) => private_key_of(
                match value {
                    Some(v) => Some(v@),
                    None => None,
                },
            ) == Ok::<Seq<u8>, ConfigError>(k@),
            Err(e) => private_key_of(
                match value {
                    Some(v) => Some(v@),
                    None => None,
                },
            ) == Err::<Seq<u8>, ConfigError>(e),
        },
{
    match value {
        None => Err(ConfigError::MissingPrivateKey),
        Some(text) => match PrivateKey::parse(text.as_str()) {
            None => Err(ConfigError::InvalidPrivateKey),
            Some(key) => Ok(key),
        },
    }
}

/// The peer record that the values of a `[WireGuardPeer]` section give.
pub fn peer_from_fields(
    public_key: Option<String>,
    endpoint: Option<String>,
    allowed_ips: Option<String>,
) -> (r: Result<WgPeer, ConfigError>)
    ensures
        match r {
            Ok(p) => peer_of(text_of(public_key), text_of(endpoint), text_of(allowed_ips)) == Ok::<
                WgPeerView,
                ConfigError,
            >(p@) && p.address.wf(),
            Err(e) => peer_of(text_of(public_key), text_of(endpoint), text_of(allowed_ips)) == Err::<
                WgPeerView,
                ConfigError,
            >(e),
        },
{
    let public_key = match public_key {
        Some(v) => v,
        None => {
            return Err(ConfigError::PeerMissingPublicKey);
        },
    };
    let endpoint = match endpoint {
        Some(v) => v,
        None => {
            return Err(ConfigError::PeerMissingEndpoint);
        },
    };
    let allowed_ips = match allowed_ips {
        Some(v) => v,
        None => {
            return Err(ConfigError::PeerMissingAllowedIps);
        },
    };
    let public_key = match PublicKey::from_base64(public_key.as_str()) {
        Some(k) => k,
        None => {
            return Err(ConfigError::PeerInvalidPublicKey);
        },
    };
    let address = match IpNetwork::parse(allowed_ips.as_str()) {
        Some(n) => n,
        None => {
            return Err(ConfigError::PeerInvalidAllowedIps);
        },
    };
    Ok(WgPeer { public_key, endpoint, address })
}

/// The tunnel address that an `Address` value gives.
pub fn address_from(value: Option<String>) -> (r: Result<IpNetwork, ConfigError>)
    ensures
        r == address_of(text_of(value)),
        r matches Ok(n) ==> n.wf(),
{
    match value {
        None => Err(ConfigError::MissingAddress),
        Some(text) => match IpNetwork::parse(text.as_str()) {
            None => Err(ConfigError::InvalidAddress),
            Some(net) => Ok(net),
        },
    }
}

fn peers_from_sections(sections: &Vec<&ini::Properties>) -> (r: Result<PeerSet, ConfigError>)
    ensures
        match r {
            Ok(peers) => section_peers(sections@.map_values(|p: &ini::Properties| properties(*p)))
                == Ok::<Set<WgPeerView>, ConfigError>(peers@) && peers.wf() && addresses_wf(
                peers@,
            ),
            Err(e) => section_peers(sections@.map_values(|p: &ini::Properties| properties(*p)))
                == Err::<Set<WgPeerView>, ConfigError>(e),
        },
{
    let ghost all = sections@.map_values(|p: &ini::Properties| properties(*p));
    let mut peers = PeerSet::new();
    let mut i: usize = 0;
    while i < sections.len()
        invariant
            i <= sections.len(),
            all == sections@.map_values(|p: &ini::Properties| properties(*p)),
            peers.wf(),
            addresses_wf(peers@),
            section_peers(all.take(i as int)) == Ok::<Set<WgPeerView>, ConfigError>(peers@),
        decreases sections.len() - i,
    {
        let props = sections[i];
        proof {
            assert(all.take(i + 1).drop_last() =~= all.take(i as int));
        }
        let peer = match peer_from_fields(
            property_get(props, "PublicKey"),
            property_get(props, "Endpoint"),
            property_get(props, "AllowedIPs"),
        ) {
            Ok(p) => p,
            Err(e) => {
                proof {
                    lemma_section_peers_error(all, i + 1);
                }
                return Err(e);
            },
        };
        peers.insert(peer);
        i = i + 1;
    }
    proof {
        assert(all.take(i as int) =~= all);
    }
    Ok(peers)
}

/// Once a prefix of the sections gives an error, the whole gives that error.
proof fn lemma_section_peers_error(sections: Seq<Props>, n: int)
    requires
        0 <= n <= sections.len(),
        section_peers(sections.take(n)) is Err,
    ensures
        section_peers(sections) == section_peers(sections.take(n)),
    decreases sections.len() - n,
{
    if n == sections.len() {
        assert(sections.take(n) =~= sections);
    } else {
        assert(sections.take(n + 1).drop_last() =~= sections.take(n));
        lemma_section_peers_error(sections, n + 1);
    }
}

impl NetworkdConfiguration {
    /// Reads the configuration of an interface back from the texts of its
    /// `.netdev` and `.network` files.
    pub fn from_config(netdev: &str, network: &str, wg_interface: &str) -> (r: Result<
        NetworkdConfiguration,
        ConfigError,
    >)
        ensures
            match r {
                Ok(c) => config_of(parsed_ini(netdev@), parsed_ini(network@), wg_interface@) == Ok::<
                    ConfigView,
                    ConfigError,
                >(c@) && c.wf(),
                Err(e) => config_of(parsed_ini(netdev@), parsed_ini(network@), wg_interface@)
                    == Err::<ConfigView, ConfigError>(e),
            },
    {
        let netdev_ini = match load_ini(netdev) {
            Ok(i) => i,
            Err(_) => {
                return Err(ConfigError::NetdevUnreadable);
            },
        };
        let wireguard = match ini_section(&netdev_ini, "WireGuard") {
            Some(p) => p,
            None => {
                return Err(ConfigError::MissingWireGuardSection);
            },
        };
        let wg_port = match listen_port_from(property_get(wireguard, "ListenPort")) {
            Ok(p) => p,
            Err(e) => {
                return Err(e);
            },
        };
        let private_key = match private_key_from(property_get(wireguard, "PrivateKey")) {
            Ok(k) => k,
            Err(e) => {
                return Err(e);
            },
        };
        let public_key = private_key.pubkey();
        let sections = ini_section_all(&netdev_ini, "WireGuardPeer");
        proof {
            assert(sections@.map_values(|p: &ini::Properties| properties(*p)) =~= occurrences(
                ini_sections(netdev_ini),
                "WireGuardPeer"@,
            ));
        }
        let peers = match peers_from_sections(&sections) {
            Ok(p) => p,
            Err(e) => {
                return Err(e);
            },
        };
        let network_ini = match load_ini(network) {
            Ok(i) => i,
            Err(_) => {
                return Err(ConfigError::NetworkUnreadable);
            },
        };
        let section = match ini_section(&network_ini, "Network") {
            Some(p) => p,
            None => {
                return Err(ConfigError::MissingNetworkSection);
            },
        };
        let wg_address = match address_from(property_get(section, "Address")) {
            Ok(a) => a,
            Err(e) => {
                return Err(e);
            },
        };
        Ok(
            NetworkdConfiguration {
                wg_address,
                wg_interface: wg_interface.to_owned(),
                wg_port,
                peers,
                private_key,
                public_key,
            },
        )
    }
}

} // verus!
