//! The peer-network endpoints: `addnode`, `disconnectnode` and the
//! service flags reported by `getnetworkinfo`.

use vstd::prelude::*;
use crate::rpc_error::JsonRpcError;
use crate::wire_error::AddrParseError;
use crate::text::{debug_quoted, debug_str, decimal, push_decimal, str_eq};
use crate::version::{mmmmpp, parse_mmmmpp};

verus! {

/// A failure of a peer-network request.
#[derive(Debug)]
pub enum NetworkRpcError {
    /// `addnode` was called with a command other than `add`, `remove` or `onetry`.
    UnknownAddnodeCommand { command: String },
    /// `disconnectnode` was called with neither, or both, of an address and a node id.
    AmbiguousDisconnectTarget,
    /// No connected peer has the id the client supplied.
    PeerNotFound { node_id: u32 },
}

impl NetworkRpcError {
    /// The rendered message of the error.
    pub open spec fn rendered(&self) -> Seq<char> {
        match self {
            NetworkRpcError::UnknownAddnodeCommand { command } => "unknown addnode command "@
                + debug_quoted(command@) + "; expected \"add\", \"remove\" or \"onetry\""@,
            NetworkRpcError::AmbiguousDisconnectTarget =>
                "disconnectnode needs exactly one of an address or a node id"@,
            NetworkRpcError::PeerNotFound { node_id } => "no connected peer with id "@ + decimal(
                *node_id as nat,
            ),
        }
    }

    /// Renders the error.
    pub fn to_string(&self) -> (s: String)
        ensures
            s@ == self.rendered(),
    {
        match self {
            NetworkRpcError::UnknownAddnodeCommand { command } => {
                let mut s = String::from_str("unknown addnode command ");
                let quoted = debug_str(command.as_str());
                s.append(quoted.as_str());
                s.append("; expected \"add\", \"remove\" or \"onetry\"");
                s
            },
            NetworkRpcError::AmbiguousDisconnectTarget => String::from_str(
                "disconnectnode needs exactly one of an address or a node id",
            ),
            NetworkRpcError::PeerNotFound { node_id } => {
                let mut s = String::from_str("no connected peer with id ");
                push_decimal(&mut s, *node_id as u64);
                s
            },
        }
    }

    /// The failure this error wraps: none, for it describes a bad request
    /// or a broken lock rather than wrapping a lower-level failure.
    pub fn source(&self) -> (r: Option<()>)
        ensures
            r is None,
    {
        None
    }
}

/// The client-facing error for a peer-network failure.
pub open spec fn network_error_maps_to(e: NetworkRpcError) -> JsonRpcError {
    match e {
        NetworkRpcError::UnknownAddnodeCommand { .. } => JsonRpcError::InvalidAddnodeCommand,
        NetworkRpcError::AmbiguousDisconnectTarget => JsonRpcError::InvalidDisconnectNodeCommand,
        NetworkRpcError::PeerNotFound { .. } => JsonRpcError::PeerNotFound,
    }
}

impl From<NetworkRpcError> for JsonRpcError {
    fn from(e: NetworkRpcError) -> (r: JsonRpcError)
        ensures
            r == network_error_maps_to(e),
    {
        match e {
            NetworkRpcError::UnknownAddnodeCommand { .. } => JsonRpcError::InvalidAddnodeCommand,
            NetworkRpcError::AmbiguousDisconnectTarget =>
                JsonRpcError::InvalidDisconnectNodeCommand,
            NetworkRpcError::PeerNotFound { .. } => JsonRpcError::PeerNotFound,
        }
    }
}

impl vstd::std_specs::convert::FromSpecImpl<NetworkRpcError> for JsonRpcError {
    open spec fn obeys_from_spec() -> bool {
        true
    }

    open spec fn from_spec(e: NetworkRpcError) -> JsonRpcError {
        network_error_maps_to(e)
    }
}

/// What `addnode` does with the address.
#[derive(Debug)]
pub enum AddnodeCommand {
    /// Keep a connection to the peer.
    Add,
    /// Stop keeping a connection to the peer.
    Remove,
    /// Connect to the peer once.
    OneTry,
}

/// Reads the command of an `addnode` request.
pub fn addnode_command(command: &str) -> (r: Result<AddnodeCommand, NetworkRpcError>)
    ensures
        command@ == "add"@ ==> r matches Ok(AddnodeCommand::Add),
        command@ == "remove"@ ==> r matches Ok(AddnodeCommand::Remove),
        command@ == "onetry"@ ==> r matches Ok(AddnodeCommand::OneTry),
        command@ != "add"@ && command@ != "remove"@ && command@ != "onetry"@ ==> (r matches Err(
            NetworkRpcError::UnknownAddnodeCommand { command: c },
        ) && c@ == command@),
{
    proof {
        reveal_strlit("add");
        reveal_strlit("remove");
        reveal_strlit("onetry");
        assert("add"@.len() != "remove"@.len());
        assert("add"@.len() != "onetry"@.len());
        assert("remove"@[0] != "onetry"@[0]);
    }
    if str_eq(command, "add") {
        Ok(AddnodeCommand::Add)
    } else if str_eq(command, "remove") {
        Ok(AddnodeCommand::Remove)
    } else if str_eq(command, "onetry") {
        Ok(AddnodeCommand::OneTry)
    } else {
        Err(NetworkRpcError::UnknownAddnodeCommand { command: command.to_owned() })
    }
}

/// The peer that a `disconnectnode` request designates.
#[derive(Debug)]
pub enum DisconnectTarget {
    /// The peer at this address.
    Address(String),
    /// The peer with this node id.
    NodeId(u32),
}

/// Reads the target of a `disconnectnode` request: exactly one of a
/// non-empty address and a node id must be given.
pub fn disconnect_target(node_address: String, node_id: Option<u32>) -> (r: Result<
    DisconnectTarget,
    NetworkRpcError,
>)
    ensures
        node_address@.len() > 0 && node_id is None ==> r == Ok::<
            DisconnectTarget,
            NetworkRpcError,
        >(DisconnectTarget::Address(node_address)),
        node_address@.len() == 0 && node_id is Some ==> r == Ok::<
            DisconnectTarget,
            NetworkRpcError,
        >(DisconnectTarget::NodeId(node_id->0)),
        (node_address@.len() == 0) == (node_id is None) ==> r matches Err(
            NetworkRpcError::AmbiguousDisconnectTarget,
        ),
{
    let empty = node_address.as_str().is_empty();
    match (empty, node_id) {
        (false, None) => Ok(DisconnectTarget::Address(node_address)),
        (true, Some(id)) => Ok(DisconnectTarget::NodeId(id)),
        _ => Err(NetworkRpcError::AmbiguousDisconnectTarget),
    }
}

/// The address of the first peer in `peers` whose id is `id`, if any.
pub open spec fn first_peer_with_id<A>(peers: Seq<(u32, A)>, id: u32) -> Option<A>
    decreases peers.len(),
{
    if peers.len() == 0 {
        None
    } else if peers[0].0 == id {
        Some(peers[0].1)
    } else {
        first_peer_with_id(peers.drop_first(), id)
    }
}

/// The address of the first peer in `peers` whose id is `node_id`.
pub fn peer_address<A>(peers: Vec<(u32, A)>, node_id: u32) -> (r: Result<A, NetworkRpcError>)
    ensures
        match first_peer_with_id(peers@, node_id) {
            Some(a) => r matches Ok(b) && b == a,
            None => r matches Err(e) && e == NetworkRpcError::PeerNotFound { node_id },
        },
        match r {
            Ok(a) => exists|i: int|
                0 <= i < peers@.len() && peers@[i].0 == node_id && peers@[i].1 == a
                    && forall|j: int| 0 <= j < i ==> peers@[j].0 != node_id,
            Err(e) => e == NetworkRpcError::PeerNotFound { node_id } && forall|j: int|
                0 <= j < peers@.len() ==> peers@[j].0 != node_id,
        },
{
    let ghost all = peers@;
    let mut list = peers;
    let mut k: usize = 0;
    assert(all.skip(0) =~= all);
    while k < list.len()
        invariant
            list@ == all,
            all == peers@,
            k <= list@.len(),
            forall|j: int| 0 <= j < k ==> list@[j].0 != node_id,
            first_peer_with_id(all, node_id) == first_peer_with_id(all.skip(k as int), node_id),
        decreases list@.len() - k,
    {
        assert(all.skip(k as int)[0] == all[k as int]);
        assert(all.skip(k as int).drop_first() =~= all.skip(k + 1));
        if list[k].0 == node_id {
            let (_, a) = list.remove(k);
            return Ok(a);
        }
        k += 1;
    }
    assert(all.skip(k as int).len() == 0);
    Err(NetworkRpcError::PeerNotFound { node_id })
}

/// A disconnection that the node reports as not done means the peer was not found.
pub fn check_disconnected(disconnected: bool) -> (r: Result<(), JsonRpcError>)
    ensures
        disconnected ==> r is Ok,
        !disconnected ==> r matches Err(JsonRpcError::PeerNotFound),
{
    if disconnected {
        Ok(())
    } else {
        Err(JsonRpcError::PeerNotFound)
    }
}

/// Reads an `addnode` request whose address the node has parsed (or
/// failed to): an address that did not parse is refused first, then a
/// command other than `add`, `remove` or `onetry`; otherwise the peer and
/// what to do with it.
pub fn addnode_request<A>(parsed: Result<A, AddrParseError>, command: &str) -> (r: Result<
    (A, AddnodeCommand),
    JsonRpcError,
>)
    ensures
        match parsed {
            Err(e) => r == Err::<(A, AddnodeCommand), JsonRpcError>(JsonRpcError::InvalidNetAddress(e)),
            Ok(a) => if command@ == "add"@ {
                r matches Ok((b, AddnodeCommand::Add)) && b == a
            } else if command@ == "remove"@ {
                r matches Ok((b, AddnodeCommand::Remove)) && b == a
            } else if command@ == "onetry"@ {
                r matches Ok((b, AddnodeCommand::OneTry)) && b == a
            } else {
                r matches Err(JsonRpcError::InvalidAddnodeCommand)
            },
        },
{
    let address = match parsed {
        Ok(a) => a,
        Err(e) => {
            return Err(JsonRpcError::InvalidNetAddress(e));
        },
    };
    match addnode_command(command) {
        Ok(c) => Ok((address, c)),
        Err(e) => Err(JsonRpcError::from(e)),
    }
}

/// Where a `disconnectnode` request stands.
#[derive(Debug)]
pub enum DisconnectStage {
    /// Nothing has been asked yet.
    Start,
    /// The node was asked to parse the peer's address.
    ParsingAddress,
    /// The node was asked for its peers, to find the one with this id.
    ListingPeers { node_id: u32 },
    /// The node was asked to disconnect the peer.
    Disconnecting,
    /// The reply has been given.
    Done,
}

/// What the node reports to a `disconnectnode` request.
#[derive(Debug)]
pub enum DisconnectEvent<A> {
    /// The client's request: an address or a node id.
    Requested { node_address: String, node_id: Option<u32> },
    /// The parsed peer address, or why it did not parse.
    AddressParsed(Result<A, AddrParseError>),
    /// The connected peers with their ids, or the node's failure.
    PeersListed(Result<Vec<(u32, A)>, String>),
    /// Whether the node disconnected the peer, or its failure.
    PeerDisconnected(Result<bool, String>),
}

/// What a `disconnectnode` request asks of the node next.
#[derive(Debug)]
pub enum DisconnectAction<A> {
    /// Parse this peer address.
    ParseAddress(String),
    /// List the connected peers.
    ListPeers,
    /// Disconnect the peer at this address.
    DisconnectPeer(A),
    /// Answer the client.
    Reply(Result<(), JsonRpcError>),
}

/// Whether `event` is one that a `disconnectnode` request at `stage` waits for.
pub open spec fn disconnect_accepts<A>(stage: DisconnectStage, event: DisconnectEvent<A>) -> bool {
    match stage {
        DisconnectStage::Start => event is Requested,
        DisconnectStage::ParsingAddress => event is AddressParsed,
        DisconnectStage::ListingPeers { .. } => event is PeersListed,
        DisconnectStage::Disconnecting => event is PeerDisconnected,
        DisconnectStage::Done => false,
    }
}

/// The next step of a `disconnectnode` request. The client must name the
/// peer by exactly one of a non-empty address and a node id. An address is
/// parsed, and one that does not parse is refused; an id is looked up
/// among the connected peers, and an unknown id is answered with
/// [`JsonRpcError::PeerNotFound`] without asking for any disconnection. The
/// peer found is disconnected once: the request succeeds when the node
/// reports the peer disconnected, a peer the node did not disconnect is
/// not found, and a failure of the node is answered with its message.
pub fn disconnect_step<A>(stage: DisconnectStage, event: DisconnectEvent<A>) -> (r: (
    DisconnectStage,
    DisconnectAction<A>,
))
    requires
        disconnect_accepts(stage, event),
    ensures
        match event {
            DisconnectEvent::Requested { node_address, node_id } => if node_address@.len() > 0
                && node_id is None {
                r.0 is ParsingAddress && r.1 == DisconnectAction::<A>::ParseAddress(node_address)
            } else if node_address@.len() == 0 && node_id is Some {
                r.0 == DisconnectStage::ListingPeers { node_id: node_id->0 } && r.1 is ListPeers
            } else {
                r.0 is Done && r.1 matches DisconnectAction::Reply(
                    Err(JsonRpcError::InvalidDisconnectNodeCommand),
                )
            },
            DisconnectEvent::AddressParsed(Ok(a)) => r.0 is Disconnecting && r.1
                == DisconnectAction::<A>::DisconnectPeer(a),
            DisconnectEvent::AddressParsed(Err(e)) => r.0 is Done && r.1
                == DisconnectAction::<A>::Reply(Err(JsonRpcError::InvalidNetAddress(e))),
            DisconnectEvent::PeersListed(Err(e)) => r.0 is Done && r.1
                == DisconnectAction::<A>::Reply(Err(JsonRpcError::Node(e))),
            DisconnectEvent::PeersListed(Ok(peers)) => match first_peer_with_id(
                peers@,
                stage->node_id,
            ) {
                Some(a) => r.0 is Disconnecting && r.1 == DisconnectAction::<A>::DisconnectPeer(a),
                None => r.0 is Done && r.1 matches DisconnectAction::Reply(
                    Err(JsonRpcError::PeerNotFound),
                ),
            },
            DisconnectEvent::PeerDisconnected(Ok(true)) => r.0 is Done && r.1 matches DisconnectAction::Reply(
                Ok(()),
            ),
            DisconnectEvent::PeerDisconnected(Ok(false)) => r.0 is Done && r.1 matches DisconnectAction::Reply(
                Err(JsonRpcError::PeerNotFound),
            ),
            DisconnectEvent::PeerDisconnected(Err(e)) => r.0 is Done && r.1
                == DisconnectAction::<A>::Reply(Err(JsonRpcError::Node(e))),
        },
{
    match event {
        DisconnectEvent::Requested { node_address, node_id } => {
            match disconnect_target(node_address, node_id) {
                Ok(DisconnectTarget::Address(a)) => (
                    DisconnectStage::ParsingAddress,
                    DisconnectAction::ParseAddress(a),
                ),
                Ok(DisconnectTarget::NodeId(id)) => (
                    DisconnectStage::ListingPeers { node_id: id },
                    DisconnectAction::ListPeers,
                ),
                Err(e) => (DisconnectStage::Done, DisconnectAction::Reply(Err(JsonRpcError::from(e)))),
            }
        },
        DisconnectEvent::AddressParsed(Ok(a)) => (
            DisconnectStage::Disconnecting,
            DisconnectAction::DisconnectPeer(a),
        ),
        DisconnectEvent::AddressParsed(Err(e)) => (
            DisconnectStage::Done,
            DisconnectAction::Reply(Err(JsonRpcError::InvalidNetAddress(e))),
        ),
        DisconnectEvent::PeersListed(Err(e)) => (
            DisconnectStage::Done,
            DisconnectAction::Reply(Err(JsonRpcError::Node(e))),
        ),
        DisconnectEvent::PeersListed(Ok(peers)) => {
            let id = match stage {
                DisconnectStage::ListingPeers { node_id } => node_id,
                _ => 0,
            };
            match peer_address(peers, id) {
                Ok(a) => (DisconnectStage::Disconnecting, DisconnectAction::DisconnectPeer(a)),
                Err(e) => (DisconnectStage::Done, DisconnectAction::Reply(Err(JsonRpcError::from(e)))),
            }
        },
        DisconnectEvent::PeerDisconnected(Ok(disconnected)) => (
            DisconnectStage::Done,
            DisconnectAction::Reply(check_disconnected(disconnected)),
        ),
        DisconnectEvent::PeerDisconnected(Err(e)) => (
            DisconnectStage::Done,
            DisconnectAction::Reply(Err(JsonRpcError::Node(e))),
        ),
    }
}

/// The lower-case hexadecimal digit of `d`.
pub open spec fn hex_char(d: nat) -> char {
    if d < 10 {
        crate::text::digit_char(d)
    } else if d == 10 {
        'a'
    } else if d == 11 {
        'b'
    } else if d == 12 {
        'c'
    } else if d == 13 {
        'd'
    } else if d == 14 {
        'e'
    } else {
        'f'
    }
}

/// The last `n` hexadecimal digits of `x`, zero-padded.
pub open spec fn hex_digits(x: nat, n: nat) -> Seq<char>
    decreases n,
{
    if n == 0 {
        Seq::empty()
    } else {
        hex_digits(x / 16, (n - 1) as nat).push(hex_char(x % 16))
    }
}

fn hex_digit_char(d: u64) -> (c: char)
    requires
        d < 16,
    ensures
        c == hex_char(d as nat),
{
    if d < 10 {
        if d == 0 { '0' }
        else if d == 1 { '1' }
        else if d == 2 { '2' }
        else if d == 3 { '3' }
        else if d == 4 { '4' }
        else if d == 5 { '5' }
        else if d == 6 { '6' }
        else if d == 7 { '7' }
        else if d == 8 { '8' }
        else { '9' }
    } else if d == 10 { 'a' }
    else if d == 11 { 'b' }
    else if d == 12 { 'c' }
    else if d == 13 { 'd' }
    else if d == 14 { 'e' }
    else { 'f' }
}

pub(crate) fn push_hex_digits(s: &mut String, x: u64, n: u64)
    ensures
        final(s)@ == old(s)@ + hex_digits(x as nat, n as nat),
    decreases n,
{
    if n > 0 {
        push_hex_digits(s, x / 16, n - 1);
        let c = hex_digit_char(x % 16);
        s.push(c);
        assert(final(s)@ =~= old(s)@ + hex_digits(x as nat, n as nat));
    } else {
        assert(final(s)@ =~= old(s)@ + hex_digits(x as nat, n as nat));
    }
}

/// The service flags a node advertises, as `getnetworkinfo` reports them:
/// sixteen lower-case hexadecimal digits (`{:016x}`).
pub fn local_services(services: u64) -> (s: String)
    ensures
        s@ == hex_digits(services as nat, 16),
{
    let mut s = String::new();
    push_hex_digits(&mut s, services, 16);
    assert(s@ =~= hex_digits(services as nat, 16));
    s
}

/// One network of `getnetworkinfo`.
#[derive(Debug)]
pub struct NetworkInfoNetwork {
    pub name: String,
    pub limited: bool,
    pub reachable: bool,
    pub proxy: String,
    pub proxy_randomize_credentials: bool,
}

/// The result of `getnetworkinfo`, but for its fee fields, which are always zero.
#[derive(Debug)]
pub struct NetworkInfo {
    pub version: usize,
    pub subversion: String,
    pub protocol_version: usize,
    pub local_services: String,
    pub local_services_names: Vec<String>,
    pub local_relay: bool,
    pub time_offset: i64,
    pub connections: usize,
    pub connections_in: usize,
    pub connections_out: usize,
    pub network_active: bool,
    pub networks: Vec<NetworkInfoNetwork>,
    pub local_addresses: Vec<String>,
    pub warnings: Vec<String>,
}

/// Answers `getnetworkinfo` for a node that runs software version
/// `version`, announces itself as `user_agent`, speaks `protocol_version`,
/// advertises the service flags `services` (named `service_names`) and has
/// `connections_out` connections. The node accepts no inbound connection
/// and relays nothing. Each of `networks` is a network name with whether
/// the node can reach it; every network reports the proxy, if one is set.
pub fn network_info(
    version: &str,
    user_agent: String,
    protocol_version: usize,
    services: u64,
    service_names: Vec<String>,
    connections_out: usize,
    proxy: Option<String>,
    networks: &Vec<(String, bool)>,
) -> (r: NetworkInfo)
    ensures
        r.version == mmmmpp(version@),
        r.subversion == user_agent,
        r.protocol_version == protocol_version,
        r.local_services@ == hex_digits(services as nat, 16),
        r.local_services_names == service_names,
        !r.local_relay,
        r.time_offset == 0,
        r.connections_in == 0,
        r.connections_out == connections_out,
        r.connections == connections_out,
        r.network_active,
        r.networks@.len() == networks@.len(),
        forall|i: int|
            #![trigger r.networks@[i]]
            0 <= i < networks@.len() ==> {
                &&& r.networks@[i].name == networks@[i].0
                &&& r.networks@[i].reachable == networks@[i].1
                &&& r.networks@[i].limited == !networks@[i].1
                &&& r.networks@[i].proxy@ == (match proxy {
                    Some(p) => p@,
                    None => Seq::<char>::empty(),
                })
                &&& r.networks@[i].proxy_randomize_credentials == proxy is Some
            },
        r.local_addresses@.len() == 0,
        r.warnings@.len() == 0,
{
    let proxy_set = proxy.is_some();
    let proxy_str = match proxy {
        Some(p) => p,
        None => String::new(),
    };
    let mut list: Vec<NetworkInfoNetwork> = Vec::new();
    let mut i: usize = 0;
    while i < networks.len()
        invariant
            i <= networks@.len(),
            list@.len() == i,
            proxy_str@ == (match proxy {
                Some(p) => p@,
                None => Seq::<char>::empty(),
            }),
            proxy_set == proxy is Some,
            forall|j: int|
                #![trigger list@[j]]
                0 <= j < i ==> {
                    &&& list@[j].name == networks@[j].0
                    &&& list@[j].reachable == networks@[j].1
                    &&& list@[j].limited == !networks@[j].1
                    &&& list@[j].proxy@ == proxy_str@
                    &&& list@[j].proxy_randomize_credentials == proxy_set
                },
        decreases networks@.len() - i,
    {
        let reachable = networks[i].1;
        list.push(
            NetworkInfoNetwork {
                name: networks[i].0.clone(),
                limited: !reachable,
                reachable,
                proxy: proxy_str.clone(),
                proxy_randomize_credentials: proxy_set,
            },
        );
        i += 1;
    }
    let connections_in: usize = 0;
    NetworkInfo {
        version: parse_mmmmpp(version),
        subversion: user_agent,
        protocol_version,
        local_services: local_services(services),
        local_services_names: service_names,
        local_relay: false,
        time_offset: 0,
        connections: connections_out,
        connections_in,
        connections_out,
        network_active: true,
        networks: list,
        local_addresses: Vec::new(),
        warnings: Vec::new(),
    }
}

/// The address counts of one network, as `getaddrmaninfo` reports them.
#[derive(Clone, Copy, Debug, PartialEq, Eq)]
pub struct AddrManInfoNetwork {
    pub new: u64,
    pub tried: u64,
    pub total: u64,
}

/// The result of `getaddrmaninfo`.
#[derive(Clone, Copy, Debug, PartialEq, Eq)]
pub struct AddrManInfo {
    pub ipv4: AddrManInfoNetwork,
    pub ipv6: AddrManInfoNetwork,
    pub onion: AddrManInfoNetwork,
    pub i2p: AddrManInfoNetwork,
    pub cjdns: AddrManInfoNetwork,
    /// The new and tried counts summed over the five networks, with their
    /// total saturating at `u64::MAX`.
    pub all_networks: AddrManInfoNetwork,
}

/// Answers `getaddrmaninfo` from the counts of each network; `None` when
/// the new or the tried counts do not sum within a `u64`.
pub fn addrman_info(
    ipv4: AddrManInfoNetwork,
    ipv6: AddrManInfoNetwork,
    onion: AddrManInfoNetwork,
    i2p: AddrManInfoNetwork,
    cjdns: AddrManInfoNetwork,
) -> (r: Option<AddrManInfo>)
    ensures
        ({
            let all_new = ipv4.new + ipv6.new + onion.new + i2p.new + cjdns.new;
            let all_tried = ipv4.tried + ipv6.tried + onion.tried + i2p.tried + cjdns.tried;
            if all_new <= u64::MAX && all_tried <= u64::MAX {
                r == Some(
                    AddrManInfo {
                        ipv4,
                        ipv6,
                        onion,
                        i2p,
                        cjdns,
                        all_networks: AddrManInfoNetwork {
                            new: all_new as u64,
                            tried: all_tried as u64,
                            total: if all_new + all_tried <= u64::MAX {
                                (all_new + all_tried) as u64
                            } else {
                                u64::MAX
                            },
                        },
                    },
                )
            } else {
                r is None
            }
        }),
{
    let mut all_new: u64 = ipv4.new;
    let mut all_tried: u64 = ipv4.tried;
    let rest = [ipv6, onion, i2p, cjdns];
    let mut i: usize = 0;
    while i < 4
        invariant
            i <= 4,
            rest@ == seq![ipv6, onion, i2p, cjdns],
            all_new == ipv4.new + (if i >= 1 { ipv6.new as int } else { 0 }) + (if i >= 2 {
                onion.new as int
            } else {
                0
            }) + (if i >= 3 { i2p.new as int } else { 0 }) + (if i >= 4 {
                cjdns.new as int
            } else {
                0
            }),
            all_tried == ipv4.tried + (if i >= 1 { ipv6.tried as int } else { 0 }) + (if i >= 2 {
                onion.tried as int
            } else {
                0
            }) + (if i >= 3 { i2p.tried as int } else { 0 }) + (if i >= 4 {
                cjdns.tried as int
            } else {
                0
            }),
        decreases 4 - i,
    {
        let n = rest[i];
        match (all_new.checked_add(n.new), all_tried.checked_add(n.tried)) {
            (Some(a), Some(b)) => {
                all_new = a;
                all_tried = b;
            },
            _ => {
                return None;
            },
        }
        i += 1;
    }
    Some(
        AddrManInfo {
            ipv4,
            ipv6,
            onion,
            i2p,
            cjdns,
            all_networks: AddrManInfoNetwork {
                new: all_new,
                tried: all_tried,
                total: all_new.saturating_add(all_tried),
            },
        },
    )
}

} // verus!
