use floresta::control::ControlError;
use floresta::network::{
    addnode_request, addrman_info, disconnect_step, AddnodeCommand, network_info, AddrManInfoNetwork, DisconnectAction,
    DisconnectEvent, DisconnectStage, NetworkRpcError,
};
use floresta::request::ArgParseError;
use floresta::rpc_error::JsonRpcError;
use floresta::watch_only::MemoryDatabaseError;
use floresta::wire_error::AddrParseError;

fn counts(new: u64, tried: u64) -> AddrManInfoNetwork {
    AddrManInfoNetwork { new, tried, total: new + tried }
}

#[test]
fn disconnect_by_address_parses_then_disconnects() {
    let (stage, action) = disconnect_step::<u16>(
        DisconnectStage::Start,
        DisconnectEvent::Requested { node_address: "127.0.0.1:8333".to_string(), node_id: None },
    );
    assert!(matches!(stage, DisconnectStage::ParsingAddress));
    match action {
        DisconnectAction::ParseAddress(a) => assert_eq!(a, "127.0.0.1:8333"),
        _ => panic!("expected a parse request"),
    }
    let (stage, action) = disconnect_step(stage, DisconnectEvent::AddressParsed(Ok(8333u16)));
    assert!(matches!(stage, DisconnectStage::Disconnecting));
    assert!(matches!(action, DisconnectAction::DisconnectPeer(8333)));
    let (stage, action) = disconnect_step::<u16>(stage, DisconnectEvent::PeerDisconnected(Ok(true)));
    assert!(matches!(stage, DisconnectStage::Done));
    assert!(matches!(action, DisconnectAction::Reply(Ok(()))));
}

#[test]
fn disconnect_step_refuses_an_ambiguous_target() {
    let (stage, action) = disconnect_step::<u16>(
        DisconnectStage::Start,
        DisconnectEvent::Requested { node_address: String::new(), node_id: None },
    );
    assert!(matches!(stage, DisconnectStage::Done));
    assert!(matches!(action, DisconnectAction::Reply(Err(JsonRpcError::InvalidDisconnectNodeCommand))));

    let (_, action) = disconnect_step::<u16>(
        DisconnectStage::Start,
        DisconnectEvent::Requested { node_address: "1.2.3.4".to_string(), node_id: Some(3) },
    );
    assert!(matches!(action, DisconnectAction::Reply(Err(JsonRpcError::InvalidDisconnectNodeCommand))));
}

#[test]
fn disconnect_by_unknown_id_asks_no_disconnection() {
    let (stage, action) = disconnect_step::<u16>(
        DisconnectStage::Start,
        DisconnectEvent::Requested { node_address: String::new(), node_id: Some(7) },
    );
    assert!(matches!(stage, DisconnectStage::ListingPeers { node_id: 7 }));
    assert!(matches!(action, DisconnectAction::ListPeers));
    let (stage, action) = disconnect_step(stage, DisconnectEvent::PeersListed(Ok(vec![(1u32, 10u16), (2, 20)])));
    assert!(matches!(stage, DisconnectStage::Done));
    assert!(matches!(action, DisconnectAction::Reply(Err(JsonRpcError::PeerNotFound))));
}

#[test]
fn disconnect_by_id_picks_the_first_matching_peer() {
    let stage = DisconnectStage::ListingPeers { node_id: 2 };
    let (stage, action) =
        disconnect_step(stage, DisconnectEvent::PeersListed(Ok(vec![(1u32, 10u16), (2, 20), (2, 30)])));
    assert!(matches!(stage, DisconnectStage::Disconnecting));
    assert!(matches!(action, DisconnectAction::DisconnectPeer(20)));
    let (_, action) = disconnect_step::<u16>(stage, DisconnectEvent::PeerDisconnected(Ok(false)));
    assert!(matches!(action, DisconnectAction::Reply(Err(JsonRpcError::PeerNotFound))));
}

#[test]
fn disconnect_reports_node_failures() {
    let (_, action) = disconnect_step::<u16>(
        DisconnectStage::ListingPeers { node_id: 1 },
        DisconnectEvent::PeersListed(Err("node stopped".to_string())),
    );
    match action {
        DisconnectAction::Reply(Err(JsonRpcError::Node(m))) => assert_eq!(m, "node stopped"),
        _ => panic!("expected a node failure"),
    }
    let (_, action) = disconnect_step::<u16>(
        DisconnectStage::Disconnecting,
        DisconnectEvent::PeerDisconnected(Err("channel closed".to_string())),
    );
    match action {
        DisconnectAction::Reply(Err(JsonRpcError::Node(m))) => assert_eq!(m, "channel closed"),
        _ => panic!("expected a node failure"),
    }
    let (_, action) = disconnect_step::<u16>(
        DisconnectStage::ParsingAddress,
        DisconnectEvent::AddressParsed(Err(AddrParseError::InvalidPort)),
    );
    match action {
        DisconnectAction::Reply(Err(e @ JsonRpcError::InvalidNetAddress(_))) => {
            assert_eq!(e.to_string(), "Invalid network address: Invalid port");
            assert_eq!(e.source(), Some(AddrParseError::InvalidPort));
        }
        _ => panic!("expected an address failure"),
    }
}

#[test]
fn network_info_reports_outbound_connections_only() {
    let networks = vec![("ipv4".to_string(), true), ("onion".to_string(), false)];
    let info = network_info(
        "0.9.0",
        "/Floresta:0.9.0/".to_string(),
        70016,
        0x409,
        vec!["NETWORK".to_string(), "WITNESS".to_string()],
        8,
        Some("127.0.0.1:9050".to_string()),
        &networks,
    );
    assert_eq!(info.version, 900);
    assert_eq!(info.subversion, "/Floresta:0.9.0/");
    assert_eq!(info.protocol_version, 70016);
    assert_eq!(info.local_services, "0000000000000409");
    assert_eq!(info.connections, 8);
    assert_eq!(info.connections_in, 0);
    assert_eq!(info.connections_out, 8);
    assert!(!info.local_relay);
    assert!(info.network_active);
    assert_eq!(info.networks.len(), 2);
    assert!(info.networks[0].reachable && !info.networks[0].limited);
    assert!(!info.networks[1].reachable && info.networks[1].limited);
    assert_eq!(info.networks[1].proxy, "127.0.0.1:9050");
    assert!(info.networks[1].proxy_randomize_credentials);
}

#[test]
fn network_info_without_proxy() {
    let info = network_info("x.1", String::new(), 1, 0, vec![], 0, None, &vec![("ipv6".to_string(), true)]);
    assert_eq!(info.version, 0);
    assert_eq!(info.networks[0].proxy, "");
    assert!(!info.networks[0].proxy_randomize_credentials);
}

#[test]
fn addrman_info_sums_the_networks() {
    let info = addrman_info(counts(1, 2), counts(3, 4), counts(5, 6), counts(0, 0), counts(7, 0)).unwrap();
    assert_eq!(info.ipv6, counts(3, 4));
    assert_eq!(info.all_networks, AddrManInfoNetwork { new: 16, tried: 12, total: 28 });
}

#[test]
fn addrman_info_total_saturates() {
    let big = AddrManInfoNetwork { new: u64::MAX, tried: 0, total: u64::MAX };
    let info = addrman_info(big, counts(0, 5), counts(0, 0), counts(0, 0), counts(0, 0)).unwrap();
    assert_eq!(info.all_networks, AddrManInfoNetwork { new: u64::MAX, tried: 5, total: u64::MAX });
}

#[test]
fn addrman_info_refuses_counts_that_overflow() {
    let big = AddrManInfoNetwork { new: u64::MAX, tried: 0, total: u64::MAX };
    assert!(addrman_info(big, counts(1, 0), counts(0, 0), counts(0, 0), counts(0, 0)).is_none());
}

#[test]
fn plain_errors_have_no_source() {
    assert!(ArgParseError::Missing { field: "height".to_string() }.source().is_none());
    assert!(ControlError::UnknownMemInfoMode { mode: "x".to_string() }.source().is_none());
    assert!(NetworkRpcError::AmbiguousDisconnectTarget.source().is_none());
    assert!(MemoryDatabaseError::PoisonedLock("p".to_string()).source().is_none());
}

#[test]
fn invalid_net_address_keeps_the_parse_failure_reachable() {
    let err = JsonRpcError::InvalidNetAddress(AddrParseError::Inconclusive);
    assert_eq!(err.source(), Some(AddrParseError::Inconclusive));
    assert_eq!(err.rpc_error().code, -8);
    assert_eq!(err.detail(), Some("Inconclusive".to_string()));
    assert!(JsonRpcError::PeerNotFound.source().is_none());
}

#[test]
fn addnode_refuses_a_bad_address_before_a_bad_command() {
    let r = addnode_request::<u16>(Err(AddrParseError::InvalidHostname), "bogus");
    assert!(matches!(r, Err(JsonRpcError::InvalidNetAddress(AddrParseError::InvalidHostname))));
    let r = addnode_request(Ok(8333u16), "bogus");
    assert!(matches!(r, Err(JsonRpcError::InvalidAddnodeCommand)));
    let r = addnode_request(Ok(8333u16), "onetry");
    assert!(matches!(r, Ok((8333, AddnodeCommand::OneTry))));
    let r = addnode_request(Ok(1u16), "remove");
    assert!(matches!(r, Ok((1, AddnodeCommand::Remove))));
}
