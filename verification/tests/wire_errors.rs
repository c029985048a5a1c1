use floresta::chain_error::BlockchainError;
use floresta::filter_store::IterableFilterStoreError;
use floresta::wire_error::{AddressManError, PeerError, PeerManError, TransportError, WireError, WireErrorSource};

#[test]
fn wire_error_renders_conditions() {
    assert_eq!(WireError::UnreachableNetwork.to_string(), "The provided network is invalid or unreachable");
    assert_eq!(WireError::PeerTimeout.to_string(), "Peer timed out");
    assert_eq!(WireError::PoisonedLock.to_string(), "Poisoned lock");
    assert_eq!(
        WireError::AnchorFileNotFound.to_string(),
        "Failed to init Utreexo peers: anchors.json does not exist yet"
    );
}

#[test]
fn wire_error_renders_wrapped_messages() {
    let e = WireError::AddressMan(AddressManError { message: "peers.json is corrupt".to_string() });
    assert_eq!(e.to_string(), "Address book error: peers.json is corrupt");
    let e = WireError::PeerMan(PeerManError { message: "too many peers".to_string() });
    assert_eq!(e.to_string(), "Peer management error: too many peers");
}

#[test]
fn wire_error_renders_opaque_failures_with_their_prefix() {
    let e = WireError::CompactBlockFiltersError(IterableFilterStoreError::OversizedBlockFilter);
    assert_eq!(e.to_string(), "Compact block filters error: OversizedBlockFilter");
    let io = std::io::Error::new(std::io::ErrorKind::Other, "disk gone");
    assert!(WireError::Io(io).to_string().starts_with("Generic IO error: "));
}

#[test]
fn wire_error_source_walks_back_to_the_cause() {
    let e = WireError::AddressMan(AddressManError { message: "bad".to_string() });
    match e.source() {
        Some(WireErrorSource::AddressMan(inner)) => assert_eq!(inner.message, "bad"),
        _ => panic!("expected the address book failure"),
    }
    let e = WireError::CompactBlockFiltersError(IterableFilterStoreError::PoisonedLock);
    assert!(matches!(
        e.source(),
        Some(WireErrorSource::CompactBlockFiltersError(IterableFilterStoreError::PoisonedLock))
    ));
    assert!(WireError::PeerNotFound.source().is_none());
    assert!(WireError::AssumedChainInvalid.source().is_none());
}

#[test]
fn transport_io_failure_becomes_an_io_failure() {
    let io = std::io::Error::new(std::io::ErrorKind::Other, "reset");
    let e = WireError::from(TransportError::Io(io));
    assert!(matches!(e, WireError::Io(_)));

    let e = WireError::from(TransportError::Other { message: "bad magic".to_string() });
    match e {
        WireError::Transport(TransportError::Other { message }) => assert_eq!(message, "bad magic"),
        _ => panic!("expected a transport failure"),
    }
}

#[test]
fn transport_error_renders_its_message() {
    let e = TransportError::Other { message: "oversized message".to_string() };
    assert_eq!(e.to_string(), "oversized message");
}

#[test]
fn wrapped_failures_convert_into_wire_errors() {
    let e: WireError = std::io::Error::new(std::io::ErrorKind::Other, "x").into();
    assert!(matches!(e, WireError::Io(_)));
    let e: WireError = IterableFilterStoreError::MalformedFilter.into();
    assert!(matches!(e, WireError::CompactBlockFiltersError(IterableFilterStoreError::MalformedFilter)));
    let e: WireError = AddressManError { message: "m".to_string() }.into();
    assert!(matches!(e, WireError::AddressMan(_)));
}

#[test]
fn wire_error_renders_peer_and_transport_messages() {
    let e = WireError::PeerError(PeerError { message: "handshake timed out".to_string() });
    assert_eq!(e.to_string(), "Peer error: handshake timed out");
    let e = WireError::from(TransportError::Other { message: "bad checksum".to_string() });
    assert_eq!(e.to_string(), "Transport error: bad checksum");
}

#[test]
fn wire_error_renders_chain_failures_by_their_debug_form() {
    assert_eq!(
        WireError::Blockchain(BlockchainError::BlockNotPresent).to_string(),
        "Blockchain error: BlockNotPresent"
    );
    let e = WireError::CompactBlockFiltersError(IterableFilterStoreError::BlockNotFound {
        height: 120,
        source: "no block".to_string(),
    });
    assert_eq!(
        e.to_string(),
        "Compact block filters error: BlockNotFound { height: 120, source: \"no block\" }"
    );
}

#[test]
fn filter_store_error_debug_forms() {
    assert_eq!(IterableFilterStoreError::PoisonedLock.debug_string(), "PoisonedLock");
    assert_eq!(IterableFilterStoreError::MalformedFilter.debug_string(), "MalformedFilter");
    let io = std::io::Error::new(std::io::ErrorKind::Other, "gone");
    let e = IterableFilterStoreError::Io(io);
    assert_eq!(e.debug_string(), format!("{:?}", e));
    let e = IterableFilterStoreError::BlockNotFound { height: 0, source: "a\nb".to_string() };
    assert_eq!(e.debug_string(), format!("{:?}", e));
}
