//! Failures of the peer-to-peer layer.

use vstd::prelude::*;
use crate::chain_error::BlockchainError;
use crate::filter_store::{io_error_debug, IterableFilterStoreError};

verus! {

/// Why a peer address could not be parsed.
#[derive(Clone, Copy, Debug, PartialEq, Eq, Structural)]
pub enum AddrParseError {
    InvalidIpv6,
    InvalidIpv4,
    InvalidHostname,
    InvalidPort,
    Inconclusive,
}

impl AddrParseError {
    /// The rendered message of the error.
    pub open spec fn rendered(&self) -> Seq<char> {
        match self {
            AddrParseError::InvalidIpv6 => "Invalid ipv6"@,
            AddrParseError::InvalidIpv4 => "Invalid ipv4"@,
            AddrParseError::InvalidHostname => "Invalid hostname"@,
            AddrParseError::InvalidPort => "Invalid port"@,
            AddrParseError::Inconclusive => "Inconclusive"@,
        }
    }

    /// Renders the error.
    pub fn to_string(&self) -> (s: String)
        ensures
            s@ == self.rendered(),
    {
        match self {
            AddrParseError::InvalidIpv6 => String::from_str("Invalid ipv6"),
            AddrParseError::InvalidIpv4 => String::from_str("Invalid ipv4"),
            AddrParseError::InvalidHostname => String::from_str("Invalid hostname"),
            AddrParseError::InvalidPort => String::from_str("Invalid port"),
            AddrParseError::Inconclusive => String::from_str("Inconclusive"),
        }
    }
}

#[verifier::external_type_specification]
#[verifier::external_body]
pub struct ExSerdeJsonError(serde_json::Error);

/// Renders a JSON error with `serde_json`'s `Debug`; nothing is stated of the text.
#[verifier::external_body]
fn serde_error_debug(e: &serde_json::Error) -> String {
    format!("{:?}", e)
}

/// A failure of the address book, carried as its message.
#[derive(Debug)]
pub struct AddressManError {
    pub message: String,
}

/// A failure of the management of connected peers, carried as its message.
#[derive(Debug)]
pub struct PeerManError {
    pub message: String,
}

/// A failure of the choice of the chain to follow, carried as its message.
#[derive(Debug)]
pub struct ChainSelectorError {
    pub message: String,
}

/// A failure of the service of a user request, carried as its message.
#[derive(Debug)]
pub struct UserReqError {
    pub message: String,
}

/// A failure of the driving of a running node, carried as its message.
#[derive(Debug)]
pub struct RunningCtxError {
    pub message: String,
}

/// A failure of a peer connection, carried as its message.
#[derive(Debug)]
pub struct PeerError {
    pub message: String,
}

/// A failure of the parsing of a peer address, carried as its message.
#[derive(Debug)]
pub struct InvalidAddressError {
    pub message: String,
}

/// A failure of a send into the node's request channel, carried as its message.
#[derive(Debug)]
pub struct ChannelSendError {
    pub message: String,
}

/// A failure of the peer transport: an I/O failure, or any other
/// transport failure carried as its message.
#[derive(Debug)]
pub enum TransportError {
    Io(std::io::Error),
    Other { message: String },
}

/// A failure of the peer-to-peer layer.
pub enum WireError {
    /// A failure in the address book.
    AddressMan(AddressManError),
    /// A failure while managing the set of connected peers.
    PeerMan(PeerManError),
    /// A failure while choosing which chain to follow.
    ChainSelector(ChainSelectorError),
    /// A failure while serving a user request.
    UserReq(UserReqError),
    /// A failure while driving a running node.
    RunningCtx(RunningCtxError),
    /// A failure of the chain.
    Blockchain(BlockchainError),
    /// A request could not be written into the node's channel.
    ChannelSend(ChannelSendError),
    /// A network we cannot reach was asked for.
    UnreachableNetwork,
    /// A failure of a peer.
    PeerError(PeerError),
    /// A coinbase is not mature.
    CoinbaseNotMatured,
    /// The peer is not among the current connections.
    PeerNotFound,
    /// The peer is misbehaving.
    PeerMisbehaving,
    /// The Utreexo peers could not be set up: the anchors file does not exist yet.
    AnchorFileNotFound,
    /// Generic I/O failure.
    Io(std::io::Error),
    /// JSON (de)serialisation failure.
    Serde(serde_json::Error),
    /// No peer can take the request.
    NoPeerToSendRequest,
    /// A peer timed out a request.
    PeerTimeout,
    /// A failure of the compact-filter store.
    CompactBlockFiltersError(IterableFilterStoreError),
    /// A lock was poisoned.
    PoisonedLock,
    /// A peer address could not be parsed.
    InvalidAddress(InvalidAddressError),
    /// A failure of the transport.
    Transport(TransportError),
    /// No address is available to connect to.
    NoAddressesAvailable,
    /// A block we do not have was worked on.
    BlockNotFound,
    /// A block without its proof was worked on.
    BlockProofNotFound,
    /// The leaf data of a block could not be found.
    LeafDataNotFound,
    /// An assumed chain holds invalid blocks.
    AssumedChainInvalid,
}

impl WireError {
    /// The rendered message of the error, where `inner` is the rendering of
    /// a wrapped failure that is shown by its debug form (unused for other variants).
    pub open spec fn rendered(&self, inner: Seq<char>) -> Seq<char> {
        match self {
            WireError::UnreachableNetwork => "The provided network is invalid or unreachable"@,
            WireError::CoinbaseNotMatured => "Coinbase isn't mature yet"@,
            WireError::PeerNotFound => "Peer not found in our current connections list"@,
            WireError::PeerMisbehaving => "Our peer is misbehaving"@,
            WireError::AnchorFileNotFound => "Failed to init Utreexo peers: anchors.json does not exist yet"@,
            WireError::NoPeerToSendRequest => "We couldn't find a peer to send the request"@,
            WireError::PeerTimeout => "Peer timed out"@,
            WireError::PoisonedLock => "Poisoned lock"@,
            WireError::NoAddressesAvailable => "No addresses available to connect to"@,
            WireError::BlockNotFound => "We tried to work on a block we don't have"@,
            WireError::BlockProofNotFound => "We tried to work on a block that we don't have a proof for yet"@,
            WireError::LeafDataNotFound => "Couldn't find the leaf data for a block"@,
            WireError::AssumedChainInvalid => "We assumed a chain with invalid blocks, something went really wrong"@,
            WireError::AddressMan(e) => "Address book error: "@ + e.message@,
            WireError::RunningCtx(e) => "Running node error: "@ + e.message@,
            WireError::UserReq(e) => "User request error: "@ + e.message@,
            WireError::ChainSelector(e) => "Chain selection error: "@ + e.message@,
            WireError::PeerMan(e) => "Peer management error: "@ + e.message@,
            WireError::Blockchain(e) => "Blockchain error: "@ + e.debug_rendered(inner),
            WireError::ChannelSend(e) => "Error while writing into channel: "@ + e.message@,
            WireError::PeerError(e) => "Peer error: "@ + e.message@,
            WireError::Io(_) => "Generic IO error: "@ + inner,
            WireError::Serde(_) => "Serde error: "@ + inner,
            WireError::CompactBlockFiltersError(e) => "Compact block filters error: "@ + e.debug_rendered(inner),
            WireError::InvalidAddress(e) => "We couldn't parse the provided address due to: "@ + e.message@,
            WireError::Transport(TransportError::Other { message }) => "Transport error: "@ + message@,
            WireError::Transport(TransportError::Io(_)) => "Transport error: "@ + inner,
        }
    }

    /// Whether the rendering shows a wrapped failure by its debug form,
    /// whose text is not stated here.
    pub open spec fn renders_opaque(&self) -> bool {
        ||| self matches WireError::Blockchain(e) && e.renders_opaque()
        ||| self is Io
        ||| self is Serde
        ||| self matches WireError::CompactBlockFiltersError(e) && e.debug_opaque()
        ||| self matches WireError::Transport(TransportError::Io(_))
    }

    /// Renders the error: a fixed text, or a prefix followed by the wrapped
    /// failure. Chain and filter-store failures are shown by their debug
    /// form; the debug form of a wrapped I/O, JSON, filter or accumulator
    /// failure, or of a store's failure, is not stated here.
    pub fn to_string(&self) -> (s: String)
        ensures
            exists|inner: Seq<char>| s@ == self.rendered(inner),
            !self.renders_opaque() ==> s@ == self.rendered(Seq::empty()),
    {
        let s = match self {
            WireError::UnreachableNetwork => String::from_str("The provided network is invalid or unreachable"),
            WireError::CoinbaseNotMatured => String::from_str("Coinbase isn't mature yet"),
            WireError::PeerNotFound => String::from_str("Peer not found in our current connections list"),
            WireError::PeerMisbehaving => String::from_str("Our peer is misbehaving"),
            WireError::AnchorFileNotFound => String::from_str("Failed to init Utreexo peers: anchors.json does not exist yet"),
            WireError::NoPeerToSendRequest => String::from_str("We couldn't find a peer to send the request"),
            WireError::PeerTimeout => String::from_str("Peer timed out"),
            WireError::PoisonedLock => String::from_str("Poisoned lock"),
            WireError::NoAddressesAvailable => String::from_str("No addresses available to connect to"),
            WireError::BlockNotFound => String::from_str("We tried to work on a block we don't have"),
            WireError::BlockProofNotFound => String::from_str("We tried to work on a block that we don't have a proof for yet"),
            WireError::LeafDataNotFound => String::from_str("Couldn't find the leaf data for a block"),
            WireError::AssumedChainInvalid => String::from_str("We assumed a chain with invalid blocks, something went really wrong"),
            WireError::AddressMan(e) => {
                let mut s = String::from_str("Address book error: ");
                s.append(e.message.as_str());
                s
            },
            WireError::RunningCtx(e) => {
                let mut s = String::from_str("Running node error: ");
                s.append(e.message.as_str());
                s
            },
            WireError::UserReq(e) => {
                let mut s = String::from_str("User request error: ");
                s.append(e.message.as_str());
                s
            },
            WireError::ChainSelector(e) => {
                let mut s = String::from_str("Chain selection error: ");
                s.append(e.message.as_str());
                s
            },
            WireError::PeerMan(e) => {
                let mut s = String::from_str("Peer management error: ");
                s.append(e.message.as_str());
                s
            },
            WireError::Blockchain(e) => {
                let mut s = String::from_str("Blockchain error: ");
                let t = e.debug_string();
                s.append(t.as_str());
                proof {
                    let w = choose|w: Seq<char>| t@ == e.debug_rendered(w);
                    assert(s@ == self.rendered(w));
                    if !e.renders_opaque() {
                        assert(s@ == self.rendered(Seq::empty()));
                    }
                }
                s
            },
            WireError::ChannelSend(e) => {
                let mut s = String::from_str("Error while writing into channel: ");
                let t = e.message.clone();
                s.append(t.as_str());
                assert(s@ == self.rendered(t@));
                s
            },
            WireError::PeerError(e) => {
                let mut s = String::from_str("Peer error: ");
                let t = e.message.clone();
                s.append(t.as_str());
                assert(s@ == self.rendered(t@));
                s
            },
            WireError::Io(e) => {
                let mut s = String::from_str("Generic IO error: ");
                let t = io_error_debug(e);
                s.append(t.as_str());
                assert(s@ == self.rendered(t@));
                s
            },
            WireError::Serde(e) => {
                let mut s = String::from_str("Serde error: ");
                let t = serde_error_debug(e);
                s.append(t.as_str());
                assert(s@ == self.rendered(t@));
                s
            },
            WireError::CompactBlockFiltersError(e) => {
                let mut s = String::from_str("Compact block filters error: ");
                let t = e.debug_string();
                s.append(t.as_str());
                proof {
                    let w = choose|w: Seq<char>| t@ == e.debug_rendered(w);
                    assert(s@ == self.rendered(w));
                    if !e.debug_opaque() {
                        assert(s@ == self.rendered(Seq::empty()));
                    }
                }
                s
            },
            WireError::InvalidAddress(e) => {
                let mut s = String::from_str("We couldn't parse the provided address due to: ");
                let t = e.message.clone();
                s.append(t.as_str());
                assert(s@ == self.rendered(t@));
                s
            },
            WireError::Transport(e) => {
                let mut s = String::from_str("Transport error: ");
                let t = e.to_string();
                s.append(t.as_str());
                assert(s@ == self.rendered(t@));
                s
            },
        };
        proof {
            if !self.renders_opaque() {
                assert(s@ == self.rendered(Seq::empty()));
            }
        }
        s
    }


    /// The wrapped failure, for the variants that wrap one, so that a
    /// caller can walk back to the root cause; none for the variants
    /// that describe a condition.
    pub fn source(&self) -> (r: Option<WireErrorSource<'_>>)
        ensures
            match self {
                WireError::AddressMan(e) => r == Some(WireErrorSource::AddressMan(e)),
                WireError::RunningCtx(e) => r == Some(WireErrorSource::RunningCtx(e)),
                WireError::UserReq(e) => r == Some(WireErrorSource::UserReq(e)),
                WireError::ChainSelector(e) => r == Some(WireErrorSource::ChainSelector(e)),
                WireError::PeerMan(e) => r == Some(WireErrorSource::PeerMan(e)),
                WireError::Blockchain(e) => r == Some(WireErrorSource::Blockchain(e)),
                WireError::ChannelSend(e) => r == Some(WireErrorSource::ChannelSend(e)),
                WireError::PeerError(e) => r == Some(WireErrorSource::PeerError(e)),
                WireError::Io(e) => r == Some(WireErrorSource::Io(e)),
                WireError::Serde(e) => r == Some(WireErrorSource::Serde(e)),
                WireError::CompactBlockFiltersError(e) => r == Some(WireErrorSource::CompactBlockFiltersError(e)),
                WireError::InvalidAddress(e) => r == Some(WireErrorSource::InvalidAddress(e)),
                WireError::Transport(e) => r == Some(WireErrorSource::Transport(e)),
                _ => r is None,
            },
    {
        match self {
            WireError::AddressMan(e) => Some(WireErrorSource::AddressMan(e)),
            WireError::RunningCtx(e) => Some(WireErrorSource::RunningCtx(e)),
            WireError::UserReq(e) => Some(WireErrorSource::UserReq(e)),
            WireError::ChainSelector(e) => Some(WireErrorSource::ChainSelector(e)),
            WireError::PeerMan(e) => Some(WireErrorSource::PeerMan(e)),
            WireError::Blockchain(e) => Some(WireErrorSource::Blockchain(e)),
            WireError::ChannelSend(e) => Some(WireErrorSource::ChannelSend(e)),
            WireError::PeerError(e) => Some(WireErrorSource::PeerError(e)),
            WireError::Io(e) => Some(WireErrorSource::Io(e)),
            WireError::Serde(e) => Some(WireErrorSource::Serde(e)),
            WireError::CompactBlockFiltersError(e) => Some(WireErrorSource::CompactBlockFiltersError(e)),
            WireError::InvalidAddress(e) => Some(WireErrorSource::InvalidAddress(e)),
            WireError::Transport(e) => Some(WireErrorSource::Transport(e)),
            WireError::UnreachableNetwork | WireError::CoinbaseNotMatured | WireError::PeerNotFound | WireError::PeerMisbehaving | WireError::AnchorFileNotFound | WireError::NoPeerToSendRequest | WireError::PeerTimeout | WireError::PoisonedLock | WireError::NoAddressesAvailable | WireError::BlockNotFound | WireError::BlockProofNotFound | WireError::LeafDataNotFound | WireError::AssumedChainInvalid => None,
        }
    }
}

/// The failure wrapped by a [`WireError`].
pub enum WireErrorSource<'a> {
    AddressMan(&'a AddressManError),
    RunningCtx(&'a RunningCtxError),
    UserReq(&'a UserReqError),
    ChainSelector(&'a ChainSelectorError),
    PeerMan(&'a PeerManError),
    Blockchain(&'a BlockchainError),
    ChannelSend(&'a ChannelSendError),
    PeerError(&'a PeerError),
    Io(&'a std::io::Error),
    Serde(&'a serde_json::Error),
    CompactBlockFiltersError(&'a IterableFilterStoreError),
    InvalidAddress(&'a InvalidAddressError),
    Transport(&'a TransportError),
}

impl From<AddressManError> for WireError {
    fn from(e: AddressManError) -> (r: WireError) {
        WireError::AddressMan(e)
    }
}

impl vstd::std_specs::convert::FromSpecImpl<AddressManError> for WireError {
    open spec fn obeys_from_spec() -> bool {
        true
    }

    open spec fn from_spec(e: AddressManError) -> WireError {
        WireError::AddressMan(e)
    }
}

impl From<RunningCtxError> for WireError {
    fn from(e: RunningCtxError) -> (r: WireError) {
        WireError::RunningCtx(e)
    }
}

impl vstd::std_specs::convert::FromSpecImpl<RunningCtxError> for WireError {
    open spec fn obeys_from_spec() -> bool {
        true
    }

    open spec fn from_spec(e: RunningCtxError) -> WireError {
        WireError::RunningCtx(e)
    }
}

impl From<UserReqError> for WireError {
    fn from(e: UserReqError) -> (r: WireError) {
        WireError::UserReq(e)
    }
}

impl vstd::std_specs::convert::FromSpecImpl<UserReqError> for WireError {
    open spec fn obeys_from_spec() -> bool {
        true
    }

    open spec fn from_spec(e: UserReqError) -> WireError {
        WireError::UserReq(e)
    }
}

impl From<ChainSelectorError> for WireError {
    fn from(e: ChainSelectorError) -> (r: WireError) {
        WireError::ChainSelector(e)
    }
}

impl vstd::std_specs::convert::FromSpecImpl<ChainSelectorError> for WireError {
    open spec fn obeys_from_spec() -> bool {
        true
    }

    open spec fn from_spec(e: ChainSelectorError) -> WireError {
        WireError::ChainSelector(e)
    }
}

impl From<PeerManError> for WireError {
    fn from(e: PeerManError) -> (r: WireError) {
        WireError::PeerMan(e)
    }
}

impl vstd::std_specs::convert::FromSpecImpl<PeerManError> for WireError {
    open spec fn obeys_from_spec() -> bool {
        true
    }

    open spec fn from_spec(e: PeerManError) -> WireError {
        WireError::PeerMan(e)
    }
}

impl From<BlockchainError> for WireError {
    fn from(e: BlockchainError) -> (r: WireError) {
        WireError::Blockchain(e)
    }
}

impl vstd::std_specs::convert::FromSpecImpl<BlockchainError> for WireError {
    open spec fn obeys_from_spec() -> bool {
        true
    }

    open spec fn from_spec(e: BlockchainError) -> WireError {
        WireError::Blockchain(e)
    }
}

impl From<ChannelSendError> for WireError {
    fn from(e: ChannelSendError) -> (r: WireError) {
        WireError::ChannelSend(e)
    }
}

impl vstd::std_specs::convert::FromSpecImpl<ChannelSendError> for WireError {
    open spec fn obeys_from_spec() -> bool {
        true
    }

    open spec fn from_spec(e: ChannelSendError) -> WireError {
        WireError::ChannelSend(e)
    }
}

impl From<PeerError> for WireError {
    fn from(e: PeerError) -> (r: WireError) {
        WireError::PeerError(e)
    }
}

impl vstd::std_specs::convert::FromSpecImpl<PeerError> for WireError {
    open spec fn obeys_from_spec() -> bool {
        true
    }

    open spec fn from_spec(e: PeerError) -> WireError {
        WireError::PeerError(e)
    }
}

impl From<std::io::Error> for WireError {
    fn from(e: std::io::Error) -> (r: WireError) {
        WireError::Io(e)
    }
}

impl vstd::std_specs::convert::FromSpecImpl<std::io::Error> for WireError {
    open spec fn obeys_from_spec() -> bool {
        true
    }

    open spec fn from_spec(e: std::io::Error) -> WireError {
        WireError::Io(e)
    }
}

impl From<serde_json::Error> for WireError {
    fn from(e: serde_json::Error) -> (r: WireError) {
        WireError::Serde(e)
    }
}

impl vstd::std_specs::convert::FromSpecImpl<serde_json::Error> for WireError {
    open spec fn obeys_from_spec() -> bool {
        true
    }

    open spec fn from_spec(e: serde_json::Error) -> WireError {
        WireError::Serde(e)
    }
}

impl From<IterableFilterStoreError> for WireError {
    fn from(e: IterableFilterStoreError) -> (r: WireError) {
        WireError::CompactBlockFiltersError(e)
    }
}

impl vstd::std_specs::convert::FromSpecImpl<IterableFilterStoreError> for WireError {
    open spec fn obeys_from_spec() -> bool {
        true
    }

    open spec fn from_spec(e: IterableFilterStoreError) -> WireError {
        WireError::CompactBlockFiltersError(e)
    }
}

impl From<InvalidAddressError> for WireError {
    fn from(e: InvalidAddressError) -> (r: WireError) {
        WireError::InvalidAddress(e)
    }
}

impl vstd::std_specs::convert::FromSpecImpl<InvalidAddressError> for WireError {
    open spec fn obeys_from_spec() -> bool {
        true
    }

    open spec fn from_spec(e: InvalidAddressError) -> WireError {
        WireError::InvalidAddress(e)
    }
}

impl TransportError {
    /// Renders the transport failure.
    pub fn to_string(&self) -> (s: String)
        ensures
            self matches TransportError::Other { message } ==> s == message,
    {
        match self {
            TransportError::Io(e) => io_error_debug(e),
            TransportError::Other { message } => message.clone(),
        }
    }
}

/// A transport failure as a failure of the peer-to-peer layer: an I/O
/// failure is reported as such, any other as a transport failure.
pub open spec fn transport_error_maps_to(e: TransportError) -> WireError {
    match e {
        TransportError::Io(io) => WireError::Io(io),
        TransportError::Other { .. } => WireError::Transport(e),
    }
}

impl From<TransportError> for WireError {
    fn from(e: TransportError) -> (r: WireError) {
        match e {
            TransportError::Io(io) => WireError::Io(io),
            other => WireError::Transport(other),
        }
    }
}

impl vstd::std_specs::convert::FromSpecImpl<TransportError> for WireError {
    open spec fn obeys_from_spec() -> bool {
        true
    }

    open spec fn from_spec(e: TransportError) -> WireError {
        transport_error_maps_to(e)
    }
}

} // verus!
