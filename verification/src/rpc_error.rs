//! The error a JSON-RPC client receives, and its wire rendering.

use vstd::prelude::*;
use crate::wire_error::AddrParseError;

verus! {

/// JSON-RPC's code for invalid method parameters.
pub const INVALID_PARAMS: i32 = -32602;

/// Bitcoin Core's code for a parameter with an unusable value.
pub const INVALID_PARAMETER: i32 = -8;

/// Bitcoin Core's code for a request about a peer that is not connected.
pub const NODE_NOT_CONNECTED: i32 = -29;

/// Bitcoin Core's code for any other failure.
pub const MISC_ERROR: i32 = -1;

/// A failure reported to a JSON-RPC client.
#[derive(Debug)]
pub enum JsonRpcError {
    /// A required parameter was not supplied; holds its name.
    MissingParameter(String),
    /// A parameter could not be read as the expected type; holds the details.
    InvalidParameterType(String),
    /// The `params` value was neither an array nor an object; holds what was sent.
    InvalidParameterStructure(String),
    /// `getmemoryinfo` was asked for a mode it does not implement.
    InvalidMemInfoMode,
    /// `addnode` was given a command it does not implement.
    InvalidAddnodeCommand,
    /// `disconnectnode` was given neither or both of an address and a node id.
    InvalidDisconnectNodeCommand,
    /// No connected peer matches the request.
    PeerNotFound,
    /// The node could not answer; holds its message.
    Node(String),
    /// A peer address could not be parsed; holds why.
    InvalidNetAddress(AddrParseError),
}

/// The error object of a JSON-RPC response.
#[derive(Debug)]
pub struct RpcError {
    pub code: i32,
    pub message: String,
    pub data: Option<String>,
}

impl JsonRpcError {
    /// The JSON-RPC error code.
    pub open spec fn code_of(&self) -> i32 {
        match self {
            JsonRpcError::MissingParameter(_) => INVALID_PARAMS,
            JsonRpcError::InvalidParameterType(_) => INVALID_PARAMS,
            JsonRpcError::InvalidParameterStructure(_) => INVALID_PARAMS,
            JsonRpcError::InvalidMemInfoMode => INVALID_PARAMETER,
            JsonRpcError::InvalidAddnodeCommand => INVALID_PARAMETER,
            JsonRpcError::InvalidDisconnectNodeCommand => INVALID_PARAMETER,
            JsonRpcError::PeerNotFound => NODE_NOT_CONNECTED,
            JsonRpcError::Node(_) => MISC_ERROR,
            JsonRpcError::InvalidNetAddress(_) => INVALID_PARAMETER,
        }
    }

    /// The fixed message of the error kind.
    pub open spec fn message_of(&self) -> Seq<char> {
        match self {
            JsonRpcError::MissingParameter(_) => "Missing parameter"@,
            JsonRpcError::InvalidParameterType(_) => "Invalid parameter type"@,
            JsonRpcError::InvalidParameterStructure(_) => "Invalid parameter structure"@,
            JsonRpcError::InvalidMemInfoMode => "Invalid memory info mode"@,
            JsonRpcError::InvalidAddnodeCommand => "Invalid addnode command"@,
            JsonRpcError::InvalidDisconnectNodeCommand => "Invalid disconnectnode command"@,
            JsonRpcError::PeerNotFound => "Peer not found"@,
            JsonRpcError::Node(_) => "Node error"@,
            JsonRpcError::InvalidNetAddress(_) => "Invalid network address"@,
        }
    }

    /// The text that the error carries beyond its kind, if any.
    pub open spec fn detail_of(&self) -> Option<Seq<char>> {
        match self {
            JsonRpcError::MissingParameter(d) => Some(d@),
            JsonRpcError::InvalidParameterType(d) => Some(d@),
            JsonRpcError::InvalidParameterStructure(d) => Some(d@),
            JsonRpcError::Node(d) => Some(d@),
            JsonRpcError::InvalidNetAddress(e) => Some(e.rendered()),
            _ => None,
        }
    }

    /// The rendered error: the message, then `": "` and the detail when there is one.
    pub open spec fn rendered(&self) -> Seq<char> {
        match self.detail_of() {
            Some(d) => self.message_of() + ": "@ + d,
            None => self.message_of(),
        }
    }

    /// The fixed message of the error kind.
    pub fn message(&self) -> (s: String)
        ensures
            s@ == self.message_of(),
    {
        match self {
            JsonRpcError::MissingParameter(_) => String::from_str("Missing parameter"),
            JsonRpcError::InvalidParameterType(_) => String::from_str("Invalid parameter type"),
            JsonRpcError::InvalidParameterStructure(_) => String::from_str(
                "Invalid parameter structure",
            ),
            JsonRpcError::InvalidMemInfoMode => String::from_str("Invalid memory info mode"),
            JsonRpcError::InvalidAddnodeCommand => String::from_str("Invalid addnode command"),
            JsonRpcError::InvalidDisconnectNodeCommand => String::from_str(
                "Invalid disconnectnode command",
            ),
            JsonRpcError::PeerNotFound => String::from_str("Peer not found"),
            JsonRpcError::Node(_) => String::from_str("Node error"),
            JsonRpcError::InvalidNetAddress(_) => String::from_str("Invalid network address"),
        }
    }

    /// The detail text, if the error carries one.
    pub fn detail(&self) -> (d: Option<String>)
        ensures
            match d {
                Some(s) => self.detail_of() == Some(s@),
                None => self.detail_of() is None,
            },
    {
        match self {
            JsonRpcError::MissingParameter(d) => Some(d.clone()),
            JsonRpcError::InvalidParameterType(d) => Some(d.clone()),
            JsonRpcError::InvalidParameterStructure(d) => Some(d.clone()),
            JsonRpcError::Node(d) => Some(d.clone()),
            JsonRpcError::InvalidNetAddress(e) => Some(e.to_string()),
            _ => None,
        }
    }

    /// The JSON-RPC error object sent to the client.
    pub fn rpc_error(&self) -> (r: RpcError)
        ensures
            r.code == self.code_of(),
            r.message@ == self.message_of(),
            match r.data {
                Some(s) => self.detail_of() == Some(s@),
                None => self.detail_of() is None,
            },
    {
        let code = match self {
            JsonRpcError::MissingParameter(_) => INVALID_PARAMS,
            JsonRpcError::InvalidParameterType(_) => INVALID_PARAMS,
            JsonRpcError::InvalidParameterStructure(_) => INVALID_PARAMS,
            JsonRpcError::InvalidMemInfoMode => INVALID_PARAMETER,
            JsonRpcError::InvalidAddnodeCommand => INVALID_PARAMETER,
            JsonRpcError::InvalidDisconnectNodeCommand => INVALID_PARAMETER,
            JsonRpcError::PeerNotFound => NODE_NOT_CONNECTED,
            JsonRpcError::Node(_) => MISC_ERROR,
            JsonRpcError::InvalidNetAddress(_) => INVALID_PARAMETER,
        };
        RpcError { code, message: self.message(), data: self.detail() }
    }

    /// The address failure wrapped by an invalid-address error, so that a
    /// caller can still reach why the address did not parse; none for the
    /// other errors.
    pub fn source(&self) -> (r: Option<AddrParseError>)
        ensures
            match self {
                JsonRpcError::InvalidNetAddress(e) => r == Some(*e),
                _ => r is None,
            },
    {
        match self {
            JsonRpcError::InvalidNetAddress(e) => Some(*e),
            _ => None,
        }
    }

    /// Renders the error as the client sees it: the message of
    /// [`rpc_error`](Self::rpc_error), then `": "` and the detail when there is one.
    pub fn to_string(&self) -> (s: String)
        ensures
            s@ == self.rendered(),
    {
        let mut s = self.message();
        match self.detail() {
            Some(d) => {
                s.append(": ");
                s.append(d.as_str());
            },
            None => {},
        }
        s
    }
}

/// What a client reads in a rendered error is the message of its error
/// object, followed by the detail the error carries.
pub proof fn lemma_rendered_extends_message(e: JsonRpcError)
    ensures
        e.rendered().len() >= e.message_of().len(),
        e.rendered().subrange(0, e.message_of().len() as int) == e.message_of(),
        e.detail_of() is None ==> e.rendered() == e.message_of(),
{
    match e.detail_of() {
        Some(d) => {
            assert((e.message_of() + ": "@ + d).subrange(0, e.message_of().len() as int)
                =~= e.message_of());
        },
        None => {
            assert(e.rendered().subrange(0, e.message_of().len() as int) =~= e.message_of());
        },
    }
}

} // verus!
