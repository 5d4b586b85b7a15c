//! The backend that tools query: a node reached over a local socket.
use vstd::prelude::*;
use vstd::string::StringExecFns;

verus! {

/// Network magic of the main network.
pub const MAINNET_MAGIC: u64 = 764824073;

/// Why a query against the node failed.
#[derive(Debug)]
pub enum NodeError {
    SocketNotConfigured,
    ConnectionFailed(String),
    QueryFailed(String),
    ProtocolError(String),
}

impl NodeError {
    /// The human-readable text of the failure.
    pub open spec fn message_spec(&self) -> Seq<char> {
        match self {
            NodeError::SocketNotConfigured => "Node socket not configured"@,
            NodeError::ConnectionFailed(d) => "Failed to connect to node: "@ + d@,
            NodeError::QueryFailed(d) => "Query failed: "@ + d@,
            NodeError::ProtocolError(d) => "Protocol error: "@ + d@,
        }
    }

    pub fn message(&self) -> (r: String)
        ensures
            r@ == self.message_spec(),
    {
        match self {
            NodeError::SocketNotConfigured => "Node socket not configured".to_string(),
            NodeError::ConnectionFailed(d) => {
                let mut s = "Failed to connect to node: ".to_string();
                s.append(d.as_str());
                s
            },
            NodeError::QueryFailed(d) => {
                let mut s = "Query failed: ".to_string();
                s.append(d.as_str());
                s
            },
            NodeError::ProtocolError(d) => {
                let mut s = "Protocol error: ".to_string();
                s.append(d.as_str());
                s
            },
        }
    }
}

/// The most recent block known to the node.
#[derive(Debug)]
pub struct ChainTip {
    pub slot: u64,
    pub hash: String,
    pub block_number: Option<u64>,
}

/// A point on the chain as the node reports it.
#[derive(Debug)]
pub enum ChainPoint {
    Origin,
    Specific(u64, Vec<u8>),
}

/// Lower-case hexadecimal digit of `n`, for `n < 16`.
pub open spec fn hex_digit(n: u8) -> char {
    if n < 10 {
        ((n + 48) as u8) as char
    } else {
        ((n + 87) as u8) as char
    }
}

/// Two lower-case hexadecimal digits per byte, high nibble first.
pub open spec fn hex_of(b: Seq<u8>) -> Seq<char>
    decreases b.len(),
{
    if b.len() == 0 {
        Seq::empty()
    } else {
        hex_of(b.drop_last()) + seq![hex_digit(b.last() / 16), hex_digit(b.last() % 16)]
    }
}

/// Relies on hex::encode: two lower-case hexadecimal digits for each byte, in order.
#[verifier::external_body]
fn hex_encode(b: &Vec<u8>) -> (r: String)
    ensures
        r@ == hex_of(b@),
{
    hex::encode(b)
}

impl ChainTip {
    /// The tip described by a chain point and the block number at it.
    pub fn from_point(point: ChainPoint, block_number: u64) -> (r: ChainTip)
        ensures
            point is Origin ==> r.slot == 0 && r.hash@ == "origin"@,
            point is Specific ==> r.slot == point->Specific_0 && r.hash@ == hex_of(
                point->Specific_1@,
            ),
            r.block_number == Some(block_number),
    {
        let (slot, hash) = match point {
            ChainPoint::Origin => (0u64, "origin".to_string()),
            ChainPoint::Specific(slot, bytes) => (slot, hex_encode(&bytes)),
        };
        ChainTip { slot, hash, block_number: Some(block_number) }
    }
}

/// Where the node is reached, and which network it serves.
#[derive(Debug)]
pub struct NodeClient {
    socket_path: Option<String>,
    network_magic: u64,
}

impl NodeClient {
    pub closed spec fn socket_spec(&self) -> Option<Seq<char>> {
        match self.socket_path {
            Some(p) => Some(p@),
            None => None,
        }
    }

    pub closed spec fn magic_spec(&self) -> u64 {
        self.network_magic
    }

    pub fn new(socket_path: Option<String>, network_magic: u64) -> (r: NodeClient)
        ensures
            r.socket_spec() == (match socket_path {
                Some(p) => Some(p@),
                None => None::<Seq<char>>,
            }),
            r.magic_spec() == network_magic,
    {
        NodeClient { socket_path, network_magic }
    }

    /// The socket to connect to; a client without one cannot query.
    pub fn connect_target(&self) -> (r: Result<String, NodeError>)
        ensures
            self.socket_spec() is None ==> r == Err::<String, NodeError>(
                NodeError::SocketNotConfigured,
            ),
            self.socket_spec() is Some ==> r is Ok && r->Ok_0@ == self.socket_spec()->0,
    {
        match &self.socket_path {
            Some(p) => Ok(p.clone()),
            None => Err(NodeError::SocketNotConfigured),
        }
    }

    pub fn is_configured(&self) -> (r: bool)
        ensures
            r == self.socket_spec() is Some,
    {
        self.socket_path.is_some()
    }

    pub fn network_magic(&self) -> (r: u64)
        ensures
            r == self.magic_spec(),
    {
        self.network_magic
    }

    /// Name of the network for a magic number.
    pub open spec fn network_name_of(magic: u64) -> Seq<char> {
        if magic == MAINNET_MAGIC {
            "mainnet"@
        } else if magic == 1 {
            "preprod"@
        } else if magic == 2 {
            "preview"@
        } else {
            "other"@
        }
    }

    pub fn network_name(&self) -> (r: &'static str)
        ensures
            r@ == Self::network_name_of(self.magic_spec()),
    {
        if self.network_magic == MAINNET_MAGIC {
            "mainnet"
        } else if self.network_magic == 1 {
            "preprod"
        } else if self.network_magic == 2 {
            "preview"
        } else {
            "other"
        }
    }
}

} // verus!
