//! The node: what kind it is, and how its parts are configured.

use vstd::prelude::*;
use crate::blockchain::BlockchainConfig;
use crate::streaming::StreamingConfig;
use crate::text::{decimal, decimal_string};

verus! {

/// The kind of a node.
#[derive(Debug, Clone, PartialEq, Eq)]
pub enum NodeType {
    /// A node that runs the ledger and, if asked to, the media session
    /// manager.
    Full,
    /// A node for small devices, which follows the given peers.
    Light { bootnodes: Vec<String> },
}

/// A node: its kind and what it was started with.
#[derive(Debug, Clone, PartialEq, Eq)]
pub struct SutantraNode {
    pub node_type: NodeType,
    pub port: u16,
    pub is_validator: bool,
    pub enable_streaming: bool,
}

/// How far above the node's port the media transport listens.
pub const WEBRTC_PORT_OFFSET: u16 = 1000;

/// The port of the node that sets up the demonstration stream on its own.
pub const DEMO_NODE_PORT: u16 = 30333;

/// How long the demonstration node waits before it sets up its stream, in
/// seconds.
pub const DEMO_DELAY_SECONDS: u64 = 3;

/// The directory in which the ledger of the node at `port` keeps its data.
pub open spec fn data_dir_of(port: u16) -> Seq<char> {
    "./data/blockchain_"@ + decimal(port as nat)
}

/// Whether `config` is how a full node at `port` configures its media
/// session manager.
pub open spec fn is_streaming_config_of(config: StreamingConfig, port: u16) -> bool {
    &&& config.webrtc_port == port + WEBRTC_PORT_OFFSET
    &&& config.max_streams == 100
    &&& config.max_viewers_per_stream == 1000
    &&& config.enable_relay
    &&& config.relay_capacity == 1000
    &&& config.discovery_interval_seconds == 30
    &&& config.use_real_webrtc
}

impl SutantraNode {
    /// A full node.
    pub fn new(port: u16, is_validator: bool, enable_streaming: bool) -> (node: SutantraNode)
        ensures
            node.node_type is Full,
            node.port == port,
            node.is_validator == is_validator,
            node.enable_streaming == enable_streaming,
    {
        SutantraNode { node_type: NodeType::Full, port, is_validator, enable_streaming }
    }

    /// A light node: it never validates and always streams.
    pub fn new_light(port: u16, bootnodes: Vec<String>) -> (node: SutantraNode)
        ensures
            node.node_type == (NodeType::Light { bootnodes }),
            node.port == port,
            !node.is_validator,
            node.enable_streaming,
    {
        SutantraNode {
            node_type: NodeType::Light { bootnodes },
            port,
            is_validator: false,
            enable_streaming: true,
        }
    }

    /// Whether the node runs as a full node.
    pub fn is_full(&self) -> (full: bool)
        ensures
            full == (self.node_type is Full),
    {
        match self.node_type {
            NodeType::Full => true,
            NodeType::Light { .. } => false,
        }
    }

    /// How the node configures its ledger.
    pub fn blockchain_config(&self) -> (config: BlockchainConfig)
        ensures
            config.port == self.port,
            config.is_validator == self.is_validator,
            config.data_dir@ == data_dir_of(self.port),
    {
        BlockchainConfig {
            port: self.port,
            is_validator: self.is_validator,
            data_dir: String::from_str("./data/blockchain_").concat(
                decimal_string(self.port as u64).as_str(),
            ),
        }
    }

    /// The port on which the node's media transport listens, if there is
    /// such a port: it lies `WEBRTC_PORT_OFFSET` above the node's own.
    pub fn webrtc_port(&self) -> (port: Option<u16>)
        ensures
            port == if self.port + WEBRTC_PORT_OFFSET <= u16::MAX {
                Some((self.port + WEBRTC_PORT_OFFSET) as u16)
            } else {
                None
            },
    {
        if self.port <= u16::MAX - WEBRTC_PORT_OFFSET {
            Some(self.port + WEBRTC_PORT_OFFSET)
        } else {
            None
        }
    }

    /// How the node configures its media session manager.
    pub fn streaming_config(&self) -> (config: StreamingConfig)
        requires
            self.port + WEBRTC_PORT_OFFSET <= u16::MAX,
        ensures
            is_streaming_config_of(config, self.port),
    {
        StreamingConfig {
            webrtc_port: self.port + WEBRTC_PORT_OFFSET,
            max_streams: 100,
            max_viewers_per_stream: 1000,
            enable_relay: true,
            relay_capacity: 1000,
            discovery_interval_seconds: 30,
            use_real_webrtc: true,
        }
    }

    /// Whether the node sets up the demonstration stream on its own: the
    /// node at `DEMO_NODE_PORT` does, if it streams.
    pub fn triggers_test_stream(&self) -> (yes: bool)
        ensures
            yes == (self.enable_streaming && self.port == DEMO_NODE_PORT),
    {
        self.enable_streaming && self.port == DEMO_NODE_PORT
    }
}

/// What a node reports about itself.
#[derive(Debug, Clone, PartialEq, Eq)]
pub struct NodeStatus {
    pub node_type: String,
    pub port: u16,
    pub is_validator: bool,
    pub blockchain_status: BlockchainStatus,
    pub streaming_status: Option<StreamingStatus>,
    pub connected_peers: u32,
    pub uptime_seconds: u64,
}

/// What a node reports about its ledger.
#[derive(Debug, Clone, PartialEq, Eq)]
pub struct BlockchainStatus {
    pub is_synced: bool,
    pub best_block: u64,
    pub finalized_block: u64,
    pub pending_transactions: u32,
    pub account_balance: u64,
}

/// What a node reports about its media session manager. The two fractional
/// figures are carried as the 64 bits of their IEEE 754 binary64 encoding.
#[derive(Debug, Clone, PartialEq, Eq)]
pub struct StreamingStatus {
    pub active_streams: u32,
    pub total_viewers: u32,
    pub bandwidth_usage_mbps_bits: u64,
    pub relay_capacity_percent_bits: u64,
}

} // verus!
