//! The media session manager: its configuration, its commands and events,
//! and the records it keeps of streams and viewers.

use vstd::prelude::*;
use crate::time::Timestamp;

pub mod engine;
pub mod real_webrtc;
pub mod test_trigger;
pub mod webrtc;

verus! {

/// Configuration of the media session manager.
#[derive(Debug, Clone, PartialEq, Eq)]
pub struct StreamingConfig {
    pub webrtc_port: u16,
    pub max_streams: u32,
    pub max_viewers_per_stream: u32,
    pub enable_relay: bool,
    /// How many concurrent streams a relay can carry.
    pub relay_capacity: u32,
    pub discovery_interval_seconds: u64,
    /// Selects the network transport; otherwise the in-memory one is used.
    pub use_real_webrtc: bool,
}

/// Quality figures of a running stream.
///
/// The two fractional figures are carried as the 64 bits of their IEEE 754
/// binary64 encoding; nothing in this crate computes with them.
#[derive(Debug, Clone, PartialEq, Eq)]
pub struct StreamMetrics {
    pub bandwidth_mbps_bits: u64,
    pub latency_ms: u32,
    pub packet_loss_percent_bits: u64,
    pub resolution: String,
    pub fps: u32,
    pub bitrate_kbps: u32,
    pub jitter_ms: u32,
}

impl StreamMetrics {
    /// A copy of these figures.
    pub fn duplicate(&self) -> (copy: Self)
        ensures
            copy == *self,
    {
        StreamMetrics {
            bandwidth_mbps_bits: self.bandwidth_mbps_bits,
            latency_ms: self.latency_ms,
            packet_loss_percent_bits: self.packet_loss_percent_bits,
            resolution: self.resolution.clone(),
            fps: self.fps,
            bitrate_kbps: self.bitrate_kbps,
            jitter_ms: self.jitter_ms,
        }
    }
}

/// Encoding settings that a creator asks for.
#[derive(Debug, Clone, PartialEq, Eq)]
pub struct StreamQualitySettings {
    /// "H264", "VP8", "VP9"
    pub video_codec: String,
    /// "Opus", "AAC"
    pub audio_codec: String,
    pub max_bitrate_kbps: u32,
    pub target_fps: u32,
    /// "1920x1080", "1280x720", ...
    pub resolution: String,
    pub adaptive_bitrate: bool,
}

impl StreamQualitySettings {
    /// Whether these are the settings used when a stream is prepared without
    /// a request from its creator.
    pub open spec fn is_default(&self) -> bool {
        &&& self.video_codec@ == "H264"@
        &&& self.audio_codec@ == "Opus"@
        &&& self.max_bitrate_kbps == 2000
        &&& self.target_fps == 30
        &&& self.resolution@ == "1280x720"@
        &&& self.adaptive_bitrate
    }

    /// A copy of these settings.
    pub fn duplicate(&self) -> (copy: Self)
        ensures
            copy == *self,
    {
        StreamQualitySettings {
            video_codec: self.video_codec.clone(),
            audio_codec: self.audio_codec.clone(),
            max_bitrate_kbps: self.max_bitrate_kbps,
            target_fps: self.target_fps,
            resolution: self.resolution.clone(),
            adaptive_bitrate: self.adaptive_bitrate,
        }
    }
}

impl Default for StreamQualitySettings {
    fn default() -> (settings: Self)
        ensures
            settings.is_default(),
    {
        StreamQualitySettings {
            video_codec: String::from_str("H264"),
            audio_codec: String::from_str("Opus"),
            max_bitrate_kbps: 2000,
            target_fps: 30,
            resolution: String::from_str("1280x720"),
            adaptive_bitrate: true,
        }
    }
}

/// The media transport could not do what it was asked to do.
#[derive(Debug, Clone, PartialEq, Eq)]
pub struct TransportFailure {
    /// What went wrong, in the transport's words.
    pub message: String,
}

/// Events emitted by the media session manager.
#[derive(Debug, Clone, PartialEq, Eq)]
pub enum StreamingEvent {
    /// A creator's stream went live.
    StreamStarted { stream_id: String, creator: String },
    /// A viewer joined a stream.
    ViewerConnected { stream_id: String, viewer_id: String },
    /// A viewer left a stream.
    ViewerDisconnected { stream_id: String, viewer_id: String, reason: String },
    /// A stream ended.
    StreamEnded { stream_id: String, duration_seconds: u64 },
    /// New quality figures for a stream.
    QualityUpdate { stream_id: String, metrics: StreamMetrics },
    /// Total bandwidth in use changed (binary64 bits, Mbit/s).
    BandwidthUpdate { total_bandwidth_mbps_bits: u64 },
    /// The media transport failed.
    StreamingError { stream_id: String, error: String },
}

/// Commands accepted by the media session manager.
#[derive(Debug, Clone, PartialEq, Eq)]
pub enum StreamingCommand {
    /// Get ready for a newly registered stream.
    PrepareStream { stream_id: String, creator: String },
    /// Start transmitting, on the creator's side.
    StartStream { stream_id: String, creator: String, quality_settings: StreamQualitySettings },
    /// Stop transmitting.
    StopStream { stream_id: String },
    /// Admit a viewer who has paid.
    GrantAccess { stream_id: String, viewer: String },
    /// Evict a viewer.
    RevokeAccess { stream_id: String, viewer: String },
    /// Join a stream as a viewer.
    ConnectToStream { stream_id: String, viewer: String },
    /// Leave a stream.
    DisconnectFromStream { stream_id: String, viewer: String },
    /// Change what a relay may carry (bandwidth as binary64 bits, Mbit/s).
    UpdateRelayConfig { max_streams: u32, max_bandwidth_mbps_bits: u64 },
}

/// What is known about a stream that is being transmitted.
#[derive(Debug, Clone, PartialEq, Eq)]
pub struct ActiveStream {
    pub stream_id: String,
    pub creator: String,
    pub viewers: Vec<String>,
    pub start_time: Timestamp,
    pub quality_settings: StreamQualitySettings,
    pub current_metrics: Option<StreamMetrics>,
    /// Binary64 bits.
    pub total_bandwidth_usage_bits: u64,
}

/// One viewer's connection to one stream.
#[derive(Debug, Clone, PartialEq, Eq)]
pub struct ViewerConnection {
    pub viewer_id: String,
    pub stream_id: String,
    pub connected_at: Timestamp,
    /// Identifier of the peer connection, once there is one.
    pub peer_connection: Option<String>,
    pub quality_metrics: Option<StreamMetrics>,
}

/// What a node advertises about a stream to others.
#[derive(Debug, Clone, PartialEq, Eq)]
pub struct StreamDiscoveryInfo {
    pub stream_id: String,
    pub creator: String,
    pub title: String,
    pub description: Option<String>,
    pub is_live: bool,
    pub viewer_count: u32,
    /// "HD", "SD", ...
    pub quality: String,
    pub price_per_minute: u64,
    pub category: Option<String>,
    pub tags: Vec<String>,
}

} // verus!
