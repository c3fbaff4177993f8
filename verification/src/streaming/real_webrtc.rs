//! The books of the network media transport: which streams it carries, who
//! watches them, and in what state each peer connection is. Tracks and peer
//! connections themselves live outside; these books say what exists.

use vstd::prelude::*;
use super::{StreamMetrics, StreamQualitySettings, TransportFailure};
use crate::string_map::{lemma_view_values_insert, string_views, view_values, StringMap};
use crate::text::{decimal, decimal_string, lemma_filter_next};
use crate::time::{current_time, Timestamp};

verus! {

/// The state of a peer connection.
#[derive(Debug, Clone, Copy, PartialEq, Eq, Structural)]
pub enum ConnectionStatus {
    Connecting,
    Connected,
    Disconnected,
    Failed,
}

/// What is known about one peer connection.
#[derive(Debug, Clone, PartialEq, Eq)]
pub struct PeerConnectionWrapper {
    /// The stream's id, a colon, and the viewer's id.
    pub peer_id: String,
    pub stream_id: String,
    pub viewer_id: String,
    pub connected_since: Timestamp,
    pub status: ConnectionStatus,
}

/// The mathematical content of a [`PeerConnectionWrapper`].
pub struct PeerView {
    pub peer_id: Seq<char>,
    pub stream_id: Seq<char>,
    pub viewer_id: Seq<char>,
    pub connected_since: int,
    pub status: ConnectionStatus,
}

impl View for PeerConnectionWrapper {
    type V = PeerView;

    open spec fn view(&self) -> PeerView {
        PeerView {
            peer_id: self.peer_id@,
            stream_id: self.stream_id@,
            viewer_id: self.viewer_id@,
            connected_since: self.connected_since@,
            status: self.status,
        }
    }
}

/// The id of the connection between `viewer_id` and `stream_id`.
pub open spec fn peer_key(stream_id: Seq<char>, viewer_id: Seq<char>) -> Seq<char> {
    stream_id + ":"@ + viewer_id
}

/// The test that a peer connection belongs to `stream_id` and is
/// established.
pub open spec fn is_connected_to(stream_id: Seq<char>) -> spec_fn(PeerView) -> bool {
    |peer: PeerView| peer.stream_id == stream_id && peer.status is Connected
}

/// The views of `peers`, in order.
pub open spec fn peer_views(peers: Seq<PeerConnectionWrapper>) -> Seq<PeerView> {
    peers.map_values(|peer: PeerConnectionWrapper| peer@)
}

/// The peer connections of a transport, by their ids.
#[derive(Debug, Clone, PartialEq, Eq)]
pub struct PeerConnectionManager {
    pub connections: StringMap<PeerConnectionWrapper>,
}

impl View for PeerConnectionManager {
    type V = Map<Seq<char>, PeerView>;

    open spec fn view(&self) -> Map<Seq<char>, PeerView> {
        view_values(self.connections@)
    }
}

/// The id of the connection between `viewer_id` and `stream_id`.
pub fn peer_id_of(stream_id: &String, viewer_id: &String) -> (peer_id: String)
    ensures
        peer_id@ == peer_key(stream_id@, viewer_id@),
{
    stream_id.clone().concat(":").concat(viewer_id.as_str())
}

impl PeerConnectionManager {
    /// The connections are a well-formed map and each is filed under its
    /// own id.
    pub open spec fn wf(&self) -> bool {
        &&& self.connections.wf()
        &&& forall|i: int|
            0 <= i < self.connections.key_seq().len()
                ==> (#[trigger] self.connections.value_seq()[i]).peer_id@
                == self.connections.key_seq()[i]
    }

    /// The connections, oldest first.
    pub open spec fn peers(&self) -> Seq<PeerView> {
        peer_views(self.connections.value_seq())
    }

    /// How many established connections `stream_id` has.
    pub open spec fn connection_count(&self, stream_id: Seq<char>) -> nat {
        self.peers().filter(is_connected_to(stream_id)).len()
    }

    /// A manager without connections.
    pub fn new() -> (manager: PeerConnectionManager)
        ensures
            manager.wf(),
            manager@ == Map::<Seq<char>, PeerView>::empty(),
            manager.peers() == Seq::<PeerView>::empty(),
    {
        let manager = PeerConnectionManager { connections: StringMap::new() };
        manager
    }

    /// Notes, at `now`, that `viewer_id` starts to connect to `stream_id`.
    /// A connection of the same id is replaced.
    pub fn add_connection_at(&mut self, stream_id: String, viewer_id: String, now: Timestamp)
        requires
            old(self).wf(),
        ensures
            final(self).wf(),
            final(self)@ == old(self)@.insert(
                peer_key(stream_id@, viewer_id@),
                PeerView {
                    peer_id: peer_key(stream_id@, viewer_id@),
                    stream_id: stream_id@,
                    viewer_id: viewer_id@,
                    connected_since: now@,
                    status: ConnectionStatus::Connecting,
                },
            ),
    {
        let peer_id = peer_id_of(&stream_id, &viewer_id);
        let wrapper = PeerConnectionWrapper {
            peer_id: peer_id.clone(),
            stream_id,
            viewer_id,
            connected_since: now,
            status: ConnectionStatus::Connecting,
        };
        self.connections.insert(peer_id, wrapper);
    }

    /// Notes that `viewer_id` starts to connect to `stream_id`, at the
    /// instant the clock shows.
    pub fn add_connection(&mut self, stream_id: String, viewer_id: String)
        requires
            old(self).wf(),
        ensures
            final(self).wf(),
            exists|now: int|
                final(self)@ == old(self)@.insert(
                    peer_key(stream_id@, viewer_id@),
                    PeerView {
                        peer_id: peer_key(stream_id@, viewer_id@),
                        stream_id: stream_id@,
                        viewer_id: viewer_id@,
                        connected_since: now,
                        status: ConnectionStatus::Connecting,
                    },
                ),
    {
        let now = current_time();
        self.add_connection_at(stream_id, viewer_id, now);
    }

    /// Sets the state of the connection between `viewer_id` and
    /// `stream_id`, if there is one.
    pub fn update_status(&mut self, stream_id: &String, viewer_id: &String, status: ConnectionStatus)
        requires
            old(self).wf(),
        ensures
            final(self).wf(),
            final(self)@ == if old(self)@.contains_key(peer_key(stream_id@, viewer_id@)) {
                old(self)@.insert(
                    peer_key(stream_id@, viewer_id@),
                    PeerView { status, ..old(self)@[peer_key(stream_id@, viewer_id@)] },
                )
            } else {
                old(self)@
            },
    {
        let peer_id = peer_id_of(stream_id, viewer_id);
        match self.connections.position(&peer_id) {
            Some(i) => {
                {
                    let wrapper = self.connections.value_at_mut(i);
                    wrapper.status = status;
                }
            },
            None => {},
        }
    }

    /// Forgets the connection between `viewer_id` and `stream_id`.
    pub fn remove_connection(&mut self, stream_id: &String, viewer_id: &String)
        requires
            old(self).wf(),
        ensures
            final(self).wf(),
            final(self)@ == old(self)@.remove(peer_key(stream_id@, viewer_id@)),
    {
        let peer_id = peer_id_of(stream_id, viewer_id);
        self.connections.remove(&peer_id);
    }

    /// How many established connections `stream_id` has.
    pub fn get_connection_count(&self, stream_id: &String) -> (count: u32)
        requires
            self.wf(),
        ensures
            count == self.connection_count(stream_id@) as u32,
    {
        let ghost all = self.peers();
        let mut count: usize = 0;
        let mut i: usize = 0;
        while i < self.connections.len()
            invariant
                self.wf(),
                i <= self.connections.key_seq().len(),
                all == self.peers(),
                all.len() == self.connections.key_seq().len(),
                count == all.take(i as int).filter(is_connected_to(stream_id@)).len(),
                count <= i,
            decreases self.connections.key_seq().len() - i,
        {
            proof {
                lemma_filter_next(all, is_connected_to(stream_id@), i as int);
            }
            let peer = self.connections.value_at(i);
            let established = match peer.status {
                ConnectionStatus::Connected => true,
                _ => false,
            };
            if established && peer.stream_id == *stream_id {
                count += 1;
            }
            i += 1;
        }
        assert(all.take(i as int) =~= all);
        #[verifier::truncate]
        (count as u32)
    }
}

/// What is known about one viewer of a stream.
#[derive(Debug, Clone, PartialEq, Eq)]
pub struct ViewerInfo {
    pub viewer_id: String,
    pub connected_since: Timestamp,
    pub status: ConnectionStatus,
}

/// The mathematical content of a [`ViewerInfo`].
pub struct ViewerInfoView {
    pub viewer_id: Seq<char>,
    pub connected_since: int,
    pub status: ConnectionStatus,
}

impl View for ViewerInfo {
    type V = ViewerInfoView;

    open spec fn view(&self) -> ViewerInfoView {
        ViewerInfoView {
            viewer_id: self.viewer_id@,
            connected_since: self.connected_since@,
            status: self.status,
        }
    }
}

/// A stream that the network transport carries.
#[derive(Debug, Clone, PartialEq, Eq)]
pub struct StreamConnection {
    pub stream_id: String,
    pub creator: String,
    /// The viewers, by their ids.
    pub viewers: StringMap<ViewerInfo>,
    pub quality: StreamQualitySettings,
    pub metrics: StreamMetrics,
    /// How many peer connections of the stream were established when a
    /// viewer last joined or left.
    pub viewer_count: u32,
    pub active: bool,
}

/// The mathematical content of a [`StreamConnection`].
#[verifier::ext_equal]
pub struct StreamConnectionView {
    pub stream_id: Seq<char>,
    pub creator: Seq<char>,
    pub viewers: Map<Seq<char>, ViewerInfoView>,
    pub quality: StreamQualitySettings,
    pub metrics: StreamMetrics,
    pub viewer_count: u32,
    pub active: bool,
}

impl View for StreamConnection {
    type V = StreamConnectionView;

    open spec fn view(&self) -> StreamConnectionView {
        StreamConnectionView {
            stream_id: self.stream_id@,
            creator: self.creator@,
            viewers: view_values(self.viewers@),
            quality: self.quality,
            metrics: self.metrics,
            viewer_count: self.viewer_count,
            active: self.active,
        }
    }
}

/// The views of `streams`, in order.
pub open spec fn stream_views(streams: Seq<StreamConnection>) -> Seq<StreamConnectionView> {
    streams.map_values(|stream: StreamConnection| stream@)
}

/// The test that a stream is active.
pub open spec fn is_active() -> spec_fn(StreamConnectionView) -> bool {
    |stream: StreamConnectionView| stream.active
}

/// The ids of `streams`, in order.
pub open spec fn ids_of(streams: Seq<StreamConnectionView>) -> Seq<Seq<char>> {
    streams.map_values(|stream: StreamConnectionView| stream.stream_id)
}

/// Whether `metrics` are the figures of a stream of quality `quality` that
/// has not been measured yet: resolution, frame rate and bit rate are those
/// asked for, everything else is zero.
pub open spec fn is_unmeasured(metrics: StreamMetrics, quality: StreamQualitySettings) -> bool {
    &&& metrics.bandwidth_mbps_bits == 0
    &&& metrics.latency_ms == 0
    &&& metrics.packet_loss_percent_bits == 0
    &&& metrics.resolution == quality.resolution
    &&& metrics.fps == quality.target_fps
    &&& metrics.bitrate_kbps == quality.max_bitrate_kbps
    &&& metrics.jitter_ms == 0
}

/// What a transport says when it is asked about a stream it does not carry.
pub open spec fn stream_not_found() -> Seq<char> {
    "Stream not found"@
}

/// The books of the network media transport.
#[derive(Debug, Clone, PartialEq, Eq)]
pub struct RealWebRTCEngine {
    pub port: u16,
    /// The streams carried, by id.
    pub active_streams: StringMap<StreamConnection>,
    /// The peer connections.
    pub peer_manager: PeerConnectionManager,
}

impl RealWebRTCEngine {
    /// The books are well-formed maps, each stream is filed under its own id
    /// and keeps well-formed books of its viewers, each filed under the
    /// viewer's id.
    pub open spec fn wf(&self) -> bool {
        &&& self.active_streams.wf()
        &&& self.peer_manager.wf()
        &&& forall|i: int|
            0 <= i < self.active_streams.key_seq().len() ==> {
                let stream = #[trigger] self.active_streams.value_seq()[i];
                &&& stream.stream_id@ == self.active_streams.key_seq()[i]
                &&& stream.viewers.wf()
                &&& forall|j: int|
                    0 <= j < stream.viewers.key_seq().len() ==> (#[trigger] stream.viewers.value_seq()[j]).viewer_id@
                        == stream.viewers.key_seq()[j]
            }
    }

    /// The streams carried, by id.
    pub open spec fn streams(&self) -> Map<Seq<char>, StreamConnectionView> {
        view_values(self.active_streams@)
    }

    /// The streams carried, in the order in which they were first created.
    pub open spec fn records(&self) -> Seq<StreamConnectionView> {
        stream_views(self.active_streams.value_seq())
    }

    /// Books without streams and without connections.
    pub fn new(port: u16) -> (engine: RealWebRTCEngine)
        ensures
            engine.wf(),
            engine.port == port,
            engine.streams() == Map::<Seq<char>, StreamConnectionView>::empty(),
            engine.records() == Seq::<StreamConnectionView>::empty(),
            engine.peer_manager@ == Map::<Seq<char>, PeerView>::empty(),
    {
        let engine = RealWebRTCEngine {
            port,
            active_streams: StringMap::new(),
            peer_manager: PeerConnectionManager::new(),
        };
        engine
    }

    /// Enters a stream: active, without viewers, not measured yet. A stream
    /// of the same id is replaced.
    pub fn create_stream(&mut self, stream_id: String, creator: String, quality: StreamQualitySettings)
        -> (outcome: Result<(), TransportFailure>)
        requires
            old(self).wf(),
        ensures
            final(self).wf(),
            outcome is Ok,
            final(self).streams().dom() == old(self).streams().dom().insert(stream_id@),
            forall|id: Seq<char>|
                id != stream_id@ && old(self).streams().contains_key(id) ==> final(self).streams()[id] == old(self).streams()[id],
            ({
                let stream = final(self).streams()[stream_id@];
                &&& stream.stream_id == stream_id@
                &&& stream.creator == creator@
                &&& stream.viewers == Map::<Seq<char>, ViewerInfoView>::empty()
                &&& stream.quality == quality
                &&& is_unmeasured(stream.metrics, quality)
                &&& stream.viewer_count == 0
                &&& stream.active
            }),
            final(self).active_streams.key_seq() == if old(self).streams().contains_key(
                stream_id@,
            ) {
                old(self).active_streams.key_seq()
            } else {
                old(self).active_streams.key_seq().push(stream_id@)
            },
            final(self).peer_manager == old(self).peer_manager,
            final(self).port == old(self).port,
    {
        let metrics = StreamMetrics {
            bandwidth_mbps_bits: 0,
            latency_ms: 0,
            packet_loss_percent_bits: 0,
            resolution: quality.resolution.clone(),
            fps: quality.target_fps,
            bitrate_kbps: quality.max_bitrate_kbps,
            jitter_ms: 0,
        };
        let connection = StreamConnection {
            stream_id: stream_id.clone(),
            creator,
            viewers: StringMap::new(),
            quality,
            metrics,
            viewer_count: 0,
            active: true,
        };
        self.active_streams.insert(stream_id, connection);
        Ok(())
    }

    /// Whether `after` and `outcome` are what the first half of admitting
    /// `viewer_id` to `stream_id` at `now` leads to from `self`. If the
    /// stream is not carried, the attempt fails and nothing changes; else
    /// the peer connection is entered as connecting, since `now`.
    pub open spec fn connect_begun(
        &self,
        after: &RealWebRTCEngine,
        stream_id: Seq<char>,
        viewer_id: Seq<char>,
        now: int,
        outcome: Result<(), TransportFailure>,
    ) -> bool {
        &&& after.active_streams == self.active_streams
        &&& after.port == self.port
        &&& match outcome {
            Ok(()) => {
                &&& self.streams().contains_key(stream_id)
                &&& after.peer_manager@ == self.peer_manager@.insert(
                    peer_key(stream_id, viewer_id),
                    PeerView {
                        peer_id: peer_key(stream_id, viewer_id),
                        stream_id,
                        viewer_id,
                        connected_since: now,
                        status: ConnectionStatus::Connecting,
                    },
                )
            },
            Err(failure) => {
                &&& !self.streams().contains_key(stream_id)
                &&& after.peer_manager == self.peer_manager
                &&& failure.message@ == stream_not_found()
            },
        }
    }

    /// Whether `after` is what the second half of admitting `viewer_id` to
    /// `stream_id` at `now` leads to from `self`, once setting up the peer
    /// connection has succeeded (`established`) or failed. The connection,
    /// if it is on the books, is marked as connected or as failed; the
    /// stream, if it is carried, lists the viewer as connecting since `now`
    /// and counts its established connections anew.
    pub open spec fn connect_finished(
        &self,
        after: &RealWebRTCEngine,
        stream_id: Seq<char>,
        viewer_id: Seq<char>,
        established: bool,
        now: int,
    ) -> bool {
        &&& after.port == self.port
        &&& after.active_streams.key_seq() == self.active_streams.key_seq()
        &&& after.peer_manager@ == if self.peer_manager@.contains_key(
            peer_key(stream_id, viewer_id),
        ) {
            self.peer_manager@.insert(
                peer_key(stream_id, viewer_id),
                PeerView {
                    status: if established {
                        ConnectionStatus::Connected
                    } else {
                        ConnectionStatus::Failed
                    },
                    ..self.peer_manager@[peer_key(stream_id, viewer_id)]
                },
            )
        } else {
            self.peer_manager@
        }
        &&& after.streams() == if self.streams().contains_key(stream_id) {
            self.streams().insert(
                stream_id,
                StreamConnectionView {
                    viewers: self.streams()[stream_id].viewers.insert(
                        viewer_id,
                        ViewerInfoView {
                            viewer_id,
                            connected_since: now,
                            status: ConnectionStatus::Connecting,
                        },
                    ),
                    viewer_count: after.peer_manager.connection_count(stream_id) as u32,
                    ..self.streams()[stream_id]
                },
            )
        } else {
            self.streams()
        }
    }

    /// The first half of admitting a viewer, before the peer connection is
    /// set up, at the instant `now`.
    pub fn begin_connect_at(&mut self, stream_id: &String, viewer_id: &String, now: Timestamp) -> (outcome:
        Result<(), TransportFailure>)
        requires
            old(self).wf(),
        ensures
            final(self).wf(),
            old(self).connect_begun(final(self), stream_id@, viewer_id@, now@, outcome),
    {
        if !self.active_streams.contains_key(stream_id) {
            return Err(TransportFailure { message: String::from_str("Stream not found") });
        }
        self.peer_manager.add_connection_at(stream_id.clone(), viewer_id.clone(), now);
        Ok(())
    }

    /// The first half of admitting a viewer, at the instant the clock
    /// shows.
    pub fn begin_connect(&mut self, stream_id: &String, viewer_id: &String) -> (outcome: Result<
        (),
        TransportFailure,
    >)
        requires
            old(self).wf(),
        ensures
            final(self).wf(),
            exists|now: int|
                old(self).connect_begun(final(self), stream_id@, viewer_id@, now, outcome),
    {
        let now = current_time();
        let outcome = self.begin_connect_at(stream_id, viewer_id, now);
        outcome
    }

    /// The second half of admitting a viewer, once setting up the peer
    /// connection has succeeded (`established`) or failed, at the instant
    /// `now`.
    pub fn finish_connect_at(
        &mut self,
        stream_id: &String,
        viewer_id: &String,
        established: bool,
        now: Timestamp,
    )
        requires
            old(self).wf(),
        ensures
            final(self).wf(),
            old(self).connect_finished(final(self), stream_id@, viewer_id@, established, now@),
    {
        let ghost before = *self;
        let status = if established {
            ConnectionStatus::Connected
        } else {
            ConnectionStatus::Failed
        };
        self.peer_manager.update_status(stream_id, viewer_id, status);
        let count = self.peer_manager.get_connection_count(stream_id);
        match self.active_streams.position(stream_id) {
            Some(i) => {
                let info = ViewerInfo {
                    viewer_id: viewer_id.clone(),
                    connected_since: now,
                    status: ConnectionStatus::Connecting,
                };
                {
                    let stream = self.active_streams.value_at_mut(i);
                    proof {
                        lemma_view_values_insert(stream.viewers@, viewer_id@, info);
                    }
                    stream.viewers.insert(viewer_id.clone(), info);
                    stream.viewer_count = count;
                }
                proof {
                    let stream = self.active_streams.value_seq()[i as int];
                    before.active_streams.lemma_update(&self.active_streams, i as int);
                    lemma_view_values_insert(before.active_streams@, stream_id@, stream);
                }
            },
            None => {},
        }
    }

    /// The second half of admitting a viewer, at the instant the clock
    /// shows.
    pub fn finish_connect(&mut self, stream_id: &String, viewer_id: &String, established: bool)
        requires
            old(self).wf(),
        ensures
            final(self).wf(),
            exists|now: int|
                old(self).connect_finished(
                    final(self),
                    stream_id@,
                    viewer_id@,
                    established,
                    now,
                ),
    {
        let now = current_time();
        self.finish_connect_at(stream_id, viewer_id, established, now);
    }

    /// Lets a viewer go: the peer connection is forgotten, and the stream,
    /// if it is carried, drops the viewer and counts its established
    /// connections anew.
    pub fn disconnect_viewer(&mut self, stream_id: String, viewer_id: String) -> (outcome: Result<
        (),
        TransportFailure,
    >)
        requires
            old(self).wf(),
        ensures
            final(self).wf(),
            outcome is Ok,
            final(self).port == old(self).port,
            final(self).peer_manager@ == old(self).peer_manager@.remove(
                peer_key(stream_id@, viewer_id@),
            ),
            final(self).streams() == if old(self).streams().contains_key(stream_id@) {
                old(self).streams().insert(
                    stream_id@,
                    StreamConnectionView {
                        viewers: old(self).streams()[stream_id@].viewers.remove(viewer_id@),
                        viewer_count: final(self).peer_manager.connection_count(stream_id@) as u32,
                        ..old(self).streams()[stream_id@]
                    },
                )
            } else {
                old(self).streams()
            },
            final(self).active_streams.key_seq() == old(self).active_streams.key_seq(),
    {
        self.peer_manager.remove_connection(&stream_id, &viewer_id);
        let count = self.peer_manager.get_connection_count(&stream_id);
        match self.active_streams.position(&stream_id) {
            Some(i) => {
                {
                    let stream = self.active_streams.value_at_mut(i);
                    let ghost viewers = stream.viewers;
                    stream.viewers.remove(&viewer_id);
                    stream.viewer_count = count;
                    proof {
                        assert(view_values(stream.viewers@) =~= view_values(viewers@).remove(
                            viewer_id@,
                        ));
                    }
                }
            },
            None => {},
        }
        Ok(())
    }

    /// The figures of a stream, if it is carried.
    pub fn get_stream_metrics(&self, stream_id: &String) -> (metrics: Option<StreamMetrics>)
        requires
            self.wf(),
        ensures
            metrics == if self.streams().contains_key(stream_id@) {
                Some(self.streams()[stream_id@].metrics)
            } else {
                None
            },
    {
        match self.active_streams.get(stream_id) {
            Some(stream) => Some(stream.metrics.duplicate()),
            None => None,
        }
    }

    /// The ids of the active streams, in the order in which the streams
    /// were first created.
    pub fn list_active_streams(&self) -> (ids: Vec<String>)
        requires
            self.wf(),
        ensures
            string_views(ids@) == ids_of(self.records().filter(is_active())),
    {
        let ghost all = self.records();
        let mut ids: Vec<String> = Vec::new();
        let mut i: usize = 0;
        while i < self.active_streams.len()
            invariant
                self.wf(),
                i <= self.active_streams.key_seq().len(),
                all == self.records(),
                all.len() == self.active_streams.key_seq().len(),
                string_views(ids@) == ids_of(all.take(i as int).filter(is_active())),
            decreases self.active_streams.key_seq().len() - i,
        {
            proof {
                lemma_filter_next(all, is_active(), i as int);
            }
            let ghost before = ids@;
            let stream = self.active_streams.value_at(i);
            if stream.active {
                ids.push(stream.stream_id.clone());
                assert(string_views(ids@) =~= string_views(before).push(all[i as int].stream_id));
            }
            i += 1;
        }
        assert(all.take(i as int) =~= all);
        ids
    }

    /// How many established peer connections a stream has.
    pub fn get_viewer_count(&self, stream_id: &String) -> (count: u32)
        requires
            self.wf(),
        ensures
            count == self.peer_manager.connection_count(stream_id@) as u32,
    {
        self.peer_manager.get_connection_count(stream_id)
    }
}

/// Figures of one peer connection. The packet loss is carried as the 64
/// bits of its IEEE 754 binary64 encoding.
#[derive(Debug, Clone, PartialEq, Eq)]
pub struct ConnectionStats {
    pub bytes_sent: u64,
    pub bytes_received: u64,
    pub packets_sent: u32,
    pub packets_received: u32,
    pub rtt_ms: u32,
    pub jitter_ms: u32,
    pub packet_loss_percent_bits: u64,
}

/// How many test frames are generated for a stream: thirty seconds' worth.
pub const TEST_FRAME_COUNT: u64 = 900;

/// The pause after each test frame, in milliseconds.
pub const TEST_FRAME_PAUSE_MS: u64 = 33;

/// The ticks of the 90 kHz media clock that pass from one test frame to
/// the next.
pub const TEST_FRAME_TICKS: u64 = 3000;

/// A test frame: the fields of its packet header, and its payload as text.
#[derive(Debug, Clone, PartialEq, Eq)]
pub struct TestFrame {
    pub version: u8,
    pub padding: bool,
    pub extension: bool,
    /// Set on the first frame of each second.
    pub marker: bool,
    pub payload_type: u8,
    pub sequence_number: u16,
    pub timestamp: u32,
    pub ssrc: u32,
    pub payload: String,
}

/// Whether `frame` is the test frame number `frame_count`: a packet of
/// version 2 with payload type 96 from source 12345, marked once every 30
/// frames, whose sequence number and timestamp count frames and media
/// clock ticks and wrap at 16 and 32 bits, and whose payload names the
/// frame.
pub open spec fn is_test_frame(frame: TestFrame, frame_count: u64) -> bool {
    &&& frame.version == 2
    &&& !frame.padding
    &&& !frame.extension
    &&& frame.marker == (frame_count % 30 == 0)
    &&& frame.payload_type == 96
    &&& frame.sequence_number == frame_count % 0x1_0000
    &&& frame.timestamp == (frame_count * TEST_FRAME_TICKS) % 0x1_0000_0000
    &&& frame.ssrc == 12345
    &&& frame.payload@ == "Video frame "@ + decimal(frame_count as nat)
}

/// The test frame number `frame_count`.
pub fn generate_test_frame(frame_count: u64) -> (frame: TestFrame)
    ensures
        is_test_frame(frame, frame_count),
{
    let ticks: u128 = (frame_count as u128) * 3000;
    TestFrame {
        version: 2,
        padding: false,
        extension: false,
        marker: frame_count % 30 == 0,
        payload_type: 96,
        sequence_number: (frame_count % 0x1_0000) as u16,
        timestamp: (ticks % 0x1_0000_0000) as u32,
        ssrc: 12345,
        payload: String::from_str("Video frame ").concat(decimal_string(frame_count).as_str()),
    }
}

/// The task that writes test frames to a stream's track. After each frame
/// it is told whether the frame could be written; it goes on, after a
/// pause, until a write fails or `TEST_FRAME_COUNT` frames are written.
#[derive(Debug, Clone, PartialEq, Eq)]
pub struct VideoFrameTask {
    /// How many frames have been written.
    pub frame_count: u64,
}

impl VideoFrameTask {
    /// A task that has written nothing.
    pub fn new() -> (task: VideoFrameTask)
        ensures
            task.frame_count == 0,
    {
        VideoFrameTask { frame_count: 0 }
    }

    /// The frame to write next.
    pub fn frame(&self) -> (frame: TestFrame)
        ensures
            is_test_frame(frame, self.frame_count),
    {
        generate_test_frame(self.frame_count)
    }

    /// Takes note of how writing the frame went. Returns the pause to make
    /// before the next frame, or nothing if the task is over: because the
    /// write failed, or because this was the last frame. A task that is
    /// over stays as it is.
    pub fn written(&mut self, delivered: bool) -> (pause_ms: Option<u64>)
        ensures
            final(self).frame_count == if delivered && old(self).frame_count < TEST_FRAME_COUNT {
                old(self).frame_count + 1
            } else {
                old(self).frame_count as int
            },
            pause_ms == if delivered && old(self).frame_count + 1 < TEST_FRAME_COUNT {
                Some(TEST_FRAME_PAUSE_MS)
            } else {
                None
            },
    {
        if !delivered || self.frame_count >= TEST_FRAME_COUNT {
            return None;
        }
        self.frame_count = self.frame_count + 1;
        if self.frame_count >= TEST_FRAME_COUNT {
            None
        } else {
            Some(TEST_FRAME_PAUSE_MS)
        }
    }
}

} // verus!
