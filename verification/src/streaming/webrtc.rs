//! The simulated media transport: it keeps streams and their viewers in
//! memory and moves no media.

use vstd::prelude::*;
use super::{StreamMetrics, StreamQualitySettings, TransportFailure};
use crate::string_map::{string_views, view_values, StringMap};
use crate::text::{contains_string, differs_from, lemma_filter_keeps_distinct, remove_string};

verus! {

/// A stream that the simulated transport carries.
#[derive(Debug, Clone, PartialEq, Eq)]
pub struct ActiveStreamConnection {
    pub stream_id: String,
    pub creator: String,
    /// The viewers, each once, in the order in which they joined.
    pub viewers: Vec<String>,
    pub quality: StreamQualitySettings,
}

/// The mathematical content of an [`ActiveStreamConnection`].
#[verifier::ext_equal]
pub struct ActiveStreamConnectionView {
    pub creator: Seq<char>,
    pub viewers: Seq<Seq<char>>,
    pub quality: StreamQualitySettings,
}

impl View for ActiveStreamConnection {
    type V = ActiveStreamConnectionView;

    open spec fn view(&self) -> ActiveStreamConnectionView {
        ActiveStreamConnectionView {
            creator: self.creator@,
            viewers: string_views(self.viewers@),
            quality: self.quality,
        }
    }
}

/// A frame of stream data.
#[derive(Debug, Clone, PartialEq, Eq)]
pub struct StreamData {
    pub frame_count: u64,
    pub timestamp: u64,
    pub data: Vec<u8>,
}

/// The binary64 encoding of 2.5, the bandwidth in Mbit/s that the simulated
/// transport reports.
pub const SIMULATED_BANDWIDTH_MBPS_BITS: u64 = 0x4004_0000_0000_0000;

/// The binary64 encoding of 0.1, the packet loss in percent that the
/// simulated transport reports.
pub const SIMULATED_PACKET_LOSS_PERCENT_BITS: u64 = 0x3FB9_9999_9999_999A;

/// Whether `metrics` are the figures that the simulated transport reports
/// for every stream it carries.
pub open spec fn is_simulated_metrics(metrics: StreamMetrics) -> bool {
    &&& metrics.bandwidth_mbps_bits == SIMULATED_BANDWIDTH_MBPS_BITS
    &&& metrics.latency_ms == 45
    &&& metrics.packet_loss_percent_bits == SIMULATED_PACKET_LOSS_PERCENT_BITS
    &&& metrics.resolution@ == "1280x720"@
    &&& metrics.fps == 30
    &&& metrics.bitrate_kbps == 2000
    &&& metrics.jitter_ms == 5
}

/// The streams after `viewer` joined `stream_id`: a stream that is carried
/// lists the viewer, once; an unknown stream changes nothing.
pub open spec fn with_viewer(
    streams: Map<Seq<char>, ActiveStreamConnectionView>,
    stream_id: Seq<char>,
    viewer: Seq<char>,
) -> Map<Seq<char>, ActiveStreamConnectionView> {
    if streams.contains_key(stream_id) && !streams[stream_id].viewers.contains(viewer) {
        streams.insert(
            stream_id,
            ActiveStreamConnectionView {
                viewers: streams[stream_id].viewers.push(viewer),
                ..streams[stream_id]
            },
        )
    } else {
        streams
    }
}

/// The streams after `viewer` left `stream_id`.
pub open spec fn without_viewer(
    streams: Map<Seq<char>, ActiveStreamConnectionView>,
    stream_id: Seq<char>,
    viewer: Seq<char>,
) -> Map<Seq<char>, ActiveStreamConnectionView> {
    if streams.contains_key(stream_id) {
        streams.insert(
            stream_id,
            ActiveStreamConnectionView {
                viewers: streams[stream_id].viewers.filter(differs_from(viewer)),
                ..streams[stream_id]
            },
        )
    } else {
        streams
    }
}

/// The simulated media transport.
#[derive(Debug, Clone, PartialEq, Eq)]
pub struct MockWebRTCEngine {
    /// The port on which the transport would listen.
    pub port: u16,
    /// The streams it carries, by id.
    pub active_streams: StringMap<ActiveStreamConnection>,
}

impl View for MockWebRTCEngine {
    type V = Map<Seq<char>, ActiveStreamConnectionView>;

    open spec fn view(&self) -> Map<Seq<char>, ActiveStreamConnectionView> {
        view_values(self.active_streams@)
    }
}

impl MockWebRTCEngine {
    /// The streams are a well-formed map, each is filed under its own id,
    /// and none lists a viewer twice.
    pub open spec fn wf(&self) -> bool {
        &&& self.active_streams.wf()
        &&& forall|i: int|
            0 <= i < self.active_streams.key_seq().len() ==> {
                let stream = #[trigger] self.active_streams.value_seq()[i];
                &&& stream.stream_id@ == self.active_streams.key_seq()[i]
                &&& string_views(stream.viewers@).no_duplicates()
            }
    }

    /// The ids of the streams carried, in the order in which they were
    /// first created.
    pub open spec fn stream_ids(&self) -> Seq<Seq<char>> {
        self.active_streams.key_seq()
    }

    /// A transport that carries no stream.
    pub fn new(port: u16) -> (engine: MockWebRTCEngine)
        ensures
            engine.wf(),
            engine.port == port,
            engine@ == Map::<Seq<char>, ActiveStreamConnectionView>::empty(),
            engine.stream_ids() == Seq::<Seq<char>>::empty(),
    {
        let engine = MockWebRTCEngine { port, active_streams: StringMap::new() };
        engine
    }

    /// Starts to carry a stream, without viewers. A stream of the same id
    /// that is carried already is replaced, and its viewers are dropped.
    pub fn create_stream(&mut self, stream_id: String, creator: String, quality: StreamQualitySettings)
        -> (outcome: Result<(), TransportFailure>)
        requires
            old(self).wf(),
        ensures
            final(self).wf(),
            outcome is Ok,
            final(self)@ == old(self)@.insert(
                stream_id@,
                ActiveStreamConnectionView { creator: creator@, viewers: Seq::empty(), quality },
            ),
            final(self).stream_ids() == if old(self)@.contains_key(stream_id@) {
                old(self).stream_ids()
            } else {
                old(self).stream_ids().push(stream_id@)
            },
            final(self).port == old(self).port,
    {
        let connection = ActiveStreamConnection {
            stream_id: stream_id.clone(),
            creator,
            viewers: Vec::new(),
            quality,
        };
        proof {
            assert(connection@ =~~= ActiveStreamConnectionView {
                creator: creator@,
                viewers: Seq::empty(),
                quality,
            });
        }
        self.active_streams.insert(stream_id, connection);
        Ok(())
    }

    /// Lets a viewer join a stream. A viewer who has joined already is not
    /// listed twice, and an unknown stream is ignored.
    pub fn connect_viewer(&mut self, stream_id: String, viewer_id: String) -> (outcome: Result<
        (),
        TransportFailure,
    >)
        requires
            old(self).wf(),
        ensures
            final(self).wf(),
            outcome is Ok,
            final(self)@ == with_viewer(old(self)@, stream_id@, viewer_id@),
            final(self).stream_ids() == old(self).stream_ids(),
            final(self).port == old(self).port,
    {
        let ghost before = *self;
        match self.active_streams.position(&stream_id) {
            Some(i) => {
                if !contains_string(&self.active_streams.value_at(i).viewers, &viewer_id) {
                    {
                        let stream = self.active_streams.value_at_mut(i);
                        stream.viewers.push(viewer_id);
                    }
                    proof {
                        let stream = self.active_streams.value_seq()[i as int];
                        let held = before.active_streams.value_seq()[i as int];
                        assert(string_views(stream.viewers@) =~= string_views(held.viewers@).push(
                            viewer_id@,
                        ));
                    }
                }
            },
            None => {},
        }
        Ok(())
    }

    /// Lets a viewer leave a stream. An unknown stream is ignored.
    pub fn disconnect_viewer(&mut self, stream_id: String, viewer_id: String) -> (outcome: Result<
        (),
        TransportFailure,
    >)
        requires
            old(self).wf(),
        ensures
            final(self).wf(),
            outcome is Ok,
            final(self)@ == without_viewer(old(self)@, stream_id@, viewer_id@),
            final(self).stream_ids() == old(self).stream_ids(),
            final(self).port == old(self).port,
    {
        let ghost before = *self;
        match self.active_streams.position(&stream_id) {
            Some(i) => {
                {
                    let stream = self.active_streams.value_at_mut(i);
                    remove_string(&mut stream.viewers, &viewer_id);
                }
                proof {
                    let held = before.active_streams.value_seq()[i as int];
                    lemma_filter_keeps_distinct(held@.viewers, differs_from(viewer_id@));
                }
            },
            None => {},
        }
        Ok(())
    }

    /// Accepts a frame for a stream and drops it: nothing is transmitted.
    pub fn send_stream_data(&self, stream_id: String, data: StreamData) -> (outcome: Result<
        (),
        TransportFailure,
    >)
        ensures
            outcome is Ok,
    {
        Ok(())
    }

    /// The quality figures of a stream: the simulated ones for a stream
    /// that is carried, none for another.
    pub fn get_stream_metrics(&self, stream_id: &String) -> (metrics: Option<StreamMetrics>)
        requires
            self.wf(),
        ensures
            metrics is Some == self@.contains_key(stream_id@),
            metrics matches Some(m) ==> is_simulated_metrics(m),
    {
        if self.active_streams.contains_key(stream_id) {
            Some(
                StreamMetrics {
                    bandwidth_mbps_bits: SIMULATED_BANDWIDTH_MBPS_BITS,
                    latency_ms: 45,
                    packet_loss_percent_bits: SIMULATED_PACKET_LOSS_PERCENT_BITS,
                    resolution: String::from_str("1280x720"),
                    fps: 30,
                    bitrate_kbps: 2000,
                    jitter_ms: 5,
                },
            )
        } else {
            None
        }
    }

    /// The ids of the streams carried, in the order in which they were
    /// first created.
    pub fn list_active_streams(&self) -> (ids: Vec<String>)
        requires
            self.wf(),
        ensures
            string_views(ids@) == self.stream_ids(),
    {
        self.active_streams.keys()
    }

    /// The number of viewers of a stream; 0 for an unknown stream.
    pub fn get_viewer_count(&self, stream_id: &String) -> (count: u32)
        requires
            self.wf(),
        ensures
            count == if self@.contains_key(stream_id@) {
                self@[stream_id@].viewers.len() as u32
            } else {
                0
            },
    {
        match self.active_streams.get(stream_id) {
            Some(stream) => {
                #[verifier::truncate]
                (stream.viewers.len() as u32)
            },
            None => 0,
        }
    }
}

} // verus!
