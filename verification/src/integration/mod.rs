//! The choreography bridge: it observes the events of the ledger and of the
//! media session manager, keeps a read cache of stream state, and derives the
//! command that each event calls for on the other side.

use vstd::prelude::*;
use crate::blockchain::{BlockchainCommand, BlockchainEvent};
use crate::streaming::{StreamMetrics, StreamingCommand, StreamingEvent};
use crate::string_map::{string_views, view_values, StringMap};
use crate::text::{contains_string, copy_strings, lemma_filter_next};
use crate::time::{current_time, Timestamp};

pub mod node;

verus! {

/// How many messages a mailbox holds before its senders have to wait.
pub const MAILBOX_CAPACITY: usize = 1000;

/// Quality figures as the ledger receives them.
///
/// The two fractional figures are carried as the 64 bits of their IEEE 754
/// binary64 encoding; nothing in this crate computes with them.
#[derive(Debug, Clone, PartialEq, Eq)]
pub struct StreamQualityMetrics {
    pub bandwidth_mbps_bits: u64,
    pub latency_ms: u32,
    pub packet_loss_percent_bits: u64,
    pub resolution: String,
    pub fps: u32,
}

impl StreamQualityMetrics {
    /// A copy of these figures.
    pub fn duplicate(&self) -> (copy: Self)
        ensures
            copy == *self,
    {
        StreamQualityMetrics {
            bandwidth_mbps_bits: self.bandwidth_mbps_bits,
            latency_ms: self.latency_ms,
            packet_loss_percent_bits: self.packet_loss_percent_bits,
            resolution: self.resolution.clone(),
            fps: self.fps,
        }
    }
}

/// Events of the bridge's own bus, which coordinate the two sides.
#[derive(Debug, Clone, PartialEq, Eq)]
pub enum SutantraEvent {
    StreamRegistered { stream_id: String, creator: String },
    PaymentReceived { stream_id: String, viewer: String, amount: u64 },
    AccessGranted { stream_id: String, viewer: String },
    AccessRevoked { stream_id: String, viewer: String },
    StreamStarted { stream_id: String, creator: String },
    ViewerJoined { stream_id: String, viewer: String },
    ViewerLeft { stream_id: String, viewer: String },
    StreamEnded { stream_id: String, duration_seconds: u64 },
    QualityReport { stream_id: String, metrics: StreamQualityMetrics },
    PaymentDue { stream_id: String, viewer: String, amount: u64 },
    ConnectionFailed { stream_id: String, viewer: String, reason: String },
}

/// What the bridge remembers about one stream. This is a cache for quick
/// answers to status queries: the ledger and the media session manager hold
/// the truth.
#[derive(Debug, Clone, PartialEq, Eq)]
pub struct StreamState {
    pub stream_id: String,
    pub creator: String,
    /// The viewers seen to connect, each once, in order.
    pub viewers: Vec<String>,
    pub is_active: bool,
    /// When the stream was registered or, once it is live, when it started.
    pub start_time: Timestamp,
    pub total_earnings: u64,
    pub quality_metrics: Option<StreamQualityMetrics>,
}

/// The mathematical content of a [`StreamState`].
#[verifier::ext_equal]
pub struct StreamStateView {
    pub stream_id: Seq<char>,
    pub creator: Seq<char>,
    pub viewers: Seq<Seq<char>>,
    pub is_active: bool,
    pub start_time: int,
    pub total_earnings: int,
    pub quality_metrics: Option<StreamQualityMetrics>,
}

impl View for StreamState {
    type V = StreamStateView;

    open spec fn view(&self) -> StreamStateView {
        StreamStateView {
            stream_id: self.stream_id@,
            creator: self.creator@,
            viewers: string_views(self.viewers@),
            is_active: self.is_active,
            start_time: self.start_time@,
            total_earnings: self.total_earnings as int,
            quality_metrics: self.quality_metrics,
        }
    }
}

impl StreamState {
    /// A copy of this record.
    pub fn duplicate(&self) -> (copy: StreamState)
        ensures
            copy@ == self@,
    {
        let copy = StreamState {
            stream_id: self.stream_id.clone(),
            creator: self.creator.clone(),
            viewers: copy_strings(&self.viewers),
            is_active: self.is_active,
            start_time: self.start_time,
            total_earnings: self.total_earnings,
            quality_metrics: match &self.quality_metrics {
                Some(metrics) => Some(metrics.duplicate()),
                None => None,
            },
        };
        copy
    }
}

impl StreamStateView {
    /// What the bridge remembers of a stream it has just seen registered.
    pub open spec fn fresh(stream_id: Seq<char>, creator: Seq<char>, now: int) -> StreamStateView {
        StreamStateView {
            stream_id,
            creator,
            viewers: Seq::empty(),
            is_active: false,
            start_time: now,
            total_earnings: 0,
            quality_metrics: None,
        }
    }
}

/// The views of `states`, in order.
pub open spec fn state_views(states: Seq<StreamState>) -> Seq<StreamStateView> {
    states.map_values(|state: StreamState| state@)
}

/// The test that a stream is live.
pub open spec fn is_live() -> spec_fn(StreamStateView) -> bool {
    |state: StreamStateView| state.is_active
}

/// The figures that the ledger is sent for the figures that the media
/// session manager reported.
pub open spec fn quality_of(metrics: StreamMetrics) -> StreamQualityMetrics {
    StreamQualityMetrics {
        bandwidth_mbps_bits: metrics.bandwidth_mbps_bits,
        latency_ms: metrics.latency_ms,
        packet_loss_percent_bits: metrics.packet_loss_percent_bits,
        resolution: metrics.resolution,
        fps: metrics.fps,
    }
}

/// The command for the media session manager that an event of the ledger
/// calls for: a registered stream is to be prepared, and a viewer who paid
/// is to be admitted. Other events call for nothing.
pub open spec fn streaming_command_for(event: BlockchainEvent) -> Option<StreamingCommand> {
    match event {
        BlockchainEvent::StreamRegistered { stream_id, creator } => Some(
            StreamingCommand::PrepareStream { stream_id, creator },
        ),
        BlockchainEvent::PaymentProcessed { stream_id, viewer, .. } => Some(
            StreamingCommand::GrantAccess { stream_id, viewer },
        ),
        _ => None,
    }
}

/// The command for the ledger that an event of the media session manager,
/// observed at `now`, calls for: the start of a stream is to be recorded, a
/// connected viewer's access is to be checked, and quality figures are to
/// be reported. Other events call for nothing.
pub open spec fn blockchain_command_for(event: StreamingEvent, now: Timestamp) -> Option<
    BlockchainCommand,
> {
    match event {
        StreamingEvent::StreamStarted { stream_id, .. } => Some(
            BlockchainCommand::RecordStreamStart { stream_id, timestamp: now },
        ),
        StreamingEvent::ViewerConnected { stream_id, viewer_id } => Some(
            BlockchainCommand::CheckAccess { stream_id, viewer: viewer_id },
        ),
        StreamingEvent::QualityUpdate { stream_id, metrics } => Some(
            BlockchainCommand::ReportStreamQuality { stream_id, metrics: quality_of(metrics) },
        ),
        _ => None,
    }
}

/// The command for the ledger that an event of the bridge's own bus calls
/// for: a payment that is due is to be processed. Other events call for
/// nothing.
pub open spec fn payment_command_for(event: SutantraEvent) -> Option<BlockchainCommand> {
    match event {
        SutantraEvent::PaymentDue { stream_id, viewer, amount } => Some(
            BlockchainCommand::ProcessPayment { stream_id, viewer, amount },
        ),
        _ => None,
    }
}

/// The cache after an event of the ledger was observed at `now`: a
/// registered stream gets a fresh record, and a payment adds to the
/// earnings of a stream that the cache holds.
pub open spec fn cache_after_blockchain_event(
    cache: Map<Seq<char>, StreamStateView>,
    event: BlockchainEvent,
    now: int,
) -> Map<Seq<char>, StreamStateView> {
    match event {
        BlockchainEvent::StreamRegistered { stream_id, creator } => cache.insert(
            stream_id@,
            StreamStateView::fresh(stream_id@, creator@, now),
        ),
        BlockchainEvent::PaymentProcessed { stream_id, amount, .. } => if cache.contains_key(
            stream_id@,
        ) {
            cache.insert(
                stream_id@,
                StreamStateView {
                    total_earnings: cache[stream_id@].total_earnings + amount,
                    ..cache[stream_id@]
                },
            )
        } else {
            cache
        },
        _ => cache,
    }
}

/// Whether observing `event` keeps the cached earnings within 64 bits.
pub open spec fn cache_fits(cache: Map<Seq<char>, StreamStateView>, event: BlockchainEvent) -> bool {
    event matches BlockchainEvent::PaymentProcessed { stream_id, amount, .. } ==> (
    cache.contains_key(stream_id@) ==> cache[stream_id@].total_earnings + amount <= u64::MAX)
}

/// The cache after an event of the media session manager was observed at
/// `now`. For a stream that the cache holds, a start marks it live and
/// sets its start time, a connected viewer is listed once, and quality
/// figures replace the ones held. Streams that the cache does not hold, and
/// other events, change nothing.
pub open spec fn cache_after_streaming_event(
    cache: Map<Seq<char>, StreamStateView>,
    event: StreamingEvent,
    now: int,
) -> Map<Seq<char>, StreamStateView> {
    match event {
        StreamingEvent::StreamStarted { stream_id, .. } => if cache.contains_key(stream_id@) {
            cache.insert(
                stream_id@,
                StreamStateView { is_active: true, start_time: now, ..cache[stream_id@] },
            )
        } else {
            cache
        },
        StreamingEvent::ViewerConnected { stream_id, viewer_id } => if cache.contains_key(
            stream_id@,
        ) && !cache[stream_id@].viewers.contains(viewer_id@) {
            cache.insert(
                stream_id@,
                StreamStateView {
                    viewers: cache[stream_id@].viewers.push(viewer_id@),
                    ..cache[stream_id@]
                },
            )
        } else {
            cache
        },
        StreamingEvent::QualityUpdate { stream_id, metrics } => if cache.contains_key(stream_id@) {
            cache.insert(
                stream_id@,
                StreamStateView {
                    quality_metrics: Some(quality_of(metrics)),
                    ..cache[stream_id@]
                },
            )
        } else {
            cache
        },
        _ => cache,
    }
}

/// The choreography bridge: its cache of stream state.
#[derive(Debug, Clone, PartialEq, Eq)]
pub struct EventBridge {
    /// What the bridge remembers of each stream, by id.
    pub active_streams: StringMap<StreamState>,
}

impl View for EventBridge {
    type V = Map<Seq<char>, StreamStateView>;

    open spec fn view(&self) -> Map<Seq<char>, StreamStateView> {
        view_values(self.active_streams@)
    }
}

impl EventBridge {
    /// The cache is a well-formed map, each record is filed under the id of
    /// its stream, and none lists a viewer twice.
    pub open spec fn wf(&self) -> bool {
        &&& self.active_streams.wf()
        &&& forall|i: int|
            0 <= i < self.active_streams.key_seq().len() ==> {
                let state = #[trigger] self.active_streams.value_seq()[i];
                &&& state.stream_id@ == self.active_streams.key_seq()[i]
                &&& string_views(state.viewers@).no_duplicates()
            }
    }

    /// The records of the cache, in the order in which their streams were
    /// first registered.
    pub open spec fn records(&self) -> Seq<StreamStateView> {
        state_views(self.active_streams.value_seq())
    }

    /// A bridge that remembers nothing.
    pub fn new() -> (bridge: EventBridge)
        ensures
            bridge.wf(),
            bridge@ == Map::<Seq<char>, StreamStateView>::empty(),
            bridge.records() == Seq::<StreamStateView>::empty(),
    {
        let bridge = EventBridge { active_streams: StringMap::new() };
        bridge
    }

    /// Whether observing `event` keeps the cached earnings within 64 bits.
    pub fn within_limits(&self, event: &BlockchainEvent) -> (fits: bool)
        requires
            self.wf(),
        ensures
            fits == cache_fits(self@, *event),
    {
        match event {
            BlockchainEvent::PaymentProcessed { stream_id, viewer, amount } => {
                match self.active_streams.get(stream_id) {
                    Some(state) => state.total_earnings <= u64::MAX - *amount,
                    None => true,
                }
            },
            _ => true,
        }
    }

    /// Observes an event of the ledger at `now`: updates the cache and
    /// returns the command that the event calls for on the side of the
    /// media session manager, if any.
    pub fn handle_blockchain_event(&mut self, event: BlockchainEvent, now: Timestamp) -> (command:
        Option<StreamingCommand>)
        requires
            old(self).wf(),
            cache_fits(old(self)@, event),
        ensures
            final(self).wf(),
            final(self)@ == cache_after_blockchain_event(old(self)@, event, now@),
            command == streaming_command_for(event),
    {
        match event {
            BlockchainEvent::StreamRegistered { stream_id, creator } => {
                let state = StreamState {
                    stream_id: stream_id.clone(),
                    creator: creator.clone(),
                    viewers: Vec::new(),
                    is_active: false,
                    start_time: now,
                    total_earnings: 0,
                    quality_metrics: None,
                };
                proof {
                    assert(state@ =~~= StreamStateView::fresh(stream_id@, creator@, now@));
                }
                self.active_streams.insert(stream_id.clone(), state);
                Some(StreamingCommand::PrepareStream { stream_id, creator })
            },
            BlockchainEvent::PaymentProcessed { stream_id, viewer, amount } => {
                match self.active_streams.position(&stream_id) {
                    Some(i) => {
                        {
                            let state = self.active_streams.value_at_mut(i);
                            state.total_earnings = state.total_earnings + amount;
                        }
                    },
                    None => {},
                }
                Some(StreamingCommand::GrantAccess { stream_id, viewer })
            },
            _ => None,
        }
    }

    /// Observes an event of the media session manager at `now`: updates
    /// the cache and returns the command that the event calls for on the
    /// side of the ledger, if any.
    pub fn handle_streaming_event(&mut self, event: StreamingEvent, now: Timestamp) -> (command:
        Option<BlockchainCommand>)
        requires
            old(self).wf(),
        ensures
            final(self).wf(),
            final(self)@ == cache_after_streaming_event(old(self)@, event, now@),
            command == blockchain_command_for(event, now),
    {
        let ghost before = *self;
        match event {
            StreamingEvent::StreamStarted { stream_id, creator } => {
                match self.active_streams.position(&stream_id) {
                    Some(i) => {
                        {
                            let state = self.active_streams.value_at_mut(i);
                            state.is_active = true;
                            state.start_time = now;
                        }
                    },
                    None => {},
                }
                Some(BlockchainCommand::RecordStreamStart { stream_id, timestamp: now })
            },
            StreamingEvent::ViewerConnected { stream_id, viewer_id } => {
                match self.active_streams.position(&stream_id) {
                    Some(i) => {
                        if !contains_string(&self.active_streams.value_at(i).viewers, &viewer_id) {
                            {
                                let state = self.active_streams.value_at_mut(i);
                                state.viewers.push(viewer_id.clone());
                            }
                            proof {
                                let state = self.active_streams.value_seq()[i as int];
                                let held = before.active_streams.value_seq()[i as int];
                                assert(string_views(state.viewers@) =~= string_views(
                                    held.viewers@,
                                ).push(viewer_id@));
                            }
                        }
                    },
                    None => {},
                }
                Some(BlockchainCommand::CheckAccess { stream_id, viewer: viewer_id })
            },
            StreamingEvent::QualityUpdate { stream_id, metrics } => {
                let quality_metrics = StreamQualityMetrics {
                    bandwidth_mbps_bits: metrics.bandwidth_mbps_bits,
                    latency_ms: metrics.latency_ms,
                    packet_loss_percent_bits: metrics.packet_loss_percent_bits,
                    resolution: metrics.resolution,
                    fps: metrics.fps,
                };
                match self.active_streams.position(&stream_id) {
                    Some(i) => {
                        {
                            let state = self.active_streams.value_at_mut(i);
                            state.quality_metrics = Some(quality_metrics.duplicate());
                        }
                    },
                    None => {},
                }
                Some(BlockchainCommand::ReportStreamQuality { stream_id, metrics: quality_metrics })
            },
            _ => None,
        }
    }

    /// Observes an event of the bridge's own bus and returns the command
    /// that it calls for on the side of the ledger, if any. The cache stays
    /// as it is.
    pub fn handle_sutantra_event(&self, event: SutantraEvent) -> (command: Option<BlockchainCommand>)
        ensures
            command == payment_command_for(event),
    {
        match event {
            SutantraEvent::PaymentDue { stream_id, viewer, amount } => Some(
                BlockchainCommand::ProcessPayment { stream_id, viewer, amount },
            ),
            _ => None,
        }
    }

    /// What the cache holds on a stream, if anything.
    pub fn get_stream_status(&self, stream_id: &String) -> (status: Option<StreamState>)
        requires
            self.wf(),
        ensures
            status is Some == self@.contains_key(stream_id@),
            status matches Some(state) ==> state@ == self@[stream_id@],
    {
        match self.active_streams.get(stream_id) {
            Some(state) => Some(state.duplicate()),
            None => None,
        }
    }

    /// What the cache holds on the streams that are live, in the order in
    /// which the streams were first registered.
    pub fn get_active_streams(&self) -> (live: Vec<StreamState>)
        requires
            self.wf(),
        ensures
            state_views(live@) == self.records().filter(is_live()),
    {
        let ghost all = self.records();
        let mut live: Vec<StreamState> = Vec::new();
        let mut i: usize = 0;
        while i < self.active_streams.len()
            invariant
                self.wf(),
                i <= self.active_streams.key_seq().len(),
                all == self.records(),
                all.len() == self.active_streams.key_seq().len(),
                state_views(live@) == all.take(i as int).filter(is_live()),
            decreases self.active_streams.key_seq().len() - i,
        {
            proof {
                lemma_filter_next(all, is_live(), i as int);
            }
            let state = self.active_streams.value_at(i);
            if state.is_active {
                live.push(state.duplicate());
            }
            i += 1;
        }
        assert(all.take(i as int) =~= all);
        live
    }
}

/// What one turn of the bridge's loop found in its mailboxes.
#[derive(Debug, Clone, PartialEq, Eq)]
pub enum BridgeInput {
    /// An event of the ledger.
    Blockchain { event: BlockchainEvent },
    /// An event of the media session manager.
    Streaming { event: StreamingEvent },
    /// An event of the bridge's own bus.
    Internal { event: SutantraEvent },
    /// Every mailbox is closed.
    Closed,
}

/// What one turn of the bridge's loop came to.
#[derive(Debug, Clone, PartialEq, Eq)]
pub enum BridgeStep {
    /// Send this command to the media session manager.
    ToStreaming { command: StreamingCommand },
    /// Send this command to the ledger.
    ToBlockchain { command: BlockchainCommand },
    /// The event calls for no command.
    Nothing,
    /// The event would have taken cached earnings beyond 64 bits; it was set
    /// aside.
    BeyondLimits,
    /// Every mailbox is closed: the loop ends.
    Stopped,
}

/// The step that sends `command` to the media session manager, if there is
/// one.
pub open spec fn to_streaming(command: Option<StreamingCommand>) -> BridgeStep {
    match command {
        Some(command) => BridgeStep::ToStreaming { command },
        None => BridgeStep::Nothing,
    }
}

/// The step that sends `command` to the ledger, if there is one.
pub open spec fn to_blockchain(command: Option<BlockchainCommand>) -> BridgeStep {
    match command {
        Some(command) => BridgeStep::ToBlockchain { command },
        None => BridgeStep::Nothing,
    }
}

impl EventBridge {
    /// Whether a turn of the loop that found `input` and read `now` from the
    /// clock leads from `self` to `after` and comes to `step`.
    pub open spec fn turned(
        &self,
        input: BridgeInput,
        now: Timestamp,
        after: &EventBridge,
        step: BridgeStep,
    ) -> bool {
        match input {
            BridgeInput::Closed => step is Stopped && *after == *self,
            BridgeInput::Blockchain { event } => if cache_fits(self@, event) {
                &&& after@ == cache_after_blockchain_event(self@, event, now@)
                &&& step == to_streaming(streaming_command_for(event))
            } else {
                step is BeyondLimits && *after == *self
            },
            BridgeInput::Streaming { event } => {
                &&& after@ == cache_after_streaming_event(self@, event, now@)
                &&& step == to_blockchain(blockchain_command_for(event, now))
            },
            BridgeInput::Internal { event } => {
                &&& *after == *self
                &&& step == to_blockchain(payment_command_for(event))
            },
        }
    }

    /// One turn of the bridge's loop: observes what the mailboxes gave, at
    /// the instant the clock shows, and says which command to send where.
    /// The loop ends when every mailbox is closed.
    pub fn step(&mut self, input: BridgeInput) -> (step: BridgeStep)
        requires
            old(self).wf(),
        ensures
            final(self).wf(),
            exists|now: Timestamp| old(self).turned(input, now, final(self), step),
    {
        let ghost before = *self;
        let now = current_time();
        let step = match input {
            BridgeInput::Closed => BridgeStep::Stopped,
            BridgeInput::Blockchain { event } => {
                if self.within_limits(&event) {
                    match self.handle_blockchain_event(event, now) {
                        Some(command) => BridgeStep::ToStreaming { command },
                        None => BridgeStep::Nothing,
                    }
                } else {
                    BridgeStep::BeyondLimits
                }
            },
            BridgeInput::Streaming { event } => {
                match self.handle_streaming_event(event, now) {
                    Some(command) => BridgeStep::ToBlockchain { command },
                    None => BridgeStep::Nothing,
                }
            },
            BridgeInput::Internal { event } => {
                match self.handle_sutantra_event(event) {
                    Some(command) => BridgeStep::ToBlockchain { command },
                    None => BridgeStep::Nothing,
                }
            },
        };
        assert(before.turned(input, now, self, step));
        step
    }
}

} // verus!
