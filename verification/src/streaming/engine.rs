//! The media session manager's decisions. The manager asks the media
//! transport for one thing per command; what the transport answers decides
//! what the manager records and which events it emits.

use vstd::prelude::*;
use super::{
    StreamQualitySettings, StreamingCommand, StreamingConfig, StreamingEvent, TransportFailure,
};
use crate::string_map::StringMap;

verus! {

/// What the manager asks of the media transport.
#[derive(Debug, Clone, PartialEq, Eq)]
pub enum TransportRequest {
    /// Set up a stream.
    CreateStream { stream_id: String, creator: String, quality: StreamQualitySettings },
    /// Admit a viewer to a stream.
    ConnectViewer { stream_id: String, viewer: String },
    /// Evict a viewer from a stream.
    DisconnectViewer { stream_id: String, viewer: String },
}

/// What the manager does once the transport has answered.
#[derive(Debug, Clone, PartialEq, Eq)]
pub enum SessionAction {
    /// Emit this event.
    Publish { event: StreamingEvent },
    /// Start the task that generates demonstration frames for this stream.
    GenerateFrames { stream_id: String },
}

/// The reason given when a viewer is evicted.
pub open spec fn access_revoked() -> Seq<char> {
    "Access revoked"@
}

/// The id of the stream that a command is about, for the commands that the
/// manager hands to the transport.
pub open spec fn subject_of(command: StreamingCommand) -> Option<String> {
    match command {
        StreamingCommand::PrepareStream { stream_id, .. } => Some(stream_id),
        StreamingCommand::StartStream { stream_id, .. } => Some(stream_id),
        StreamingCommand::GrantAccess { stream_id, .. } => Some(stream_id),
        StreamingCommand::RevokeAccess { stream_id, .. } => Some(stream_id),
        StreamingCommand::ConnectToStream { stream_id, .. } => Some(stream_id),
        _ => None,
    }
}

/// Whether `request` is what `command` makes the manager ask of the
/// transport. A stream is prepared with the default settings and started
/// with the creator's; granting access and joining admit the viewer;
/// revoking evicts. The other commands ask for nothing.
pub open spec fn asks(command: StreamingCommand, request: Option<TransportRequest>) -> bool {
    match command {
        StreamingCommand::PrepareStream { stream_id, creator } => {
            &&& request matches Some(TransportRequest::CreateStream { stream_id: s, creator: c, quality })
            &&& s == stream_id
            &&& c == creator
            &&& quality.is_default()
        },
        StreamingCommand::StartStream { stream_id, creator, quality_settings } => request == Some(
            TransportRequest::CreateStream { stream_id, creator, quality: quality_settings },
        ),
        StreamingCommand::GrantAccess { stream_id, viewer } => request == Some(
            TransportRequest::ConnectViewer { stream_id, viewer },
        ),
        StreamingCommand::ConnectToStream { stream_id, viewer } => request == Some(
            TransportRequest::ConnectViewer { stream_id, viewer },
        ),
        StreamingCommand::RevokeAccess { stream_id, viewer } => request == Some(
            TransportRequest::DisconnectViewer { stream_id, viewer },
        ),
        _ => request is None,
    }
}

/// The streams that the manager tracks after the transport answered a
/// command: a stream that was prepared or started with success is kept
/// under its creator.
pub open spec fn streams_after(
    streams: Map<Seq<char>, String>,
    command: StreamingCommand,
    succeeded: bool,
) -> Map<Seq<char>, String> {
    if succeeded {
        match command {
            StreamingCommand::PrepareStream { stream_id, creator } => streams.insert(
                stream_id@,
                creator,
            ),
            StreamingCommand::StartStream { stream_id, creator, .. } => streams.insert(
                stream_id@,
                creator,
            ),
            _ => streams,
        }
    } else {
        streams
    }
}

/// Whether `actions` are what the manager does once the transport has given
/// `answer` to the request of `command`. A failure of the transport is
/// reported as a `StreamingError` event and nothing else happens. After a
/// success a prepared stream is announced as started; a started stream has
/// its frame task launched and is announced; an admitted viewer is announced
/// as connected and an evicted one as disconnected. Commands that ask
/// nothing of the transport lead to nothing.
pub open spec fn follows(
    command: StreamingCommand,
    answer: Result<(), TransportFailure>,
    actions: Seq<SessionAction>,
) -> bool {
    match subject_of(command) {
        None => actions.len() == 0,
        Some(subject) => match answer {
            Err(failure) => actions == seq![
                SessionAction::Publish {
                    event: StreamingEvent::StreamingError {
                        stream_id: subject,
                        error: failure.message,
                    },
                },
            ],
            Ok(()) => match command {
                StreamingCommand::PrepareStream { stream_id, creator } => actions == seq![
                    SessionAction::Publish {
                        event: StreamingEvent::StreamStarted { stream_id, creator },
                    },
                ],
                StreamingCommand::StartStream { stream_id, creator, .. } => actions == seq![
                    SessionAction::GenerateFrames { stream_id },
                    SessionAction::Publish {
                        event: StreamingEvent::StreamStarted { stream_id, creator },
                    },
                ],
                StreamingCommand::GrantAccess { stream_id, viewer } => actions == seq![
                    SessionAction::Publish {
                        event: StreamingEvent::ViewerConnected { stream_id, viewer_id: viewer },
                    },
                ],
                StreamingCommand::ConnectToStream { stream_id, viewer } => actions == seq![
                    SessionAction::Publish {
                        event: StreamingEvent::ViewerConnected { stream_id, viewer_id: viewer },
                    },
                ],
                StreamingCommand::RevokeAccess { stream_id, viewer } => exists|reason: String|
                    reason@ == access_revoked() && actions == seq![
                        SessionAction::Publish {
                            event: StreamingEvent::ViewerDisconnected {
                                stream_id,
                                viewer_id: viewer,
                                reason,
                            },
                        },
                    ],
                _ => actions.len() == 0,
            },
        },
    }
}

/// The media session manager: its configuration and the streams it tracks,
/// each under its creator.
#[derive(Debug, Clone, PartialEq, Eq)]
pub struct StreamingEngine {
    pub config: StreamingConfig,
    /// The creator of each stream the manager knows, by stream id.
    pub active_streams: StringMap<String>,
}

impl View for StreamingEngine {
    type V = Map<Seq<char>, String>;

    open spec fn view(&self) -> Map<Seq<char>, String> {
        self.active_streams@
    }
}

impl StreamingEngine {
    /// The streams are a well-formed map.
    pub open spec fn wf(&self) -> bool {
        self.active_streams.wf()
    }

    /// A manager that tracks no stream.
    pub fn new(config: StreamingConfig) -> (engine: StreamingEngine)
        ensures
            engine.wf(),
            engine.config == config,
            engine@ == Map::<Seq<char>, String>::empty(),
    {
        StreamingEngine { config, active_streams: StringMap::new() }
    }

    /// Which transport the manager is to be run with: the network one if
    /// the configuration says so, else the simulated one.
    pub fn uses_network_transport(&self) -> (yes: bool)
        ensures
            yes == self.config.use_real_webrtc,
    {
        self.config.use_real_webrtc
    }

    /// What `command` makes the manager ask of the media transport, if
    /// anything.
    pub fn transport_request(&self, command: &StreamingCommand) -> (request: Option<
        TransportRequest,
    >)
        ensures
            asks(*command, request),
    {
        match command {
            StreamingCommand::PrepareStream { stream_id, creator } => Some(
                TransportRequest::CreateStream {
                    stream_id: stream_id.clone(),
                    creator: creator.clone(),
                    quality: StreamQualitySettings::default(),
                },
            ),
            StreamingCommand::StartStream { stream_id, creator, quality_settings } => Some(
                TransportRequest::CreateStream {
                    stream_id: stream_id.clone(),
                    creator: creator.clone(),
                    quality: quality_settings.duplicate(),
                },
            ),
            StreamingCommand::GrantAccess { stream_id, viewer } => Some(
                TransportRequest::ConnectViewer {
                    stream_id: stream_id.clone(),
                    viewer: viewer.clone(),
                },
            ),
            StreamingCommand::ConnectToStream { stream_id, viewer } => Some(
                TransportRequest::ConnectViewer {
                    stream_id: stream_id.clone(),
                    viewer: viewer.clone(),
                },
            ),
            StreamingCommand::RevokeAccess { stream_id, viewer } => Some(
                TransportRequest::DisconnectViewer {
                    stream_id: stream_id.clone(),
                    viewer: viewer.clone(),
                },
            ),
            _ => None,
        }
    }

    /// Finishes `command` once the transport has given `answer` to its
    /// request: records what is to be recorded and returns, in order, what
    /// is to be done. For a command that asks nothing of the transport the
    /// answer does not matter.
    pub fn complete(&mut self, command: StreamingCommand, answer: Result<(), TransportFailure>) -> (actions:
        Vec<SessionAction>)
        requires
            old(self).wf(),
        ensures
            final(self).wf(),
            final(self)@ == streams_after(old(self)@, command, answer is Ok),
            follows(command, answer, actions@),
            final(self).config == old(self).config,
    {
        match command {
            StreamingCommand::PrepareStream { stream_id, creator } => {
                match answer {
                    Ok(()) => {
                        self.active_streams.insert(stream_id.clone(), creator.clone());
                        one(publish(StreamingEvent::StreamStarted { stream_id, creator }))
                    },
                    Err(failure) => one(failed(stream_id, failure)),
                }
            },
            StreamingCommand::StartStream { stream_id, creator, quality_settings } => {
                match answer {
                    Ok(()) => {
                        self.active_streams.insert(stream_id.clone(), creator.clone());
                        two(
                            SessionAction::GenerateFrames { stream_id: stream_id.clone() },
                            publish(StreamingEvent::StreamStarted { stream_id, creator }),
                        )
                    },
                    Err(failure) => one(failed(stream_id, failure)),
                }
            },
            StreamingCommand::GrantAccess { stream_id, viewer } => {
                match answer {
                    Ok(()) => one(
                        publish(StreamingEvent::ViewerConnected { stream_id, viewer_id: viewer }),
                    ),
                    Err(failure) => one(failed(stream_id, failure)),
                }
            },
            StreamingCommand::ConnectToStream { stream_id, viewer } => {
                match answer {
                    Ok(()) => one(
                        publish(StreamingEvent::ViewerConnected { stream_id, viewer_id: viewer }),
                    ),
                    Err(failure) => one(failed(stream_id, failure)),
                }
            },
            StreamingCommand::RevokeAccess { stream_id, viewer } => {
                match answer {
                    Ok(()) => {
                        let reason = String::from_str("Access revoked");
                        one(
                            publish(
                                StreamingEvent::ViewerDisconnected {
                                    stream_id,
                                    viewer_id: viewer,
                                    reason,
                                },
                            ),
                        )
                    },
                    Err(failure) => one(failed(stream_id, failure)),
                }
            },
            _ => Vec::new(),
        }
    }
}

/// The action that emits `event`.
fn publish(event: StreamingEvent) -> (action: SessionAction)
    ensures
        action == (SessionAction::Publish { event }),
{
    SessionAction::Publish { event }
}

/// A list of one action.
fn one(action: SessionAction) -> (actions: Vec<SessionAction>)
    ensures
        actions@ == seq![action],
{
    let mut actions: Vec<SessionAction> = Vec::new();
    actions.push(action);
    actions
}

/// A list of two actions.
fn two(first: SessionAction, second: SessionAction) -> (actions: Vec<SessionAction>)
    ensures
        actions@ == seq![first, second],
{
    let mut actions: Vec<SessionAction> = Vec::new();
    actions.push(first);
    actions.push(second);
    actions
}

/// The action that reports a failure of the transport for `stream_id`.
fn failed(stream_id: String, failure: TransportFailure) -> (action: SessionAction)
    ensures
        action == (SessionAction::Publish {
            event: StreamingEvent::StreamingError { stream_id, error: failure.message },
        }),
{
    SessionAction::Publish {
        event: StreamingEvent::StreamingError { stream_id, error: failure.message },
    }
}

/// How many demonstration frames are generated for a started stream.
pub const DEMO_FRAME_COUNT: u32 = 30;

/// The pause after each demonstration frame, in milliseconds.
pub const DEMO_FRAME_PAUSE_MS: u64 = 33;

/// The duration, in seconds, that is reported when the frames are through.
pub const DEMO_DURATION_SECONDS: u64 = 1;

/// The task that generates demonstration frames for one started stream. It
/// runs on its own: it produces a fixed number of frames, pausing after
/// each, and then reports that the stream has ended.
#[derive(Debug, Clone, PartialEq, Eq)]
pub struct FrameGeneration {
    pub stream_id: String,
    /// How many frames have been produced.
    pub frames_sent: u32,
}

/// What the frame task does next.
#[derive(Debug, Clone, PartialEq, Eq)]
pub enum FrameStep {
    /// Produce frame `number`, then pause.
    Frame { number: u32, pause_ms: u64 },
    /// Emit the event; the task is over.
    Finished { event: StreamingEvent },
}

impl FrameGeneration {
    /// A task that has produced no frame yet.
    pub fn new(stream_id: String) -> (task: FrameGeneration)
        ensures
            task.stream_id == stream_id,
            task.frames_sent == 0,
    {
        FrameGeneration { stream_id, frames_sent: 0 }
    }

    /// The task's next step: the next frame while fewer than
    /// `DEMO_FRAME_COUNT` have been produced, and the end of the stream from
    /// then on.
    pub fn advance(&mut self) -> (step: FrameStep)
        ensures
            final(self).stream_id == old(self).stream_id,
            old(self).frames_sent < DEMO_FRAME_COUNT ==> final(self).frames_sent == old(
                self,
            ).frames_sent + 1 && step == (FrameStep::Frame {
                number: old(self).frames_sent,
                pause_ms: DEMO_FRAME_PAUSE_MS,
            }),
            old(self).frames_sent >= DEMO_FRAME_COUNT ==> final(self).frames_sent == old(
                self,
            ).frames_sent && step == (FrameStep::Finished {
                event: StreamingEvent::StreamEnded {
                    stream_id: old(self).stream_id,
                    duration_seconds: DEMO_DURATION_SECONDS,
                },
            }),
    {
        if self.frames_sent < DEMO_FRAME_COUNT {
            let number = self.frames_sent;
            self.frames_sent = self.frames_sent + 1;
            FrameStep::Frame { number, pause_ms: DEMO_FRAME_PAUSE_MS }
        } else {
            FrameStep::Finished {
                event: StreamingEvent::StreamEnded {
                    stream_id: self.stream_id.clone(),
                    duration_seconds: DEMO_DURATION_SECONDS,
                },
            }
        }
    }
}

} // verus!
