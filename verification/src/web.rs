//! The gateway for user interfaces: which command for the media session
//! manager a message of a user interface calls for, and what is answered.

use vstd::prelude::*;
use crate::streaming::{StreamQualitySettings, StreamingCommand};
use crate::time::{current_time, Timestamp};

verus! {

/// What a client says of itself when it connects.
#[derive(Debug, Clone, PartialEq, Eq)]
pub struct HandshakeRequest {
    /// "streamer" or "viewer"
    pub client_type: String,
    pub node_id: Option<String>,
}

/// A creator's request for a new stream.
#[derive(Debug, Clone, PartialEq, Eq)]
pub struct CreateStreamRequest {
    pub title: String,
    pub description: Option<String>,
    pub quality: StreamQualitySettings,
}

/// The answer to a request for a new stream.
#[derive(Debug, Clone, PartialEq, Eq)]
pub struct CreateStreamResponse {
    pub success: bool,
    pub message: String,
    pub stream_id: Option<String>,
    pub error: Option<String>,
}

/// A message of a user interface, read and understood.
#[derive(Debug, Clone, PartialEq, Eq)]
pub enum UiRequest {
    Handshake { request: HandshakeRequest },
    CreateStream { request: CreateStreamRequest },
    /// Join the stream that the message names, if it names one.
    JoinStream { stream_id: Option<String> },
    /// Restart the stream that the message names, if it names one, with
    /// this quality.
    UpdateQuality { stream_id: Option<String>, quality: StreamQualitySettings },
    Ping,
    /// A message of a type that the gateway does not know.
    Unknown,
}

/// The gateway's reply to a message, before it is written out.
#[derive(Debug, Clone, PartialEq, Eq)]
pub enum UiReply {
    /// The answer to a handshake.
    Handshake { client_id: String, message: String },
    /// The answer to a request for a new stream.
    StreamCreation { response: CreateStreamResponse },
    /// The answer to a ping: the time, in milliseconds since the epoch.
    Pong { timestamp: i64 },
}

/// What the gateway does about a message.
#[derive(Debug, Clone, PartialEq, Eq)]
pub struct UiOutcome {
    /// The reply to the client, if there is one.
    pub reply: Option<UiReply>,
    /// The command to send to the media session manager, if there is one.
    pub command: Option<StreamingCommand>,
    /// What to tell the client if the command cannot be sent.
    pub on_failure: Option<String>,
}

/// The resolution that is assumed when a client names none.
pub open spec fn default_resolution() -> Seq<char> {
    "1280x720"@
}

/// Whether `completed` is `quality` with the default resolution filled in
/// where `quality` names none.
pub open spec fn completes(quality: StreamQualitySettings, completed: StreamQualitySettings)
    -> bool {
    &&& completed.video_codec == quality.video_codec
    &&& completed.audio_codec == quality.audio_codec
    &&& completed.max_bitrate_kbps == quality.max_bitrate_kbps
    &&& completed.target_fps == quality.target_fps
    &&& completed.adaptive_bitrate == quality.adaptive_bitrate
    &&& completed.resolution@ == if quality.resolution@.len() == 0 {
        default_resolution()
    } else {
        quality.resolution@
    }
}

/// `quality`, with the default resolution filled in if it names none.
pub fn with_default_resolution(quality: StreamQualitySettings) -> (completed: StreamQualitySettings)
    ensures
        completes(quality, completed),
{
    if quality.resolution.as_str().is_empty() {
        StreamQualitySettings {
            video_codec: quality.video_codec,
            audio_codec: quality.audio_codec,
            max_bitrate_kbps: quality.max_bitrate_kbps,
            target_fps: quality.target_fps,
            resolution: String::from_str("1280x720"),
            adaptive_bitrate: quality.adaptive_bitrate,
        }
    } else {
        quality
    }
}

/// Whether `outcome` is what the gateway makes of `request`, sent by
/// `client_id` and handled at `now`, when `fresh_id` is the id at hand for
/// a new stream.
///
/// A handshake is greeted. A request for a stream is confirmed under the
/// fresh id, and the stream is to be prepared for the client as its
/// creator. Joining a stream connects the client as a viewer; a new quality
/// restarts the stream for the client as its creator; both need the
/// message to name the stream. A ping is answered with the time.
pub open spec fn answered(
    request: UiRequest,
    client_id: String,
    fresh_id: String,
    now: int,
    outcome: UiOutcome,
) -> bool {
    match request {
        UiRequest::Handshake { .. } => {
            &&& outcome.command is None
            &&& outcome.on_failure is None
            &&& outcome.reply matches Some(UiReply::Handshake { client_id: c, message })
            &&& c == client_id
            &&& message@ == "Connected to Sutantra node"@
        },
        UiRequest::CreateStream { .. } => {
            &&& outcome.command == Some(
                StreamingCommand::PrepareStream { stream_id: fresh_id, creator: client_id },
            )
            &&& outcome.on_failure matches Some(text)
            &&& text@ == "Failed to create stream"@
            &&& outcome.reply matches Some(UiReply::StreamCreation { response })
            &&& response.success
            &&& response.message@ == "Stream creation initiated"@
            &&& response.stream_id == Some(fresh_id)
            &&& response.error is None
        },
        UiRequest::JoinStream { stream_id } => {
            &&& outcome.reply is None
            &&& match stream_id {
                Some(id) => {
                    &&& outcome.command == Some(
                        StreamingCommand::ConnectToStream { stream_id: id, viewer: client_id },
                    )
                    &&& outcome.on_failure matches Some(text)
                    &&& text@ == "Failed to join stream"@
                },
                None => outcome.command is None && outcome.on_failure is None,
            }
        },
        UiRequest::UpdateQuality { stream_id, quality } => {
            &&& outcome.reply is None
            &&& match stream_id {
                Some(id) => {
                    &&& outcome.command matches Some(
                        StreamingCommand::StartStream { stream_id: s, creator, quality_settings },
                    )
                    &&& s == id
                    &&& creator == client_id
                    &&& completes(quality, quality_settings)
                    &&& outcome.on_failure matches Some(text)
                    &&& text@ == "Failed to update quality"@
                },
                None => outcome.command is None && outcome.on_failure is None,
            }
        },
        UiRequest::Ping => {
            &&& outcome.command is None
            &&& outcome.on_failure is None
            &&& outcome.reply == Some(UiReply::Pong { timestamp: now as i64 })
        },
        UiRequest::Unknown => {
            &&& outcome.reply is None
            &&& outcome.command is None
            &&& outcome.on_failure is None
        },
    }
}

/// What the gateway makes of `request`, sent by `client_id`, at the
/// instant `now`, with `fresh_id` at hand as the id for a new stream.
pub fn handle_message_at(request: UiRequest, client_id: &String, fresh_id: String, now: Timestamp)
    -> (outcome: UiOutcome)
    ensures
        answered(request, *client_id, fresh_id, now@, outcome),
{
    match request {
        UiRequest::Handshake { request } => UiOutcome {
            reply: Some(
                UiReply::Handshake {
                    client_id: client_id.clone(),
                    message: String::from_str("Connected to Sutantra node"),
                },
            ),
            command: None,
            on_failure: None,
        },
        UiRequest::CreateStream { request } => UiOutcome {
            reply: Some(
                UiReply::StreamCreation {
                    response: CreateStreamResponse {
                        success: true,
                        message: String::from_str("Stream creation initiated"),
                        stream_id: Some(fresh_id.clone()),
                        error: None,
                    },
                },
            ),
            command: Some(
                StreamingCommand::PrepareStream { stream_id: fresh_id, creator: client_id.clone() },
            ),
            on_failure: Some(String::from_str("Failed to create stream")),
        },
        UiRequest::JoinStream { stream_id } => match stream_id {
            Some(id) => UiOutcome {
                reply: None,
                command: Some(
                    StreamingCommand::ConnectToStream { stream_id: id, viewer: client_id.clone() },
                ),
                on_failure: Some(String::from_str("Failed to join stream")),
            },
            None => UiOutcome { reply: None, command: None, on_failure: None },
        },
        UiRequest::UpdateQuality { stream_id, quality } => match stream_id {
            Some(id) => UiOutcome {
                reply: None,
                command: Some(
                    StreamingCommand::StartStream {
                        stream_id: id,
                        creator: client_id.clone(),
                        quality_settings: with_default_resolution(quality),
                    },
                ),
                on_failure: Some(String::from_str("Failed to update quality")),
            },
            None => UiOutcome { reply: None, command: None, on_failure: None },
        },
        UiRequest::Ping => UiOutcome {
            reply: Some(UiReply::Pong { timestamp: now.millis }),
            command: None,
            on_failure: None,
        },
        UiRequest::Unknown => UiOutcome { reply: None, command: None, on_failure: None },
    }
}

/// Draws a random identifier with `uuid::Uuid::new_v4` and writes it the
/// way `Uuid`'s `Display` does: hyphenated, which takes 36 characters. Which
/// identifier comes back is up to the system's source of randomness.
/// (`Uuid::new_v4` panics if that source cannot be read.)
#[verifier::external_body]
pub(crate) fn random_id() -> (id: String)
    ensures
        id@.len() == 36,
{
    uuid::Uuid::new_v4().to_string()
}

/// The id for a client that has just connected: random, 36 characters
/// long.
pub fn new_client_id() -> (id: String)
    ensures
        id@.len() == 36,
{
    random_id()
}

/// What the gateway makes of `request`, sent by `client_id`, at the
/// instant the clock shows and with a random id at hand for a new stream.
pub fn handle_message(request: UiRequest, client_id: &String) -> (outcome: UiOutcome)
    ensures
        exists|fresh_id: String, now: int|
            fresh_id@.len() == 36 && answered(request, *client_id, fresh_id, now, outcome),
{
    let now = current_time();
    let fresh_id = random_id();
    let outcome = handle_message_at(request, client_id, fresh_id, now);
    outcome
}

} // verus!
