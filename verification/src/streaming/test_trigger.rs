//! A scripted sequence of commands that sets up a demonstration stream.

use vstd::prelude::*;
use super::{StreamQualitySettings, StreamingCommand};

verus! {

/// How many commands the script holds.
pub const TEST_SEQUENCE_LENGTH: u8 = 4;

/// The id of the demonstration stream.
pub open spec fn demo_stream() -> Seq<char> {
    "demo-stream-001"@
}

/// The creator of the demonstration stream.
pub open spec fn demo_creator() -> Seq<char> {
    "node-creator"@
}

/// The viewer of the demonstration stream.
pub open spec fn demo_viewer() -> Seq<char> {
    "demo-viewer-001"@
}

/// Whether `settings` are those of the demonstration stream.
pub open spec fn is_demo_quality(settings: StreamQualitySettings) -> bool {
    &&& settings.video_codec@ == "VP8"@
    &&& settings.audio_codec@ == "Opus"@
    &&& settings.max_bitrate_kbps == 2000
    &&& settings.target_fps == 30
    &&& settings.resolution@ == "1280x720"@
    &&& settings.adaptive_bitrate
}

/// Whether step `index` of the script is to wait `wait_seconds` and then
/// send `command`: the stream is prepared after two seconds, started one
/// second later, and two seconds after that the viewer is admitted and, at
/// once, connected.
pub open spec fn is_scripted(index: int, wait_seconds: u64, command: StreamingCommand) -> bool {
    if index == 0 {
        &&& wait_seconds == 2
        &&& command matches StreamingCommand::PrepareStream { stream_id, creator }
        &&& stream_id@ == demo_stream()
        &&& creator@ == demo_creator()
    } else if index == 1 {
        &&& wait_seconds == 1
        &&& command matches StreamingCommand::StartStream { stream_id, creator, quality_settings }
        &&& stream_id@ == demo_stream()
        &&& creator@ == demo_creator()
        &&& is_demo_quality(quality_settings)
    } else if index == 2 {
        &&& wait_seconds == 2
        &&& command matches StreamingCommand::GrantAccess { stream_id, viewer }
        &&& stream_id@ == demo_stream()
        &&& viewer@ == demo_viewer()
    } else if index == 3 {
        &&& wait_seconds == 0
        &&& command matches StreamingCommand::ConnectToStream { stream_id, viewer }
        &&& stream_id@ == demo_stream()
        &&& viewer@ == demo_viewer()
    } else {
        false
    }
}

/// One step of the script: a wait, then a command to send.
#[derive(Debug, Clone, PartialEq, Eq)]
pub struct ScriptedCommand {
    pub wait_seconds: u64,
    pub command: StreamingCommand,
}

/// Walks through the script, one step at a time.
#[derive(Debug, Clone, PartialEq, Eq)]
pub struct StreamTestTrigger {
    /// How many steps have been handed out.
    pub sent: u8,
}

impl StreamTestTrigger {
    /// A trigger at the start of the script.
    pub fn new() -> (trigger: StreamTestTrigger)
        ensures
            trigger.sent == 0,
    {
        StreamTestTrigger { sent: 0 }
    }

    /// The next step of the script, or nothing once it is through.
    pub fn next_step(&mut self) -> (step: Option<ScriptedCommand>)
        ensures
            match step {
                Some(scripted) => {
                    &&& old(self).sent < TEST_SEQUENCE_LENGTH
                    &&& final(self).sent == old(self).sent + 1
                    &&& is_scripted(old(self).sent as int, scripted.wait_seconds, scripted.command)
                },
                None => old(self).sent >= TEST_SEQUENCE_LENGTH && final(self).sent == old(self).sent,
            },
    {
        if self.sent >= TEST_SEQUENCE_LENGTH {
            return None;
        }
        let index = self.sent;
        self.sent = self.sent + 1;
        let stream_id = String::from_str("demo-stream-001");
        if index == 0 {
            Some(
                ScriptedCommand {
                    wait_seconds: 2,
                    command: StreamingCommand::PrepareStream {
                        stream_id,
                        creator: String::from_str("node-creator"),
                    },
                },
            )
        } else if index == 1 {
            Some(
                ScriptedCommand {
                    wait_seconds: 1,
                    command: StreamingCommand::StartStream {
                        stream_id,
                        creator: String::from_str("node-creator"),
                        quality_settings: StreamQualitySettings {
                            video_codec: String::from_str("VP8"),
                            audio_codec: String::from_str("Opus"),
                            max_bitrate_kbps: 2000,
                            target_fps: 30,
                            resolution: String::from_str("1280x720"),
                            adaptive_bitrate: true,
                        },
                    },
                },
            )
        } else if index == 2 {
            Some(
                ScriptedCommand {
                    wait_seconds: 2,
                    command: StreamingCommand::GrantAccess {
                        stream_id,
                        viewer: String::from_str("demo-viewer-001"),
                    },
                },
            )
        } else {
            Some(
                ScriptedCommand {
                    wait_seconds: 0,
                    command: StreamingCommand::ConnectToStream {
                        stream_id,
                        viewer: String::from_str("demo-viewer-001"),
                    },
                },
            )
        }
    }
}

} // verus!
