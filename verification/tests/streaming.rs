use sutantra_node::streaming::engine::{
    FrameGeneration, FrameStep, SessionAction, StreamingEngine, TransportRequest,
    DEMO_DURATION_SECONDS, DEMO_FRAME_COUNT, DEMO_FRAME_PAUSE_MS,
};
use sutantra_node::streaming::test_trigger::{StreamTestTrigger, TEST_SEQUENCE_LENGTH};
use sutantra_node::streaming::{
    StreamQualitySettings, StreamingCommand, StreamingConfig, StreamingEvent, TransportFailure,
};

fn s(text: &str) -> String {
    text.to_string()
}

fn config(network: bool) -> StreamingConfig {
    StreamingConfig {
        webrtc_port: 31333,
        max_streams: 100,
        max_viewers_per_stream: 1000,
        enable_relay: true,
        relay_capacity: 1000,
        discovery_interval_seconds: 30,
        use_real_webrtc: network,
    }
}

fn vp8() -> StreamQualitySettings {
    StreamQualitySettings {
        video_codec: s("VP8"),
        audio_codec: s("Opus"),
        max_bitrate_kbps: 2000,
        target_fps: 30,
        resolution: s("1280x720"),
        adaptive_bitrate: true,
    }
}

fn failure() -> Result<(), TransportFailure> {
    Err(TransportFailure { message: s("Stream not found") })
}

fn error(stream: &str) -> Vec<SessionAction> {
    vec![SessionAction::Publish {
        event: StreamingEvent::StreamingError { stream_id: s(stream), error: s("Stream not found") },
    }]
}

#[test]
fn default_quality_is_h264_at_720p() {
    assert_eq!(
        StreamQualitySettings::default(),
        StreamQualitySettings {
            video_codec: s("H264"),
            audio_codec: s("Opus"),
            max_bitrate_kbps: 2000,
            target_fps: 30,
            resolution: s("1280x720"),
            adaptive_bitrate: true,
        }
    );
    assert_eq!(vp8().duplicate(), vp8());
}

#[test]
fn the_manager_is_run_with_the_configured_transport() {
    assert!(StreamingEngine::new(config(true)).uses_network_transport());
    assert!(!StreamingEngine::new(config(false)).uses_network_transport());
    assert_eq!(StreamingEngine::new(config(true)).config, config(true));
}

#[test]
fn preparing_asks_for_a_stream_with_default_quality() {
    let manager = StreamingEngine::new(config(false));
    let command = StreamingCommand::PrepareStream { stream_id: s("s1"), creator: s("c1") };
    assert_eq!(
        manager.transport_request(&command),
        Some(TransportRequest::CreateStream {
            stream_id: s("s1"),
            creator: s("c1"),
            quality: StreamQualitySettings::default()
        })
    );
}

#[test]
fn starting_asks_for_a_stream_with_the_given_quality() {
    let manager = StreamingEngine::new(config(false));
    let command = StreamingCommand::StartStream {
        stream_id: s("s1"),
        creator: s("c1"),
        quality_settings: vp8(),
    };
    assert_eq!(
        manager.transport_request(&command),
        Some(TransportRequest::CreateStream { stream_id: s("s1"), creator: s("c1"), quality: vp8() })
    );
}

#[test]
fn admitting_and_evicting_ask_for_the_viewer() {
    let manager = StreamingEngine::new(config(false));
    let connect = Some(TransportRequest::ConnectViewer { stream_id: s("s1"), viewer: s("v1") });
    assert_eq!(
        manager.transport_request(&StreamingCommand::GrantAccess {
            stream_id: s("s1"),
            viewer: s("v1")
        }),
        connect
    );
    assert_eq!(
        manager.transport_request(&StreamingCommand::ConnectToStream {
            stream_id: s("s1"),
            viewer: s("v1")
        }),
        connect
    );
    assert_eq!(
        manager.transport_request(&StreamingCommand::RevokeAccess {
            stream_id: s("s1"),
            viewer: s("v1")
        }),
        Some(TransportRequest::DisconnectViewer { stream_id: s("s1"), viewer: s("v1") })
    );
}

fn unhandled() -> Vec<StreamingCommand> {
    vec![
        StreamingCommand::StopStream { stream_id: s("s1") },
        StreamingCommand::DisconnectFromStream { stream_id: s("s1"), viewer: s("v1") },
        StreamingCommand::UpdateRelayConfig {
            max_streams: 5,
            max_bandwidth_mbps_bits: 10.0f64.to_bits(),
        },
    ]
}

#[test]
fn other_commands_ask_for_nothing_and_lead_to_nothing() {
    let mut manager = StreamingEngine::new(config(false));
    manager.complete(StreamingCommand::PrepareStream { stream_id: s("s1"), creator: s("c1") }, Ok(()));
    let before = manager.clone();
    for command in unhandled() {
        assert_eq!(manager.transport_request(&command), None);
        assert!(manager.complete(command.clone(), Ok(())).is_empty());
        assert!(manager.complete(command, failure()).is_empty());
        assert_eq!(manager, before);
    }
}

#[test]
fn a_prepared_stream_is_kept_and_announced() {
    let mut manager = StreamingEngine::new(config(false));
    let actions = manager
        .complete(StreamingCommand::PrepareStream { stream_id: s("s1"), creator: s("c1") }, Ok(()));
    assert_eq!(
        actions,
        vec![SessionAction::Publish {
            event: StreamingEvent::StreamStarted { stream_id: s("s1"), creator: s("c1") }
        }]
    );
    assert_eq!(manager.active_streams.get(&s("s1")), Some(&s("c1")));
}

#[test]
fn a_started_stream_gets_its_frames_and_is_announced() {
    let mut manager = StreamingEngine::new(config(false));
    manager.complete(StreamingCommand::PrepareStream { stream_id: s("s1"), creator: s("c1") }, Ok(()));
    let actions = manager.complete(
        StreamingCommand::StartStream {
            stream_id: s("s1"),
            creator: s("c2"),
            quality_settings: vp8(),
        },
        Ok(()),
    );
    assert_eq!(
        actions,
        vec![
            SessionAction::GenerateFrames { stream_id: s("s1") },
            SessionAction::Publish {
                event: StreamingEvent::StreamStarted { stream_id: s("s1"), creator: s("c2") }
            },
        ]
    );
    assert_eq!(manager.active_streams.get(&s("s1")), Some(&s("c2")));
    assert_eq!(manager.active_streams.len(), 1);
}

#[test]
fn admitted_viewers_are_announced_as_connected() {
    let mut manager = StreamingEngine::new(config(false));
    let before = manager.clone();
    let connected = vec![SessionAction::Publish {
        event: StreamingEvent::ViewerConnected { stream_id: s("s1"), viewer_id: s("v1") },
    }];
    assert_eq!(
        manager.complete(
            StreamingCommand::GrantAccess { stream_id: s("s1"), viewer: s("v1") },
            Ok(())
        ),
        connected
    );
    assert_eq!(
        manager.complete(
            StreamingCommand::ConnectToStream { stream_id: s("s1"), viewer: s("v1") },
            Ok(())
        ),
        connected
    );
    assert_eq!(manager, before);
}

#[test]
fn evicted_viewers_are_announced_as_disconnected() {
    let mut manager = StreamingEngine::new(config(false));
    assert_eq!(
        manager.complete(
            StreamingCommand::RevokeAccess { stream_id: s("s1"), viewer: s("v1") },
            Ok(())
        ),
        vec![SessionAction::Publish {
            event: StreamingEvent::ViewerDisconnected {
                stream_id: s("s1"),
                viewer_id: s("v1"),
                reason: s("Access revoked")
            }
        }]
    );
}

#[test]
fn a_failure_of_the_transport_becomes_an_event() {
    let mut manager = StreamingEngine::new(config(false));
    let before = manager.clone();
    let commands = vec![
        StreamingCommand::PrepareStream { stream_id: s("s1"), creator: s("c1") },
        StreamingCommand::StartStream {
            stream_id: s("s1"),
            creator: s("c1"),
            quality_settings: vp8(),
        },
        StreamingCommand::GrantAccess { stream_id: s("s1"), viewer: s("v1") },
        StreamingCommand::ConnectToStream { stream_id: s("s1"), viewer: s("v1") },
        StreamingCommand::RevokeAccess { stream_id: s("s1"), viewer: s("v1") },
    ];
    for command in commands {
        assert_eq!(manager.complete(command, failure()), error("s1"));
        assert_eq!(manager, before);
    }
}

#[test]
fn the_frame_task_ends_after_its_frames() {
    let mut task = FrameGeneration::new(s("s1"));
    for number in 0..DEMO_FRAME_COUNT {
        assert_eq!(task.advance(), FrameStep::Frame { number, pause_ms: DEMO_FRAME_PAUSE_MS });
    }
    assert_eq!(DEMO_FRAME_COUNT, 30);
    assert_eq!(DEMO_FRAME_PAUSE_MS, 33);
    assert_eq!(DEMO_DURATION_SECONDS, 1);
    let ended = FrameStep::Finished {
        event: StreamingEvent::StreamEnded { stream_id: s("s1"), duration_seconds: 1 },
    };
    assert_eq!(task.advance(), ended);
    assert_eq!(task.advance(), ended);
    assert_eq!(task.frames_sent, 30);
}

#[test]
fn the_test_sequence_sets_up_the_demonstration_stream() {
    let mut trigger = StreamTestTrigger::new();
    let mut steps = Vec::new();
    while let Some(step) = trigger.next_step() {
        steps.push((step.wait_seconds, step.command));
    }
    assert_eq!(steps.len(), TEST_SEQUENCE_LENGTH as usize);
    assert_eq!(
        steps,
        vec![
            (
                2,
                StreamingCommand::PrepareStream {
                    stream_id: s("demo-stream-001"),
                    creator: s("node-creator")
                }
            ),
            (
                1,
                StreamingCommand::StartStream {
                    stream_id: s("demo-stream-001"),
                    creator: s("node-creator"),
                    quality_settings: vp8()
                }
            ),
            (
                2,
                StreamingCommand::GrantAccess {
                    stream_id: s("demo-stream-001"),
                    viewer: s("demo-viewer-001")
                }
            ),
            (
                0,
                StreamingCommand::ConnectToStream {
                    stream_id: s("demo-stream-001"),
                    viewer: s("demo-viewer-001")
                }
            ),
        ]
    );
    assert_eq!(trigger.next_step(), None);
    assert_eq!(trigger.sent, 4);
}
