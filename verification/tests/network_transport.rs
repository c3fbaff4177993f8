use sutantra_node::streaming::real_webrtc::{
    generate_test_frame, peer_id_of, ConnectionStatus, PeerConnectionManager,
    PeerConnectionWrapper, RealWebRTCEngine, TestFrame, VideoFrameTask, ViewerInfo,
    TEST_FRAME_COUNT, TEST_FRAME_PAUSE_MS,
};
use sutantra_node::streaming::{StreamMetrics, StreamQualitySettings, TransportFailure};
use sutantra_node::time::Timestamp;

fn s(text: &str) -> String {
    text.to_string()
}

fn at(millis: i64) -> Timestamp {
    Timestamp::from_millis(millis)
}

fn status_of(manager: &PeerConnectionManager, stream: &str, viewer: &str) -> Option<ConnectionStatus> {
    manager.connections.get(&peer_id_of(&s(stream), &s(viewer))).map(|peer| peer.status)
}

#[test]
fn peer_ids_join_stream_and_viewer() {
    assert_eq!(peer_id_of(&s("s1"), &s("v1")), "s1:v1");
    assert_eq!(peer_id_of(&s(""), &s("")), ":");
    assert_eq!(peer_id_of(&s("a:b"), &s("c")), "a:b:c");
}

#[test]
fn connections_start_as_connecting() {
    let mut manager = PeerConnectionManager::new();
    manager.add_connection_at(s("s1"), s("v1"), at(5));
    assert_eq!(
        manager.connections.get(&s("s1:v1")),
        Some(&PeerConnectionWrapper {
            peer_id: s("s1:v1"),
            stream_id: s("s1"),
            viewer_id: s("v1"),
            connected_since: at(5),
            status: ConnectionStatus::Connecting,
        })
    );
    assert_eq!(manager.get_connection_count(&s("s1")), 0);
}

#[test]
fn connections_are_dated_by_the_clock() {
    let mut manager = PeerConnectionManager::new();
    let earlier = chrono::Utc::now().timestamp_millis();
    manager.add_connection(s("s1"), s("v1"));
    let later = chrono::Utc::now().timestamp_millis();
    let since = manager.connections.get(&s("s1:v1")).unwrap().connected_since.millis;
    assert!(earlier <= since && since <= later);
    assert!(since > 1_600_000_000_000);
}

#[test]
fn only_established_connections_of_the_stream_are_counted() {
    let mut manager = PeerConnectionManager::new();
    for (stream, viewer) in [("s1", "v1"), ("s1", "v2"), ("s1", "v3"), ("s2", "v1"), ("s2", "v4")] {
        manager.add_connection_at(s(stream), s(viewer), at(0));
    }
    manager.update_status(&s("s1"), &s("v1"), ConnectionStatus::Connected);
    manager.update_status(&s("s1"), &s("v2"), ConnectionStatus::Failed);
    manager.update_status(&s("s1"), &s("v3"), ConnectionStatus::Connected);
    manager.update_status(&s("s2"), &s("v1"), ConnectionStatus::Connected);
    manager.update_status(&s("s2"), &s("v4"), ConnectionStatus::Disconnected);
    manager.update_status(&s("s9"), &s("v9"), ConnectionStatus::Connected);
    assert_eq!(manager.get_connection_count(&s("s1")), 2);
    assert_eq!(manager.get_connection_count(&s("s2")), 1);
    assert_eq!(manager.get_connection_count(&s("s9")), 0);
    assert_eq!(manager.connections.len(), 5);
    assert_eq!(status_of(&manager, "s1", "v2"), Some(ConnectionStatus::Failed));
    manager.remove_connection(&s("s1"), &s("v1"));
    manager.remove_connection(&s("s1"), &s("zz"));
    assert_eq!(manager.get_connection_count(&s("s1")), 1);
    assert_eq!(manager.connections.len(), 4);
    assert_eq!(status_of(&manager, "s1", "v1"), None);
    // Adding a connection again starts it over.
    manager.add_connection_at(s("s1"), s("v3"), at(9));
    assert_eq!(status_of(&manager, "s1", "v3"), Some(ConnectionStatus::Connecting));
    assert_eq!(manager.get_connection_count(&s("s1")), 0);
    assert_eq!(manager.connections.len(), 4);
}

fn quality() -> StreamQualitySettings {
    StreamQualitySettings {
        video_codec: s("VP8"),
        audio_codec: s("Opus"),
        max_bitrate_kbps: 1500,
        target_fps: 25,
        resolution: s("640x480"),
        adaptive_bitrate: false,
    }
}

#[test]
fn a_created_stream_is_active_and_unmeasured() {
    let mut engine = RealWebRTCEngine::new(31333);
    assert_eq!(engine.port, 31333);
    assert!(engine.list_active_streams().is_empty());
    assert_eq!(engine.create_stream(s("s1"), s("c1"), quality()), Ok(()));
    let stream = engine.active_streams.get(&s("s1")).unwrap();
    assert_eq!(stream.stream_id, "s1");
    assert_eq!(stream.creator, "c1");
    assert_eq!(stream.viewers.len(), 0);
    assert_eq!(stream.quality, quality());
    assert_eq!(stream.viewer_count, 0);
    assert!(stream.active);
    let expected = StreamMetrics {
        bandwidth_mbps_bits: 0.0f64.to_bits(),
        latency_ms: 0,
        packet_loss_percent_bits: 0.0f64.to_bits(),
        resolution: s("640x480"),
        fps: 25,
        bitrate_kbps: 1500,
        jitter_ms: 0,
    };
    assert_eq!(stream.metrics, expected);
    assert_eq!(engine.get_stream_metrics(&s("s1")), Some(expected));
    assert_eq!(engine.get_stream_metrics(&s("s2")), None);
    assert_eq!(engine.list_active_streams(), vec![s("s1")]);
}

#[test]
fn only_active_streams_are_listed() {
    let mut engine = RealWebRTCEngine::new(1);
    for stream in ["a", "b", "c"] {
        engine.create_stream(s(stream), s("c1"), quality()).unwrap();
    }
    engine.active_streams.value_at_mut(1).active = false;
    assert_eq!(engine.list_active_streams(), vec![s("a"), s("c")]);
}

#[test]
fn a_viewer_cannot_join_a_stream_that_is_not_carried() {
    let mut engine = RealWebRTCEngine::new(1);
    let before = engine.clone();
    assert_eq!(
        engine.begin_connect_at(&s("s1"), &s("v1"), at(0)),
        Err(TransportFailure { message: s("Stream not found") })
    );
    assert_eq!(engine, before);
    assert_eq!(
        engine.begin_connect(&s("s1"), &s("v1")),
        Err(TransportFailure { message: s("Stream not found") })
    );
    assert_eq!(engine, before);
}

#[test]
fn an_established_viewer_is_counted() {
    let mut engine = RealWebRTCEngine::new(1);
    engine.create_stream(s("s1"), s("c1"), quality()).unwrap();
    assert_eq!(engine.begin_connect_at(&s("s1"), &s("v1"), at(10)), Ok(()));
    assert_eq!(status_of(&engine.peer_manager, "s1", "v1"), Some(ConnectionStatus::Connecting));
    assert_eq!(engine.get_viewer_count(&s("s1")), 0);
    engine.finish_connect_at(&s("s1"), &s("v1"), true, at(20));
    assert_eq!(status_of(&engine.peer_manager, "s1", "v1"), Some(ConnectionStatus::Connected));
    let stream = engine.active_streams.get(&s("s1")).unwrap();
    assert_eq!(stream.viewer_count, 1);
    assert_eq!(
        stream.viewers.get(&s("v1")),
        Some(&ViewerInfo {
            viewer_id: s("v1"),
            connected_since: at(20),
            status: ConnectionStatus::Connecting
        })
    );
    assert_eq!(engine.get_viewer_count(&s("s1")), 1);
    assert_eq!(
        engine.peer_manager.connections.get(&s("s1:v1")).unwrap().connected_since,
        at(10)
    );
}

#[test]
fn a_failed_viewer_is_listed_but_not_counted() {
    let mut engine = RealWebRTCEngine::new(1);
    engine.create_stream(s("s1"), s("c1"), quality()).unwrap();
    engine.begin_connect_at(&s("s1"), &s("v1"), at(10)).unwrap();
    engine.finish_connect_at(&s("s1"), &s("v1"), true, at(11));
    engine.begin_connect_at(&s("s1"), &s("v2"), at(12)).unwrap();
    engine.finish_connect_at(&s("s1"), &s("v2"), false, at(13));
    assert_eq!(status_of(&engine.peer_manager, "s1", "v2"), Some(ConnectionStatus::Failed));
    let stream = engine.active_streams.get(&s("s1")).unwrap();
    assert_eq!(stream.viewer_count, 1);
    assert_eq!(stream.viewers.keys(), vec![s("v1"), s("v2")]);
}

#[test]
fn connecting_by_the_clock_dates_the_viewer() {
    let mut engine = RealWebRTCEngine::new(1);
    engine.create_stream(s("s1"), s("c1"), quality()).unwrap();
    let earlier = chrono::Utc::now().timestamp_millis();
    assert_eq!(engine.begin_connect(&s("s1"), &s("v1")), Ok(()));
    engine.finish_connect(&s("s1"), &s("v1"), true);
    let later = chrono::Utc::now().timestamp_millis();
    let stream = engine.active_streams.get(&s("s1")).unwrap();
    let since = stream.viewers.get(&s("v1")).unwrap().connected_since.millis;
    assert!(earlier <= since && since <= later);
    let peer = engine.peer_manager.connections.get(&s("s1:v1")).unwrap();
    assert!(earlier <= peer.connected_since.millis && peer.connected_since.millis <= since);
    assert_eq!(stream.viewer_count, 1);
}

#[test]
fn a_viewer_who_leaves_is_dropped_and_no_longer_counted() {
    let mut engine = RealWebRTCEngine::new(1);
    engine.create_stream(s("s1"), s("c1"), quality()).unwrap();
    for viewer in ["v1", "v2", "v3"] {
        engine.begin_connect_at(&s("s1"), &s(viewer), at(1)).unwrap();
        engine.finish_connect_at(&s("s1"), &s(viewer), true, at(2));
    }
    assert_eq!(engine.active_streams.get(&s("s1")).unwrap().viewer_count, 3);
    assert_eq!(engine.disconnect_viewer(s("s1"), s("v2")), Ok(()));
    let stream = engine.active_streams.get(&s("s1")).unwrap();
    assert_eq!(stream.viewer_count, 2);
    assert_eq!(stream.viewers.keys(), vec![s("v1"), s("v3")]);
    assert_eq!(status_of(&engine.peer_manager, "s1", "v2"), None);
    assert_eq!(engine.disconnect_viewer(s("zz"), s("v1")), Ok(()));
    assert_eq!(engine.peer_manager.connections.len(), 2);
    assert_eq!(engine.list_active_streams(), vec![s("s1")]);
}

#[test]
fn creating_a_stream_again_starts_it_over() {
    let mut engine = RealWebRTCEngine::new(1);
    engine.create_stream(s("s1"), s("c1"), quality()).unwrap();
    engine.create_stream(s("s2"), s("c1"), quality()).unwrap();
    engine.begin_connect_at(&s("s1"), &s("v1"), at(1)).unwrap();
    engine.finish_connect_at(&s("s1"), &s("v1"), true, at(2));
    engine.create_stream(s("s1"), s("c2"), StreamQualitySettings::default()).unwrap();
    let stream = engine.active_streams.get(&s("s1")).unwrap();
    assert_eq!(stream.creator, "c2");
    assert_eq!(stream.viewers.len(), 0);
    assert_eq!(stream.viewer_count, 0);
    assert_eq!(engine.list_active_streams(), vec![s("s1"), s("s2")]);
    // The peer connection stays on the books.
    assert_eq!(engine.get_viewer_count(&s("s1")), 1);
}

#[test]
fn test_frames_count_frames_and_ticks() {
    assert_eq!(
        generate_test_frame(0),
        TestFrame {
            version: 2,
            padding: false,
            extension: false,
            marker: true,
            payload_type: 96,
            sequence_number: 0,
            timestamp: 0,
            ssrc: 12345,
            payload: s("Video frame 0"),
        }
    );
    let frame = generate_test_frame(31);
    assert!(!frame.marker);
    assert_eq!(frame.sequence_number, 31);
    assert_eq!(frame.timestamp, 93_000);
    assert_eq!(frame.payload, "Video frame 31");
    assert!(generate_test_frame(60).marker);
    let frame = generate_test_frame(65_536 + 7);
    assert_eq!(frame.sequence_number, 7);
    assert_eq!(frame.timestamp, 196_629_000);
    let frame = generate_test_frame(1_431_656);
    assert_eq!(frame.timestamp, ((1_431_656u64 * 3000) % (1u64 << 32)) as u32);
    assert_eq!(frame.timestamp, 704);
    let frame = generate_test_frame(u64::MAX);
    assert_eq!(frame.sequence_number, 65_535);
    assert_eq!(frame.timestamp, u64::MAX.wrapping_mul(3000) as u32);
    assert_eq!(frame.payload, "Video frame 18446744073709551615");
}

#[test]
fn the_video_task_writes_its_frames_and_ends() {
    let mut task = VideoFrameTask::new();
    let mut written = 0u64;
    loop {
        let frame = task.frame();
        assert_eq!(frame, generate_test_frame(written));
        written += 1;
        match task.written(true) {
            Some(pause) => assert_eq!(pause, TEST_FRAME_PAUSE_MS),
            None => break,
        }
    }
    assert_eq!(written, TEST_FRAME_COUNT);
    assert_eq!(written, 900);
    assert_eq!(task.frame_count, 900);
    assert_eq!(task.written(true), None);
    assert_eq!(task.frame_count, 900);
}

#[test]
fn the_video_task_ends_when_a_frame_cannot_be_written() {
    let mut task = VideoFrameTask::new();
    assert_eq!(task.written(true), Some(33));
    assert_eq!(task.written(true), Some(33));
    assert_eq!(task.written(false), None);
    assert_eq!(task.frame_count, 2);
}
