use sutantra_node::streaming::webrtc::{
    ActiveStreamConnection, MockWebRTCEngine, StreamData, SIMULATED_BANDWIDTH_MBPS_BITS,
    SIMULATED_PACKET_LOSS_PERCENT_BITS,
};
use sutantra_node::streaming::{StreamMetrics, StreamQualitySettings};

fn s(text: &str) -> String {
    text.to_string()
}

fn carrying(streams: &[&str]) -> MockWebRTCEngine {
    let mut engine = MockWebRTCEngine::new(31333);
    for stream in streams {
        engine.create_stream(s(stream), s("c1"), StreamQualitySettings::default()).unwrap();
    }
    engine
}

#[test]
fn a_new_transport_carries_nothing() {
    let engine = MockWebRTCEngine::new(31333);
    assert_eq!(engine.port, 31333);
    assert!(engine.list_active_streams().is_empty());
    assert_eq!(engine.get_stream_metrics(&s("s1")), None);
    assert_eq!(engine.get_viewer_count(&s("s1")), 0);
}

#[test]
fn created_streams_are_listed_in_order() {
    let engine = carrying(&["b", "a", "c", "a"]);
    assert_eq!(engine.list_active_streams(), vec![s("b"), s("a"), s("c")]);
    assert_eq!(
        engine.active_streams.get(&s("a")),
        Some(&ActiveStreamConnection {
            stream_id: s("a"),
            creator: s("c1"),
            viewers: vec![],
            quality: StreamQualitySettings::default(),
        })
    );
}

#[test]
fn viewers_join_once() {
    let mut engine = carrying(&["s1", "s2"]);
    for viewer in ["v1", "v2", "v1", "v3", "v2"] {
        assert_eq!(engine.connect_viewer(s("s1"), s(viewer)), Ok(()));
    }
    assert_eq!(engine.connect_viewer(s("s2"), s("v1")), Ok(()));
    assert_eq!(engine.active_streams.get(&s("s1")).unwrap().viewers, vec![s("v1"), s("v2"), s("v3")]);
    assert_eq!(engine.get_viewer_count(&s("s1")), 3);
    assert_eq!(engine.get_viewer_count(&s("s2")), 1);
}

#[test]
fn joining_an_unknown_stream_is_ignored() {
    let mut engine = carrying(&["s1"]);
    let before = engine.clone();
    assert_eq!(engine.connect_viewer(s("zz"), s("v1")), Ok(()));
    assert_eq!(engine, before);
}

#[test]
fn viewers_leave() {
    let mut engine = carrying(&["s1"]);
    for viewer in ["v1", "v2", "v3"] {
        engine.connect_viewer(s("s1"), s(viewer)).unwrap();
    }
    assert_eq!(engine.disconnect_viewer(s("s1"), s("v2")), Ok(()));
    assert_eq!(engine.active_streams.get(&s("s1")).unwrap().viewers, vec![s("v1"), s("v3")]);
    assert_eq!(engine.disconnect_viewer(s("s1"), s("v2")), Ok(()));
    assert_eq!(engine.get_viewer_count(&s("s1")), 2);
    let before = engine.clone();
    assert_eq!(engine.disconnect_viewer(s("zz"), s("v1")), Ok(()));
    assert_eq!(engine, before);
}

#[test]
fn creating_a_stream_again_drops_its_viewers() {
    let mut engine = carrying(&["s1", "s2"]);
    engine.connect_viewer(s("s1"), s("v1")).unwrap();
    engine.create_stream(s("s1"), s("c2"), StreamQualitySettings::default()).unwrap();
    let stream = engine.active_streams.get(&s("s1")).unwrap();
    assert!(stream.viewers.is_empty());
    assert_eq!(stream.creator, "c2");
    assert_eq!(engine.list_active_streams(), vec![s("s1"), s("s2")]);
}

#[test]
fn carried_streams_report_simulated_figures() {
    let engine = carrying(&["s1"]);
    let metrics = engine.get_stream_metrics(&s("s1")).unwrap();
    assert_eq!(
        metrics,
        StreamMetrics {
            bandwidth_mbps_bits: SIMULATED_BANDWIDTH_MBPS_BITS,
            latency_ms: 45,
            packet_loss_percent_bits: SIMULATED_PACKET_LOSS_PERCENT_BITS,
            resolution: s("1280x720"),
            fps: 30,
            bitrate_kbps: 2000,
            jitter_ms: 5,
        }
    );
    assert_eq!(f64::from_bits(metrics.bandwidth_mbps_bits), 2.5);
    assert_eq!(f64::from_bits(metrics.packet_loss_percent_bits), 0.1);
    assert_eq!(engine.get_stream_metrics(&s("s2")), None);
}

#[test]
fn frames_are_accepted_and_dropped() {
    let engine = carrying(&["s1"]);
    let before = engine.clone();
    let frame = StreamData { frame_count: 1, timestamp: 33, data: vec![1, 2, 3] };
    assert_eq!(engine.send_stream_data(s("s1"), frame.clone()), Ok(()));
    assert_eq!(engine.send_stream_data(s("zz"), frame), Ok(()));
    assert_eq!(engine, before);
}
