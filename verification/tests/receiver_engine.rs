use nomikai_session::event::{EventSink, UiEvent};
use nomikai_session::frame::{InboundAudioFrame, InboundVideoFrame, NetworkStats};
use nomikai_session::receiver::{
    announce_receiver_connected, announce_receiver_listening, announce_receiver_starting,
    receiver_loop_step, start_receiver_loop, ReceiverAction, ReceiverInput, ReceiverLoop,
};
use nomikai_session::report_save::assemble_report_data;

const RE_DEBUG_CODEC: u8 = 0x7F;

fn re_started() -> (EventSink, ReceiverLoop) {
    let mut sink = EventSink::new();
    let state = start_receiver_loop(&mut sink, 0, RE_DEBUG_CODEC);
    sink.drain();
    (sink, state)
}

fn re_video(frame_index: u64, payload: &[u8]) -> InboundVideoFrame {
    InboundVideoFrame {
        session_id: 9,
        stream_id: 0,
        frame_index,
        keyframe: frame_index == 0,
        timestamp_us: 1_000 + frame_index,
        payload: payload.to_vec(),
        packet_loss_ppm: 12_500,
    }
}

fn re_audio(codec: u8, payload: &[u8]) -> InboundAudioFrame {
    InboundAudioFrame {
        session_id: 9,
        stream_id: 1,
        timestamp_us: 5_000,
        codec,
        frames_per_packet: 2,
        payload: payload.to_vec(),
    }
}

fn re_connection(state: &str, detail: &str) -> UiEvent {
    UiEvent::ConnectionState { state: state.to_string(), detail: detail.to_string() }
}

fn re_telemetry(name: &str, value: u64) -> UiEvent {
    UiEvent::Telemetry { name: name.to_string(), value }
}

fn re_is_continue(action: &ReceiverAction) -> bool {
    matches!(action, ReceiverAction::Continue)
}

fn re_is_stop(action: &ReceiverAction) -> bool {
    matches!(action, ReceiverAction::Stop)
}

fn re_handshake(stream_id: u32) -> Vec<UiEvent> {
    vec![
        UiEvent::HandshakeInitiated,
        UiEvent::HandshakeComplete { session_id: 9, bootstrap_mode: "Receiver".to_string() },
        re_connection("connected", &format!("session=9 stream={}", stream_id)),
    ]
}

fn re_count_announcements(events: &[UiEvent]) -> (usize, usize, usize) {
    let initiated = events.iter().filter(|e| matches!(e, UiEvent::HandshakeInitiated)).count();
    let complete =
        events.iter().filter(|e| matches!(e, UiEvent::HandshakeComplete { .. })).count();
    let connected = events
        .iter()
        .filter(|e| matches!(e, UiEvent::ConnectionState { state, .. } if state == "connected"))
        .count();
    (initiated, complete, connected)
}

fn re_report_packet(packet_type: u8, report_id: u32, fields: &[u8]) -> Vec<u8> {
    let mut out = b"NRPT\x01".to_vec();
    out.push(packet_type);
    out.extend_from_slice(&report_id.to_le_bytes());
    out.extend_from_slice(fields);
    out
}

#[test]
fn the_start_of_a_receiver_is_announced_step_by_step() {
    let mut sink = EventSink::new();
    announce_receiver_starting(&mut sink, "[::]:9292");
    announce_receiver_listening(&mut sink, "[::]:9292");
    announce_receiver_connected(&mut sink, "198.51.100.7:40000", "[::]:9292");
    let state = start_receiver_loop(&mut sink, 512, RE_DEBUG_CODEC);
    assert!(!state.handshake_announced);
    assert!(state.assembly.is_none());
    assert_eq!(state.debug_codec, RE_DEBUG_CODEC);
    assert_eq!(
        sink.drain(),
        vec![
            re_connection("starting", "binding [::]:9292"),
            re_connection("listening", "local=[::]:9292"),
            re_connection("awaiting_peer", "waiting for inbound QUIC connection"),
            re_connection("quic_connected", "accepted QUIC peer remote=198.51.100.7:40000 local=[::]:9292"),
            re_telemetry("graph_bytes", 512),
        ]
    );
}

#[test]
fn a_video_frame_is_published_with_its_telemetry() {
    let (mut sink, mut state) = re_started();
    let action =
        receiver_loop_step(&mut sink, &mut state, ReceiverInput::Video(Some(re_video(0, b"nalu"))));
    assert!(re_is_continue(&action));
    assert!(state.handshake_announced);
    let mut expected = re_handshake(0);
    expected.extend(vec![
        UiEvent::VideoFrameReceived { data: b"nalu".to_vec(), pts: 1_000 },
        UiEvent::Progress { stream_id: 0, frame_index: 0, bytes: 4, frames: 1 },
        re_telemetry("keyframe", 1),
        re_telemetry("packet_loss_ppm", 12_500),
    ]);
    assert_eq!(sink.drain(), expected);
    let action =
        receiver_loop_step(&mut sink, &mut state, ReceiverInput::Video(Some(re_video(7, b"p"))));
    assert!(re_is_continue(&action));
    assert_eq!(
        sink.drain(),
        vec![
            UiEvent::VideoFrameReceived { data: b"p".to_vec(), pts: 1_007 },
            UiEvent::Progress { stream_id: 0, frame_index: 7, bytes: 1, frames: 8 },
            re_telemetry("keyframe", 0),
            re_telemetry("packet_loss_ppm", 12_500),
        ]
    );
}

#[test]
fn packet_loss_is_reported_as_at_most_one_million() {
    let (mut sink, mut state) = re_started();
    state.handshake_announced = true;
    for (given, reported) in [(0u64, 0u64), (1_000_000, 1_000_000), (1_000_001, 1_000_000), (u64::MAX, 1_000_000)] {
        let mut frame = re_video(u64::MAX, b"x");
        frame.packet_loss_ppm = given;
        receiver_loop_step(&mut sink, &mut state, ReceiverInput::Video(Some(frame)));
        let events = sink.drain();
        assert_eq!(events[3], re_telemetry("packet_loss_ppm", reported));
        assert_eq!(
            events[1],
            UiEvent::Progress { stream_id: 0, frame_index: u64::MAX, bytes: 1, frames: u64::MAX }
        );
    }
}

#[test]
fn an_audio_packet_is_published_as_media() {
    let (mut sink, mut state) = re_started();
    let action =
        receiver_loop_step(&mut sink, &mut state, ReceiverInput::Audio(Some(re_audio(3, b"opus"))));
    assert!(re_is_continue(&action));
    let mut expected = re_handshake(1);
    expected.push(UiEvent::AudioFrameReceived {
        data: b"opus".to_vec(),
        pts: 5_000,
        frames_per_packet: 2,
    });
    assert_eq!(sink.drain(), expected);
}

#[test]
fn the_handshake_is_announced_once_whichever_channel_is_first() {
    let orders: [[bool; 4]; 4] = [
        [true, false, true, false],
        [false, true, false, true],
        [true, true, false, false],
        [false, false, true, true],
    ];
    for order in orders.iter() {
        let (mut sink, mut state) = re_started();
        let mut all = Vec::new();
        for video_first in order.iter() {
            let input = if *video_first {
                ReceiverInput::Video(Some(re_video(1, b"v")))
            } else {
                ReceiverInput::Audio(Some(re_audio(3, b"a")))
            };
            receiver_loop_step(&mut sink, &mut state, input);
            all.extend(sink.drain());
        }
        assert_eq!(re_count_announcements(&all), (1, 1, 1));
        let first_stream = if order[0] { 0 } else { 1 };
        assert_eq!(all[..3].to_vec(), re_handshake(first_stream));
    }
}

#[test]
fn no_frame_means_no_handshake() {
    let (mut sink, mut state) = re_started();
    receiver_loop_step(&mut sink, &mut state, ReceiverInput::StopCheck { should_run: true });
    receiver_loop_step(
        &mut sink,
        &mut state,
        ReceiverInput::TelemetryTick { stats: Some(NetworkStats { rtt_millis: 1, lost_packets: 2 }) },
    );
    receiver_loop_step(&mut sink, &mut state, ReceiverInput::TelemetryTick { stats: None });
    receiver_loop_step(&mut sink, &mut state, ReceiverInput::Video(None));
    let events = sink.drain();
    assert_eq!(re_count_announcements(&events), (0, 0, 0));
    assert!(!state.handshake_announced);
    assert_eq!(
        events,
        vec![
            re_telemetry("path.rtt", 1),
            re_telemetry("udp_tx.dropped", 2),
            re_connection("stopped", "receiver video channel closed"),
        ]
    );
}

#[test]
fn each_way_out_of_the_loop_has_its_reason() {
    let (mut sink, mut state) = re_started();
    let action =
        receiver_loop_step(&mut sink, &mut state, ReceiverInput::StopCheck { should_run: true });
    assert!(re_is_continue(&action));
    let action =
        receiver_loop_step(&mut sink, &mut state, ReceiverInput::StopCheck { should_run: false });
    assert!(re_is_stop(&action));
    let action = receiver_loop_step(&mut sink, &mut state, ReceiverInput::Video(None));
    assert!(re_is_stop(&action));
    let action = receiver_loop_step(&mut sink, &mut state, ReceiverInput::Audio(None));
    assert!(re_is_stop(&action));
    assert_eq!(
        sink.drain(),
        vec![
            re_connection("stopped", "receiver stop requested"),
            re_connection("stopped", "receiver video channel closed"),
            re_connection("stopped", "receiver audio channel closed"),
        ]
    );
}

#[test]
fn a_debug_report_rides_the_audio_channel() {
    let (mut sink, mut state) = re_started();
    let mut begin = Vec::new();
    begin.extend_from_slice(&2u32.to_le_bytes());
    begin.extend_from_slice(&6u32.to_le_bytes());
    begin.extend_from_slice(&5u16.to_le_bytes());
    begin.extend_from_slice(b"r.txt");
    let mut chunk0 = Vec::new();
    chunk0.extend_from_slice(&0u32.to_le_bytes());
    chunk0.extend_from_slice(&3u16.to_le_bytes());
    chunk0.extend_from_slice(b"abc");
    let mut chunk1 = Vec::new();
    chunk1.extend_from_slice(&1u32.to_le_bytes());
    chunk1.extend_from_slice(&3u16.to_le_bytes());
    chunk1.extend_from_slice(b"def");
    let mut end = Vec::new();
    end.extend_from_slice(&2u32.to_le_bytes());
    end.extend_from_slice(&6u32.to_le_bytes());

    let packets = vec![
        re_report_packet(1, 31, &begin),
        re_report_packet(2, 31, &chunk1),
        re_report_packet(2, 31, &chunk0),
    ];
    for packet in packets.iter() {
        let action = receiver_loop_step(
            &mut sink,
            &mut state,
            ReceiverInput::Audio(Some(re_audio(RE_DEBUG_CODEC, packet))),
        );
        assert!(re_is_continue(&action));
    }
    assert_eq!(state.assembly.as_ref().expect("in flight").received_chunks(), 2);
    let events = sink.drain();
    assert_eq!(re_count_announcements(&events), (1, 1, 1));
    assert!(events.iter().all(|e| !matches!(e, UiEvent::AudioFrameReceived { .. })));
    assert_eq!(
        events[3..].to_vec(),
        vec![
            UiEvent::Log { msg: "[RemoteReport] begin id=31 file=r.txt chunks=2 bytes=6".to_string() },
            re_telemetry("debug_report_bytes", 3),
            re_telemetry("debug_report_bytes", 3),
        ]
    );
    let action = receiver_loop_step(
        &mut sink,
        &mut state,
        ReceiverInput::Audio(Some(re_audio(RE_DEBUG_CODEC, &re_report_packet(3, 31, &end)))),
    );
    match action {
        ReceiverAction::SaveReport(report) => {
            assert_eq!(report.filename(), "r.txt");
            assert_eq!(assemble_report_data(&report), Ok(b"abcdef".to_vec()));
        }
        _ => panic!("the report is complete and is to be saved"),
    }
    assert!(state.assembly.is_none());
    assert!(sink.drain().is_empty());
}

#[test]
fn text_on_the_debug_channel_is_logged_and_not_played() {
    let (mut sink, mut state) = re_started();
    state.handshake_announced = true;
    let action = receiver_loop_step(
        &mut sink,
        &mut state,
        ReceiverInput::Audio(Some(re_audio(RE_DEBUG_CODEC, b"cpu 93%\nmem 1.2G"))),
    );
    assert!(re_is_continue(&action));
    assert_eq!(
        sink.drain(),
        vec![
            UiEvent::Log { msg: "[RemoteReport] cpu 93%".to_string() },
            UiEvent::Log { msg: "[RemoteReport] mem 1.2G".to_string() },
            re_telemetry("debug_report_bytes", 16),
        ]
    );
}
