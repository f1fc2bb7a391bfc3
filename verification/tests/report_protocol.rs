use nomikai_session::event::{EventSink, UiEvent};
use nomikai_session::report::{
    accept_chunk, begin_report, finish_report, handle_remote_debug_report_payload,
    RemoteDebugReportAssembly,
};
use nomikai_session::report_save::{
    assemble_report_data, emit_report_save_outcome, ReportSaveError,
};
use nomikai_session::wire::{parse_report_packet, parse_u16_le, parse_u32_le, ReportPacket};

fn rp_header(version: u8, packet_type: u8, report_id: u32) -> Vec<u8> {
    let mut out = b"NRPT".to_vec();
    out.push(version);
    out.push(packet_type);
    out.extend_from_slice(&report_id.to_le_bytes());
    out
}

fn rp_begin(report_id: u32, total_chunks: u32, expected_bytes: u32, filename: &[u8]) -> Vec<u8> {
    let mut out = rp_header(1, 1, report_id);
    out.extend_from_slice(&total_chunks.to_le_bytes());
    out.extend_from_slice(&expected_bytes.to_le_bytes());
    out.extend_from_slice(&(filename.len() as u16).to_le_bytes());
    out.extend_from_slice(filename);
    out
}

fn rp_chunk(report_id: u32, seq: u32, data: &[u8]) -> Vec<u8> {
    let mut out = rp_header(1, 2, report_id);
    out.extend_from_slice(&seq.to_le_bytes());
    out.extend_from_slice(&(data.len() as u16).to_le_bytes());
    out.extend_from_slice(data);
    out
}

fn rp_end(report_id: u32, total_chunks_sent: u32, total_bytes_sent: u32) -> Vec<u8> {
    let mut out = rp_header(1, 3, report_id);
    out.extend_from_slice(&total_chunks_sent.to_le_bytes());
    out.extend_from_slice(&total_bytes_sent.to_le_bytes());
    out
}

fn rp_log(msg: &str) -> UiEvent {
    UiEvent::Log { msg: msg.to_string() }
}

fn rp_telemetry(name: &str, value: u64) -> UiEvent {
    UiEvent::Telemetry { name: name.to_string(), value }
}

fn rp_feed(
    sink: &mut EventSink,
    slot: &mut Option<RemoteDebugReportAssembly>,
    payload: &[u8],
) -> Option<RemoteDebugReportAssembly> {
    handle_remote_debug_report_payload(sink, payload, slot)
}

fn rp_started(report_id: u32, total_chunks: u32, expected_bytes: u32) -> (
    EventSink,
    Option<RemoteDebugReportAssembly>,
) {
    let mut sink = EventSink::new();
    let mut slot = None;
    let begun = rp_begin(report_id, total_chunks, expected_bytes, b"a.log");
    assert!(rp_feed(&mut sink, &mut slot, &begun).is_none());
    sink.drain();
    (sink, slot)
}

#[test]
fn little_endian_readers_take_the_low_byte_first() {
    assert_eq!(parse_u16_le(&[0x34, 0x12]), Some(0x1234));
    assert_eq!(parse_u16_le(&[0xFF, 0xFF, 0x00]), Some(0xFFFF));
    assert_eq!(parse_u16_le(&[0x34]), None);
    assert_eq!(parse_u16_le(&[]), None);
    assert_eq!(parse_u32_le(&[0x78, 0x56, 0x34, 0x12]), Some(0x1234_5678));
    assert_eq!(parse_u32_le(&[0xFF, 0xFF, 0xFF, 0xFF, 0x01]), Some(u32::MAX));
    assert_eq!(parse_u32_le(&[1, 2, 3]), None);
}

#[test]
fn packets_are_told_apart_by_their_bytes() {
    assert_eq!(parse_report_packet(b"hello"), ReportPacket::Text);
    assert_eq!(parse_report_packet(b"NRPT\x01"), ReportPacket::Text);
    assert_eq!(parse_report_packet(b"NRPX\x01\x01\x00\x00\x00\x00"), ReportPacket::Text);
    assert_eq!(parse_report_packet(b"NRPT\x01\x01"), ReportPacket::HeaderTooShort);
    assert_eq!(parse_report_packet(b"NRPT\x01\x01\x07\x00\x00"), ReportPacket::HeaderTooShort);
    assert_eq!(
        parse_report_packet(&rp_header(2, 1, 7)),
        ReportPacket::UnsupportedVersion { version: 2 }
    );
    assert_eq!(parse_report_packet(&rp_header(1, 1, 7)), ReportPacket::MalformedBegin);
    assert_eq!(parse_report_packet(&rp_header(1, 2, 7)), ReportPacket::MalformedChunk);
    assert_eq!(parse_report_packet(&rp_header(1, 3, 7)), ReportPacket::MalformedEnd);
    assert_eq!(
        parse_report_packet(&rp_header(1, 0x2A, 7)),
        ReportPacket::UnsupportedType { packet_type: 0x2A }
    );
    assert_eq!(
        parse_report_packet(&rp_begin(7, 3, 9, b"a.log")),
        ReportPacket::Begin {
            report_id: 7,
            total_chunks: 3,
            expected_bytes: 9,
            filename: b"a.log".to_vec()
        }
    );
    assert_eq!(
        parse_report_packet(&rp_chunk(0x0102_0304, 0x0A0B_0C0D, b"xyz")),
        ReportPacket::Chunk { report_id: 0x0102_0304, seq: 0x0A0B_0C0D, data: b"xyz".to_vec() }
    );
    assert_eq!(
        parse_report_packet(&rp_end(7, 3, 9)),
        ReportPacket::End { report_id: 7, total_chunks_sent: 3, total_bytes_sent: 9 }
    );
}

#[test]
fn a_packet_that_announces_more_than_it_holds_is_malformed() {
    let mut begin = rp_begin(7, 3, 9, b"a.log");
    begin.pop();
    assert_eq!(parse_report_packet(&begin), ReportPacket::MalformedBeginFilename);
    let mut chunk = rp_chunk(7, 5, b"abc");
    chunk.pop();
    assert_eq!(parse_report_packet(&chunk), ReportPacket::MalformedChunkBody { seq: 5 });
}

#[test]
fn bytes_after_the_last_field_are_ignored() {
    let mut chunk = rp_chunk(7, 5, b"abc");
    chunk.extend_from_slice(b"trailing");
    assert_eq!(
        parse_report_packet(&chunk),
        ReportPacket::Chunk { report_id: 7, seq: 5, data: b"abc".to_vec() }
    );
    let mut end = rp_end(7, 3, 9);
    end.push(0);
    assert_eq!(
        parse_report_packet(&end),
        ReportPacket::End { report_id: 7, total_chunks_sent: 3, total_bytes_sent: 9 }
    );
}

#[test]
fn chunks_are_reassembled_by_sequence_not_arrival() {
    let mut sink = EventSink::new();
    let mut slot: Option<RemoteDebugReportAssembly> = None;
    assert!(rp_feed(&mut sink, &mut slot, &rp_begin(7, 3, 9, b"a.log")).is_none());
    assert!(rp_feed(&mut sink, &mut slot, &rp_chunk(7, 1, b"def")).is_none());
    assert!(rp_feed(&mut sink, &mut slot, &rp_chunk(7, 0, b"abc")).is_none());
    assert!(rp_feed(&mut sink, &mut slot, &rp_chunk(7, 2, b"ghi")).is_none());
    let done = rp_feed(&mut sink, &mut slot, &rp_end(7, 3, 9));
    let report = done.expect("the report is complete");
    assert!(slot.is_none());
    assert_eq!(report.report_id(), 7);
    assert_eq!(report.filename(), "a.log");
    assert_eq!(report.total_chunks(), 3);
    assert_eq!(report.expected_bytes(), 9);
    assert_eq!(report.received_chunks(), 3);
    assert_eq!(assemble_report_data(&report), Ok(b"abcdefghi".to_vec()));
    assert_eq!(
        sink.drain(),
        vec![
            rp_log("[RemoteReport] begin id=7 file=a.log chunks=3 bytes=9"),
            rp_telemetry("debug_report_bytes", 3),
            rp_telemetry("debug_report_bytes", 3),
            rp_telemetry("debug_report_bytes", 3),
        ]
    );
}

#[test]
fn an_incomplete_report_is_dropped_with_a_warning() {
    let mut sink = EventSink::new();
    let mut slot: Option<RemoteDebugReportAssembly> = None;
    rp_feed(&mut sink, &mut slot, &rp_begin(7, 3, 9, b"a.log"));
    rp_feed(&mut sink, &mut slot, &rp_chunk(7, 1, b"def"));
    rp_feed(&mut sink, &mut slot, &rp_chunk(7, 0, b"abc"));
    sink.drain();
    let done = rp_feed(&mut sink, &mut slot, &rp_end(7, 3, 9));
    assert!(done.is_none());
    assert!(slot.is_none());
    assert_eq!(
        sink.drain(),
        vec![rp_log("[RemoteReport] incomplete report id=7 chunks_received=2/3")]
    );
    let done = rp_feed(&mut sink, &mut slot, &rp_begin(8, 1, 0, b"b.log"));
    assert!(done.is_none());
    assert_eq!(
        sink.drain(),
        vec![rp_log("[RemoteReport] begin id=8 file=b.log chunks=1 bytes=0")]
    );
    let active = slot.as_ref().expect("the new report is in flight");
    assert_eq!(active.report_id(), 8);
    assert_eq!(active.received_chunks(), 0);
}

#[test]
fn a_chunk_for_another_report_is_ignored() {
    let (mut sink, mut slot) = rp_started(7, 3, 9);
    rp_feed(&mut sink, &mut slot, &rp_chunk(7, 0, b"abc"));
    sink.drain();
    assert!(rp_feed(&mut sink, &mut slot, &rp_chunk(9, 1, b"zzz")).is_none());
    let active = slot.as_ref().expect("the report stays in flight");
    assert_eq!(active.report_id(), 7);
    assert_eq!(active.received_chunks(), 1);
    assert!(active.chunk(1).is_none());
    assert_eq!(
        sink.drain(),
        vec![rp_log("[RemoteReport] dropped chunk seq=1 for report id=9 (active id=7)")]
    );
}

#[test]
fn an_end_for_another_report_is_ignored() {
    let (mut sink, mut slot) = rp_started(7, 1, 3);
    rp_feed(&mut sink, &mut slot, &rp_chunk(7, 0, b"abc"));
    sink.drain();
    assert!(rp_feed(&mut sink, &mut slot, &rp_end(9, 1, 3)).is_none());
    let active = slot.as_ref().expect("the report stays in flight");
    assert_eq!(active.report_id(), 7);
    assert_eq!(active.received_chunks(), 1);
    assert_eq!(
        sink.drain(),
        vec![rp_log("[RemoteReport] END report id mismatch active=7 received=9")]
    );
    let done = rp_feed(&mut sink, &mut slot, &rp_end(7, 1, 3)).expect("still complete");
    assert_eq!(assemble_report_data(&done), Ok(b"abc".to_vec()));
}

#[test]
fn a_chunk_or_end_without_a_report_is_ignored() {
    let mut sink = EventSink::new();
    let mut slot: Option<RemoteDebugReportAssembly> = None;
    assert!(rp_feed(&mut sink, &mut slot, &rp_chunk(4, 2, b"abc")).is_none());
    assert!(rp_feed(&mut sink, &mut slot, &rp_end(4, 1, 3)).is_none());
    assert!(slot.is_none());
    assert_eq!(
        sink.drain(),
        vec![
            rp_log("[RemoteReport] dropped chunk seq=2 for report id=4 (no active report)"),
            rp_log("[RemoteReport] END received for report id=4 with no active report"),
        ]
    );
}

#[test]
fn the_first_chunk_of_a_sequence_number_wins() {
    let (mut sink, mut slot) = rp_started(7, 1, 0);
    rp_feed(&mut sink, &mut slot, &rp_chunk(7, 0, b"first"));
    rp_feed(&mut sink, &mut slot, &rp_chunk(7, 0, b"second!"));
    assert_eq!(
        sink.drain(),
        vec![rp_telemetry("debug_report_bytes", 5), rp_telemetry("debug_report_bytes", 7)]
    );
    let active = slot.as_ref().expect("in flight");
    assert_eq!(active.received_chunks(), 1);
    assert_eq!(active.chunk(0), Some(&b"first".to_vec()));
    let done = rp_feed(&mut sink, &mut slot, &rp_end(7, 1, 5)).expect("complete");
    assert_eq!(assemble_report_data(&done), Ok(b"first".to_vec()));
}

#[test]
fn a_new_begin_drops_the_report_in_flight() {
    let (mut sink, mut slot) = rp_started(7, 3, 9);
    rp_feed(&mut sink, &mut slot, &rp_chunk(7, 0, b"abc"));
    sink.drain();
    assert!(rp_feed(&mut sink, &mut slot, &rp_begin(8, 2, 4, b"next.txt")).is_none());
    assert_eq!(
        sink.drain(),
        vec![
            rp_log("[RemoteReport] dropping incomplete report id=7 while starting new report id=8"),
            rp_log("[RemoteReport] begin id=8 file=next.txt chunks=2 bytes=4"),
        ]
    );
    let active = slot.as_ref().expect("in flight");
    assert_eq!(active.report_id(), 8);
    assert_eq!(active.filename(), "next.txt");
    assert_eq!(active.received_chunks(), 0);
}

#[test]
fn an_empty_file_name_becomes_the_default_name() {
    let mut sink = EventSink::new();
    let mut slot: Option<RemoteDebugReportAssembly> = None;
    rp_feed(&mut sink, &mut slot, &rp_begin(1, 0, 0, b""));
    assert_eq!(slot.as_ref().expect("in flight").filename(), "nomikai_sender_report.log");
    assert_eq!(
        sink.drain(),
        vec![rp_log("[RemoteReport] begin id=1 file=nomikai_sender_report.log chunks=0 bytes=0")]
    );
}

#[test]
fn a_file_name_that_is_no_utf8_is_decoded_with_replacement() {
    let mut sink = EventSink::new();
    let mut slot: Option<RemoteDebugReportAssembly> = None;
    rp_feed(&mut sink, &mut slot, &rp_begin(1, 0, 0, b"a\xFFb"));
    assert_eq!(slot.as_ref().expect("in flight").filename(), "a\u{FFFD}b");
    rp_feed(&mut sink, &mut slot, &rp_begin(2, 0, 0, "r\u{e9}sum\u{e9}.log".as_bytes()));
    assert_eq!(slot.as_ref().expect("in flight").filename(), "r\u{e9}sum\u{e9}.log");
}

#[test]
fn metadata_that_differs_at_the_end_is_reported_and_not_fatal() {
    let (mut sink, mut slot) = rp_started(7, 1, 3);
    rp_feed(&mut sink, &mut slot, &rp_chunk(7, 0, b"abc"));
    sink.drain();
    let done = rp_feed(&mut sink, &mut slot, &rp_end(7, 2, 4)).expect("complete all the same");
    assert_eq!(
        sink.drain(),
        vec![rp_log(
            "[RemoteReport] END metadata mismatch id=7 begin(chunks=1,bytes=3) end(chunks=2,bytes=4)"
        )]
    );
    assert_eq!(assemble_report_data(&done), Ok(b"abc".to_vec()));
}

#[test]
fn metadata_mismatch_and_incomplete_report_are_both_reported() {
    let (mut sink, mut slot) = rp_started(7, 2, 6);
    rp_feed(&mut sink, &mut slot, &rp_chunk(7, 0, b"abc"));
    sink.drain();
    assert!(rp_feed(&mut sink, &mut slot, &rp_end(7, 1, 3)).is_none());
    assert!(slot.is_none());
    assert_eq!(
        sink.drain(),
        vec![
            rp_log(
                "[RemoteReport] END metadata mismatch id=7 begin(chunks=2,bytes=6) end(chunks=1,bytes=3)"
            ),
            rp_log("[RemoteReport] incomplete report id=7 chunks_received=1/2"),
        ]
    );
}

#[test]
fn malformed_packets_warn_and_leave_the_report_alone() {
    let (mut sink, mut slot) = rp_started(7, 3, 9);
    rp_feed(&mut sink, &mut slot, &rp_chunk(7, 0, b"abc"));
    sink.drain();
    let mut short_begin = rp_begin(8, 1, 1, b"name");
    short_begin.pop();
    let mut short_chunk = rp_chunk(7, 12, b"abc");
    short_chunk.pop();
    let payloads: Vec<Vec<u8>> = vec![
        b"NRPT\x01\x02\x07".to_vec(),
        rp_header(9, 2, 7),
        rp_header(1, 1, 7),
        short_begin,
        rp_header(1, 2, 7),
        short_chunk,
        rp_header(1, 3, 7),
        rp_header(1, 0xAB, 7),
        rp_header(1, 0x04, 7),
    ];
    for payload in payloads.iter() {
        assert!(rp_feed(&mut sink, &mut slot, payload).is_none());
    }
    assert_eq!(
        sink.drain(),
        vec![
            rp_log("[RemoteReport] malformed packet: header too short"),
            rp_log("[RemoteReport] unsupported protocol version 9 (expected 1)"),
            rp_log("[RemoteReport] malformed BEGIN packet"),
            rp_log("[RemoteReport] malformed BEGIN packet filename"),
            rp_log("[RemoteReport] malformed CHUNK packet"),
            rp_log("[RemoteReport] malformed CHUNK packet seq=12"),
            rp_log("[RemoteReport] malformed END packet"),
            rp_log("[RemoteReport] unsupported packet type 0xAB"),
            rp_log("[RemoteReport] unsupported packet type 0x04"),
        ]
    );
    let active = slot.as_ref().expect("the report stays in flight");
    assert_eq!(active.report_id(), 7);
    assert_eq!(active.received_chunks(), 1);
}

#[test]
fn a_payload_without_magic_is_published_as_text() {
    let (mut sink, mut slot) = rp_started(7, 3, 9);
    assert!(rp_feed(&mut sink, &mut slot, b"one\r\n\ntwo\n").is_none());
    assert_eq!(
        sink.drain(),
        vec![
            rp_log("[RemoteReport] one"),
            rp_log("[RemoteReport] two"),
            rp_log("[RemoteReport] <blank line>"),
            rp_telemetry("debug_report_bytes", 10),
        ]
    );
    assert_eq!(slot.as_ref().expect("the report stays in flight").report_id(), 7);
    assert!(rp_feed(&mut sink, &mut slot, b"").is_none());
    assert_eq!(sink.drain(), vec![rp_telemetry("debug_report_bytes", 0)]);
}

#[test]
fn the_steps_of_the_report_channel_can_be_taken_one_by_one() {
    let mut sink = EventSink::new();
    let mut slot: Option<RemoteDebugReportAssembly> = None;
    begin_report(&mut sink, &mut slot, 3, 2, 0, "x".to_string());
    accept_chunk(&mut sink, &mut slot, 3, 1, b"b".to_vec());
    accept_chunk(&mut sink, &mut slot, 3, 0, b"a".to_vec());
    let done = finish_report(&mut sink, &mut slot, 3, 2, 0).expect("complete");
    assert_eq!(assemble_report_data(&done), Ok(b"ab".to_vec()));
    assert_eq!(sink.len(), 3);
}

#[test]
fn a_gap_in_the_sequence_numbers_is_a_missing_chunk() {
    let (mut sink, mut slot) = rp_started(7, 3, 0);
    rp_feed(&mut sink, &mut slot, &rp_chunk(7, 0, b"a"));
    rp_feed(&mut sink, &mut slot, &rp_chunk(7, 1, b"b"));
    rp_feed(&mut sink, &mut slot, &rp_chunk(7, 5, b"f"));
    let done = rp_feed(&mut sink, &mut slot, &rp_end(7, 3, 0)).expect("three distinct chunks");
    let error = assemble_report_data(&done).expect_err("chunk 2 is missing");
    assert_eq!(error, ReportSaveError::MissingChunk { seq: 2 });
    assert_eq!(error.message(), "missing debug report chunk 2");
}

#[test]
fn a_wrong_total_length_is_an_error_unless_none_was_announced() {
    let (mut sink, mut slot) = rp_started(7, 2, 9);
    rp_feed(&mut sink, &mut slot, &rp_chunk(7, 0, b"abc"));
    rp_feed(&mut sink, &mut slot, &rp_chunk(7, 1, b"de"));
    let done = rp_feed(&mut sink, &mut slot, &rp_end(7, 2, 9)).expect("complete");
    let error = assemble_report_data(&done).expect_err("five bytes are not nine");
    assert_eq!(error, ReportSaveError::LengthMismatch { expected: 9, actual: 5 });
    assert_eq!(error.message(), "debug report byte length mismatch (expected=9, actual=5)");

    let (mut sink, mut slot) = rp_started(8, 2, 0);
    rp_feed(&mut sink, &mut slot, &rp_chunk(8, 0, b"abc"));
    rp_feed(&mut sink, &mut slot, &rp_chunk(8, 1, b"de"));
    let done = rp_feed(&mut sink, &mut slot, &rp_end(8, 2, 0)).expect("complete");
    assert_eq!(assemble_report_data(&done), Ok(b"abcde".to_vec()));
}

#[test]
fn a_report_without_chunks_is_empty() {
    let (mut sink, mut slot) = rp_started(7, 0, 0);
    let done = rp_feed(&mut sink, &mut slot, &rp_end(7, 0, 0)).expect("complete");
    assert_eq!(assemble_report_data(&done), Ok(Vec::new()));
    assert!(sink.drain().is_empty());
}

#[test]
fn the_outcome_of_a_save_is_published() {
    let (mut sink, mut slot) = rp_started(7, 1, 3);
    rp_feed(&mut sink, &mut slot, &rp_chunk(7, 0, b"abc"));
    let done = rp_feed(&mut sink, &mut slot, &rp_end(7, 1, 3)).expect("complete");
    sink.drain();
    emit_report_save_outcome(&mut sink, &done, Ok("/tmp/r/a_17.log".to_string()));
    assert_eq!(
        sink.drain(),
        vec![
            rp_log("[RemoteReport] saved file path=/tmp/r/a_17.log bytes=3 chunks=1"),
            rp_telemetry("debug_report_saved_bytes", 3),
        ]
    );
    emit_report_save_outcome(&mut sink, &done, Err(ReportSaveError::WriteFailed));
    emit_report_save_outcome(&mut sink, &done, Err(ReportSaveError::OutputDirUnavailable));
    emit_report_save_outcome(&mut sink, &done, Err(ReportSaveError::MissingChunk { seq: 40 }));
    assert_eq!(
        sink.drain(),
        vec![
            UiEvent::Error {
                msg: "remote debug report save failed: failed to write remote debug report file"
                    .to_string()
            },
            UiEvent::Error {
                msg:
                    "remote debug report save failed: failed to create remote debug report output dir"
                        .to_string()
            },
            UiEvent::Error {
                msg: "remote debug report save failed: missing debug report chunk 40".to_string()
            },
        ]
    );
}

#[test]
fn numbers_in_messages_are_written_in_full() {
    let mut sink = EventSink::new();
    let mut slot: Option<RemoteDebugReportAssembly> = None;
    rp_feed(&mut sink, &mut slot, &rp_begin(u32::MAX, 1_000_000, 0, b"n"));
    rp_feed(&mut sink, &mut slot, &rp_chunk(10, 4_294_967_295, b""));
    assert_eq!(
        sink.drain(),
        vec![
            rp_log("[RemoteReport] begin id=4294967295 file=n chunks=1000000 bytes=0"),
            rp_log(
                "[RemoteReport] dropped chunk seq=4294967295 for report id=10 (active id=4294967295)"
            ),
        ]
    );
}
