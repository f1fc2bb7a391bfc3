use crate::event::{
    log_event, sink_event, telemetry_event, EventSink, UiEvent, UiEventView,
};
use crate::report_name::default_report_name;
use crate::text::{
    chars_of, decimal, decode_utf8_lossy, hex_byte, line_views, lines_of, push_chars,
    push_decimal, push_hex_byte, split_lines, utf8_lossy,
};
use crate::wire::{parse_packet, parse_report_packet, ReportPacket, ReportPacketView};
use std::collections::BTreeMap;
use vstd::prelude::*;

verus! {

broadcast use vstd::std_specs::btree::group_btree_axioms;

/// A report that is being received: what its BEGIN packet announced, and
/// the chunks that have arrived so far, by sequence number.
pub struct RemoteDebugReportAssembly {
    report_id: u32,
    filename: String,
    total_chunks: u32,
    expected_bytes: u32,
    chunks: BTreeMap<u32, Vec<u8>>,
}

/// The mathematical content of a [`RemoteDebugReportAssembly`].
pub struct ReportAssemblyView {
    pub report_id: u32,
    pub filename: Seq<char>,
    pub total_chunks: u32,
    pub expected_bytes: u32,
    pub chunks: Map<u32, Seq<u8>>,
}

impl View for RemoteDebugReportAssembly {
    type V = ReportAssemblyView;

    closed spec fn view(&self) -> ReportAssemblyView {
        ReportAssemblyView {
            report_id: self.report_id,
            filename: self.filename@,
            total_chunks: self.total_chunks,
            expected_bytes: self.expected_bytes,
            chunks: self.chunks@.map_values(|chunk: Vec<u8>| chunk@),
        }
    }
}

/// The content of the slot that holds the report in flight, if any.
pub open spec fn slot_view(slot: Option<RemoteDebugReportAssembly>) -> Option<ReportAssemblyView> {
    match slot {
        Some(assembly) => Some(assembly@),
        None => None,
    }
}

impl RemoteDebugReportAssembly {
    /// The chunks of a report in flight are finitely many.
    pub proof fn lemma_chunks_finite(&self)
        ensures
            self@.chunks.dom().finite(),
    {
        assert(self@.chunks.dom() =~= self.chunks@.dom());
    }

    /// The identifier that the BEGIN packet gave the report.
    pub fn report_id(&self) -> (id: u32)
        ensures
            id == self@.report_id,
    {
        self.report_id
    }

    /// The file name that the BEGIN packet announced, or the default name.
    pub fn filename(&self) -> (name: &str)
        ensures
            name@ == self@.filename,
    {
        self.filename.as_str()
    }

    /// The number of chunks that the BEGIN packet announced.
    pub fn total_chunks(&self) -> (n: u32)
        ensures
            n == self@.total_chunks,
    {
        self.total_chunks
    }

    /// The number of bytes that the BEGIN packet announced; 0 for unknown.
    pub fn expected_bytes(&self) -> (n: u32)
        ensures
            n == self@.expected_bytes,
    {
        self.expected_bytes
    }

    /// The chunk received under the sequence number `seq`, if any.
    pub fn chunk(&self, seq: u32) -> (data: Option<&Vec<u8>>)
        ensures
            match data {
                Some(bytes) => self@.chunks.contains_key(seq) && self@.chunks[seq] == bytes@,
                None => !self@.chunks.contains_key(seq),
            },
    {
        self.chunks.get(&seq)
    }

    /// The number of distinct chunks received so far.
    pub fn received_chunks(&self) -> (n: usize)
        ensures
            n == self@.chunks.len(),
    {
        assert(self@.chunks.dom() =~= self.chunks@.dom());
        self.chunks.len()
    }
}

/// The outcome of one payload: the events to publish, the report in flight
/// afterwards, and the report that the payload completed, if it did.
pub struct ReportStep {
    pub events: Seq<UiEventView>,
    pub active: Option<ReportAssemblyView>,
    pub completed: Option<ReportAssemblyView>,
}

/// A step that publishes one warning and changes nothing.
pub open spec fn warning_step(active: Option<ReportAssemblyView>, msg: Seq<char>) -> ReportStep {
    ReportStep { events: seq![log_event(msg)], active, completed: None }
}

/// The warning for a packet of another protocol version.
pub open spec fn unsupported_version_message(version: u8) -> Seq<char> {
    "[RemoteReport] unsupported protocol version "@ + decimal(version as nat) + " (expected "@
        + decimal(1) + ")"@
}

/// The warning for a packet of an unknown type, the type in hexadecimal.
pub open spec fn unsupported_type_message(packet_type: u8) -> Seq<char> {
    "[RemoteReport] unsupported packet type 0x"@ + hex_byte(packet_type)
}

/// The warning for a CHUNK packet that holds fewer bytes than it announces.
pub open spec fn malformed_chunk_body_message(seq: u32) -> Seq<char> {
    "[RemoteReport] malformed CHUNK packet seq="@ + decimal(seq as nat)
}

/// The warning for a report that is dropped because another one begins.
pub open spec fn dropped_report_message(existing_id: u32, report_id: u32) -> Seq<char> {
    "[RemoteReport] dropping incomplete report id="@ + decimal(existing_id as nat)
        + " while starting new report id="@ + decimal(report_id as nat)
}

/// The message for a report that begins.
pub open spec fn begin_message(
    report_id: u32,
    filename: Seq<char>,
    total_chunks: u32,
    expected_bytes: u32,
) -> Seq<char> {
    "[RemoteReport] begin id="@ + decimal(report_id as nat) + " file="@ + filename + " chunks="@
        + decimal(total_chunks as nat) + " bytes="@ + decimal(expected_bytes as nat)
}

/// The warning for a chunk that arrives while no report is in flight.
pub open spec fn chunk_without_report_message(seq: u32, report_id: u32) -> Seq<char> {
    "[RemoteReport] dropped chunk seq="@ + decimal(seq as nat) + " for report id="@ + decimal(
        report_id as nat,
    ) + " (no active report)"@
}

/// The warning for a chunk of another report than the one in flight.
pub open spec fn chunk_for_other_report_message(seq: u32, report_id: u32, active_id: u32) -> Seq<
    char,
> {
    "[RemoteReport] dropped chunk seq="@ + decimal(seq as nat) + " for report id="@ + decimal(
        report_id as nat,
    ) + " (active id="@ + decimal(active_id as nat) + ")"@
}

/// The warning for an END packet that arrives while no report is in flight.
pub open spec fn end_without_report_message(report_id: u32) -> Seq<char> {
    "[RemoteReport] END received for report id="@ + decimal(report_id as nat)
        + " with no active report"@
}

/// The warning for an END packet of another report than the one in flight.
pub open spec fn end_id_mismatch_message(active_id: u32, report_id: u32) -> Seq<char> {
    "[RemoteReport] END report id mismatch active="@ + decimal(active_id as nat) + " received="@
        + decimal(report_id as nat)
}

/// The warning for an END packet whose counts differ from those of the BEGIN
/// packet.
pub open spec fn end_metadata_mismatch_message(
    report_id: u32,
    total_chunks: u32,
    expected_bytes: u32,
    total_chunks_sent: u32,
    total_bytes_sent: u32,
) -> Seq<char> {
    "[RemoteReport] END metadata mismatch id="@ + decimal(report_id as nat) + " begin(chunks="@
        + decimal(total_chunks as nat) + ",bytes="@ + decimal(expected_bytes as nat)
        + ") end(chunks="@ + decimal(total_chunks_sent as nat) + ",bytes="@ + decimal(
        total_bytes_sent as nat,
    ) + ")"@
}

/// The warning for a report that ends before all its chunks have arrived.
pub open spec fn incomplete_report_message(report_id: u32, received: nat, total_chunks: u32) -> Seq<
    char,
> {
    "[RemoteReport] incomplete report id="@ + decimal(report_id as nat) + " chunks_received="@
        + decimal(received) + "/"@ + decimal(total_chunks as nat)
}

/// The events for the lines of a diagnostic text: one `Log` for each line
/// that is not empty, in order.
pub open spec fn line_events(lines: Seq<Seq<char>>) -> Seq<UiEventView>
    decreases lines.len(),
{
    if lines.len() == 0 {
        Seq::empty()
    } else {
        let before = line_events(lines.drop_last());
        if lines.last().len() == 0 {
            before
        } else {
            before.push(log_event("[RemoteReport] "@ + lines.last()))
        }
    }
}

/// The events for a diagnostic text: those of its lines, and one more that
/// marks a blank line when the text ends in a line feed.
pub open spec fn text_report_events(text: Seq<char>) -> Seq<UiEventView> {
    let lines = line_events(split_lines(text));
    if text.len() > 0 && text.last() == '\n' {
        lines.push(log_event("[RemoteReport] <blank line>"@))
    } else {
        lines
    }
}

/// What a BEGIN packet does: a report in flight is dropped with a warning,
/// and the announced report takes its place, without chunks. An empty file
/// name is replaced by the default name.
pub open spec fn begin_step(
    active: Option<ReportAssemblyView>,
    report_id: u32,
    total_chunks: u32,
    expected_bytes: u32,
    filename: Seq<char>,
) -> ReportStep {
    let name = if filename.len() == 0 {
        default_report_name()
    } else {
        filename
    };
    let dropped = match active {
        Some(existing) => seq![log_event(dropped_report_message(existing.report_id, report_id))],
        None => Seq::empty(),
    };
    ReportStep {
        events: dropped.push(
            log_event(begin_message(report_id, name, total_chunks, expected_bytes)),
        ),
        active: Some(
            ReportAssemblyView {
                report_id,
                filename: name,
                total_chunks,
                expected_bytes,
                chunks: Map::empty(),
            },
        ),
        completed: None,
    }
}

/// What a CHUNK packet does: without a report in flight, or with one of
/// another identifier, a warning and no change; else the chunk is kept
/// under its sequence number unless one is there already, and its size is
/// reported.
pub open spec fn chunk_step(
    active: Option<ReportAssemblyView>,
    report_id: u32,
    seq: u32,
    data: Seq<u8>,
) -> ReportStep {
    match active {
        None => warning_step(active, chunk_without_report_message(seq, report_id)),
        Some(a) => if a.report_id != report_id {
            warning_step(active, chunk_for_other_report_message(seq, report_id, a.report_id))
        } else {
            ReportStep {
                events: seq![telemetry_event("debug_report_bytes"@, data.len() as u64)],
                active: Some(
                    ReportAssemblyView {
                        chunks: if a.chunks.contains_key(seq) {
                            a.chunks
                        } else {
                            a.chunks.insert(seq, data)
                        },
                        ..a
                    },
                ),
                completed: None,
            }
        },
    }
}

/// What an END packet does: without a report in flight, or with one of
/// another identifier, a warning and no change; else the report leaves the
/// slot. Counts that differ from those of the BEGIN packet are reported and
/// otherwise ignored. The report is complete when as many distinct chunks
/// have arrived as were announced; if not, it is dropped with a warning.
pub open spec fn end_step(
    active: Option<ReportAssemblyView>,
    report_id: u32,
    total_chunks_sent: u32,
    total_bytes_sent: u32,
) -> ReportStep {
    match active {
        None => warning_step(active, end_without_report_message(report_id)),
        Some(a) => if a.report_id != report_id {
            warning_step(active, end_id_mismatch_message(a.report_id, report_id))
        } else {
            let mismatch = if a.total_chunks != total_chunks_sent || a.expected_bytes
                != total_bytes_sent {
                seq![
                    log_event(
                        end_metadata_mismatch_message(
                            report_id,
                            a.total_chunks,
                            a.expected_bytes,
                            total_chunks_sent,
                            total_bytes_sent,
                        ),
                    ),
                ]
            } else {
                Seq::empty()
            };
            if a.chunks.len() != a.total_chunks {
                ReportStep {
                    events: mismatch.push(
                        log_event(
                            incomplete_report_message(report_id, a.chunks.len(), a.total_chunks),
                        ),
                    ),
                    active: None,
                    completed: None,
                }
            } else {
                ReportStep { events: mismatch, active: None, completed: Some(a) }
            }
        },
    }
}

/// What a decoded packet does to the report in flight. `text` is the
/// payload read as text and `filename` the announced file name read as
/// text; the first matters only for a payload that is no packet, the
/// second only for a BEGIN packet.
pub open spec fn packet_step(
    packet: ReportPacketView,
    payload_len: nat,
    text: Seq<char>,
    filename: Seq<char>,
    active: Option<ReportAssemblyView>,
) -> ReportStep {
    match packet {
        ReportPacketView::Text => ReportStep {
            events: text_report_events(text).push(
                telemetry_event("debug_report_bytes"@, payload_len as u64),
            ),
            active,
            completed: None,
        },
        ReportPacketView::HeaderTooShort => warning_step(
            active,
            "[RemoteReport] malformed packet: header too short"@,
        ),
        ReportPacketView::UnsupportedVersion { version } => warning_step(
            active,
            unsupported_version_message(version),
        ),
        ReportPacketView::MalformedBegin => warning_step(
            active,
            "[RemoteReport] malformed BEGIN packet"@,
        ),
        ReportPacketView::MalformedBeginFilename => warning_step(
            active,
            "[RemoteReport] malformed BEGIN packet filename"@,
        ),
        ReportPacketView::Begin { report_id, total_chunks, expected_bytes, filename: _ } => {
            begin_step(active, report_id, total_chunks, expected_bytes, filename)
        },
        ReportPacketView::MalformedChunk => warning_step(
            active,
            "[RemoteReport] malformed CHUNK packet"@,
        ),
        ReportPacketView::MalformedChunkBody { seq } => warning_step(
            active,
            malformed_chunk_body_message(seq),
        ),
        ReportPacketView::Chunk { report_id, seq, data } => chunk_step(
            active,
            report_id,
            seq,
            data,
        ),
        ReportPacketView::MalformedEnd => warning_step(
            active,
            "[RemoteReport] malformed END packet"@,
        ),
        ReportPacketView::End { report_id, total_chunks_sent, total_bytes_sent } => end_step(
            active,
            report_id,
            total_chunks_sent,
            total_bytes_sent,
        ),
        ReportPacketView::UnsupportedType { packet_type } => warning_step(
            active,
            unsupported_type_message(packet_type),
        ),
    }
}

/// The bytes of the file name that a packet announces; empty unless it is a
/// BEGIN packet.
pub open spec fn announced_filename(packet: ReportPacketView) -> Seq<u8> {
    match packet {
        ReportPacketView::Begin { filename, .. } => filename,
        _ => Seq::empty(),
    }
}

/// What one payload of the report channel does to the report in flight.
pub open spec fn report_step(payload: Seq<u8>, active: Option<ReportAssemblyView>) -> ReportStep {
    let packet = parse_packet(payload);
    packet_step(
        packet,
        payload.len(),
        utf8_lossy(payload),
        utf8_lossy(announced_filename(packet)),
        active,
    )
}

/// Whether an event is one of the two kinds that the report channel
/// publishes while it receives: a `Log` or a `Telemetry`.
pub open spec fn is_report_event(event: UiEventView) -> bool {
    event is Log || event is Telemetry
}

proof fn lemma_line_events_are_logs(lines: Seq<Seq<char>>)
    ensures
        forall|i: int|
            0 <= i < line_events(lines).len() ==> (#[trigger] line_events(lines)[i]) is Log,
    decreases lines.len(),
{
    if lines.len() > 0 {
        lemma_line_events_are_logs(lines.drop_last());
    }
}

/// Whatever the payload and whatever report is in flight, a payload of the
/// report channel gives rise to `Log` and `Telemetry` events only, and it
/// completes a report only where none stays in flight.
pub proof fn lemma_report_step_events(payload: Seq<u8>, active: Option<ReportAssemblyView>)
    ensures
        forall|i: int|
            0 <= i < report_step(payload, active).events.len() ==> is_report_event(
                #[trigger] report_step(payload, active).events[i],
            ),
        report_step(payload, active).completed is Some ==> report_step(payload, active).active
            is None,
{
    lemma_line_events_are_logs(split_lines(utf8_lossy(payload)));
}

/// A CHUNK or END packet for another report than the one in flight is
/// ignored: the report in flight stays as it is, chunk count included, no
/// report is completed, and one warning is published.
pub proof fn lemma_foreign_packet_is_ignored(
    active: ReportAssemblyView,
    report_id: u32,
    seq: u32,
    data: Seq<u8>,
    total_chunks_sent: u32,
    total_bytes_sent: u32,
)
    requires
        active.report_id != report_id,
    ensures
        chunk_step(Some(active), report_id, seq, data).active == Some(active),
        chunk_step(Some(active), report_id, seq, data).completed is None,
        chunk_step(Some(active), report_id, seq, data).events == seq![
            log_event(chunk_for_other_report_message(seq, report_id, active.report_id)),
        ],
        end_step(Some(active), report_id, total_chunks_sent, total_bytes_sent).active == Some(
            active,
        ),
        end_step(Some(active), report_id, total_chunks_sent, total_bytes_sent).completed is None,
        end_step(Some(active), report_id, total_chunks_sent, total_bytes_sent).events == seq![
            log_event(end_id_mismatch_message(active.report_id, report_id)),
        ],
{
}

/// The same of a payload: where it holds a CHUNK or END packet for another
/// report than the one in flight, the report in flight stays as it is.
pub proof fn lemma_foreign_payload_is_ignored(payload: Seq<u8>, active: ReportAssemblyView)
    requires
        match parse_packet(payload) {
            ReportPacketView::Chunk { report_id, .. } => report_id != active.report_id,
            ReportPacketView::End { report_id, .. } => report_id != active.report_id,
            _ => false,
        },
    ensures
        report_step(payload, Some(active)).active == Some(active),
        report_step(payload, Some(active)).completed is None,
{
}

/// Chunks are kept by sequence number, not by arrival: two chunks with
/// different sequence numbers leave the same report in flight whichever of
/// them arrives first.
pub proof fn lemma_arrival_order_is_irrelevant(
    active: Option<ReportAssemblyView>,
    report_id: u32,
    first_seq: u32,
    first: Seq<u8>,
    second_seq: u32,
    second: Seq<u8>,
)
    requires
        first_seq != second_seq,
    ensures
        chunk_step(
            chunk_step(active, report_id, first_seq, first).active,
            report_id,
            second_seq,
            second,
        ).active == chunk_step(
            chunk_step(active, report_id, second_seq, second).active,
            report_id,
            first_seq,
            first,
        ).active,
{
    if let Some(report) = active {
        if report.report_id == report_id {
            let one_way = chunk_step(
                chunk_step(active, report_id, first_seq, first).active,
                report_id,
                second_seq,
                second,
            ).active->0;
            let other_way = chunk_step(
                chunk_step(active, report_id, second_seq, second).active,
                report_id,
                first_seq,
                first,
            ).active->0;
            assert(one_way.chunks =~= other_way.chunks);
        }
    }
}

/// A chunk that arrives under a sequence number that holds one already
/// changes nothing: the bytes that came first stay.
pub proof fn lemma_first_chunk_wins(
    active: ReportAssemblyView,
    seq: u32,
    first: Seq<u8>,
    second: Seq<u8>,
)
    ensures
        ({
            let once = chunk_step(Some(active), active.report_id, seq, first).active;
            chunk_step(once, active.report_id, seq, second).active == once
        }),
{
}

/// An END packet for the report in flight always empties the slot, whether
/// the report is complete or not, so that a BEGIN packet that follows
/// starts its report without dropping one.
pub proof fn lemma_end_clears_the_slot(
    active: ReportAssemblyView,
    total_chunks_sent: u32,
    total_bytes_sent: u32,
    next_id: u32,
    total_chunks: u32,
    expected_bytes: u32,
    filename: Seq<char>,
)
    ensures
        ({
            let ended = end_step(
                Some(active),
                active.report_id,
                total_chunks_sent,
                total_bytes_sent,
            );
            let begun = begin_step(ended.active, next_id, total_chunks, expected_bytes, filename);
            &&& ended.active is None
            &&& ended.completed is Some <==> active.chunks.len() == active.total_chunks
            &&& ended.completed is Some ==> ended.completed == Some(active)
            &&& begun.events.len() == 1
            &&& begun.active matches Some(report) && report.report_id == next_id
                && report.chunks == Map::<u32, Seq<u8>>::empty()
        }),
{
}

/// Publishes one warning of the report channel.
fn warn(sink: &mut EventSink, msg: String)
    ensures
        final(sink)@ == old(sink)@ + seq![log_event(msg@)],
{
    sink_event(sink, UiEvent::Log { msg });
}

/// Publishes a diagnostic text line by line: a `Log` event for each line
/// that is not empty, and one that marks a blank line when the text ends in
/// a line feed.
pub fn emit_report_text(sink: &mut EventSink, text: &str)
    ensures
        final(sink)@ == old(sink)@ + text_report_events(text@),
{
    let chars = chars_of(text);
    let lines = lines_of(&chars);
    let ghost all = line_views(lines@);
    let mut i: usize = 0;
    while i < lines.len()
        invariant
            i <= lines.len(),
            all == line_views(lines@),
            sink@ == old(sink)@ + line_events(all.take(i as int)),
        decreases lines.len() - i,
    {
        let line = &lines[i];
        proof {
            assert(all.take(i + 1).drop_last() =~= all.take(i as int));
        }
        if line.len() > 0 {
            let mut msg = String::from_str("[RemoteReport] ");
            push_chars(&mut msg, line);
            sink_event(sink, UiEvent::Log { msg });
        }
        i = i + 1;
    }
    assert(all.take(i as int) =~= all);
    if chars.len() > 0 && chars[chars.len() - 1] == '\n' {
        sink_event(sink, UiEvent::Log { msg: String::from_str("[RemoteReport] <blank line>") });
    }
}

/// Publishes a payload that is no report packet as diagnostic text, decoded
/// as UTF-8 with replacement of what is not valid.
pub fn emit_remote_report_text_lines(sink: &mut EventSink, payload: &[u8])
    ensures
        final(sink)@ == old(sink)@ + text_report_events(utf8_lossy(payload@)),
{
    let text = decode_utf8_lossy(payload);
    emit_report_text(sink, text.as_str());
}

/// Starts a report, as a BEGIN packet with these fields does.
pub fn begin_report(
    sink: &mut EventSink,
    assembly: &mut Option<RemoteDebugReportAssembly>,
    report_id: u32,
    total_chunks: u32,
    expected_bytes: u32,
    filename: String,
)
    ensures
        ({
            let step = begin_step(
                slot_view(*old(assembly)),
                report_id,
                total_chunks,
                expected_bytes,
                filename@,
            );
            &&& final(sink)@ == old(sink)@ + step.events
            &&& slot_view(*final(assembly)) == step.active
        }),
{
    let existing = assembly.take();
    if let Some(existing) = existing {
        let mut msg = String::from_str("[RemoteReport] dropping incomplete report id=");
        push_decimal(&mut msg, existing.report_id as u128);
        msg.append(" while starting new report id=");
        push_decimal(&mut msg, report_id as u128);
        warn(sink, msg);
    }
    let name = if filename.as_str().is_empty() {
        String::from_str("nomikai_sender_report.log")
    } else {
        filename
    };
    let mut msg = String::from_str("[RemoteReport] begin id=");
    push_decimal(&mut msg, report_id as u128);
    msg.append(" file=");
    msg.append(name.as_str());
    msg.append(" chunks=");
    push_decimal(&mut msg, total_chunks as u128);
    msg.append(" bytes=");
    push_decimal(&mut msg, expected_bytes as u128);
    let started = RemoteDebugReportAssembly {
        report_id,
        filename: name,
        total_chunks,
        expected_bytes,
        chunks: BTreeMap::new(),
    };
    assert(started@.chunks =~= Map::<u32, Seq<u8>>::empty());
    *assembly = Some(started);
    warn(sink, msg);
}

/// Takes in one chunk, as a CHUNK packet with these fields does.
pub fn accept_chunk(
    sink: &mut EventSink,
    assembly: &mut Option<RemoteDebugReportAssembly>,
    report_id: u32,
    seq: u32,
    data: Vec<u8>,
)
    ensures
        ({
            let step = chunk_step(slot_view(*old(assembly)), report_id, seq, data@);
            &&& final(sink)@ == old(sink)@ + step.events
            &&& slot_view(*final(assembly)) == step.active
        }),
{
    let taken = assembly.take();
    match taken {
        None => {
            let mut msg = String::from_str("[RemoteReport] dropped chunk seq=");
            push_decimal(&mut msg, seq as u128);
            msg.append(" for report id=");
            push_decimal(&mut msg, report_id as u128);
            msg.append(" (no active report)");
            warn(sink, msg);
        },
        Some(mut active) => {
            if active.report_id != report_id {
                let mut msg = String::from_str("[RemoteReport] dropped chunk seq=");
                push_decimal(&mut msg, seq as u128);
                msg.append(" for report id=");
                push_decimal(&mut msg, report_id as u128);
                msg.append(" (active id=");
                push_decimal(&mut msg, active.report_id as u128);
                msg.append(")");
                *assembly = Some(active);
                warn(sink, msg);
            } else {
                let size = data.len() as u64;
                let ghost before = active@;
                if !active.chunks.contains_key(&seq) {
                    active.chunks.insert(seq, data);
                    assert(active@.chunks =~= before.chunks.insert(seq, data@));
                }
                *assembly = Some(active);
                sink_event(
                    sink,
                    UiEvent::Telemetry { name: String::from_str("debug_report_bytes"), value: size },
                );
            }
        },
    }
}

/// Closes a report, as an END packet with these fields does. The result is
/// the report when the packet completed it: it is then ready to be saved.
pub fn finish_report(
    sink: &mut EventSink,
    assembly: &mut Option<RemoteDebugReportAssembly>,
    report_id: u32,
    total_chunks_sent: u32,
    total_bytes_sent: u32,
) -> (completed: Option<RemoteDebugReportAssembly>)
    ensures
        ({
            let step = end_step(
                slot_view(*old(assembly)),
                report_id,
                total_chunks_sent,
                total_bytes_sent,
            );
            &&& final(sink)@ == old(sink)@ + step.events
            &&& slot_view(*final(assembly)) == step.active
            &&& slot_view(completed) == step.completed
        }),
{
    let taken = assembly.take();
    match taken {
        None => {
            let mut msg = String::from_str("[RemoteReport] END received for report id=");
            push_decimal(&mut msg, report_id as u128);
            msg.append(" with no active report");
            warn(sink, msg);
            None
        },
        Some(active) => {
            if active.report_id != report_id {
                let mut msg = String::from_str("[RemoteReport] END report id mismatch active=");
                push_decimal(&mut msg, active.report_id as u128);
                msg.append(" received=");
                push_decimal(&mut msg, report_id as u128);
                *assembly = Some(active);
                warn(sink, msg);
                return None;
            }
            if active.total_chunks != total_chunks_sent || active.expected_bytes
                != total_bytes_sent {
                let mut msg = String::from_str("[RemoteReport] END metadata mismatch id=");
                push_decimal(&mut msg, report_id as u128);
                msg.append(" begin(chunks=");
                push_decimal(&mut msg, active.total_chunks as u128);
                msg.append(",bytes=");
                push_decimal(&mut msg, active.expected_bytes as u128);
                msg.append(") end(chunks=");
                push_decimal(&mut msg, total_chunks_sent as u128);
                msg.append(",bytes=");
                push_decimal(&mut msg, total_bytes_sent as u128);
                msg.append(")");
                warn(sink, msg);
            }
            let received = active.received_chunks();
            if received != active.total_chunks as usize {
                let mut msg = String::from_str("[RemoteReport] incomplete report id=");
                push_decimal(&mut msg, report_id as u128);
                msg.append(" chunks_received=");
                push_decimal(&mut msg, received as u128);
                msg.append("/");
                push_decimal(&mut msg, active.total_chunks as u128);
                warn(sink, msg);
                return None;
            }
            Some(active)
        },
    }
}

/// Handles a decoded packet. `payload` is the payload that `packet` was
/// decoded from.
fn handle_report_packet(
    sink: &mut EventSink,
    payload: &[u8],
    packet: ReportPacket,
    assembly: &mut Option<RemoteDebugReportAssembly>,
) -> (completed: Option<RemoteDebugReportAssembly>)
    requires
        packet@ == parse_packet(payload@),
    ensures
        ({
            let step = report_step(payload@, slot_view(*old(assembly)));
            &&& final(sink)@ == old(sink)@ + step.events
            &&& slot_view(*final(assembly)) == step.active
            &&& slot_view(completed) == step.completed
        }),
{
    match packet {
        ReportPacket::Text => {
            emit_remote_report_text_lines(sink, payload);
            sink_event(
                sink,
                UiEvent::Telemetry {
                    name: String::from_str("debug_report_bytes"),
                    value: payload.len() as u64,
                },
            );
            None
        },
        ReportPacket::HeaderTooShort => {
            warn(sink, String::from_str("[RemoteReport] malformed packet: header too short"));
            None
        },
        ReportPacket::UnsupportedVersion { version } => {
            let mut msg = String::from_str("[RemoteReport] unsupported protocol version ");
            push_decimal(&mut msg, version as u128);
            msg.append(" (expected ");
            push_decimal(&mut msg, 1);
            msg.append(")");
            warn(sink, msg);
            None
        },
        ReportPacket::MalformedBegin => {
            warn(sink, String::from_str("[RemoteReport] malformed BEGIN packet"));
            None
        },
        ReportPacket::MalformedBeginFilename => {
            warn(sink, String::from_str("[RemoteReport] malformed BEGIN packet filename"));
            None
        },
        ReportPacket::Begin { report_id, total_chunks, expected_bytes, filename } => {
            let name = decode_utf8_lossy(filename.as_slice());
            begin_report(sink, assembly, report_id, total_chunks, expected_bytes, name);
            None
        },
        ReportPacket::MalformedChunk => {
            warn(sink, String::from_str("[RemoteReport] malformed CHUNK packet"));
            None
        },
        ReportPacket::MalformedChunkBody { seq } => {
            let mut msg = String::from_str("[RemoteReport] malformed CHUNK packet seq=");
            push_decimal(&mut msg, seq as u128);
            warn(sink, msg);
            None
        },
        ReportPacket::Chunk { report_id, seq, data } => {
            accept_chunk(sink, assembly, report_id, seq, data);
            None
        },
        ReportPacket::MalformedEnd => {
            warn(sink, String::from_str("[RemoteReport] malformed END packet"));
            None
        },
        ReportPacket::End { report_id, total_chunks_sent, total_bytes_sent } => finish_report(
            sink,
            assembly,
            report_id,
            total_chunks_sent,
            total_bytes_sent,
        ),
        ReportPacket::UnsupportedType { packet_type } => {
            let mut msg = String::from_str("[RemoteReport] unsupported packet type 0x");
            push_hex_byte(&mut msg, packet_type);
            warn(sink, msg);
            None
        },
    }
}

/// Handles one payload of the report channel: decodes it, publishes what
/// there is to say of it, and advances the report in flight. The result is
/// the report that the payload completed, if it did: it is then ready to be
/// saved, and the slot is empty.
pub fn handle_remote_debug_report_payload(
    sink: &mut EventSink,
    payload: &[u8],
    assembly: &mut Option<RemoteDebugReportAssembly>,
) -> (completed: Option<RemoteDebugReportAssembly>)
    ensures
        ({
            let step = report_step(payload@, slot_view(*old(assembly)));
            &&& final(sink)@ == old(sink)@ + step.events
            &&& slot_view(*final(assembly)) == step.active
            &&& slot_view(completed) == step.completed
        }),
{
    let packet = parse_report_packet(payload);
    handle_report_packet(sink, payload, packet, assembly)
}

} // verus!
