use crate::event::{
    connection_event, handshake_announcements, is_handshake_event, lemma_all_announcements,
    lemma_no_announcement_among, sink_event, telemetry_event, EventSink, UiEvent, UiEventView,
};
use crate::frame::{InboundAudioFrame, InboundVideoFrame, NetworkStats};
use crate::report::{
    handle_remote_debug_report_payload, is_report_event, lemma_report_step_events, report_step,
    slot_view, RemoteDebugReportAssembly, ReportAssemblyView,
};
use crate::sender::{emit_quic_network_telemetry, frames_through, network_telemetry_events};
use crate::text::{decimal, push_decimal};
use vstd::prelude::*;

verus! {

/// What the receiving loop keeps between two turns: whether the handshake
/// was announced, the report in flight, and the codec tag that marks an
/// audio packet as part of the report channel.
pub struct ReceiverLoop {
    pub handshake_announced: bool,
    pub assembly: Option<RemoteDebugReportAssembly>,
    pub debug_codec: u8,
}

/// What the receiving loop is woken by.
#[derive(Clone, Debug, PartialEq, Eq)]
pub enum ReceiverInput {
    /// The flag of the receiver role was looked at, at the top of a turn
    /// or when the shutdown timer fired. `should_run` is what it held.
    StopCheck { should_run: bool },
    /// The telemetry timer fired; `stats` is the latest sample of the
    /// transport's measurements, if there is one.
    TelemetryTick { stats: Option<NetworkStats> },
    /// The video channel delivered a frame, or was closed.
    Video(Option<InboundVideoFrame>),
    /// The audio channel delivered a packet, or was closed.
    Audio(Option<InboundAudioFrame>),
}

/// What the receiving loop is to do after a turn.
pub enum ReceiverAction {
    /// Wait for the next input.
    Continue,
    /// Save the report that was completed, report how that went, and wait
    /// for the next input.
    SaveReport(RemoteDebugReportAssembly),
    /// Leave the loop.
    Stop,
}

/// The mathematical content of a [`ReceiverAction`].
pub enum ReceiverActionView {
    Continue,
    SaveReport(ReportAssemblyView),
    Stop,
}

impl View for ReceiverAction {
    type V = ReceiverActionView;

    open spec fn view(&self) -> ReceiverActionView {
        match *self {
            ReceiverAction::Continue => ReceiverActionView::Continue,
            ReceiverAction::SaveReport(report) => ReceiverActionView::SaveReport(report@),
            ReceiverAction::Stop => ReceiverActionView::Stop,
        }
    }
}

/// The detail of the connection state `connected` on the receiving side.
pub open spec fn receiver_connected_detail(session_id: u64, stream_id: u32) -> Seq<char> {
    "session="@ + decimal(session_id as nat) + " stream="@ + decimal(stream_id as nat)
}

/// The events that announce the handshake on the receiving side: none once
/// it was announced, else `HandshakeInitiated`, `HandshakeComplete` and
/// the connection state `connected`, in this order.
pub open spec fn receiver_handshake_events(session_id: u64, stream_id: u32, announced: bool) -> Seq<
    UiEventView,
> {
    if announced {
        Seq::empty()
    } else {
        seq![
            UiEventView::HandshakeInitiated,
            UiEventView::HandshakeComplete { session_id, bootstrap_mode: "Receiver"@ },
            connection_event("connected"@, receiver_connected_detail(session_id, stream_id)),
        ]
    }
}

/// The packet loss as telemetry reports it: in parts per million, and at
/// most one million.
pub open spec fn loss_telemetry_value(packet_loss_ppm: u64) -> u64 {
    if packet_loss_ppm > 1_000_000 {
        1_000_000
    } else {
        packet_loss_ppm
    }
}

/// The events for a video frame that arrived: the frame, the progress of
/// its stream, whether it is a key frame, and the packet loss observed.
pub open spec fn video_received_events(frame: InboundVideoFrame) -> Seq<UiEventView> {
    seq![
        UiEventView::VideoFrameReceived { data: frame.payload@, pts: frame.timestamp_us },
        UiEventView::Progress {
            stream_id: frame.stream_id,
            frame_index: frame.frame_index,
            bytes: frame.payload@.len() as u64,
            frames: frames_through(frame.frame_index),
        },
        telemetry_event(
            "keyframe"@,
            if frame.keyframe {
                1u64
            } else {
                0u64
            },
        ),
        telemetry_event("packet_loss_ppm"@, loss_telemetry_value(frame.packet_loss_ppm)),
    ]
}

/// The outcome of one turn of the receiving loop: the events to publish,
/// the state afterwards, and what to do next.
pub struct ReceiverTurn {
    pub events: Seq<UiEventView>,
    pub handshake_announced: bool,
    pub assembly: Option<ReportAssemblyView>,
    pub action: ReceiverActionView,
}

/// A turn that ends the loop: the connection state `stopped` with the
/// reason, and no change of state.
pub open spec fn stopping_turn(
    announced: bool,
    assembly: Option<ReportAssemblyView>,
    reason: Seq<char>,
) -> ReceiverTurn {
    ReceiverTurn {
        events: seq![connection_event("stopped"@, reason)],
        handshake_announced: announced,
        assembly,
        action: ReceiverActionView::Stop,
    }
}

/// One turn of the receiving loop.
///
/// A cleared flag or a closed channel ends the loop, each with a reason of
/// its own. A telemetry tick publishes the measurements where there are
/// any. The first frame or packet announces the handshake. A video frame
/// is published with its telemetry. An audio packet with the codec tag of
/// the report channel goes to the report in flight and is not published as
/// media; a report that it completes is to be saved. Any other audio
/// packet is published.
pub open spec fn receiver_turn(
    announced: bool,
    assembly: Option<ReportAssemblyView>,
    debug_codec: u8,
    input: ReceiverInput,
) -> ReceiverTurn {
    match input {
        ReceiverInput::StopCheck { should_run } => if should_run {
            ReceiverTurn {
                events: Seq::empty(),
                handshake_announced: announced,
                assembly,
                action: ReceiverActionView::Continue,
            }
        } else {
            stopping_turn(announced, assembly, "receiver stop requested"@)
        },
        ReceiverInput::TelemetryTick { stats } => ReceiverTurn {
            events: match stats {
                Some(stats) => network_telemetry_events(stats),
                None => Seq::empty(),
            },
            handshake_announced: announced,
            assembly,
            action: ReceiverActionView::Continue,
        },
        ReceiverInput::Video(None) => stopping_turn(
            announced,
            assembly,
            "receiver video channel closed"@,
        ),
        ReceiverInput::Video(Some(frame)) => ReceiverTurn {
            events: receiver_handshake_events(frame.session_id, frame.stream_id, announced)
                + video_received_events(frame),
            handshake_announced: true,
            assembly,
            action: ReceiverActionView::Continue,
        },
        ReceiverInput::Audio(None) => stopping_turn(
            announced,
            assembly,
            "receiver audio channel closed"@,
        ),
        ReceiverInput::Audio(Some(frame)) => {
            let handshake = receiver_handshake_events(
                frame.session_id,
                frame.stream_id,
                announced,
            );
            if frame.codec == debug_codec {
                let step = report_step(frame.payload@, assembly);
                ReceiverTurn {
                    events: handshake + step.events,
                    handshake_announced: true,
                    assembly: step.active,
                    action: match step.completed {
                        Some(report) => ReceiverActionView::SaveReport(report),
                        None => ReceiverActionView::Continue,
                    },
                }
            } else {
                ReceiverTurn {
                    events: handshake.push(
                        UiEventView::AudioFrameReceived {
                            data: frame.payload@,
                            pts: frame.timestamp_us,
                            frames_per_packet: frame.frames_per_packet,
                        },
                    ),
                    handshake_announced: true,
                    assembly,
                    action: ReceiverActionView::Continue,
                }
            }
        },
    }
}

/// The detail of the connection state `starting` on the receiving side.
pub open spec fn receiver_starting_detail(bind_addr: Seq<char>) -> Seq<char> {
    "binding "@ + bind_addr
}

/// Publishes that a receiver starts to bind `bind_addr`.
pub fn announce_receiver_starting(sink: &mut EventSink, bind_addr: &str)
    ensures
        final(sink)@ == old(sink)@.push(
            connection_event("starting"@, receiver_starting_detail(bind_addr@)),
        ),
{
    let mut detail = String::from_str("binding ");
    detail.append(bind_addr);
    sink_event(sink, UiEvent::ConnectionState { state: String::from_str("starting"), detail });
}

/// The events once a receiver is bound: it listens on `local_addr`, and
/// waits for its peer.
pub open spec fn receiver_listening_events(local_addr: Seq<char>) -> Seq<UiEventView> {
    seq![
        connection_event("listening"@, "local="@ + local_addr),
        connection_event("awaiting_peer"@, "waiting for inbound QUIC connection"@),
    ]
}

/// Publishes that a receiver is bound and waits for its peer.
pub fn announce_receiver_listening(sink: &mut EventSink, local_addr: &str)
    ensures
        final(sink)@ == old(sink)@ + receiver_listening_events(local_addr@),
{
    let mut detail = String::from_str("local=");
    detail.append(local_addr);
    sink_event(sink, UiEvent::ConnectionState { state: String::from_str("listening"), detail });
    sink_event(
        sink,
        UiEvent::ConnectionState {
            state: String::from_str("awaiting_peer"),
            detail: String::from_str("waiting for inbound QUIC connection"),
        },
    );
}

/// The detail of the connection state `quic_connected` on the receiving side.
pub open spec fn receiver_accepted_detail(remote_addr: Seq<char>, local_addr: Seq<char>) -> Seq<
    char,
> {
    "accepted QUIC peer remote="@ + remote_addr + " local="@ + local_addr
}

/// Publishes that a receiver has accepted its peer.
pub fn announce_receiver_connected(sink: &mut EventSink, remote_addr: &str, local_addr: &str)
    ensures
        final(sink)@ == old(sink)@.push(
            connection_event(
                "quic_connected"@,
                receiver_accepted_detail(remote_addr@, local_addr@),
            ),
        ),
{
    let mut detail = String::from_str("accepted QUIC peer remote=");
    detail.append(remote_addr);
    detail.append(" local=");
    detail.append(local_addr);
    sink_event(
        sink,
        UiEvent::ConnectionState { state: String::from_str("quic_connected"), detail },
    );
}

/// Starts a receiving loop: publishes the size of the compression graph.
/// No handshake is announced yet and no report is in flight.
pub fn start_receiver_loop(sink: &mut EventSink, graph_len: usize, debug_codec: u8) -> (state:
    ReceiverLoop)
    ensures
        !state.handshake_announced,
        state.assembly is None,
        state.debug_codec == debug_codec,
        final(sink)@ == old(sink)@.push(telemetry_event("graph_bytes"@, graph_len as u64)),
{
    sink_event(
        sink,
        UiEvent::Telemetry { name: String::from_str("graph_bytes"), value: graph_len as u64 },
    );
    ReceiverLoop { handshake_announced: false, assembly: None, debug_codec }
}

/// Announces the handshake, unless that was done before.
fn announce_receiver_handshake_if_needed(
    sink: &mut EventSink,
    session_id: u64,
    stream_id: u32,
    handshake_announced: &mut bool,
)
    ensures
        final(sink)@ == old(sink)@ + receiver_handshake_events(
            session_id,
            stream_id,
            *old(handshake_announced),
        ),
        *final(handshake_announced),
{
    if *handshake_announced {
        return ;
    }
    *handshake_announced = true;
    sink_event(sink, UiEvent::HandshakeInitiated);
    sink_event(
        sink,
        UiEvent::HandshakeComplete { session_id, bootstrap_mode: String::from_str("Receiver") },
    );
    let mut detail = String::from_str("session=");
    push_decimal(&mut detail, session_id as u128);
    detail.append(" stream=");
    push_decimal(&mut detail, stream_id as u128);
    sink_event(sink, UiEvent::ConnectionState { state: String::from_str("connected"), detail });
}

/// Publishes that the loop ends, with the reason.
fn emit_stopped(sink: &mut EventSink, reason: &str)
    ensures
        final(sink)@ == old(sink)@ + seq![connection_event("stopped"@, reason@)],
{
    sink_event(
        sink,
        UiEvent::ConnectionState {
            state: String::from_str("stopped"),
            detail: String::from_str(reason),
        },
    );
}

/// One turn of the receiving loop: publishes what the input gives rise to,
/// advances the state, and says what to do next.
pub fn receiver_loop_step(sink: &mut EventSink, state: &mut ReceiverLoop, input: ReceiverInput) -> (action:
    ReceiverAction)
    ensures
        ({
            let turn = receiver_turn(
                old(state).handshake_announced,
                slot_view(old(state).assembly),
                old(state).debug_codec,
                input,
            );
            &&& final(sink)@ == old(sink)@ + turn.events
            &&& final(state).handshake_announced == turn.handshake_announced
            &&& slot_view(final(state).assembly) == turn.assembly
            &&& final(state).debug_codec == old(state).debug_codec
            &&& action@ == turn.action
        }),
{
    match input {
        ReceiverInput::StopCheck { should_run } => {
            if should_run {
                ReceiverAction::Continue
            } else {
                emit_stopped(sink, "receiver stop requested");
                ReceiverAction::Stop
            }
        },
        ReceiverInput::TelemetryTick { stats } => {
            match stats {
                Some(stats) => {
                    emit_quic_network_telemetry(sink, stats);
                },
                None => {
                },
            }
            ReceiverAction::Continue
        },
        ReceiverInput::Video(None) => {
            emit_stopped(sink, "receiver video channel closed");
            ReceiverAction::Stop
        },
        ReceiverInput::Video(Some(frame)) => {
            let mut announced = state.handshake_announced;
            announce_receiver_handshake_if_needed(
                sink,
                frame.session_id,
                frame.stream_id,
                &mut announced,
            );
            state.handshake_announced = announced;
            let payload_len = frame.payload.len() as u64;
            let loss: u64 = if frame.packet_loss_ppm > 1_000_000 {
                1_000_000
            } else {
                frame.packet_loss_ppm
            };
            let keyframe: u64 = if frame.keyframe {
                1
            } else {
                0
            };
            sink_event(
                sink,
                UiEvent::VideoFrameReceived { data: frame.payload, pts: frame.timestamp_us },
            );
            sink_event(
                sink,
                UiEvent::Progress {
                    stream_id: frame.stream_id,
                    frame_index: frame.frame_index,
                    bytes: payload_len,
                    frames: frame.frame_index.saturating_add(1),
                },
            );
            sink_event(
                sink,
                UiEvent::Telemetry { name: String::from_str("keyframe"), value: keyframe },
            );
            sink_event(
                sink,
                UiEvent::Telemetry { name: String::from_str("packet_loss_ppm"), value: loss },
            );
            ReceiverAction::Continue
        },
        ReceiverInput::Audio(None) => {
            emit_stopped(sink, "receiver audio channel closed");
            ReceiverAction::Stop
        },
        ReceiverInput::Audio(Some(frame)) => {
            let mut announced = state.handshake_announced;
            announce_receiver_handshake_if_needed(
                sink,
                frame.session_id,
                frame.stream_id,
                &mut announced,
            );
            state.handshake_announced = announced;
            if frame.codec == state.debug_codec {
                let mut assembly = state.assembly.take();
                let completed = handle_remote_debug_report_payload(
                    sink,
                    frame.payload.as_slice(),
                    &mut assembly,
                );
                state.assembly = assembly;
                match completed {
                    Some(report) => ReceiverAction::SaveReport(report),
                    None => ReceiverAction::Continue,
                }
            } else {
                sink_event(
                    sink,
                    UiEvent::AudioFrameReceived {
                        data: frame.payload,
                        pts: frame.timestamp_us,
                        frames_per_packet: frame.frames_per_packet,
                    },
                );
                ReceiverAction::Continue
            }
        },
    }
}

/// The outcome of a run of turns of the receiving loop, one for each
/// input in order: all events published, the state afterwards, and what
/// the last turn said to do.
pub open spec fn receiver_run(
    announced: bool,
    assembly: Option<ReportAssemblyView>,
    debug_codec: u8,
    inputs: Seq<ReceiverInput>,
) -> ReceiverTurn
    decreases inputs.len(),
{
    if inputs.len() == 0 {
        ReceiverTurn {
            events: Seq::empty(),
            handshake_announced: announced,
            assembly,
            action: ReceiverActionView::Continue,
        }
    } else {
        let before = receiver_run(announced, assembly, debug_codec, inputs.drop_last());
        let turn = receiver_turn(
            before.handshake_announced,
            before.assembly,
            debug_codec,
            inputs.last(),
        );
        ReceiverTurn { events: before.events + turn.events, ..turn }
    }
}

/// The session and the stream of the frame or packet that an input
/// delivers, if it delivers one.
pub open spec fn delivered_frame(input: ReceiverInput) -> Option<(u64, u32)> {
    match input {
        ReceiverInput::Video(Some(frame)) => Some((frame.session_id, frame.stream_id)),
        ReceiverInput::Audio(Some(frame)) => Some((frame.session_id, frame.stream_id)),
        _ => None,
    }
}

/// The session and the stream of the first frame or packet that a run of
/// inputs delivers, if it delivers any.
pub open spec fn first_delivered_frame(inputs: Seq<ReceiverInput>) -> Option<(u64, u32)>
    decreases inputs.len(),
{
    if inputs.len() == 0 {
        None
    } else {
        match first_delivered_frame(inputs.drop_last()) {
            Some(frame) => Some(frame),
            None => delivered_frame(inputs.last()),
        }
    }
}

/// What one turn adds to the announcements: the three events of the
/// handshake where the turn delivers the first frame or packet, nothing
/// in every other case.
proof fn lemma_turn_announcements(
    announced: bool,
    assembly: Option<ReportAssemblyView>,
    debug_codec: u8,
    input: ReceiverInput,
)
    ensures
        ({
            let turn = receiver_turn(announced, assembly, debug_codec, input);
            &&& turn.handshake_announced == (announced || delivered_frame(input) is Some)
            &&& handshake_announcements(turn.events) == (match delivered_frame(input) {
                Some((session_id, stream_id)) => receiver_handshake_events(
                    session_id,
                    stream_id,
                    announced,
                ),
                None => Seq::empty(),
            })
        }),
{
    reveal_strlit("connected");
    reveal_strlit("stopped");
    let turn = receiver_turn(announced, assembly, debug_codec, input);
    let pred = |event: UiEventView| is_handshake_event(event);
    assert("connected"@ != "stopped"@) by {
        assert("connected"@.len() == 9 && "stopped"@.len() == 7);
    }
    match input {
        ReceiverInput::Video(Some(frame)) => {
            let handshake = receiver_handshake_events(frame.session_id, frame.stream_id, announced);
            let rest = video_received_events(frame);
            Seq::filter_distributes_over_add(handshake, rest, pred);
            lemma_all_announcements(handshake);
            lemma_no_announcement_among(rest);
        },
        ReceiverInput::Audio(Some(frame)) => {
            let handshake = receiver_handshake_events(frame.session_id, frame.stream_id, announced);
            lemma_all_announcements(handshake);
            if frame.codec == debug_codec {
                let step = report_step(frame.payload@, assembly);
                lemma_report_step_events(frame.payload@, assembly);
                assert forall|i: int| 0 <= i < step.events.len() implies !is_handshake_event(
                    #[trigger] step.events[i],
                ) by {
                    assert(is_report_event(step.events[i]));
                }
                lemma_no_announcement_among(step.events);
                Seq::filter_distributes_over_add(handshake, step.events, pred);
            } else {
                let rest = seq![
                    UiEventView::AudioFrameReceived {
                        data: frame.payload@,
                        pts: frame.timestamp_us,
                        frames_per_packet: frame.frames_per_packet,
                    },
                ];
                lemma_no_announcement_among(rest);
                Seq::filter_distributes_over_add(handshake, rest, pred);
            }
        },
        _ => {
            lemma_no_announcement_among(turn.events);
        },
    }
}

/// Over any run of turns that starts before the handshake was announced,
/// the handshake is announced exactly once if a frame or packet arrives at
/// all, and never if none does: the events that announce it are the three
/// of the first frame or packet, whichever of the two channels delivers
/// it, and no later frame or packet adds to them.
pub proof fn lemma_handshake_announced_once(
    assembly: Option<ReportAssemblyView>,
    debug_codec: u8,
    inputs: Seq<ReceiverInput>,
)
    ensures
        ({
            let run = receiver_run(false, assembly, debug_codec, inputs);
            &&& run.handshake_announced == first_delivered_frame(inputs) is Some
            &&& handshake_announcements(run.events) == (match first_delivered_frame(inputs) {
                Some((session_id, stream_id)) => receiver_handshake_events(
                    session_id,
                    stream_id,
                    false,
                ),
                None => Seq::empty(),
            })
        }),
    decreases inputs.len(),
{
    reveal(Seq::filter);
    if inputs.len() > 0 {
        let earlier = inputs.drop_last();
        lemma_handshake_announced_once(assembly, debug_codec, earlier);
        let before = receiver_run(false, assembly, debug_codec, earlier);
        let turn = receiver_turn(
            before.handshake_announced,
            before.assembly,
            debug_codec,
            inputs.last(),
        );
        lemma_turn_announcements(
            before.handshake_announced,
            before.assembly,
            debug_codec,
            inputs.last(),
        );
        Seq::filter_distributes_over_add(
            before.events,
            turn.events,
            |event: UiEventView| is_handshake_event(event),
        );
    }
}

} // verus!
