use crate::event::{
    connection_event, error_event, handshake_announcements, is_handshake_event,
    lemma_all_announcements, lemma_no_announcement_among, sink_event, telemetry_event, EventSink,
    UiEvent, UiEventView,
};
use crate::frame::{
    bootstrap_mode_name, AudioFrame, MediaType, NetworkStats, VideoFrame,
};
use crate::session::{
    send_result_view, transmission_view, SendError, SendErrorView, Session, SessionView,
};
use crate::text::{decimal, push_decimal};
use vstd::prelude::*;

verus! {

/// The round-trip time as telemetry reports it: in milliseconds, and
/// `u64::MAX` where it is longer than that.
pub open spec fn rtt_telemetry_value(rtt_millis: u128) -> u64 {
    if rtt_millis > u64::MAX {
        u64::MAX
    } else {
        rtt_millis as u64
    }
}

/// The two telemetry events for one sample of the transport's
/// measurements: round-trip time, then packets lost.
pub open spec fn network_telemetry_events(stats: NetworkStats) -> Seq<UiEventView> {
    seq![
        telemetry_event("path.rtt"@, rtt_telemetry_value(stats.rtt_millis)),
        telemetry_event("udp_tx.dropped"@, stats.lost_packets),
    ]
}

/// Publishes one sample of the transport's measurements.
pub fn emit_quic_network_telemetry(sink: &mut EventSink, stats: NetworkStats)
    ensures
        final(sink)@ == old(sink)@ + network_telemetry_events(stats),
{
    let rtt_ms: u64 = if stats.rtt_millis > u64::MAX as u128 {
        u64::MAX
    } else {
        stats.rtt_millis as u64
    };
    sink_event(sink, UiEvent::Telemetry { name: String::from_str("path.rtt"), value: rtt_ms });
    sink_event(
        sink,
        UiEvent::Telemetry { name: String::from_str("udp_tx.dropped"), value: stats.lost_packets },
    );
}

/// The detail of the connection state `connected` on the sending side.
pub open spec fn sender_connected_detail(session_id: u64, dest: Seq<char>) -> Seq<char> {
    "session="@ + decimal(session_id as nat) + " dest="@ + dest
}

/// The events that announce a completed handshake on the sending side:
/// none once it was announced, else `HandshakeComplete` and then the
/// connection state `connected`.
pub open spec fn sender_handshake_events(
    session: SessionView,
    dest: Seq<char>,
    announced: bool,
) -> Seq<UiEventView> {
    if announced {
        Seq::empty()
    } else {
        seq![
            UiEventView::HandshakeComplete {
                session_id: session.session_id,
                bootstrap_mode: bootstrap_mode_name(session.bootstrap_mode),
            },
            connection_event("connected"@, sender_connected_detail(session.session_id, dest)),
        ]
    }
}

/// Announces the completed handshake, unless that was done before.
pub fn announce_sender_handshake_if_needed(
    sink: &mut EventSink,
    session: &Session,
    dest: &str,
    handshake_announced: &mut bool,
)
    ensures
        final(sink)@ == old(sink)@ + sender_handshake_events(
            session@,
            dest@,
            *old(handshake_announced),
        ),
        *final(handshake_announced),
{
    if *handshake_announced {
        return ;
    }
    *handshake_announced = true;
    let session_id = session.session_id();
    sink_event(
        sink,
        UiEvent::HandshakeComplete { session_id, bootstrap_mode: session.bootstrap_mode().name() },
    );
    let mut detail = String::from_str("session=");
    push_decimal(&mut detail, session_id as u128);
    detail.append(" dest=");
    detail.append(dest);
    sink_event(sink, UiEvent::ConnectionState { state: String::from_str("connected"), detail });
}

/// What a send error says of itself. An error of the transport says what
/// the transport said.
pub open spec fn send_error_message(error: SendErrorView) -> Seq<char> {
    match error {
        SendErrorView::UnknownStream { stream_id } => "unknown stream "@ + decimal(
            stream_id as nat,
        ),
        SendErrorView::SequenceExhausted { stream_id } => "no frame index left on stream "@
            + decimal(stream_id as nat),
        SendErrorView::Transport { reason } => reason,
    }
}

impl SendError {
    /// The error in words.
    pub fn message(&self) -> (msg: String)
        ensures
            msg@ == send_error_message(self@),
    {
        match self {
            SendError::UnknownStream { stream_id } => {
                let mut msg = String::from_str("unknown stream ");
                push_decimal(&mut msg, *stream_id as u128);
                msg
            },
            SendError::SequenceExhausted { stream_id } => {
                let mut msg = String::from_str("no frame index left on stream ");
                push_decimal(&mut msg, *stream_id as u128);
                msg
            },
            SendError::Transport { reason } => reason.clone(),
        }
    }
}

/// The events after a frame could not be sent: the frame is reported as
/// dropped, the connection as stopped, and the error as such, each with
/// the reason.
pub open spec fn send_failure_events(stream_id: u32, reason: Seq<char>) -> Seq<UiEventView> {
    seq![
        UiEventView::FrameDrop { stream_id, reason },
        connection_event("stopped"@, reason),
        error_event(reason),
    ]
}

/// Publishes that a frame could not be sent.
fn emit_send_failure(sink: &mut EventSink, stream_id: u32, error: &SendError)
    ensures
        final(sink)@ == old(sink)@ + send_failure_events(stream_id, send_error_message(error@)),
{
    sink_event(sink, UiEvent::FrameDrop { stream_id, reason: error.message() });
    sink_event(
        sink,
        UiEvent::ConnectionState { state: String::from_str("stopped"), detail: error.message() },
    );
    sink_event(sink, UiEvent::Error { msg: error.message() });
}

/// The number of frames of a stream up to and including the one with the
/// given index.
pub open spec fn frames_through(frame_index: u64) -> u64 {
    if frame_index == u64::MAX {
        u64::MAX
    } else {
        (frame_index + 1) as u64
    }
}

/// The events for a bit rate that changed since it was last reported.
pub open spec fn bitrate_update_events(update: Option<u32>) -> Seq<UiEventView> {
    match update {
        Some(bitrate_bps) => seq![UiEventView::BitrateChanged { bitrate_bps }],
        None => Seq::empty(),
    }
}

/// The events after an attempt to send a video frame of `payload_len`
/// bytes. After a delivery: the handshake where it was not announced yet,
/// the progress of the stream, its redundancy, and the bit rate where it
/// changed. After a failure: the three events of a failed send.
pub open spec fn video_sent_events(
    session: SessionView,
    stream_id: u32,
    payload_len: u64,
    transmitted: Result<(), Seq<char>>,
    dest: Seq<char>,
    announced: bool,
) -> Seq<UiEventView> {
    match session.send_result(stream_id, transmitted) {
        Ok(frame_index) => sender_handshake_events(session, dest, announced) + seq![
            UiEventView::Progress {
                stream_id,
                frame_index,
                bytes: payload_len,
                frames: frames_through(frame_index),
            },
            telemetry_event(
                "redundancy_ppm"@,
                session.streams[stream_id as int].redundancy_ppm as u64,
            ),
        ] + bitrate_update_events(session.bitrate_update),
        Err(error) => send_failure_events(stream_id, send_error_message(error)),
    }
}

/// The events after an attempt to send an audio packet. After a delivery:
/// the handshake where it was not announced yet, and the bit rate where it
/// changed. After a failure: the three events of a failed send.
pub open spec fn audio_sent_events(
    session: SessionView,
    stream_id: u32,
    transmitted: Result<(), Seq<char>>,
    dest: Seq<char>,
    announced: bool,
) -> Seq<UiEventView> {
    match session.send_result(stream_id, transmitted) {
        Ok(frame_index) => sender_handshake_events(session, dest, announced)
            + bitrate_update_events(session.bitrate_update),
        Err(error) => send_failure_events(stream_id, send_error_message(error)),
    }
}

/// The session after an attempt to send was dealt with: the stream has
/// moved on after a delivery, and a changed bit rate has been reported.
pub open spec fn session_after_sent(session: SessionView, stream_id: u32, delivered: bool)
    -> SessionView {
    if delivered {
        SessionView { bitrate_update: None, ..session.after_send(stream_id, true) }
    } else {
        session
    }
}

/// Deals with the outcome of handing a video frame of `payload_len` bytes
/// to the transport: records it in the session and publishes what there is
/// to say. An error ends the session; it is returned after the events of a
/// failed send were published.
pub fn send_sender_frame(
    sink: &mut EventSink,
    session: &mut Session,
    stream_id: u32,
    payload_len: u64,
    transmitted: Result<(), String>,
    dest: &str,
    handshake_announced: &mut bool,
) -> (result: Result<u64, SendError>)
    ensures
        send_result_view(result) == old(session)@.send_result(
            stream_id,
            transmission_view(transmitted),
        ),
        final(session)@ == session_after_sent(old(session)@, stream_id, result is Ok),
        final(sink)@ == old(sink)@ + video_sent_events(
            old(session)@,
            stream_id,
            payload_len,
            transmission_view(transmitted),
            dest@,
            *old(handshake_announced),
        ),
        *final(handshake_announced) == (*old(handshake_announced) || result is Ok),
{
    match session.send_frame(stream_id, transmitted) {
        Ok(frame_index) => {
            announce_sender_handshake_if_needed(sink, session, dest, handshake_announced);
            sink_event(
                sink,
                UiEvent::Progress {
                    stream_id,
                    frame_index,
                    bytes: payload_len,
                    frames: frame_index.saturating_add(1),
                },
            );
            if let Some(redundancy_ppm) = session.stream_redundancy(stream_id) {
                sink_event(
                    sink,
                    UiEvent::Telemetry {
                        name: String::from_str("redundancy_ppm"),
                        value: redundancy_ppm as u64,
                    },
                );
            }
            if let Some(bitrate_bps) = session.take_bitrate_update_bps() {
                sink_event(sink, UiEvent::BitrateChanged { bitrate_bps });
            }
            Ok(frame_index)
        },
        Err(error) => {
            emit_send_failure(sink, stream_id, &error);
            Err(error)
        },
    }
}

/// Deals with the outcome of handing an audio packet to the transport:
/// records it in the session and publishes what there is to say. An error
/// ends the session; it is returned after the events of a failed send were
/// published.
pub fn send_sender_audio(
    sink: &mut EventSink,
    session: &mut Session,
    stream_id: u32,
    transmitted: Result<(), String>,
    dest: &str,
    handshake_announced: &mut bool,
) -> (result: Result<u64, SendError>)
    ensures
        send_result_view(result) == old(session)@.send_result(
            stream_id,
            transmission_view(transmitted),
        ),
        final(session)@ == session_after_sent(old(session)@, stream_id, result is Ok),
        final(sink)@ == old(sink)@ + audio_sent_events(
            old(session)@,
            stream_id,
            transmission_view(transmitted),
            dest@,
            *old(handshake_announced),
        ),
        *final(handshake_announced) == (*old(handshake_announced) || result is Ok),
{
    match session.send_frame(stream_id, transmitted) {
        Ok(frame_index) => {
            announce_sender_handshake_if_needed(sink, session, dest, handshake_announced);
            if let Some(bitrate_bps) = session.take_bitrate_update_bps() {
                sink_event(sink, UiEvent::BitrateChanged { bitrate_bps });
            }
            Ok(frame_index)
        },
        Err(error) => {
            emit_send_failure(sink, stream_id, &error);
            Err(error)
        },
    }
}

/// Whether a sender keeps an idle channel alive.
#[derive(Clone, Copy, Debug, PartialEq, Eq, Structural)]
pub enum KeepAlivePolicy {
    /// Nothing is sent while no frame is queued.
    Disabled,
    /// While no frame is queued, a heartbeat frame is sent at each tick of
    /// the keep-alive timer.
    Heartbeat,
}

/// One frame or packet that was handed to the transport, and what the
/// transport said of it.
pub struct SendAttempt {
    pub stream_id: u32,
    /// Whether it was a video frame; else it was an audio packet.
    pub video: bool,
    pub payload_len: u64,
    pub transmitted: Result<(), Seq<char>>,
}

/// The outcome of a run of attempts to send: all events published, the
/// session afterwards, and whether the handshake has been announced.
pub struct SenderRun {
    pub events: Seq<UiEventView>,
    pub session: SessionView,
    pub handshake_announced: bool,
}

/// The events of one attempt to send.
pub open spec fn send_attempt_events(
    session: SessionView,
    dest: Seq<char>,
    announced: bool,
    attempt: SendAttempt,
) -> Seq<UiEventView> {
    if attempt.video {
        video_sent_events(
            session,
            attempt.stream_id,
            attempt.payload_len,
            attempt.transmitted,
            dest,
            announced,
        )
    } else {
        audio_sent_events(session, attempt.stream_id, attempt.transmitted, dest, announced)
    }
}

/// What a run of attempts to send, dealt with one after the other by
/// `send_sender_frame` and `send_sender_audio`, comes to.
pub open spec fn sender_run(
    session: SessionView,
    dest: Seq<char>,
    announced: bool,
    attempts: Seq<SendAttempt>,
) -> SenderRun
    decreases attempts.len(),
{
    if attempts.len() == 0 {
        SenderRun { events: Seq::empty(), session, handshake_announced: announced }
    } else {
        let before = sender_run(session, dest, announced, attempts.drop_last());
        let attempt = attempts.last();
        let delivered = before.session.send_result(attempt.stream_id, attempt.transmitted) is Ok;
        SenderRun {
            events: before.events + send_attempt_events(
                before.session,
                dest,
                before.handshake_announced,
                attempt,
            ),
            session: session_after_sent(before.session, attempt.stream_id, delivered),
            handshake_announced: before.handshake_announced || delivered,
        }
    }
}

/// What one attempt to send adds to the announcements of the handshake:
/// the two events of the sending side where it is the first delivery,
/// nothing in every other case.
proof fn lemma_attempt_announcements(
    session: SessionView,
    dest: Seq<char>,
    announced: bool,
    attempt: SendAttempt,
)
    ensures
        handshake_announcements(send_attempt_events(session, dest, announced, attempt)) == (
        if session.send_result(attempt.stream_id, attempt.transmitted) is Ok {
            sender_handshake_events(session, dest, announced)
        } else {
            Seq::empty()
        }),
{
    reveal_strlit("connected");
    reveal_strlit("stopped");
    assert("connected"@ != "stopped"@) by {
        assert("connected"@.len() == 9 && "stopped"@.len() == 7);
    }
    let pred = |event: UiEventView| is_handshake_event(event);
    let handshake = sender_handshake_events(session, dest, announced);
    match session.send_result(attempt.stream_id, attempt.transmitted) {
        Ok(frame_index) => {
            lemma_all_announcements(handshake);
            let update = bitrate_update_events(session.bitrate_update);
            lemma_no_announcement_among(update);
            if attempt.video {
                let progress = seq![
                    UiEventView::Progress {
                        stream_id: attempt.stream_id,
                        frame_index,
                        bytes: attempt.payload_len,
                        frames: frames_through(frame_index),
                    },
                    telemetry_event(
                        "redundancy_ppm"@,
                        session.streams[attempt.stream_id as int].redundancy_ppm as u64,
                    ),
                ];
                lemma_no_announcement_among(progress);
                Seq::filter_distributes_over_add(handshake, progress, pred);
                Seq::filter_distributes_over_add(handshake + progress, update, pred);
            } else {
                Seq::filter_distributes_over_add(handshake, update, pred);
            }
        },
        Err(error) => {
            lemma_no_announcement_among(
                send_failure_events(attempt.stream_id, send_error_message(error)),
            );
        },
    }
}

/// Over any run of attempts to send that starts before the handshake was
/// announced, the sending side announces the completed handshake exactly
/// once if a frame or packet is delivered at all, and never if none is:
/// the events that announce it are `HandshakeComplete` and the connection
/// state `connected` of the session, and no later delivery adds to them.
pub proof fn lemma_sender_announces_handshake_once(
    session: SessionView,
    dest: Seq<char>,
    attempts: Seq<SendAttempt>,
)
    ensures
        ({
            let run = sender_run(session, dest, false, attempts);
            &&& run.session.session_id == session.session_id
            &&& run.session.bootstrap_mode == session.bootstrap_mode
            &&& handshake_announcements(run.events) == (if run.handshake_announced {
                sender_handshake_events(session, dest, false)
            } else {
                Seq::empty()
            })
        }),
    decreases attempts.len(),
{
    reveal(Seq::filter);
    if attempts.len() > 0 {
        let earlier = attempts.drop_last();
        lemma_sender_announces_handshake_once(session, dest, earlier);
        let before = sender_run(session, dest, false, earlier);
        let attempt = attempts.last();
        let added = send_attempt_events(before.session, dest, before.handshake_announced, attempt);
        lemma_attempt_announcements(before.session, dest, before.handshake_announced, attempt);
        Seq::filter_distributes_over_add(
            before.events,
            added,
            |event: UiEventView| is_handshake_event(event),
        );
    }
}

/// What the sending loop keeps between two turns: the two streams that it
/// opened, whether the handshake was announced, and the keep-alive policy.
#[derive(Clone, Copy, Debug, PartialEq, Eq, Structural)]
pub struct SenderLoop {
    pub video_stream_id: u32,
    pub audio_stream_id: u32,
    pub handshake_announced: bool,
    pub keep_alive: KeepAlivePolicy,
}

/// What the sending loop is woken by.
#[derive(Clone, Debug, PartialEq, Eq)]
pub enum SenderInput {
    /// The telemetry timer fired.
    TelemetryTick,
    /// A video frame was taken from the queue.
    Video(VideoFrame),
    /// An audio packet was taken from the queue.
    Audio(AudioFrame),
    /// The keep-alive timer fired while no frame was queued. The frame is
    /// the heartbeat that the caller has made up for the occasion.
    KeepAliveTick(VideoFrame),
    /// Both queues are closed. `should_run` is the flag of the sender role
    /// as it stands: cleared when a stop was asked for.
    IngressClosed { should_run: bool },
}

/// The frame or packet to hand to the transport.
#[derive(Clone, Debug, PartialEq, Eq)]
pub enum OutboundMedia {
    Video(VideoFrame),
    Audio(AudioFrame),
}

/// An order to transmit: the stream, the index that the frame gets once it
/// is delivered (`None` where the stream has none to give), and the frame.
#[derive(Clone, Debug, PartialEq, Eq)]
pub struct OutboundFrame {
    pub stream_id: u32,
    pub frame_index: Option<u64>,
    pub media: OutboundMedia,
}

/// What the sending loop is to do after a turn.
#[derive(Clone, Debug, PartialEq, Eq)]
pub enum SenderAction {
    /// Wait for the next input.
    Continue,
    /// Hand the frame to the transport, then report the outcome.
    Transmit(OutboundFrame),
    /// Leave the loop.
    Stop,
}

/// The detail of the connection state `starting` on the sending side.
pub open spec fn sender_starting_detail(dest: Seq<char>) -> Seq<char> {
    "establishing QUIC connection to "@ + dest
}

/// Publishes that a sender starts to connect to `dest`.
pub fn announce_sender_starting(sink: &mut EventSink, dest: &str)
    ensures
        final(sink)@ == old(sink)@.push(
            connection_event("starting"@, sender_starting_detail(dest@)),
        ),
{
    let mut detail = String::from_str("establishing QUIC connection to ");
    detail.append(dest);
    sink_event(sink, UiEvent::ConnectionState { state: String::from_str("starting"), detail });
}

/// The detail of the connection state `quic_connected` on the sending side.
pub open spec fn sender_connected_transport_detail(
    local_addr: Seq<char>,
    remote_addr: Seq<char>,
) -> Seq<char> {
    "local="@ + local_addr + " remote="@ + remote_addr + " server_name=localhost"@
}

/// Publishes that the channel to the peer stands.
pub fn announce_sender_connected(sink: &mut EventSink, local_addr: &str, remote_addr: &str)
    ensures
        final(sink)@ == old(sink)@.push(
            connection_event(
                "quic_connected"@,
                sender_connected_transport_detail(local_addr@, remote_addr@),
            ),
        ),
{
    let mut detail = String::from_str("local=");
    detail.append(local_addr);
    detail.append(" remote=");
    detail.append(remote_addr);
    detail.append(" server_name=localhost");
    sink_event(
        sink,
        UiEvent::ConnectionState { state: String::from_str("quic_connected"), detail },
    );
}

/// The detail of the connection state `socket_ready`.
pub open spec fn sender_ready_detail(local_addr: Seq<char>, remote_addr: Seq<char>) -> Seq<char> {
    "QUIC sender transport ready local="@ + local_addr + " remote="@ + remote_addr
}

/// The events once the transport of a sender is ready: the connection
/// state `socket_ready`, and the start of the handshake.
pub open spec fn sender_ready_events(local_addr: Seq<char>, remote_addr: Seq<char>) -> Seq<
    UiEventView,
> {
    seq![
        connection_event("socket_ready"@, sender_ready_detail(local_addr, remote_addr)),
        UiEventView::HandshakeInitiated,
    ]
}

/// Publishes that the transport of a sender is ready and the handshake
/// begins.
pub fn announce_sender_ready(sink: &mut EventSink, local_addr: &str, remote_addr: &str)
    ensures
        final(sink)@ == old(sink)@ + sender_ready_events(local_addr@, remote_addr@),
{
    let mut detail = String::from_str("QUIC sender transport ready local=");
    detail.append(local_addr);
    detail.append(" remote=");
    detail.append(remote_addr);
    sink_event(
        sink,
        UiEvent::ConnectionState { state: String::from_str("socket_ready"), detail },
    );
    sink_event(sink, UiEvent::HandshakeInitiated);
}

/// The events with which a sending loop starts once it has opened its
/// streams: the identifiers of the video and the audio stream, the bit
/// rate aimed for, and the size of the compression graph.
pub open spec fn sender_start_events(
    session: SessionView,
    state: SenderLoop,
    graph_len: u64,
) -> Seq<UiEventView> {
    seq![
        telemetry_event("stream_id"@, state.video_stream_id as u64),
        telemetry_event("audio_stream_id"@, state.audio_stream_id as u64),
        UiEventView::BitrateChanged { bitrate_bps: session.target_bitrate_bps },
        telemetry_event("graph_bytes"@, graph_len),
    ]
}

/// Starts a sending loop on a session: opens one video and one audio
/// stream, in this order, and publishes the events of the start.
pub fn start_sender_loop(
    sink: &mut EventSink,
    session: &mut Session,
    graph_len: usize,
    keep_alive: KeepAlivePolicy,
) -> (state: SenderLoop)
    requires
        old(session)@.streams.len() + 2 <= u32::MAX,
    ensures
        final(session)@ == old(session)@.opened(MediaType::Video).opened(MediaType::Audio),
        state == (SenderLoop {
            video_stream_id: old(session)@.streams.len() as u32,
            audio_stream_id: (old(session)@.streams.len() + 1) as u32,
            handshake_announced: false,
            keep_alive,
        }),
        final(sink)@ == old(sink)@ + sender_start_events(old(session)@, state, graph_len as u64),
{
    let video_stream_id = session.open_stream(MediaType::Video);
    let audio_stream_id = session.open_stream(MediaType::Audio);
    sink_event(
        sink,
        UiEvent::Telemetry { name: String::from_str("stream_id"), value: video_stream_id as u64 },
    );
    sink_event(
        sink,
        UiEvent::Telemetry {
            name: String::from_str("audio_stream_id"),
            value: audio_stream_id as u64,
        },
    );
    sink_event(sink, UiEvent::BitrateChanged { bitrate_bps: session.target_bitrate_bps() });
    sink_event(
        sink,
        UiEvent::Telemetry { name: String::from_str("graph_bytes"), value: graph_len as u64 },
    );
    let state = SenderLoop {
        video_stream_id,
        audio_stream_id,
        handshake_announced: false,
        keep_alive,
    };
    state
}

/// The reason that a sender gives when it leaves its loop because its
/// queues are closed.
pub open spec fn sender_stop_detail(should_run: bool) -> Seq<char> {
    if should_run {
        "sender ingress channels closed"@
    } else {
        "sender stop requested"@
    }
}

/// The events of one turn of the sending loop. A telemetry tick publishes
/// the latest measurements where there are any; closed queues publish the
/// connection state `stopped`; a frame publishes nothing before it was
/// handed to the transport.
pub open spec fn sender_step_events(session: SessionView, input: SenderInput) -> Seq<UiEventView> {
    match input {
        SenderInput::TelemetryTick => match session.stats {
            Some(stats) => network_telemetry_events(stats),
            None => Seq::empty(),
        },
        SenderInput::Video(_) => Seq::empty(),
        SenderInput::Audio(_) => Seq::empty(),
        SenderInput::KeepAliveTick(_) => Seq::empty(),
        SenderInput::IngressClosed { should_run } => seq![
            connection_event("stopped"@, sender_stop_detail(should_run)),
        ],
    }
}

/// What the sending loop does after one turn. A frame or packet with a
/// payload is to be transmitted on its stream; one without is dropped. A
/// heartbeat is a video frame that is transmitted only where the policy
/// asks for heartbeats.
pub open spec fn sender_step_action(
    state: SenderLoop,
    session: SessionView,
    input: SenderInput,
) -> SenderAction {
    match input {
        SenderInput::TelemetryTick => SenderAction::Continue,
        SenderInput::Video(frame) => if frame.payload@.len() == 0 {
            SenderAction::Continue
        } else {
            SenderAction::Transmit(
                OutboundFrame {
                    stream_id: state.video_stream_id,
                    frame_index: session.next_frame_index(state.video_stream_id),
                    media: OutboundMedia::Video(frame),
                },
            )
        },
        SenderInput::Audio(frame) => if frame.payload@.len() == 0 {
            SenderAction::Continue
        } else {
            SenderAction::Transmit(
                OutboundFrame {
                    stream_id: state.audio_stream_id,
                    frame_index: session.next_frame_index(state.audio_stream_id),
                    media: OutboundMedia::Audio(frame),
                },
            )
        },
        SenderInput::KeepAliveTick(frame) => if state.keep_alive == KeepAlivePolicy::Heartbeat
            && frame.payload@.len() != 0 {
            SenderAction::Transmit(
                OutboundFrame {
                    stream_id: state.video_stream_id,
                    frame_index: session.next_frame_index(state.video_stream_id),
                    media: OutboundMedia::Video(frame),
                },
            )
        } else {
            SenderAction::Continue
        },
        SenderInput::IngressClosed { .. } => SenderAction::Stop,
    }
}

/// One turn of the sending loop: publishes what the input gives rise to
/// and says what to do next. The outcome of a transmission is reported
/// with `send_sender_frame` or `send_sender_audio`.
pub fn sender_loop_step(
    sink: &mut EventSink,
    state: &SenderLoop,
    session: &Session,
    input: SenderInput,
) -> (action: SenderAction)
    ensures
        action == sender_step_action(*state, session@, input),
        final(sink)@ == old(sink)@ + sender_step_events(session@, input),
{
    match input {
        SenderInput::TelemetryTick => {
            match session.network_stats() {
                Some(stats) => {
                    emit_quic_network_telemetry(sink, stats);
                },
                None => {
                },
            }
            SenderAction::Continue
        },
        SenderInput::Video(frame) => {
            if frame.payload.len() == 0 {
                return SenderAction::Continue;
            }
            SenderAction::Transmit(
                OutboundFrame {
                    stream_id: state.video_stream_id,
                    frame_index: session.next_frame_index(state.video_stream_id),
                    media: OutboundMedia::Video(frame),
                },
            )
        },
        SenderInput::Audio(frame) => {
            if frame.payload.len() == 0 {
                return SenderAction::Continue;
            }
            SenderAction::Transmit(
                OutboundFrame {
                    stream_id: state.audio_stream_id,
                    frame_index: session.next_frame_index(state.audio_stream_id),
                    media: OutboundMedia::Audio(frame),
                },
            )
        },
        SenderInput::KeepAliveTick(frame) => {
            match state.keep_alive {
                KeepAlivePolicy::Disabled => SenderAction::Continue,
                KeepAlivePolicy::Heartbeat => {
                    if frame.payload.len() == 0 {
                        return SenderAction::Continue;
                    }
                    SenderAction::Transmit(
                        OutboundFrame {
                            stream_id: state.video_stream_id,
                            frame_index: session.next_frame_index(state.video_stream_id),
                            media: OutboundMedia::Video(frame),
                        },
                    )
                },
            }
        },
        SenderInput::IngressClosed { should_run } => {
            let detail = if should_run {
                String::from_str("sender ingress channels closed")
            } else {
                String::from_str("sender stop requested")
            };
            sink_event(
                sink,
                UiEvent::ConnectionState { state: String::from_str("stopped"), detail },
            );
            SenderAction::Stop
        },
    }
}

/// With the keep-alive policy disabled a tick of the keep-alive timer does
/// nothing at all.
pub proof fn lemma_no_heartbeat_unless_asked_for(
    state: SenderLoop,
    session: SessionView,
    frame: VideoFrame,
)
    requires
        state.keep_alive == KeepAlivePolicy::Disabled,
    ensures
        sender_step_events(session, SenderInput::KeepAliveTick(frame)) == Seq::<
            UiEventView,
        >::empty(),
        sender_step_action(state, session, SenderInput::KeepAliveTick(frame))
            == SenderAction::Continue,
{
}

/// A frame or packet without payload is dropped in silence: the turn
/// publishes nothing, so neither progress nor a dropped frame, and orders
/// no transmission.
pub proof fn lemma_empty_frame_is_dropped(
    state: SenderLoop,
    session: SessionView,
    input: SenderInput,
)
    requires
        match input {
            SenderInput::Video(frame) => frame.payload@.len() == 0,
            SenderInput::Audio(frame) => frame.payload@.len() == 0,
            SenderInput::KeepAliveTick(frame) => frame.payload@.len() == 0,
            _ => false,
        },
    ensures
        sender_step_events(session, input) == Seq::<UiEventView>::empty(),
        sender_step_action(state, session, input) == SenderAction::Continue,
{
}

} // verus!
