use vstd::prelude::*;

verus! {

/// What the engines report to the caller: state changes, telemetry and
/// received media, each as one value of this tagged union.
#[derive(Clone, Debug, PartialEq, Eq)]
pub enum UiEvent {
    Log { msg: String },
    ConnectionState { state: String, detail: String },
    HandshakeInitiated,
    HandshakeComplete { session_id: u64, bootstrap_mode: String },
    Progress { stream_id: u32, frame_index: u64, bytes: u64, frames: u64 },
    Telemetry { name: String, value: u64 },
    FrameDrop { stream_id: u32, reason: String },
    Fault { code: String, message: String },
    BitrateChanged { bitrate_bps: u32 },
    VideoFrameReceived { data: Vec<u8>, pts: u64 },
    AudioFrameReceived { data: Vec<u8>, pts: u64, frames_per_packet: u32 },
    Error { msg: String },
}

/// The mathematical content of a [`UiEvent`]: strings as sequences of
/// characters, payloads as sequences of bytes.
pub enum UiEventView {
    Log { msg: Seq<char> },
    ConnectionState { state: Seq<char>, detail: Seq<char> },
    HandshakeInitiated,
    HandshakeComplete { session_id: u64, bootstrap_mode: Seq<char> },
    Progress { stream_id: u32, frame_index: u64, bytes: u64, frames: u64 },
    Telemetry { name: Seq<char>, value: u64 },
    FrameDrop { stream_id: u32, reason: Seq<char> },
    Fault { code: Seq<char>, message: Seq<char> },
    BitrateChanged { bitrate_bps: u32 },
    VideoFrameReceived { data: Seq<u8>, pts: u64 },
    AudioFrameReceived { data: Seq<u8>, pts: u64, frames_per_packet: u32 },
    Error { msg: Seq<char> },
}

impl View for UiEvent {
    type V = UiEventView;

    open spec fn view(&self) -> UiEventView {
        match *self {
            UiEvent::Log { msg } => UiEventView::Log { msg: msg@ },
            UiEvent::ConnectionState { state, detail } => UiEventView::ConnectionState {
                state: state@,
                detail: detail@,
            },
            UiEvent::HandshakeInitiated => UiEventView::HandshakeInitiated,
            UiEvent::HandshakeComplete { session_id, bootstrap_mode } => {
                UiEventView::HandshakeComplete { session_id, bootstrap_mode: bootstrap_mode@ }
            },
            UiEvent::Progress { stream_id, frame_index, bytes, frames } => UiEventView::Progress {
                stream_id,
                frame_index,
                bytes,
                frames,
            },
            UiEvent::Telemetry { name, value } => UiEventView::Telemetry { name: name@, value },
            UiEvent::FrameDrop { stream_id, reason } => UiEventView::FrameDrop {
                stream_id,
                reason: reason@,
            },
            UiEvent::Fault { code, message } => UiEventView::Fault {
                code: code@,
                message: message@,
            },
            UiEvent::BitrateChanged { bitrate_bps } => UiEventView::BitrateChanged { bitrate_bps },
            UiEvent::VideoFrameReceived { data, pts } => UiEventView::VideoFrameReceived {
                data: data@,
                pts,
            },
            UiEvent::AudioFrameReceived { data, pts, frames_per_packet } => {
                UiEventView::AudioFrameReceived { data: data@, pts, frames_per_packet }
            },
            UiEvent::Error { msg } => UiEventView::Error { msg: msg@ },
        }
    }
}

/// The contents of a run of events, in order.
pub open spec fn event_views(events: Seq<UiEvent>) -> Seq<UiEventView> {
    events.map_values(|e: UiEvent| e@)
}

/// A `Log` event with the given message.
pub open spec fn log_event(msg: Seq<char>) -> UiEventView {
    UiEventView::Log { msg }
}

/// A `Telemetry` event with the given name and value.
pub open spec fn telemetry_event(name: Seq<char>, value: u64) -> UiEventView {
    UiEventView::Telemetry { name, value }
}

/// A `ConnectionState` event with the given state and detail.
pub open spec fn connection_event(state: Seq<char>, detail: Seq<char>) -> UiEventView {
    UiEventView::ConnectionState { state, detail }
}

/// An `Error` event with the given message.
pub open spec fn error_event(msg: Seq<char>) -> UiEventView {
    UiEventView::Error { msg }
}

/// Whether an event is one of the three that announce the handshake:
/// `HandshakeInitiated`, `HandshakeComplete`, or the connection state
/// `connected`.
pub open spec fn is_handshake_event(event: UiEventView) -> bool {
    match event {
        UiEventView::HandshakeInitiated => true,
        UiEventView::HandshakeComplete { .. } => true,
        UiEventView::ConnectionState { state, .. } => state == "connected"@,
        _ => false,
    }
}

/// The events among `events` that announce the handshake, in order.
pub open spec fn handshake_announcements(events: Seq<UiEventView>) -> Seq<UiEventView> {
    events.filter(|event: UiEventView| is_handshake_event(event))
}

/// Events of which none announces the handshake hold no announcement.
pub proof fn lemma_no_announcement_among(events: Seq<UiEventView>)
    requires
        forall|i: int| 0 <= i < events.len() ==> !is_handshake_event(#[trigger] events[i]),
    ensures
        handshake_announcements(events) == Seq::<UiEventView>::empty(),
    decreases events.len(),
{
    reveal(Seq::filter);
    if events.len() > 0 {
        lemma_no_announcement_among(events.drop_last());
    }
}

/// Events that all announce the handshake are their own announcements.
pub proof fn lemma_all_announcements(events: Seq<UiEventView>)
    requires
        forall|i: int| 0 <= i < events.len() ==> is_handshake_event(#[trigger] events[i]),
    ensures
        handshake_announcements(events) == events,
    decreases events.len(),
{
    reveal(Seq::filter);
    if events.len() > 0 {
        lemma_all_announcements(events.drop_last());
    }
}

/// The ordered, append-only queue through which an engine publishes events.
///
/// Publishing never blocks and never fails; whoever owns the sink drains it
/// and forwards the events, in publication order, to the consumer.
pub struct EventSink {
    queue: Vec<UiEvent>,
}

impl View for EventSink {
    type V = Seq<UiEventView>;

    closed spec fn view(&self) -> Seq<UiEventView> {
        event_views(self.queue@)
    }
}

impl EventSink {
    /// A sink that holds no events.
    pub fn new() -> (sink: EventSink)
        ensures
            sink@ == Seq::<UiEventView>::empty(),
    {
        let sink = EventSink { queue: Vec::new() };
        sink
    }

    /// The number of events published and not yet drained.
    pub fn len(&self) -> (n: usize)
        ensures
            n == self@.len(),
    {
        self.queue.len()
    }

    /// The events published and not yet drained, oldest first.
    pub fn pending(&self) -> (events: &Vec<UiEvent>)
        ensures
            event_views(events@) == self@,
    {
        &self.queue
    }

    /// Hands out every pending event, oldest first, and leaves the sink empty.
    pub fn drain(&mut self) -> (events: Vec<UiEvent>)
        ensures
            event_views(events@) == old(self)@,
            final(self)@ == Seq::<UiEventView>::empty(),
    {
        let mut events: Vec<UiEvent> = Vec::new();
        core::mem::swap(&mut events, &mut self.queue);
        events
    }
}

/// Publishes one event: it becomes the newest event of the sink.
pub fn sink_event(sink: &mut EventSink, event: UiEvent)
    ensures
        final(sink)@ == old(sink)@.push(event@),
{
    sink.queue.push(event);
}

/// An event as the transport layer underneath reports it.
pub enum TransportEvent {
    Log(String),
    HandshakeInitiated,
    HandshakeComplete,
    Progress { stream_id: u32, frame_index: u64, bytes: u64, frames: u64 },
    Fault { code: String, message: String },
}

/// The caller-facing event that a transport event is published as.
///
/// The transport does not know the session when it reports a completed
/// handshake, so that event carries session 0 and the mode `Unknown`.
pub open spec fn transport_event_view(event: TransportEvent) -> UiEventView {
    match event {
        TransportEvent::Log(msg) => UiEventView::Log { msg: msg@ },
        TransportEvent::HandshakeInitiated => UiEventView::HandshakeInitiated,
        TransportEvent::HandshakeComplete => UiEventView::HandshakeComplete {
            session_id: 0,
            bootstrap_mode: "Unknown"@,
        },
        TransportEvent::Progress { stream_id, frame_index, bytes, frames } => {
            UiEventView::Progress { stream_id, frame_index, bytes, frames }
        },
        TransportEvent::Fault { code, message } => UiEventView::Fault {
            code: code@,
            message: message@,
        },
    }
}

impl UiEvent {
    /// The event that is published for an event of the transport.
    pub fn from(event: TransportEvent) -> (ui: UiEvent)
        ensures
            ui@ == transport_event_view(event),
    {
        match event {
            TransportEvent::Log(msg) => UiEvent::Log { msg },
            TransportEvent::HandshakeInitiated => UiEvent::HandshakeInitiated,
            TransportEvent::HandshakeComplete => UiEvent::HandshakeComplete {
                session_id: 0,
                bootstrap_mode: String::from_str("Unknown"),
            },
            TransportEvent::Progress { stream_id, frame_index, bytes, frames } => {
                UiEvent::Progress { stream_id, frame_index, bytes, frames }
            },
            TransportEvent::Fault { code, message } => UiEvent::Fault { code, message },
        }
    }
}

} // verus!
