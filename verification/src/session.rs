use crate::frame::{BootstrapMode, MediaType, NetworkStats};
use vstd::prelude::*;

verus! {

/// The state of one stream of a session.
#[derive(Clone, Copy, Debug, PartialEq, Eq, Structural)]
pub struct StreamState {
    pub stream_id: u32,
    pub media_type: MediaType,
    /// The index that the next frame sent on the stream gets.
    pub next_frame_index: u64,
    /// The share of what is transmitted that is error-correction overhead,
    /// in parts per million.
    pub redundancy_ppm: u32,
}

/// Why a frame was not sent.
#[derive(Clone, Debug, PartialEq, Eq)]
pub enum SendError {
    /// The session has no stream with this identifier.
    UnknownStream { stream_id: u32 },
    /// Every frame index of the stream has been used.
    SequenceExhausted { stream_id: u32 },
    /// The transport refused or dropped the frame.
    Transport { reason: String },
}

/// The mathematical content of a [`SendError`].
pub enum SendErrorView {
    UnknownStream { stream_id: u32 },
    SequenceExhausted { stream_id: u32 },
    Transport { reason: Seq<char> },
}

impl View for SendError {
    type V = SendErrorView;

    open spec fn view(&self) -> SendErrorView {
        match *self {
            SendError::UnknownStream { stream_id } => SendErrorView::UnknownStream { stream_id },
            SendError::SequenceExhausted { stream_id } => SendErrorView::SequenceExhausted {
                stream_id,
            },
            SendError::Transport { reason } => SendErrorView::Transport { reason: reason@ },
        }
    }
}

/// What the transport said of one transmission, the error read as a
/// sequence of characters.
pub open spec fn transmission_view(transmitted: Result<(), String>) -> Result<(), Seq<char>> {
    match transmitted {
        Ok(()) => Ok(()),
        Err(reason) => Err(reason@),
    }
}

/// What `send_frame` returns, the error read by its content.
pub open spec fn send_result_view(result: Result<u64, SendError>) -> Result<u64, SendErrorView> {
    match result {
        Ok(index) => Ok(index),
        Err(error) => Err(error@),
    }
}

/// One logical connection between a sender and a receiver: its identity,
/// its streams with their frame counters, and the bit rate to aim for.
pub struct Session {
    session_id: u64,
    bootstrap_mode: BootstrapMode,
    local_addr: String,
    remote_addr: String,
    target_bitrate_bps: u32,
    bitrate_update: Option<u32>,
    streams: Vec<StreamState>,
    stats: Option<NetworkStats>,
}

/// The mathematical content of a [`Session`].
pub struct SessionView {
    pub session_id: u64,
    pub bootstrap_mode: BootstrapMode,
    pub local_addr: Seq<char>,
    pub remote_addr: Seq<char>,
    pub target_bitrate_bps: u32,
    /// The bit rate to report, where it changed since it was last reported.
    pub bitrate_update: Option<u32>,
    /// The streams in the order in which they were opened.
    pub streams: Seq<StreamState>,
    /// The latest sample of the transport's measurements, if there is one.
    pub stats: Option<NetworkStats>,
}

/// One attempt to send a frame: the stream, and whether the transport
/// delivered the frame.
pub struct SendOp {
    pub stream_id: u32,
    pub delivered: bool,
}

impl SessionView {
    /// Stream identifiers are the positions in the order of opening, and
    /// fit in 32 bits.
    pub open spec fn wf(self) -> bool {
        &&& self.streams.len() <= u32::MAX
        &&& forall|i: int| 0 <= i < self.streams.len() ==> (#[trigger] self.streams[i]).stream_id == i
    }

    /// Whether a stream with this identifier has been opened.
    pub open spec fn has_stream(self, stream_id: u32) -> bool {
        stream_id < self.streams.len()
    }

    /// The session after one more stream was opened: the new stream gets
    /// the next identifier and starts at frame index 0.
    pub open spec fn opened(self, media_type: MediaType) -> SessionView {
        SessionView {
            streams: self.streams.push(
                StreamState {
                    stream_id: self.streams.len() as u32,
                    media_type,
                    next_frame_index: 0,
                    redundancy_ppm: 0,
                },
            ),
            ..self
        }
    }

    /// The index that the next frame on the stream gets, where the stream
    /// exists and has an index left.
    pub open spec fn next_frame_index(self, stream_id: u32) -> Option<u64> {
        if self.has_stream(stream_id) && self.streams[stream_id as int].next_frame_index
            < u64::MAX {
            Some(self.streams[stream_id as int].next_frame_index)
        } else {
            None
        }
    }

    /// What sending a frame returns: the index assigned to the frame where
    /// the stream exists, the transport delivered the frame and an index
    /// was left; else the reason.
    pub open spec fn send_result(self, stream_id: u32, transmitted: Result<(), Seq<char>>) -> Result<
        u64,
        SendErrorView,
    > {
        if !self.has_stream(stream_id) {
            Err(SendErrorView::UnknownStream { stream_id })
        } else {
            match transmitted {
                Err(reason) => Err(SendErrorView::Transport { reason }),
                Ok(()) => match self.next_frame_index(stream_id) {
                    Some(index) => Ok(index),
                    None => Err(SendErrorView::SequenceExhausted { stream_id }),
                },
            }
        }
    }

    /// The session after an attempt to send a frame: the counter of the
    /// stream goes up by one where an index was assigned, and nothing
    /// changes where none was.
    pub open spec fn after_send(self, stream_id: u32, delivered: bool) -> SessionView {
        if delivered && self.next_frame_index(stream_id) is Some {
            let stream = self.streams[stream_id as int];
            SessionView {
                streams: self.streams.update(
                    stream_id as int,
                    StreamState {
                        next_frame_index: (stream.next_frame_index + 1) as u64,
                        ..stream
                    },
                ),
                ..self
            }
        } else {
            self
        }
    }

    /// The session after a run of attempts to send, in order.
    pub open spec fn after_sends(self, ops: Seq<SendOp>) -> SessionView
        decreases ops.len(),
    {
        if ops.len() == 0 {
            self
        } else {
            self.after_sends(ops.drop_last()).after_send(
                ops.last().stream_id,
                ops.last().delivered,
            )
        }
    }

    /// The frame indices that a run of attempts to send returned for one
    /// stream, in the order of the attempts.
    pub open spec fn returned_indices(self, ops: Seq<SendOp>, stream_id: u32) -> Seq<u64>
        decreases ops.len(),
    {
        if ops.len() == 0 {
            Seq::empty()
        } else {
            let before = self.returned_indices(ops.drop_last(), stream_id);
            let session = self.after_sends(ops.drop_last());
            let op = ops.last();
            if op.stream_id == stream_id && op.delivered && session.next_frame_index(stream_id)
                is Some {
                before.push(session.next_frame_index(stream_id)->0)
            } else {
                before
            }
        }
    }
}

/// The frame indices that successful sends on one stream return count up
/// by one from the index at which the stream stood, whatever is sent on
/// other streams in between and whichever attempts fail. For a stream that
/// was just opened they are 0, 1, 2 and so on.
pub proof fn lemma_frame_indices_are_consecutive(
    session: SessionView,
    ops: Seq<SendOp>,
    stream_id: u32,
)
    requires
        session.wf(),
        session.has_stream(stream_id),
    ensures
        session.after_sends(ops).wf(),
        session.after_sends(ops).streams.len() == session.streams.len(),
        session.after_sends(ops).streams[stream_id as int].next_frame_index
            == session.streams[stream_id as int].next_frame_index + session.returned_indices(
            ops,
            stream_id,
        ).len(),
        forall|k: int|
            0 <= k < session.returned_indices(ops, stream_id).len() ==> (
            #[trigger] session.returned_indices(ops, stream_id)[k])
                == session.streams[stream_id as int].next_frame_index + k,
    decreases ops.len(),
{
    if ops.len() > 0 {
        lemma_frame_indices_are_consecutive(session, ops.drop_last(), stream_id);
    }
}

/// On a stream that was just opened, the frame indices that successful
/// sends return are 0, 1, 2 and so on: the k-th of them is k, whatever is
/// sent on other streams in between and whichever attempts fail.
pub proof fn lemma_fresh_stream_counts_from_zero(
    session: SessionView,
    media_type: MediaType,
    ops: Seq<SendOp>,
)
    requires
        session.wf(),
        session.streams.len() < u32::MAX,
    ensures
        ({
            let stream_id = session.streams.len() as u32;
            let indices = session.opened(media_type).returned_indices(ops, stream_id);
            forall|k: int| 0 <= k < indices.len() ==> #[trigger] indices[k] == k
        }),
{
    let stream_id = session.streams.len() as u32;
    lemma_opened_stream_starts_at_zero(session, media_type);
    lemma_frame_indices_are_consecutive(session.opened(media_type), ops, stream_id);
}

/// A stream that was just opened starts at frame index 0, and opening it
/// changes no other stream.
pub proof fn lemma_opened_stream_starts_at_zero(session: SessionView, media_type: MediaType)
    requires
        session.wf(),
        session.streams.len() < u32::MAX,
    ensures
        session.opened(media_type).wf(),
        session.opened(media_type).has_stream(session.streams.len() as u32),
        session.opened(media_type).next_frame_index(session.streams.len() as u32) == Some(0u64),
        forall|i: int|
            0 <= i < session.streams.len() ==> session.opened(media_type).streams[i]
                == session.streams[i],
{
}

impl View for Session {
    type V = SessionView;

    closed spec fn view(&self) -> SessionView {
        SessionView {
            session_id: self.session_id,
            bootstrap_mode: self.bootstrap_mode,
            local_addr: self.local_addr@,
            remote_addr: self.remote_addr@,
            target_bitrate_bps: self.target_bitrate_bps,
            bitrate_update: self.bitrate_update,
            streams: self.streams@,
            stats: self.stats,
        }
    }
}

impl Session {
    /// The session that a completed handshake yields: no stream yet, no
    /// measurement yet, no bit rate change to report.
    pub fn new(
        session_id: u64,
        bootstrap_mode: BootstrapMode,
        local_addr: String,
        remote_addr: String,
        target_bitrate_bps: u32,
    ) -> (session: Session)
        ensures
            session@ == (SessionView {
                session_id,
                bootstrap_mode,
                local_addr: local_addr@,
                remote_addr: remote_addr@,
                target_bitrate_bps,
                bitrate_update: None,
                streams: Seq::empty(),
                stats: None,
            }),
    {
        Session {
            session_id,
            bootstrap_mode,
            local_addr,
            remote_addr,
            target_bitrate_bps,
            bitrate_update: None,
            streams: Vec::new(),
            stats: None,
        }
    }

    /// The identifier of the session.
    pub fn session_id(&self) -> (id: u64)
        ensures
            id == self@.session_id,
    {
        self.session_id
    }

    /// How the channel of the session was set up.
    pub fn bootstrap_mode(&self) -> (mode: BootstrapMode)
        ensures
            mode == self@.bootstrap_mode,
    {
        self.bootstrap_mode
    }

    /// The local address of the channel.
    pub fn local_addr(&self) -> (addr: &str)
        ensures
            addr@ == self@.local_addr,
    {
        self.local_addr.as_str()
    }

    /// The address of the peer.
    pub fn remote_addr(&self) -> (addr: &str)
        ensures
            addr@ == self@.remote_addr,
    {
        self.remote_addr.as_str()
    }

    /// The bit rate that the session aims for.
    pub fn target_bitrate_bps(&self) -> (bps: u32)
        ensures
            bps == self@.target_bitrate_bps,
    {
        self.target_bitrate_bps
    }

    /// The number of streams opened so far.
    pub fn stream_count(&self) -> (n: usize)
        ensures
            n == self@.streams.len(),
    {
        self.streams.len()
    }

    /// The state of a stream, if it was opened.
    pub fn stream(&self, stream_id: u32) -> (state: Option<StreamState>)
        ensures
            state == (if self@.has_stream(stream_id) {
                Some(self@.streams[stream_id as int])
            } else {
                None
            }),
    {
        if (stream_id as usize) < self.streams.len() {
            Some(self.streams[stream_id as usize])
        } else {
            None
        }
    }

    /// The redundancy of a stream in parts per million, if it was opened.
    pub fn stream_redundancy(&self, stream_id: u32) -> (ppm: Option<u32>)
        ensures
            ppm == (if self@.has_stream(stream_id) {
                Some(self@.streams[stream_id as int].redundancy_ppm)
            } else {
                None
            }),
    {
        match self.stream(stream_id) {
            Some(state) => Some(state.redundancy_ppm),
            None => None,
        }
    }

    /// The latest sample of the transport's measurements; `None` until
    /// there is one.
    pub fn network_stats(&self) -> (stats: Option<NetworkStats>)
        ensures
            stats == self@.stats,
    {
        self.stats
    }

    /// The index that the next frame on the stream gets; `None` where the
    /// stream does not exist or has no index left.
    pub fn next_frame_index(&self, stream_id: u32) -> (index: Option<u64>)
        ensures
            index == self@.next_frame_index(stream_id),
    {
        match self.stream(stream_id) {
            Some(state) => if state.next_frame_index < u64::MAX {
                Some(state.next_frame_index)
            } else {
                None
            },
            None => None,
        }
    }

    /// Opens a stream. Identifiers are given in the order of opening,
    /// starting at 0, and never change.
    pub fn open_stream(&mut self, media_type: MediaType) -> (stream_id: u32)
        requires
            old(self)@.streams.len() < u32::MAX,
        ensures
            stream_id == old(self)@.streams.len(),
            final(self)@ == old(self)@.opened(media_type),
    {
        let stream_id = self.streams.len() as u32;
        self.streams.push(
            StreamState { stream_id, media_type, next_frame_index: 0, redundancy_ppm: 0 },
        );
        stream_id
    }

    /// Records what became of the frame that was handed to the transport
    /// for this stream. A delivered frame has the index at which the stream
    /// stood, and the stream moves on by one. A frame that was not
    /// delivered uses no index: the error comes back and the stream stays
    /// where it was.
    pub fn send_frame(&mut self, stream_id: u32, transmitted: Result<(), String>) -> (result:
        Result<u64, SendError>)
        ensures
            send_result_view(result) == old(self)@.send_result(
                stream_id,
                transmission_view(transmitted),
            ),
            final(self)@ == old(self)@.after_send(stream_id, result is Ok),
    {
        if stream_id as usize >= self.streams.len() {
            return Err(SendError::UnknownStream { stream_id });
        }
        match transmitted {
            Err(reason) => Err(SendError::Transport { reason }),
            Ok(()) => {
                let state = self.streams[stream_id as usize];
                if state.next_frame_index == u64::MAX {
                    return Err(SendError::SequenceExhausted { stream_id });
                }
                let index = state.next_frame_index;
                self.streams.set(
                    stream_id as usize,
                    StreamState { next_frame_index: index + 1, ..state },
                );
                Ok(index)
            },
        }
    }

    /// Takes note of the redundancy that the transport now uses on a
    /// stream. An unknown stream is left alone.
    pub fn set_stream_redundancy(&mut self, stream_id: u32, redundancy_ppm: u32)
        ensures
            final(self)@ == (if old(self)@.has_stream(stream_id) {
                SessionView {
                    streams: old(self)@.streams.update(
                        stream_id as int,
                        StreamState { redundancy_ppm, ..old(self)@.streams[stream_id as int] },
                    ),
                    ..old(self)@
                }
            } else {
                old(self)@
            }),
    {
        if (stream_id as usize) < self.streams.len() {
            let state = self.streams[stream_id as usize];
            self.streams.set(stream_id as usize, StreamState { redundancy_ppm, ..state });
        }
    }

    /// Takes note of the bit rate that feedback now asks for. A rate that
    /// differs from the current one is kept for the next report.
    pub fn set_target_bitrate(&mut self, bitrate_bps: u32)
        ensures
            final(self)@ == (if bitrate_bps == old(self)@.target_bitrate_bps {
                old(self)@
            } else {
                SessionView {
                    target_bitrate_bps: bitrate_bps,
                    bitrate_update: Some(bitrate_bps),
                    ..old(self)@
                }
            }),
    {
        if bitrate_bps != self.target_bitrate_bps {
            self.target_bitrate_bps = bitrate_bps;
            self.bitrate_update = Some(bitrate_bps);
        }
    }

    /// The bit rate to report, once for each change: `Some` where the rate
    /// changed since the last call, and `None` until it changes again.
    pub fn take_bitrate_update_bps(&mut self) -> (update: Option<u32>)
        ensures
            update == old(self)@.bitrate_update,
            final(self)@ == (SessionView { bitrate_update: None, ..old(self)@ }),
    {
        let update = self.bitrate_update;
        self.bitrate_update = None;
        update
    }

    /// Takes note of a sample of the transport's measurements.
    pub fn record_network_stats(&mut self, stats: NetworkStats)
        ensures
            final(self)@ == (SessionView { stats: Some(stats), ..old(self)@ }),
    {
        self.stats = Some(stats);
    }
}

} // verus!
