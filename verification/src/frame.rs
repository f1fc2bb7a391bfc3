use crate::control::{EngineError, SenderControl};
use vstd::prelude::*;

verus! {

/// What a stream carries.
#[derive(Clone, Copy, Debug, PartialEq, Eq, Structural)]
pub enum MediaType {
    Video,
    Audio,
}

/// How the secure channel of a session was set up.
#[derive(Clone, Copy, Debug, PartialEq, Eq, Structural)]
pub enum BootstrapMode {
    /// With certificates; whether the peer's certificate is checked is a
    /// matter of the verification policy.
    CertBased,
    /// With a key that both sides hold beforehand.
    PresharedKey,
}

/// What the connecting side does with the certificate that its peer shows.
#[derive(Clone, Copy, Debug, PartialEq, Eq, Structural)]
pub enum PeerVerification {
    /// The certificate must be valid for the peer.
    Verify,
    /// Any certificate is taken: the channel is encrypted, the peer is not
    /// authenticated. For trusted networks and pairing by code only.
    SkipVerification,
}

/// The bootstrap mode as it is written in events.
pub open spec fn bootstrap_mode_name(mode: BootstrapMode) -> Seq<char> {
    match mode {
        BootstrapMode::CertBased => "CertBased"@,
        BootstrapMode::PresharedKey => "PresharedKey"@,
    }
}

impl BootstrapMode {
    /// The name of the mode.
    pub fn name(&self) -> (name: String)
        ensures
            name@ == bootstrap_mode_name(*self),
    {
        match *self {
            BootstrapMode::CertBased => String::from_str("CertBased"),
            BootstrapMode::PresharedKey => String::from_str("PresharedKey"),
        }
    }
}

/// One encoded video frame, handed over for transmission.
#[derive(Clone, Debug, PartialEq, Eq)]
pub struct VideoFrame {
    pub payload: Vec<u8>,
    pub pts: u64,
    pub is_keyframe: bool,
    pub codec: u8,
}

/// One encoded audio packet, handed over for transmission.
#[derive(Clone, Debug, PartialEq, Eq)]
pub struct AudioFrame {
    pub payload: Vec<u8>,
    pub pts: u64,
    pub codec: u8,
    pub frames_per_packet: u32,
}

/// A video frame as the transport delivers it. The observed packet loss is
/// given in parts per million.
#[derive(Clone, Debug, PartialEq, Eq)]
pub struct InboundVideoFrame {
    pub session_id: u64,
    pub stream_id: u32,
    pub frame_index: u64,
    pub keyframe: bool,
    pub timestamp_us: u64,
    pub payload: Vec<u8>,
    pub packet_loss_ppm: u64,
}

/// An audio packet as the transport delivers it.
#[derive(Clone, Debug, PartialEq, Eq)]
pub struct InboundAudioFrame {
    pub session_id: u64,
    pub stream_id: u32,
    pub timestamp_us: u64,
    pub codec: u8,
    pub frames_per_packet: u32,
    pub payload: Vec<u8>,
}

/// One sample of what the transport measures: the round-trip time in
/// milliseconds and the number of packets lost so far.
#[derive(Clone, Copy, Debug, PartialEq, Eq, Structural)]
pub struct NetworkStats {
    pub rtt_millis: u128,
    pub lost_packets: u64,
}

/// The codec that a frame is sent with: the one given, or the default
/// where 0 was given.
pub open spec fn resolve_codec(codec: u8, default_codec: u8) -> u8 {
    if codec == 0 {
        default_codec
    } else {
        codec
    }
}

/// Prepares a video frame for the queue of the active sender: resolves the
/// codec and finds the handle through which the frame is queued. Without a
/// sender the frame is refused.
pub fn push_video_frame<'a, Video, Audio>(
    control: &'a SenderControl<Video, Audio>,
    frame_bytes: Vec<u8>,
    is_keyframe: bool,
    pts: u64,
    codec: u8,
    default_codec: u8,
) -> (result: Result<(&'a Video, VideoFrame), EngineError>)
    ensures
        match result {
            Ok((tx, frame)) => {
                &&& control@.video_tx == Some(*tx)
                &&& frame.payload == frame_bytes
                &&& frame.pts == pts
                &&& frame.is_keyframe == is_keyframe
                &&& frame.codec == resolve_codec(codec, default_codec)
            },
            Err(error) => control@.video_tx is None && error == EngineError::NotActive,
        },
{
    let codec = if codec == 0 {
        default_codec
    } else {
        codec
    };
    match control.video_tx() {
        Ok(tx) => Ok((tx, VideoFrame { payload: frame_bytes, pts, is_keyframe, codec })),
        Err(error) => Err(error),
    }
}

/// Prepares an audio packet for the queue of the active sender: resolves
/// the codec and finds the handle through which the packet is queued.
/// Without a sender the packet is refused.
pub fn push_audio_frame<'a, Video, Audio>(
    control: &'a SenderControl<Video, Audio>,
    frame_bytes: Vec<u8>,
    pts: u64,
    codec: u8,
    frames_per_packet: u32,
    default_codec: u8,
) -> (result: Result<(&'a Audio, AudioFrame), EngineError>)
    ensures
        match result {
            Ok((tx, frame)) => {
                &&& control@.audio_tx == Some(*tx)
                &&& frame.payload == frame_bytes
                &&& frame.pts == pts
                &&& frame.codec == resolve_codec(codec, default_codec)
                &&& frame.frames_per_packet == frames_per_packet
            },
            Err(error) => control@.audio_tx is None && error == EngineError::NotActive,
        },
{
    let codec = if codec == 0 {
        default_codec
    } else {
        codec
    };
    match control.audio_tx() {
        Ok(tx) => Ok((tx, AudioFrame { payload: frame_bytes, pts, codec, frames_per_packet })),
        Err(error) => Err(error),
    }
}

} // verus!
