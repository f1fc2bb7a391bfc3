use vstd::prelude::*;
use vstd::slice::{slice_subrange, slice_to_vec};

verus! {

/// The only version of the report protocol that is understood.
pub const DEBUG_REPORT_PROTOCOL_VERSION: u8 = 1;

/// Packet type that opens a report.
pub const DEBUG_REPORT_PACKET_BEGIN: u8 = 1;

/// Packet type that carries one chunk of a report.
pub const DEBUG_REPORT_PACKET_CHUNK: u8 = 2;

/// Packet type that closes a report.
pub const DEBUG_REPORT_PACKET_END: u8 = 3;

/// The four bytes `NRPT` with which every report packet starts.
pub open spec fn report_magic() -> Seq<u8> {
    seq![0x4Eu8, 0x52u8, 0x50u8, 0x54u8]
}

/// The number that the first two bytes of `bytes` encode, least
/// significant byte first.
pub open spec fn le_u16(bytes: Seq<u8>) -> int
    recommends
        bytes.len() >= 2,
{
    bytes[0] as int + 0x100 * (bytes[1] as int)
}

/// The number that the first four bytes of `bytes` encode, least
/// significant byte first.
pub open spec fn le_u32(bytes: Seq<u8>) -> int
    recommends
        bytes.len() >= 4,
{
    bytes[0] as int + 0x100 * (bytes[1] as int) + 0x1_0000 * (bytes[2] as int) + 0x100_0000 * (
    bytes[3] as int)
}

/// Reads a little-endian `u16` from the front of `bytes`; `None` when fewer
/// than two bytes are there.
pub fn parse_u16_le(bytes: &[u8]) -> (value: Option<u16>)
    ensures
        bytes@.len() < 2 ==> value is None,
        bytes@.len() >= 2 ==> value == Some(le_u16(bytes@) as u16),
        value matches Some(v) ==> v as int == le_u16(bytes@),
{
    if bytes.len() < 2 {
        return None;
    }
    let lo: u16 = bytes[0] as u16;
    let hi: u16 = bytes[1] as u16;
    Some(lo + 0x100 * hi)
}

/// Reads a little-endian `u32` from the front of `bytes`; `None` when fewer
/// than four bytes are there.
pub fn parse_u32_le(bytes: &[u8]) -> (value: Option<u32>)
    ensures
        bytes@.len() < 4 ==> value is None,
        bytes@.len() >= 4 ==> value == Some(le_u32(bytes@) as u32),
        value matches Some(v) ==> v as int == le_u32(bytes@),
{
    if bytes.len() < 4 {
        return None;
    }
    let b0: u32 = bytes[0] as u32;
    let b1: u32 = bytes[1] as u32;
    let b2: u32 = bytes[2] as u32;
    let b3: u32 = bytes[3] as u32;
    Some(b0 + 0x100 * b1 + 0x1_0000 * b2 + 0x100_0000 * b3)
}

/// What one payload of the report channel is, as far as its bytes alone
/// tell.
#[derive(Clone, Debug, PartialEq, Eq)]
pub enum ReportPacket {
    /// The payload does not start with the magic, or is shorter than six
    /// bytes: it is plain diagnostic text.
    Text,
    /// The magic is there but the ten-byte header is not complete.
    HeaderTooShort,
    /// The header names a protocol version other than the one understood.
    UnsupportedVersion { version: u8 },
    /// A BEGIN packet shorter than its fixed fields.
    MalformedBegin,
    /// A BEGIN packet that announces more filename bytes than it holds.
    MalformedBeginFilename,
    /// A well-formed BEGIN packet; `filename` holds the raw filename bytes.
    Begin { report_id: u32, total_chunks: u32, expected_bytes: u32, filename: Vec<u8> },
    /// A CHUNK packet shorter than its fixed fields.
    MalformedChunk,
    /// A CHUNK packet that announces more chunk bytes than it holds.
    MalformedChunkBody { seq: u32 },
    /// A well-formed CHUNK packet.
    Chunk { report_id: u32, seq: u32, data: Vec<u8> },
    /// An END packet shorter than its fixed fields.
    MalformedEnd,
    /// A well-formed END packet.
    End { report_id: u32, total_chunks_sent: u32, total_bytes_sent: u32 },
    /// A packet of the right version whose type is none of the three known.
    UnsupportedType { packet_type: u8 },
}

/// The mathematical content of a [`ReportPacket`].
pub enum ReportPacketView {
    Text,
    HeaderTooShort,
    UnsupportedVersion { version: u8 },
    MalformedBegin,
    MalformedBeginFilename,
    Begin { report_id: u32, total_chunks: u32, expected_bytes: u32, filename: Seq<u8> },
    MalformedChunk,
    MalformedChunkBody { seq: u32 },
    Chunk { report_id: u32, seq: u32, data: Seq<u8> },
    MalformedEnd,
    End { report_id: u32, total_chunks_sent: u32, total_bytes_sent: u32 },
    UnsupportedType { packet_type: u8 },
}

impl View for ReportPacket {
    type V = ReportPacketView;

    open spec fn view(&self) -> ReportPacketView {
        match *self {
            ReportPacket::Text => ReportPacketView::Text,
            ReportPacket::HeaderTooShort => ReportPacketView::HeaderTooShort,
            ReportPacket::UnsupportedVersion { version } => ReportPacketView::UnsupportedVersion {
                version,
            },
            ReportPacket::MalformedBegin => ReportPacketView::MalformedBegin,
            ReportPacket::MalformedBeginFilename => ReportPacketView::MalformedBeginFilename,
            ReportPacket::Begin { report_id, total_chunks, expected_bytes, filename } => {
                ReportPacketView::Begin {
                    report_id,
                    total_chunks,
                    expected_bytes,
                    filename: filename@,
                }
            },
            ReportPacket::MalformedChunk => ReportPacketView::MalformedChunk,
            ReportPacket::MalformedChunkBody { seq } => ReportPacketView::MalformedChunkBody {
                seq,
            },
            ReportPacket::Chunk { report_id, seq, data } => ReportPacketView::Chunk {
                report_id,
                seq,
                data: data@,
            },
            ReportPacket::MalformedEnd => ReportPacketView::MalformedEnd,
            ReportPacket::End { report_id, total_chunks_sent, total_bytes_sent } => {
                ReportPacketView::End { report_id, total_chunks_sent, total_bytes_sent }
            },
            ReportPacket::UnsupportedType { packet_type } => ReportPacketView::UnsupportedType {
                packet_type,
            },
        }
    }
}

/// Whether a payload is a report packet at all: at least six bytes, the
/// first four of them the magic.
pub open spec fn has_report_magic(payload: Seq<u8>) -> bool {
    payload.len() >= 6 && payload.subrange(0, 4) == report_magic()
}

/// The BEGIN packet that `payload` holds after its header, all integers
/// little-endian: chunk count (4 bytes), byte count (4), filename length
/// (2), filename.
pub open spec fn parse_begin(payload: Seq<u8>, report_id: u32) -> ReportPacketView {
    if payload.len() < 20 {
        ReportPacketView::MalformedBegin
    } else {
        let filename_len = le_u16(payload.subrange(18, 20));
        if 20 + filename_len > payload.len() {
            ReportPacketView::MalformedBeginFilename
        } else {
            ReportPacketView::Begin {
                report_id,
                total_chunks: le_u32(payload.subrange(10, 14)) as u32,
                expected_bytes: le_u32(payload.subrange(14, 18)) as u32,
                filename: payload.subrange(20, 20 + filename_len),
            }
        }
    }
}

/// The CHUNK packet that `payload` holds after its header: sequence number
/// (4 bytes), chunk length (2), chunk.
pub open spec fn parse_chunk(payload: Seq<u8>, report_id: u32) -> ReportPacketView {
    if payload.len() < 16 {
        ReportPacketView::MalformedChunk
    } else {
        let seq = le_u32(payload.subrange(10, 14)) as u32;
        let chunk_len = le_u16(payload.subrange(14, 16));
        if 16 + chunk_len > payload.len() {
            ReportPacketView::MalformedChunkBody { seq }
        } else {
            ReportPacketView::Chunk { report_id, seq, data: payload.subrange(16, 16 + chunk_len) }
        }
    }
}

/// The END packet that `payload` holds after its header: chunks sent
/// (4 bytes), bytes sent (4).
pub open spec fn parse_end(payload: Seq<u8>, report_id: u32) -> ReportPacketView {
    if payload.len() < 18 {
        ReportPacketView::MalformedEnd
    } else {
        ReportPacketView::End {
            report_id,
            total_chunks_sent: le_u32(payload.subrange(10, 14)) as u32,
            total_bytes_sent: le_u32(payload.subrange(14, 18)) as u32,
        }
    }
}

/// The packet that a payload holds.
///
/// The layout is `magic(4) | version(1) | type(1) | report_id(4)` and then
/// the fields of the type. Bytes after the last field are ignored.
pub open spec fn parse_packet(payload: Seq<u8>) -> ReportPacketView {
    if !has_report_magic(payload) {
        ReportPacketView::Text
    } else if payload.len() < 10 {
        ReportPacketView::HeaderTooShort
    } else if payload[4] != DEBUG_REPORT_PROTOCOL_VERSION {
        ReportPacketView::UnsupportedVersion { version: payload[4] }
    } else {
        let report_id = le_u32(payload.subrange(6, 10)) as u32;
        let packet_type = payload[5];
        if packet_type == DEBUG_REPORT_PACKET_BEGIN {
            parse_begin(payload, report_id)
        } else if packet_type == DEBUG_REPORT_PACKET_CHUNK {
            parse_chunk(payload, report_id)
        } else if packet_type == DEBUG_REPORT_PACKET_END {
            parse_end(payload, report_id)
        } else {
            ReportPacketView::UnsupportedType { packet_type }
        }
    }
}

/// Whether `payload` starts with the magic and is at least six bytes long.
fn starts_with_magic(payload: &[u8]) -> (yes: bool)
    ensures
        yes == has_report_magic(payload@),
{
    if payload.len() < 6 {
        return false;
    }
    let yes = payload[0] == 0x4E && payload[1] == 0x52 && payload[2] == 0x50 && payload[3]
        == 0x54;
    proof {
        if yes {
            assert(payload@.subrange(0, 4) =~= report_magic());
        }
    }
    yes
}

/// Decodes one payload of the report channel.
pub fn parse_report_packet(payload: &[u8]) -> (packet: ReportPacket)
    ensures
        packet@ == parse_packet(payload@),
{
    if !starts_with_magic(payload) {
        return ReportPacket::Text;
    }
    if payload.len() < 10 {
        return ReportPacket::HeaderTooShort;
    }
    let version = payload[4];
    let packet_type = payload[5];
    let Some(report_id) = parse_u32_le(slice_subrange(payload, 6, 10)) else {
        return ReportPacket::HeaderTooShort;
    };
    if version != DEBUG_REPORT_PROTOCOL_VERSION {
        return ReportPacket::UnsupportedVersion { version };
    }
    if packet_type == DEBUG_REPORT_PACKET_BEGIN {
        if payload.len() < 20 {
            return ReportPacket::MalformedBegin;
        }
        let Some(total_chunks) = parse_u32_le(slice_subrange(payload, 10, 14)) else {
            return ReportPacket::MalformedBegin;
        };
        let Some(expected_bytes) = parse_u32_le(slice_subrange(payload, 14, 18)) else {
            return ReportPacket::MalformedBegin;
        };
        let Some(filename_len) = parse_u16_le(slice_subrange(payload, 18, 20)) else {
            return ReportPacket::MalformedBegin;
        };
        if filename_len as usize > payload.len() - 20 {
            return ReportPacket::MalformedBeginFilename;
        }
        let filename = slice_to_vec(slice_subrange(payload, 20, 20 + filename_len as usize));
        ReportPacket::Begin { report_id, total_chunks, expected_bytes, filename }
    } else if packet_type == DEBUG_REPORT_PACKET_CHUNK {
        if payload.len() < 16 {
            return ReportPacket::MalformedChunk;
        }
        let Some(seq) = parse_u32_le(slice_subrange(payload, 10, 14)) else {
            return ReportPacket::MalformedChunk;
        };
        let Some(chunk_len) = parse_u16_le(slice_subrange(payload, 14, 16)) else {
            return ReportPacket::MalformedChunk;
        };
        if chunk_len as usize > payload.len() - 16 {
            return ReportPacket::MalformedChunkBody { seq };
        }
        let data = slice_to_vec(slice_subrange(payload, 16, 16 + chunk_len as usize));
        ReportPacket::Chunk { report_id, seq, data }
    } else if packet_type == DEBUG_REPORT_PACKET_END {
        if payload.len() < 18 {
            return ReportPacket::MalformedEnd;
        }
        let Some(total_chunks_sent) = parse_u32_le(slice_subrange(payload, 10, 14)) else {
            return ReportPacket::MalformedEnd;
        };
        let Some(total_bytes_sent) = parse_u32_le(slice_subrange(payload, 14, 18)) else {
            return ReportPacket::MalformedEnd;
        };
        ReportPacket::End { report_id, total_chunks_sent, total_bytes_sent }
    } else {
        ReportPacket::UnsupportedType { packet_type }
    }
}

} // verus!
