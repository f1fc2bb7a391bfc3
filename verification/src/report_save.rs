use crate::event::{error_event, log_event, sink_event, telemetry_event, EventSink, UiEvent, UiEventView};
use crate::report::{RemoteDebugReportAssembly, ReportAssemblyView};
use crate::text::{decimal, push_decimal};
use vstd::prelude::*;

verus! {

/// Why a completed report could not be saved.
#[derive(Clone, Copy, Debug, PartialEq, Eq, Structural)]
pub enum ReportSaveError {
    /// No chunk arrived under this sequence number, the first such below
    /// the announced chunk count.
    MissingChunk { seq: u32 },
    /// The chunks together do not have the announced number of bytes.
    LengthMismatch { expected: u32, actual: usize },
    /// No directory could be made to hold the file.
    OutputDirUnavailable,
    /// The file could not be written.
    WriteFailed,
}

/// The smallest sequence number below `n` under which `chunks` holds no
/// chunk, if there is one.
pub open spec fn missing_below(chunks: Map<u32, Seq<u8>>, n: nat) -> Option<u32>
    decreases n,
{
    if n == 0 {
        None
    } else {
        match missing_below(chunks, (n - 1) as nat) {
            Some(seq) => Some(seq),
            None => if chunks.contains_key((n - 1) as u32) {
                None
            } else {
                Some((n - 1) as u32)
            },
        }
    }
}

/// The chunks with the sequence numbers below `n`, one after the other in
/// ascending order of sequence number.
pub open spec fn concat_chunks(chunks: Map<u32, Seq<u8>>, n: nat) -> Seq<u8>
    decreases n,
{
    if n == 0 {
        Seq::empty()
    } else {
        concat_chunks(chunks, (n - 1) as nat) + chunks[(n - 1) as u32]
    }
}

/// The bytes of a completed report: its chunks in ascending order of
/// sequence number, from 0 up to the announced count. A sequence number
/// without a chunk is an error, and so is a total length other than the
/// announced one, unless that was 0.
pub open spec fn assembled_report(report: ReportAssemblyView) -> Result<Seq<u8>, ReportSaveError> {
    match missing_below(report.chunks, report.total_chunks as nat) {
        Some(seq) => Err(ReportSaveError::MissingChunk { seq }),
        None => {
            let data = concat_chunks(report.chunks, report.total_chunks as nat);
            if report.expected_bytes != 0 && data.len() != report.expected_bytes {
                Err(
                    ReportSaveError::LengthMismatch {
                        expected: report.expected_bytes,
                        actual: data.len() as usize,
                    },
                )
            } else {
                Ok(data)
            }
        },
    }
}

proof fn lemma_missing_below_stays(chunks: Map<u32, Seq<u8>>, k: nat, n: nat)
    requires
        k <= n,
        missing_below(chunks, k) is Some,
    ensures
        missing_below(chunks, n) == missing_below(chunks, k),
    decreases n,
{
    if k < n {
        lemma_missing_below_stays(chunks, k, (n - 1) as nat);
    }
}

/// Puts the chunks of a completed report together, and checks the result
/// against what was announced.
pub fn assemble_report_data(assembly: &RemoteDebugReportAssembly) -> (result: Result<
    Vec<u8>,
    ReportSaveError,
>)
    ensures
        match result {
            Ok(data) => assembled_report(assembly@) == Ok::<Seq<u8>, ReportSaveError>(data@),
            Err(e) => assembled_report(assembly@) == Err::<Seq<u8>, ReportSaveError>(e),
        },
{
    let total = assembly.total_chunks();
    let expected = assembly.expected_bytes();
    let mut data: Vec<u8> = Vec::new();
    let mut seq: u32 = 0;
    while seq < total
        invariant
            seq <= total,
            total == assembly@.total_chunks,
            missing_below(assembly@.chunks, seq as nat) is None,
            data@ == concat_chunks(assembly@.chunks, seq as nat),
        decreases total - seq,
    {
        match assembly.chunk(seq) {
            None => {
                proof {
                    lemma_missing_below_stays(assembly@.chunks, (seq + 1) as nat, total as nat);
                }
                return Err(ReportSaveError::MissingChunk { seq });
            },
            Some(bytes) => {
                data.extend_from_slice(bytes.as_slice());
            },
        }
        seq = seq + 1;
    }
    if expected != 0 && data.len() != expected as usize {
        return Err(ReportSaveError::LengthMismatch { expected, actual: data.len() });
    }
    Ok(data)
}

/// What a save error says of itself.
pub open spec fn save_error_message(error: ReportSaveError) -> Seq<char> {
    match error {
        ReportSaveError::MissingChunk { seq } => "missing debug report chunk "@ + decimal(
            seq as nat,
        ),
        ReportSaveError::LengthMismatch { expected, actual } => {
            "debug report byte length mismatch (expected="@ + decimal(expected as nat)
                + ", actual="@ + decimal(actual as nat) + ")"@
        },
        ReportSaveError::OutputDirUnavailable => {
            "failed to create remote debug report output dir"@
        },
        ReportSaveError::WriteFailed => "failed to write remote debug report file"@,
    }
}

impl ReportSaveError {
    /// The error in words.
    pub fn message(&self) -> (msg: String)
        ensures
            msg@ == save_error_message(*self),
    {
        match *self {
            ReportSaveError::MissingChunk { seq } => {
                let mut msg = String::from_str("missing debug report chunk ");
                push_decimal(&mut msg, seq as u128);
                msg
            },
            ReportSaveError::LengthMismatch { expected, actual } => {
                let mut msg = String::from_str("debug report byte length mismatch (expected=");
                push_decimal(&mut msg, expected as u128);
                msg.append(", actual=");
                push_decimal(&mut msg, actual as u128);
                msg.append(")");
                msg
            },
            ReportSaveError::OutputDirUnavailable => String::from_str(
                "failed to create remote debug report output dir",
            ),
            ReportSaveError::WriteFailed => String::from_str(
                "failed to write remote debug report file",
            ),
        }
    }
}

/// The message for a report that was saved to `path`.
pub open spec fn saved_report_message(path: Seq<char>, report: ReportAssemblyView) -> Seq<char> {
    "[RemoteReport] saved file path="@ + path + " bytes="@ + decimal(report.expected_bytes as nat)
        + " chunks="@ + decimal(report.total_chunks as nat)
}

/// The events that tell how saving a completed report went. After a save
/// to `path`: a `Log` with the path and the announced size and chunk count,
/// and the announced size as telemetry. After a failure: one `Error`.
pub open spec fn save_outcome_events(
    report: ReportAssemblyView,
    outcome: Result<Seq<char>, ReportSaveError>,
) -> Seq<UiEventView> {
    match outcome {
        Ok(path) => seq![
            log_event(saved_report_message(path, report)),
            telemetry_event("debug_report_saved_bytes"@, report.expected_bytes as u64),
        ],
        Err(error) => seq![
            error_event("remote debug report save failed: "@ + save_error_message(error)),
        ],
    }
}

/// The outcome of a save with the path read as a sequence of characters.
pub open spec fn outcome_view(outcome: Result<String, ReportSaveError>) -> Result<
    Seq<char>,
    ReportSaveError,
> {
    match outcome {
        Ok(path) => Ok(path@),
        Err(error) => Err(error),
    }
}

/// Publishes how saving a completed report went.
pub fn emit_report_save_outcome(
    sink: &mut EventSink,
    assembly: &RemoteDebugReportAssembly,
    outcome: Result<String, ReportSaveError>,
)
    ensures
        final(sink)@ == old(sink)@ + save_outcome_events(assembly@, outcome_view(outcome)),
{
    match outcome {
        Ok(path) => {
            let mut msg = String::from_str("[RemoteReport] saved file path=");
            msg.append(path.as_str());
            msg.append(" bytes=");
            push_decimal(&mut msg, assembly.expected_bytes() as u128);
            msg.append(" chunks=");
            push_decimal(&mut msg, assembly.total_chunks() as u128);
            sink_event(sink, UiEvent::Log { msg });
            sink_event(
                sink,
                UiEvent::Telemetry {
                    name: String::from_str("debug_report_saved_bytes"),
                    value: assembly.expected_bytes() as u64,
                },
            );
        },
        Err(error) => {
            let mut msg = String::from_str("remote debug report save failed: ");
            let reason = error.message();
            msg.append(reason.as_str());
            sink_event(sink, UiEvent::Error { msg });
        },
    }
}

} // verus!
