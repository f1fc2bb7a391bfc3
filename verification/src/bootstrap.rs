use crate::event::{error_event, sink_event, EventSink, UiEvent};
use vstd::prelude::*;

verus! {

/// The kinds of failure that keep an engine from starting.
#[derive(Clone, Copy, Debug, PartialEq, Eq, Structural)]
pub enum BootstrapErrorKind {
    /// The address to bind or to connect to cannot be read as one.
    MalformedAddress,
    /// The pre-shared key is not hex-encoded.
    BadKeyEncoding,
    /// The local address could not be bound.
    BindFailed,
    /// The peer could not be reached, or the handshake with it failed.
    HandshakeFailed,
}

/// Whether a failure is one of configuration: it shows before anything is
/// sent or bound, and trying again with the same input cannot help.
pub open spec fn is_configuration_error(kind: BootstrapErrorKind) -> bool {
    kind == BootstrapErrorKind::MalformedAddress || kind == BootstrapErrorKind::BadKeyEncoding
}

impl BootstrapErrorKind {
    /// Whether the failure is one of configuration.
    pub fn is_configuration_error(&self) -> (yes: bool)
        ensures
            yes == is_configuration_error(*self),
    {
        match *self {
            BootstrapErrorKind::MalformedAddress => true,
            BootstrapErrorKind::BadKeyEncoding => true,
            BootstrapErrorKind::BindFailed => false,
            BootstrapErrorKind::HandshakeFailed => false,
        }
    }
}

/// A failure to start an engine: its kind, and what there is to say of it.
#[derive(Clone, Debug, PartialEq, Eq)]
pub struct BootstrapError {
    pub kind: BootstrapErrorKind,
    pub detail: String,
}

/// Publishes that an engine could not start: one `Error` with the detail
/// of the failure.
pub fn emit_bootstrap_error(sink: &mut EventSink, error: &BootstrapError)
    ensures
        final(sink)@ == old(sink)@.push(error_event(error.detail@)),
{
    sink_event(sink, UiEvent::Error { msg: error.detail.clone() });
}

/// The value of a hexadecimal digit, in either case.
pub open spec fn hex_digit_value(c: char) -> Option<u8> {
    if '0' <= c <= '9' {
        Some((c as u32 - '0' as u32) as u8)
    } else if 'a' <= c <= 'f' {
        Some((c as u32 - 'a' as u32 + 10) as u8)
    } else if 'A' <= c <= 'F' {
        Some((c as u32 - 'A' as u32 + 10) as u8)
    } else {
        None
    }
}

/// Whether a secret encodes a key: an even number of hexadecimal digits,
/// and at least two.
pub open spec fn is_hex_key(secret: Seq<char>) -> bool {
    &&& secret.len() > 0
    &&& secret.len() % 2 == 0
    &&& forall|i: int| 0 <= i < secret.len() ==> hex_digit_value(#[trigger] secret[i]) is Some
}

/// The byte that two hexadecimal digits encode, the first being the high
/// half.
pub open spec fn hex_pair_value(high: char, low: char) -> u8 {
    (16 * hex_digit_value(high)->0 + hex_digit_value(low)->0) as u8
}

/// The key that a secret encodes: one byte for each pair of digits.
pub open spec fn decoded_key(secret: Seq<char>) -> Seq<u8> {
    Seq::new(
        secret.len() / 2,
        |i: int| hex_pair_value(secret[2 * i], secret[2 * i + 1]),
    )
}

/// The value of a hexadecimal digit.
fn hex_value(c: char) -> (value: Option<u8>)
    ensures
        value == hex_digit_value(c),
        value matches Some(v) ==> v < 16,
{
    if '0' <= c && c <= '9' {
        Some((c as u32 - '0' as u32) as u8)
    } else if 'a' <= c && c <= 'f' {
        Some((c as u32 - 'a' as u32 + 10) as u8)
    } else if 'A' <= c && c <= 'F' {
        Some((c as u32 - 'A' as u32 + 10) as u8)
    } else {
        None
    }
}

/// What is said of a secret that encodes no key.
pub open spec fn bad_key_detail() -> Seq<char> {
    "pre-shared key is not an even number of hex digits"@
}

/// The failure for a secret that encodes no key.
fn bad_key() -> (error: BootstrapError)
    ensures
        error.kind == BootstrapErrorKind::BadKeyEncoding,
        error.detail@ == bad_key_detail(),
{
    BootstrapError {
        kind: BootstrapErrorKind::BadKeyEncoding,
        detail: String::from_str("pre-shared key is not an even number of hex digits"),
    }
}

/// Reads a pre-shared key from its hex-encoded form. Nothing but pairs of
/// hexadecimal digits is taken, and an empty secret is no key.
pub fn parse_preshared_key(secret: &str) -> (result: Result<Vec<u8>, BootstrapError>)
    ensures
        match result {
            Ok(key) => is_hex_key(secret@) && key@ == decoded_key(secret@),
            Err(error) => {
                &&& !is_hex_key(secret@)
                &&& error.kind == BootstrapErrorKind::BadKeyEncoding
                &&& error.detail@ == bad_key_detail()
            },
        },
{
    let digits = crate::text::chars_of(secret);
    let n = digits.len();
    if n == 0 || n % 2 != 0 {
        return Err(bad_key());
    }
    let mut key: Vec<u8> = Vec::new();
    let mut i: usize = 0;
    while i < n
        invariant
            n == digits@.len(),
            digits@ == secret@,
            n % 2 == 0,
            i % 2 == 0,
            i <= n,
            key@.len() == i / 2,
            forall|j: int| 0 <= j < i ==> hex_digit_value(#[trigger] digits@[j]) is Some,
            forall|k: int|
                0 <= k < key@.len() ==> #[trigger] key@[k] == hex_pair_value(
                    digits@[2 * k],
                    digits@[2 * k + 1],
                ),
        decreases n - i,
    {
        let high = hex_value(digits[i]);
        let low = hex_value(digits[i + 1]);
        match (high, low) {
            (Some(high), Some(low)) => {
                key.push(16 * high + low);
            },
            _ => {
                return Err(bad_key());
            },
        }
        i = i + 2;
    }
    Ok(key)
}

} // verus!
