//! Model of a decoded meter telegram.
//!
//! The byte-level framing, checksum and object grammar are the business of
//! an external decoder; this crate sees a telegram only after decoding, as
//! an identification plus a sequence of per-object decode results.  The
//! enums here mirror the decoder's output one for one, as plain values the
//! verifier can reason about.

use vstd::prelude::*;

verus! {

/// Active power (watts / watt-hours) or reactive power (vars / var-hours).
#[derive(Clone, Copy, Debug, PartialEq, Eq, Structural)]
pub enum PowerKind {
    Active,
    Reactive,
}

/// Direction of energy flow relative to the grid.
#[derive(Clone, Copy, Debug, PartialEq, Eq, Structural)]
pub enum Direction {
    FromGrid,
    ToGrid,
}

/// One of the three phases of the installation.
#[derive(Clone, Copy, Debug, PartialEq, Eq, Structural)]
pub enum Line {
    L1,
    L2,
    L3,
}

/// One measurement object carried by a telegram.
///
/// `DateTime` carries unix seconds; energy counters are cumulative
/// watt-hours / var-hours; power readings are instantaneous watts / vars;
/// voltage is in decivolts and current in deciamps.
#[derive(Clone, Copy, Debug, PartialEq, Eq, Structural)]
pub enum DecodedObject {
    DateTime(i64),
    Energy(PowerKind, Direction, u32),
    TotalPower(PowerKind, Direction, u32),
    LinePower(Line, PowerKind, Direction, u32),
    Voltage(Line, u16),
    Current(Line, u16),
}

/// Why the decoder rejected a frame or one of its objects.
#[derive(Clone, Copy, Debug, PartialEq, Eq, Structural)]
pub enum DecodeError {
    InvalidFormat,
    Checksum,
    UnrecognizedReference,
}

/// A hardware or receive-buffer-overflow condition on the serial side.
/// Non-fatal: the reader is polled again on the next cycle.
#[derive(Clone, Copy, Debug, PartialEq, Eq, Structural)]
pub enum ReadError {
    BufferOverflow,
}

/// A decoded telegram: the meter's identification line and the sequence of
/// object decode results, in wire order.  An `Err` entry is an object the
/// decoder could not parse; building a record from such a telegram is
/// refused as a whole rather than published partially.
pub struct Telegram {
    pub identification: Vec<u8>,
    pub objects: Vec<Result<DecodedObject, DecodeError>>,
}

} // verus!
