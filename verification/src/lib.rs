//! Typed register scaling engine for an MPPT solar charge controller.
//!
//! The controller exposes its state as flat arrays of unsigned 16-bit
//! registers. This crate holds the rules for interpreting them: the
//! session scale factors the controller reports, the per-kind scaling
//! laws that turn a raw register into a physical quantity and back, the
//! static name-to-offset tables for the two register regions, and the
//! case-insensitive name lookup behind generic get/set access.
//!
//! The controller's scale factors are exact binary fixed-point numbers
//! (`whole + fraction / 65536`), so every scaling law is exact rational
//! arithmetic. Physical quantities are carried as [`Fixed32`] values,
//! fixed-point numbers with a 2^32 denominator, which represent every
//! decodable quantity without loss; conversion to and from `f32` for
//! display or command-line input is the caller's concern.

use vstd::prelude::*;

pub mod datatypes;
pub mod display;
pub mod mppt_structs;
pub mod offsets;
pub mod resolver;
pub mod scale;

pub use datatypes::decode;
pub use datatypes::encode;
pub use datatypes::Current;
pub use datatypes::Fixed32;
pub use datatypes::QuantityKind;
pub use datatypes::Raw;
pub use datatypes::Tempcomp;
pub use datatypes::Voltage;
pub use datatypes::VoltagePercentage;
pub use display::display_value;
pub use display::fixed_to_string;
pub use display::kind_name;
pub use display::unit;
pub use mppt_structs::decode_session;
pub use mppt_structs::MpptData;
pub use mppt_structs::MpptEeprom;
pub use mppt_structs::MpptRam;
pub use offsets::OffsetsEeprom;
pub use offsets::OffsetsRam;
pub use resolver::get_field;
pub use resolver::lookup;
pub use resolver::match_offset;
pub use resolver::set_field;
pub use resolver::DecodedField;
pub use resolver::EepromField;
pub use resolver::RegisterWrite;
pub use scale::ScaleContext;

verus! {

/// Errors of the scaling engine.
///
/// Every operation is total: failures are reported as values, never as
/// panics.
#[derive(Clone, Copy, Debug, PartialEq, Eq, Structural)]
pub enum MpptError {
    /// A raw register array is shorter than the operation requires.
    InsufficientData,
    /// A field name has no entry in the relevant offset table.
    UnknownField,
    /// An encode produced a value outside the 16-bit register range.
    EncodingOverflow,
}

} // verus!
