//! Quantity kinds and their scaling laws.
//!
//! Each register field carries one of five quantity kinds. A kind fixes
//! an invertible scaling law between the raw 16-bit register value and
//! the physical quantity it denotes. The controller's scale factors are
//! exact multiples of 1/65536 and every law divides by a power of two,
//! so each law reduces to one exact integer form: decoding multiplies
//! the raw value by the kind's divisor, and encoding divides by it,
//! truncating toward zero. The divisor is the kind's truncation unit:
//! the size of one raw step, in [`Fixed32`] bits.

use vstd::arithmetic::div_mod::{
    lemma_div_multiples_vanish, lemma_fundamental_div_mod, lemma_remainder_lower,
    lemma_remainder_upper,
};
use vstd::prelude::*;

use crate::scale::ScaleContext;
use crate::MpptError;

verus! {

/// One whole unit in [`Fixed32`] representation: 2^32.
pub const FIXED32_ONE: u64 = 0x1_0000_0000;

/// A physical quantity as an exact binary fixed-point number: the value
/// represented is `bits / 2^32`.
///
/// Every quantity a register can decode to is an exact multiple of
/// 2^-32 (the finest law divides by 2^16 a factor with denominator
/// 2^16), so this representation is lossless.
#[derive(Clone, Copy, Debug, PartialEq, Eq, Structural)]
pub struct Fixed32 {
    /// The represented value, scaled by 2^32.
    pub bits: u64,
}

impl Fixed32 {
    /// The exact fixed-point image of a whole number.
    pub fn from_int(n: u16) -> (r: Fixed32)
        ensures
            r.bits == n * FIXED32_ONE,
    {
        Fixed32 { bits: (n as u64) * FIXED32_ONE }
    }

    /// The whole part of the value: `bits / 2^32`, truncated toward zero.
    pub fn whole(self) -> (r: u64)
        ensures
            r == self.bits / FIXED32_ONE,
    {
        self.bits / FIXED32_ONE
    }
}

/// The closed set of scaling laws a register field can declare.
#[derive(Clone, Copy, Debug, PartialEq, Eq, Structural)]
pub enum QuantityKind {
    /// Volts: `raw * v_scale * 2^-15`.
    Voltage,
    /// Amperes: `raw * i_scale * 2^-15`.
    Current,
    /// Percent of full scale: `raw * 100 * 2^-16`.
    VoltagePercentage,
    /// Temperature compensation coefficient: `raw * v_scale * 2^-16`.
    TemperatureCompensation,
    /// The raw register value itself.
    Raw,
}

/// The kind's divisor: the size of one raw register step, in `Fixed32`
/// bits. Decoding a raw value yields `raw * divisor` bits; encoding
/// truncates `bits / divisor`.
///
/// Each arm restates the kind's law over a common denominator of 2^32:
/// a voltage step is `v_scale * 2^-15 == (v_num / 2^16) / 2^15 ==
/// 2 * v_num / 2^32`, and so on.
pub open spec fn spec_divisor(kind: QuantityKind, ctx: ScaleContext) -> int {
    match kind {
        QuantityKind::Voltage => 2 * ctx.v_num,
        QuantityKind::Current => 2 * ctx.i_num,
        QuantityKind::VoltagePercentage => PERCENT_DIVISOR as int,
        QuantityKind::TemperatureCompensation => ctx.v_num as int,
        QuantityKind::Raw => FIXED32_ONE as int,
    }
}

/// Divisor of the percentage law: one raw step is `100 / 2^16` percent,
/// or `100 * 2^16` in `Fixed32` bits.
pub const PERCENT_DIVISOR: u64 = 100 * 65536;

/// The quantity a raw register value decodes to, in `Fixed32` bits.
pub open spec fn spec_decode_bits(kind: QuantityKind, raw: u16, ctx: ScaleContext) -> int {
    raw * spec_divisor(kind, ctx)
}

/// The raw register value a quantity encodes to, truncated toward zero.
/// Meaningful only for a well-formed context (positive divisor); may
/// exceed the 16-bit range, which [`encode`] reports as an error.
pub open spec fn spec_encode(kind: QuantityKind, value: Fixed32, ctx: ScaleContext) -> int {
    (value.bits as int) / spec_divisor(kind, ctx)
}

/// A well-formed context gives every kind a positive divisor.
pub proof fn lemma_divisor_pos(kind: QuantityKind, ctx: ScaleContext)
    requires
        ctx.wf(),
    ensures
        spec_divisor(kind, ctx) >= 1,
        spec_divisor(kind, ctx) <= 2 * 0xFFFF_FFFF,
{
}

/// The kind's divisor as an executable value.
fn divisor(kind: QuantityKind, ctx: &ScaleContext) -> (d: u64)
    ensures
        d == spec_divisor(kind, *ctx),
{
    match kind {
        QuantityKind::Voltage => 2 * (ctx.v_num as u64),
        QuantityKind::Current => 2 * (ctx.i_num as u64),
        QuantityKind::VoltagePercentage => PERCENT_DIVISOR,
        QuantityKind::TemperatureCompensation => ctx.v_num as u64,
        QuantityKind::Raw => FIXED32_ONE,
    }
}

/// Decodes a raw register value under the kind's law. Total and pure:
/// defined for every raw value and every context.
pub fn decode(kind: QuantityKind, raw: u16, ctx: &ScaleContext) -> (v: Fixed32)
    ensures
        v.bits == spec_decode_bits(kind, raw, *ctx),
{
    let d = divisor(kind, ctx);
    proof {
        assert(raw * d <= 0xFFFF * (2 * 0xFFFF_FFFFu64)) by (nonlinear_arith)
            requires
                raw <= 0xFFFF,
                d <= 2 * 0xFFFF_FFFFu64,
        ;
    }
    Fixed32 { bits: (raw as u64) * d }
}

/// Encodes a quantity under the kind's law, truncating toward zero.
/// Fails exactly when the truncated value does not fit a 16-bit
/// register.
pub fn encode(kind: QuantityKind, value: Fixed32, ctx: &ScaleContext) -> (r: Result<
    u16,
    MpptError,
>)
    requires
        ctx.wf(),
    ensures
        spec_encode(kind, value, *ctx) <= 0xFFFF ==> r == Ok::<u16, MpptError>(
            spec_encode(kind, value, *ctx) as u16,
        ),
        spec_encode(kind, value, *ctx) > 0xFFFF ==> r == Err::<u16, MpptError>(
            MpptError::EncodingOverflow,
        ),
{
    let d = divisor(kind, ctx);
    proof {
        lemma_divisor_pos(kind, *ctx);
    }
    let q = value.bits / d;
    if q > 0xFFFF {
        Err(MpptError::EncodingOverflow)
    } else {
        Ok(q as u16)
    }
}

/// Law: encoding is a left inverse of decoding, exactly. For every
/// kind, every raw register value and every well-formed context,
/// decoding a raw value and encoding the result returns the same raw
/// value, and never overflows.
pub proof fn lemma_encode_decode_exact(kind: QuantityKind, raw: u16, ctx: ScaleContext)
    requires
        ctx.wf(),
    ensures
        spec_encode(
            kind,
            Fixed32 { bits: spec_decode_bits(kind, raw, ctx) as u64 },
            ctx,
        ) == raw,
        spec_decode_bits(kind, raw, ctx) <= u64::MAX,
{
    let d = spec_divisor(kind, ctx);
    lemma_divisor_pos(kind, ctx);
    assert(raw * d <= 0xFFFF * (2 * 0xFFFF_FFFF)) by (nonlinear_arith)
        requires
            raw <= 0xFFFF,
            0 <= d <= 2 * 0xFFFF_FFFF,
    ;
    lemma_div_multiples_vanish(raw as int, d);
}

/// A register field holding volts.
#[derive(Clone, Copy, Debug, PartialEq, Eq, Structural)]
pub struct Voltage {
    /// The raw 16-bit register value.
    pub data: u16,
}

/// A register field holding amperes.
#[derive(Clone, Copy, Debug, PartialEq, Eq, Structural)]
pub struct Current {
    /// The raw 16-bit register value.
    pub data: u16,
}

/// A register field holding a percentage of full-scale voltage.
#[derive(Clone, Copy, Debug, PartialEq, Eq, Structural)]
pub struct VoltagePercentage {
    /// The raw 16-bit register value.
    pub data: u16,
}

/// A register field holding a temperature compensation coefficient.
#[derive(Clone, Copy, Debug, PartialEq, Eq, Structural)]
pub struct Tempcomp {
    /// The raw 16-bit register value.
    pub data: u16,
}

/// A register field read and written as its raw 16-bit value.
#[derive(Clone, Copy, Debug, PartialEq, Eq, Structural)]
pub struct Raw {
    /// The raw 16-bit register value.
    pub data: u16,
}

impl Voltage {
    /// Wraps a raw register value; no scaling is applied.
    pub fn from_u16(data: u16) -> (r: Voltage)
        ensures
            r.data == data,
    {
        Voltage { data }
    }

    /// The raw register value.
    pub fn get_raw(&self) -> (r: u16)
        ensures
            r == self.data,
    {
        self.data
    }

    /// The physical quantity this field holds, under the voltage law.
    pub fn get_scaled(&self, ctx: &ScaleContext) -> (v: Fixed32)
        ensures
            v.bits == spec_decode_bits(QuantityKind::Voltage, self.data, *ctx),
    {
        decode(QuantityKind::Voltage, self.data, ctx)
    }

    /// The raw register value a quantity encodes to under the voltage
    /// law, or an error if it exceeds the 16-bit range.
    pub fn u16_from_value(&self, input: Fixed32, ctx: &ScaleContext) -> (r: Result<
        u16,
        MpptError,
    >)
        requires
            ctx.wf(),
        ensures
            spec_encode(QuantityKind::Voltage, input, *ctx) <= 0xFFFF ==> r == Ok::<
                u16,
                MpptError,
            >(spec_encode(QuantityKind::Voltage, input, *ctx) as u16),
            spec_encode(QuantityKind::Voltage, input, *ctx) > 0xFFFF ==> r == Err::<
                u16,
                MpptError,
            >(MpptError::EncodingOverflow),
    {
        encode(QuantityKind::Voltage, input, ctx)
    }

    /// The scaling law this field declares.
    pub fn kind(&self) -> (k: QuantityKind)
        ensures
            k == QuantityKind::Voltage,
    {
        QuantityKind::Voltage
    }
}

impl Current {
    /// Wraps a raw register value; no scaling is applied.
    pub fn from_u16(data: u16) -> (r: Current)
        ensures
            r.data == data,
    {
        Current { data }
    }

    /// The raw register value.
    pub fn get_raw(&self) -> (r: u16)
        ensures
            r == self.data,
    {
        self.data
    }

    /// The physical quantity this field holds, under the current law.
    pub fn get_scaled(&self, ctx: &ScaleContext) -> (v: Fixed32)
        ensures
            v.bits == spec_decode_bits(QuantityKind::Current, self.data, *ctx),
    {
        decode(QuantityKind::Current, self.data, ctx)
    }

    /// The raw register value a quantity encodes to under the current
    /// law, or an error if it exceeds the 16-bit range.
    pub fn u16_from_value(&self, input: Fixed32, ctx: &ScaleContext) -> (r: Result<
        u16,
        MpptError,
    >)
        requires
            ctx.wf(),
        ensures
            spec_encode(QuantityKind::Current, input, *ctx) <= 0xFFFF ==> r == Ok::<
                u16,
                MpptError,
            >(spec_encode(QuantityKind::Current, input, *ctx) as u16),
            spec_encode(QuantityKind::Current, input, *ctx) > 0xFFFF ==> r == Err::<
                u16,
                MpptError,
            >(MpptError::EncodingOverflow),
    {
        encode(QuantityKind::Current, input, ctx)
    }

    /// The scaling law this field declares.
    pub fn kind(&self) -> (k: QuantityKind)
        ensures
            k == QuantityKind::Current,
    {
        QuantityKind::Current
    }
}

impl VoltagePercentage {
    /// Wraps a raw register value; no scaling is applied.
    pub fn from_u16(data: u16) -> (r: VoltagePercentage)
        ensures
            r.data == data,
    {
        VoltagePercentage { data }
    }

    /// The raw register value.
    pub fn get_raw(&self) -> (r: u16)
        ensures
            r == self.data,
    {
        self.data
    }

    /// The physical quantity this field holds, under the percentage
    /// law. Independent of the scale context.
    pub fn get_scaled(&self, ctx: &ScaleContext) -> (v: Fixed32)
        ensures
            v.bits == spec_decode_bits(QuantityKind::VoltagePercentage, self.data, *ctx),
            v.bits == self.data * PERCENT_DIVISOR,
    {
        decode(QuantityKind::VoltagePercentage, self.data, ctx)
    }

    /// The raw register value a quantity encodes to under the
    /// percentage law, or an error if it exceeds the 16-bit range.
    pub fn u16_from_value(&self, input: Fixed32, ctx: &ScaleContext) -> (r: Result<
        u16,
        MpptError,
    >)
        requires
            ctx.wf(),
        ensures
            spec_encode(QuantityKind::VoltagePercentage, input, *ctx) <= 0xFFFF ==> r == Ok::<
                u16,
                MpptError,
            >(spec_encode(QuantityKind::VoltagePercentage, input, *ctx) as u16),
            spec_encode(QuantityKind::VoltagePercentage, input, *ctx) > 0xFFFF ==> r == Err::<
                u16,
                MpptError,
            >(MpptError::EncodingOverflow),
    {
        encode(QuantityKind::VoltagePercentage, input, ctx)
    }

    /// The scaling law this field declares.
    pub fn kind(&self) -> (k: QuantityKind)
        ensures
            k == QuantityKind::VoltagePercentage,
    {
        QuantityKind::VoltagePercentage
    }
}

impl Tempcomp {
    /// Wraps a raw register value; no scaling is applied.
    pub fn from_u16(data: u16) -> (r: Tempcomp)
        ensures
            r.data == data,
    {
        Tempcomp { data }
    }

    /// The raw register value.
    pub fn get_raw(&self) -> (r: u16)
        ensures
            r == self.data,
    {
        self.data
    }

    /// The physical quantity this field holds, under the temperature
    /// compensation law.
    pub fn get_scaled(&self, ctx: &ScaleContext) -> (v: Fixed32)
        ensures
            v.bits == spec_decode_bits(QuantityKind::TemperatureCompensation, self.data, *ctx),
    {
        decode(QuantityKind::TemperatureCompensation, self.data, ctx)
    }

    /// The raw register value a quantity encodes to under the
    /// temperature compensation law, or an error if it exceeds the
    /// 16-bit range.
    pub fn u16_from_value(&self, input: Fixed32, ctx: &ScaleContext) -> (r: Result<
        u16,
        MpptError,
    >)
        requires
            ctx.wf(),
        ensures
            spec_encode(QuantityKind::TemperatureCompensation, input, *ctx) <= 0xFFFF ==> r
                == Ok::<u16, MpptError>(
                spec_encode(QuantityKind::TemperatureCompensation, input, *ctx) as u16,
            ),
            spec_encode(QuantityKind::TemperatureCompensation, input, *ctx) > 0xFFFF ==> r
                == Err::<u16, MpptError>(MpptError::EncodingOverflow),
    {
        encode(QuantityKind::TemperatureCompensation, input, ctx)
    }

    /// The scaling law this field declares.
    pub fn kind(&self) -> (k: QuantityKind)
        ensures
            k == QuantityKind::TemperatureCompensation,
    {
        QuantityKind::TemperatureCompensation
    }
}

impl Raw {
    /// Wraps a raw register value.
    pub fn from_u16(data: u16) -> (r: Raw)
        ensures
            r.data == data,
    {
        Raw { data }
    }

    /// The raw register value.
    pub fn get_raw(&self) -> (r: u16)
        ensures
            r == self.data,
    {
        self.data
    }

    /// The quantity this field holds: exactly the raw value itself.
    pub fn get_scaled(&self, ctx: &ScaleContext) -> (v: Fixed32)
        ensures
            v.bits == spec_decode_bits(QuantityKind::Raw, self.data, *ctx),
            v.bits == self.data * FIXED32_ONE,
    {
        decode(QuantityKind::Raw, self.data, ctx)
    }

    /// The raw register value a quantity encodes to: its whole part.
    /// Never overflows, since the whole part of a decoded register
    /// value fits 16 bits; an out-of-range quantity is still reported.
    pub fn u16_from_value(&self, input: Fixed32, ctx: &ScaleContext) -> (r: Result<
        u16,
        MpptError,
    >)
        requires
            ctx.wf(),
        ensures
            spec_encode(QuantityKind::Raw, input, *ctx) <= 0xFFFF ==> r == Ok::<u16, MpptError>(
                spec_encode(QuantityKind::Raw, input, *ctx) as u16,
            ),
            spec_encode(QuantityKind::Raw, input, *ctx) > 0xFFFF ==> r == Err::<u16, MpptError>(
                MpptError::EncodingOverflow,
            ),
    {
        encode(QuantityKind::Raw, input, ctx)
    }

    /// The scaling law this field declares.
    pub fn kind(&self) -> (k: QuantityKind)
        ensures
            k == QuantityKind::Raw,
    {
        QuantityKind::Raw
    }
}

/// Law: the raw codec is an exact identity. Decoding a raw value
/// yields exactly that whole number, and encoding any quantity yields
/// its whole part, truncated toward zero — independent of the context.
pub proof fn lemma_raw_codec_identity(raw: u16, value: Fixed32, ctx: ScaleContext)
    ensures
        spec_decode_bits(QuantityKind::Raw, raw, ctx) == raw * FIXED32_ONE,
        spec_encode(QuantityKind::Raw, value, ctx) == value.bits / FIXED32_ONE,
{
}

/// Law: decoding an encoded quantity loses at most one truncation unit.
/// When encoding succeeds, the re-decoded quantity never exceeds the
/// original and falls short of it by less than the kind's divisor — one
/// raw register step.
pub proof fn lemma_decode_encode_roundtrip(kind: QuantityKind, value: Fixed32, ctx: ScaleContext)
    requires
        ctx.wf(),
        spec_encode(kind, value, ctx) <= 0xFFFF,
    ensures
        spec_decode_bits(kind, spec_encode(kind, value, ctx) as u16, ctx) <= value.bits,
        value.bits - spec_decode_bits(kind, spec_encode(kind, value, ctx) as u16, ctx)
            < spec_divisor(kind, ctx),
{
    let d = spec_divisor(kind, ctx);
    lemma_divisor_pos(kind, ctx);
    let b = value.bits as int;
    lemma_fundamental_div_mod(b, d);
    lemma_remainder_upper(b, d);
    lemma_remainder_lower(b, d);
    assert(b / d >= 0) by (nonlinear_arith)
        requires
            b >= 0,
            d >= 1,
    ;
    assert((b / d) * d == d * (b / d)) by (nonlinear_arith);
}

} // verus!
