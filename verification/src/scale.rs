//! Session scale factors reported by the controller.
//!
//! The first four cells of the status register block carry two
//! fixed-point scale factors: each is `whole + fraction / 65536`, with
//! the whole and fractional parts in one 16-bit cell each. A factor is
//! held as its numerator over 65536, which represents it exactly.

use vstd::prelude::*;

use crate::MpptError;

verus! {

/// Denominator of a scale factor: one scale unit is 1/65536.
pub const SCALE_ONE: u32 = 65536;

/// The two session scale factors, derived once per session from the
/// head of the status block and then shared read-only by every decode
/// and encode that needs them.
///
/// A factor's value is `num / 65536`; `v_num == 98304` means a voltage
/// scale of 1.5.
#[derive(Clone, Copy, Debug, PartialEq, Eq, Structural)]
pub struct ScaleContext {
    /// Voltage scale numerator, in units of 1/65536.
    pub v_num: u32,
    /// Current scale numerator, in units of 1/65536.
    pub i_num: u32,
}

impl ScaleContext {
    /// A context is well formed when both factors are positive, as the
    /// controller reports them on a live session.
    pub open spec fn wf(self) -> bool {
        self.v_num >= 1 && self.i_num >= 1
    }

    /// The scale numerator a register pair denotes: `whole + frac/65536`,
    /// as a numerator over 65536.
    pub open spec fn spec_factor(whole: u16, frac: u16) -> u32 {
        (whole * 65536 + frac) as u32
    }

    /// Derives the scale context from a decoded status register array.
    /// Pure function of its input; fails if fewer than four cells are
    /// given.
    pub fn from_registers(data: &Vec<u16>) -> (r: Result<ScaleContext, MpptError>)
        ensures
            data@.len() >= 4 ==> r == Ok::<ScaleContext, MpptError>(ScaleContext {
                v_num: Self::spec_factor(data@[0], data@[1]),
                i_num: Self::spec_factor(data@[2], data@[3]),
            }),
            data@.len() < 4 ==> r == Err::<ScaleContext, MpptError>(MpptError::InsufficientData),
    {
        if data.len() < 4 {
            return Err(MpptError::InsufficientData);
        }
        let v_num: u32 = (data[0] as u32) * SCALE_ONE + (data[1] as u32);
        let i_num: u32 = (data[2] as u32) * SCALE_ONE + (data[3] as u32);
        Ok(ScaleContext { v_num, i_num })
    }

    /// The identity context: both factors exactly 1.0.
    pub fn unit() -> (r: ScaleContext)
        ensures
            r == (ScaleContext { v_num: SCALE_ONE, i_num: SCALE_ONE }),
            r.wf(),
    {
        ScaleContext { v_num: SCALE_ONE, i_num: SCALE_ONE }
    }
}

} // verus!
