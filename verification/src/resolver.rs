//! Name-based field resolution over the configuration record.
//!
//! Field names arrive as untrusted strings from the command line. The
//! resolver is the single chokepoint that turns such a name into a
//! strongly typed, offset-correct operation: one static table maps each
//! name, case-insensitively, to the field's quantity kind and its
//! block-relative register offset, so get, set and display stay
//! consistent by construction. Unknown names are reported as
//! [`MpptError::UnknownField`], never a panic.

use vstd::prelude::*;

use crate::datatypes::{decode, encode, spec_decode_bits, spec_encode, Fixed32, QuantityKind};
use crate::mppt_structs::MpptEeprom;
use crate::offsets::{OffsetsEeprom, EEPROM_BEGIN};
use crate::scale::ScaleContext;
use crate::MpptError;

verus! {

/// ASCII case folding of one character: an upper-case letter maps to
/// its lower-case form, every other character to itself.
pub open spec fn lower_char(c: char) -> char {
    match c {
        'A' => 'a',
        'B' => 'b',
        'C' => 'c',
        'D' => 'd',
        'E' => 'e',
        'F' => 'f',
        'G' => 'g',
        'H' => 'h',
        'I' => 'i',
        'J' => 'j',
        'K' => 'k',
        'L' => 'l',
        'M' => 'm',
        'N' => 'n',
        'O' => 'o',
        'P' => 'p',
        'Q' => 'q',
        'R' => 'r',
        'S' => 's',
        'T' => 't',
        'U' => 'u',
        'V' => 'v',
        'W' => 'w',
        'X' => 'x',
        'Y' => 'y',
        'Z' => 'z',
        _ => c,
    }
}

/// ASCII case folding of a character sequence.
pub open spec fn lower_chars(s: Seq<char>) -> Seq<char> {
    s.map_values(|c: char| lower_char(c))
}

/// Folding a character twice folds it once: the image of the fold
/// holds no upper-case letter.
pub proof fn lemma_lower_char_idempotent(c: char)
    ensures
        lower_char(lower_char(c)) == lower_char(c),
{
}

/// Law: case folding is idempotent, so a folded name looks up the same
/// field as the name itself.
pub proof fn lemma_lower_chars_idempotent(s: Seq<char>)
    ensures
        lower_chars(lower_chars(s)) == lower_chars(s),
{
    assert forall|i: int| 0 <= i < s.len() implies lower_chars(lower_chars(s))[i] == lower_chars(
        s,
    )[i] by {
        lemma_lower_char_idempotent(s[i]);
    }
    assert(lower_chars(lower_chars(s)) =~= lower_chars(s));
}

/// Executable ASCII case folding of one character.
fn lower_char_exec(c: char) -> (r: char)
    ensures
        r == lower_char(c),
{
    match c {
        'A' => 'a',
        'B' => 'b',
        'C' => 'c',
        'D' => 'd',
        'E' => 'e',
        'F' => 'f',
        'G' => 'g',
        'H' => 'h',
        'I' => 'i',
        'J' => 'j',
        'K' => 'k',
        'L' => 'l',
        'M' => 'm',
        'N' => 'n',
        'O' => 'o',
        'P' => 'p',
        'Q' => 'q',
        'R' => 'r',
        'S' => 's',
        'T' => 't',
        'U' => 'u',
        'V' => 'v',
        'W' => 'w',
        'X' => 'x',
        'Y' => 'y',
        'Z' => 'z',
        _ => c,
    }
}

/// Whether a name, folded to lower case, equals a table entry `t`
/// (already lower case).
fn name_matches(s: &str, t: &str) -> (b: bool)
    ensures
        b == (lower_chars(s@) == t@),
{
    let n = s.unicode_len();
    if n != t.unicode_len() {
        proof {
            assert(lower_chars(s@).len() == s@.len());
        }
        return false;
    }
    let mut i: usize = 0;
    while i < n
        invariant
            n == s@.len(),
            n == t@.len(),
            0 <= i <= n,
            forall|j: int| 0 <= j < i ==> lower_chars(s@)[j] == t@[j],
        decreases n - i,
    {
        let cs = lower_char_exec(s.get_char(i));
        let ct = t.get_char(i);
        if cs != ct {
            proof {
                assert(lower_chars(s@)[i as int] != t@[i as int]);
            }
            return false;
        }
        i += 1;
    }
    proof {
        assert(lower_chars(s@) =~= t@);
    }
    true
}

/// A field of the configuration record, the target of one get or set
/// operation.
#[derive(Clone, Copy, Debug, PartialEq, Eq, Structural)]
pub enum EepromField {
    EvAbsorp,
    EvFloat,
    EtAbsorp,
    EtAbsorpExt,
    EvAbsorpExt,
    EvFloatCancel,
    EtFloatExitCum,
    EvEq,
    EtEqcalendar,
    EtEqAbove,
    EtEqReg,
    EtBattService,
    EvTempcomp,
    EvHvd,
    EvHvr,
    EvbRefLim,
    EtbMax,
    EtbMin,
    EvSocGGy,
    EvSocGyY,
    EvSocYYr,
    EvSocYrR,
    EmodbusId,
    EmeterbusId,
    EibLim,
    EvaRefFixedInit,
    EvaRefFixedPctInit,
}

/// The field a name denotes, case-insensitively; `None` for a name
/// outside the table.
pub open spec fn spec_lookup(name: Seq<char>) -> Option<EepromField> {
    let l = lower_chars(name);
    if l == "ev_absorp"@ {
        Some(EepromField::EvAbsorp)
    } else if l == "ev_float"@ {
        Some(EepromField::EvFloat)
    } else if l == "et_absorp"@ {
        Some(EepromField::EtAbsorp)
    } else if l == "et_absorp_ext"@ {
        Some(EepromField::EtAbsorpExt)
    } else if l == "ev_absorp_ext"@ {
        Some(EepromField::EvAbsorpExt)
    } else if l == "ev_float_cancel"@ {
        Some(EepromField::EvFloatCancel)
    } else if l == "et_float_exit_cum"@ {
        Some(EepromField::EtFloatExitCum)
    } else if l == "ev_eq"@ {
        Some(EepromField::EvEq)
    } else if l == "et_eqcalendar"@ {
        Some(EepromField::EtEqcalendar)
    } else if l == "et_eq_above"@ {
        Some(EepromField::EtEqAbove)
    } else if l == "et_eq_reg"@ {
        Some(EepromField::EtEqReg)
    } else if l == "et_batt_service"@ {
        Some(EepromField::EtBattService)
    } else if l == "ev_tempcomp"@ {
        Some(EepromField::EvTempcomp)
    } else if l == "ev_hvd"@ {
        Some(EepromField::EvHvd)
    } else if l == "ev_hvr"@ {
        Some(EepromField::EvHvr)
    } else if l == "evb_ref_lim"@ {
        Some(EepromField::EvbRefLim)
    } else if l == "etb_max"@ {
        Some(EepromField::EtbMax)
    } else if l == "etb_min"@ {
        Some(EepromField::EtbMin)
    } else if l == "ev_soc_g_gy"@ {
        Some(EepromField::EvSocGGy)
    } else if l == "ev_soc_gy_y"@ {
        Some(EepromField::EvSocGyY)
    } else if l == "ev_soc_y_yr"@ {
        Some(EepromField::EvSocYYr)
    } else if l == "ev_soc_yr_r"@ {
        Some(EepromField::EvSocYrR)
    } else if l == "emodbus_id"@ {
        Some(EepromField::EmodbusId)
    } else if l == "emeterbus_id"@ {
        Some(EepromField::EmeterbusId)
    } else if l == "eib_lim"@ {
        Some(EepromField::EibLim)
    } else if l == "eva_ref_fixed_init"@ {
        Some(EepromField::EvaRefFixedInit)
    } else if l == "eva_ref_fixed_pct_init"@ {
        Some(EepromField::EvaRefFixedPctInit)
    } else {
        None
    }
}

/// Law: lookup is case-insensitive. A name and its case-folded form
/// denote the same field (or both none).
pub proof fn lemma_lookup_case_insensitive(name: Seq<char>)
    ensures
        spec_lookup(lower_chars(name)) == spec_lookup(name),
{
    lemma_lower_chars_idempotent(name);
}

/// Resolves a field name, case-insensitively.
pub fn lookup(name: &str) -> (r: Option<EepromField>)
    ensures
        r == spec_lookup(name@),
{
    if name_matches(name, "ev_absorp") {
        Some(EepromField::EvAbsorp)
    } else if name_matches(name, "ev_float") {
        Some(EepromField::EvFloat)
    } else if name_matches(name, "et_absorp") {
        Some(EepromField::EtAbsorp)
    } else if name_matches(name, "et_absorp_ext") {
        Some(EepromField::EtAbsorpExt)
    } else if name_matches(name, "ev_absorp_ext") {
        Some(EepromField::EvAbsorpExt)
    } else if name_matches(name, "ev_float_cancel") {
        Some(EepromField::EvFloatCancel)
    } else if name_matches(name, "et_float_exit_cum") {
        Some(EepromField::EtFloatExitCum)
    } else if name_matches(name, "ev_eq") {
        Some(EepromField::EvEq)
    } else if name_matches(name, "et_eqcalendar") {
        Some(EepromField::EtEqcalendar)
    } else if name_matches(name, "et_eq_above") {
        Some(EepromField::EtEqAbove)
    } else if name_matches(name, "et_eq_reg") {
        Some(EepromField::EtEqReg)
    } else if name_matches(name, "et_batt_service") {
        Some(EepromField::EtBattService)
    } else if name_matches(name, "ev_tempcomp") {
        Some(EepromField::EvTempcomp)
    } else if name_matches(name, "ev_hvd") {
        Some(EepromField::EvHvd)
    } else if name_matches(name, "ev_hvr") {
        Some(EepromField::EvHvr)
    } else if name_matches(name, "evb_ref_lim") {
        Some(EepromField::EvbRefLim)
    } else if name_matches(name, "etb_max") {
        Some(EepromField::EtbMax)
    } else if name_matches(name, "etb_min") {
        Some(EepromField::EtbMin)
    } else if name_matches(name, "ev_soc_g_gy") {
        Some(EepromField::EvSocGGy)
    } else if name_matches(name, "ev_soc_gy_y") {
        Some(EepromField::EvSocGyY)
    } else if name_matches(name, "ev_soc_y_yr") {
        Some(EepromField::EvSocYYr)
    } else if name_matches(name, "ev_soc_yr_r") {
        Some(EepromField::EvSocYrR)
    } else if name_matches(name, "emodbus_id") {
        Some(EepromField::EmodbusId)
    } else if name_matches(name, "emeterbus_id") {
        Some(EepromField::EmeterbusId)
    } else if name_matches(name, "eib_lim") {
        Some(EepromField::EibLim)
    } else if name_matches(name, "eva_ref_fixed_init") {
        Some(EepromField::EvaRefFixedInit)
    } else if name_matches(name, "eva_ref_fixed_pct_init") {
        Some(EepromField::EvaRefFixedPctInit)
    } else {
        None
    }
}

/// The field's block-relative register offset in the configuration
/// table.
pub open spec fn spec_offset(f: EepromField) -> usize {
    match f {
        EepromField::EvAbsorp => OffsetsEeprom::EV_ABSORP,
        EepromField::EvFloat => OffsetsEeprom::EV_FLOAT,
        EepromField::EtAbsorp => OffsetsEeprom::ET_ABSORP,
        EepromField::EtAbsorpExt => OffsetsEeprom::ET_ABSORP_EXT,
        EepromField::EvAbsorpExt => OffsetsEeprom::EV_ABSORP_EXT,
        EepromField::EvFloatCancel => OffsetsEeprom::EV_FLOAT_CANCEL,
        EepromField::EtFloatExitCum => OffsetsEeprom::ET_FLOAT_EXIT_CUM,
        EepromField::EvEq => OffsetsEeprom::EV_EQ,
        EepromField::EtEqcalendar => OffsetsEeprom::ET_EQCALENDAR,
        EepromField::EtEqAbove => OffsetsEeprom::ET_EQ_ABOVE,
        EepromField::EtEqReg => OffsetsEeprom::ET_EQ_REG,
        EepromField::EtBattService => OffsetsEeprom::ET_BATT_SERVICE,
        EepromField::EvTempcomp => OffsetsEeprom::EV_TEMPCOMP,
        EepromField::EvHvd => OffsetsEeprom::EV_HVD,
        EepromField::EvHvr => OffsetsEeprom::EV_HVR,
        EepromField::EvbRefLim => OffsetsEeprom::EVB_REF_LIM,
        EepromField::EtbMax => OffsetsEeprom::ETB_MAX,
        EepromField::EtbMin => OffsetsEeprom::ETB_MIN,
        EepromField::EvSocGGy => OffsetsEeprom::EV_SOC_G_GY,
        EepromField::EvSocGyY => OffsetsEeprom::EV_SOC_GY_Y,
        EepromField::EvSocYYr => OffsetsEeprom::EV_SOC_Y_YR,
        EepromField::EvSocYrR => OffsetsEeprom::EV_SOC_YR_R,
        EepromField::EmodbusId => OffsetsEeprom::EMODBUS_ID,
        EepromField::EmeterbusId => OffsetsEeprom::EMETERBUS_ID,
        EepromField::EibLim => OffsetsEeprom::EIB_LIM,
        EepromField::EvaRefFixedInit => OffsetsEeprom::EVA_REF_FIXED_INIT,
        EepromField::EvaRefFixedPctInit => OffsetsEeprom::EVA_REF_FIXED_PCT_INIT,
    }
}

/// The quantity kind the field declares, as laid down in the
/// configuration record.
pub open spec fn spec_kind(f: EepromField) -> QuantityKind {
    match f {
        EepromField::EvAbsorp => QuantityKind::Voltage,
        EepromField::EvFloat => QuantityKind::Voltage,
        EepromField::EtAbsorp => QuantityKind::Raw,
        EepromField::EtAbsorpExt => QuantityKind::Raw,
        EepromField::EvAbsorpExt => QuantityKind::Voltage,
        EepromField::EvFloatCancel => QuantityKind::Voltage,
        EepromField::EtFloatExitCum => QuantityKind::Raw,
        EepromField::EvEq => QuantityKind::Voltage,
        EepromField::EtEqcalendar => QuantityKind::Raw,
        EepromField::EtEqAbove => QuantityKind::Raw,
        EepromField::EtEqReg => QuantityKind::Raw,
        EepromField::EtBattService => QuantityKind::Raw,
        EepromField::EvTempcomp => QuantityKind::TemperatureCompensation,
        EepromField::EvHvd => QuantityKind::Voltage,
        EepromField::EvHvr => QuantityKind::Voltage,
        EepromField::EvbRefLim => QuantityKind::Voltage,
        EepromField::EtbMax => QuantityKind::Raw,
        EepromField::EtbMin => QuantityKind::Raw,
        EepromField::EvSocGGy => QuantityKind::Voltage,
        EepromField::EvSocGyY => QuantityKind::Voltage,
        EepromField::EvSocYYr => QuantityKind::Voltage,
        EepromField::EvSocYrR => QuantityKind::Voltage,
        EepromField::EmodbusId => QuantityKind::Raw,
        EepromField::EmeterbusId => QuantityKind::Raw,
        EepromField::EibLim => QuantityKind::Current,
        EepromField::EvaRefFixedInit => QuantityKind::Voltage,
        EepromField::EvaRefFixedPctInit => QuantityKind::VoltagePercentage,
    }
}

impl EepromField {
    /// The field's block-relative register offset.
    pub fn offset(self) -> (r: usize)
        ensures
            r == spec_offset(self),
    {
        match self {
            EepromField::EvAbsorp => OffsetsEeprom::EV_ABSORP,
            EepromField::EvFloat => OffsetsEeprom::EV_FLOAT,
            EepromField::EtAbsorp => OffsetsEeprom::ET_ABSORP,
            EepromField::EtAbsorpExt => OffsetsEeprom::ET_ABSORP_EXT,
            EepromField::EvAbsorpExt => OffsetsEeprom::EV_ABSORP_EXT,
            EepromField::EvFloatCancel => OffsetsEeprom::EV_FLOAT_CANCEL,
            EepromField::EtFloatExitCum => OffsetsEeprom::ET_FLOAT_EXIT_CUM,
            EepromField::EvEq => OffsetsEeprom::EV_EQ,
            EepromField::EtEqcalendar => OffsetsEeprom::ET_EQCALENDAR,
            EepromField::EtEqAbove => OffsetsEeprom::ET_EQ_ABOVE,
            EepromField::EtEqReg => OffsetsEeprom::ET_EQ_REG,
            EepromField::EtBattService => OffsetsEeprom::ET_BATT_SERVICE,
            EepromField::EvTempcomp => OffsetsEeprom::EV_TEMPCOMP,
            EepromField::EvHvd => OffsetsEeprom::EV_HVD,
            EepromField::EvHvr => OffsetsEeprom::EV_HVR,
            EepromField::EvbRefLim => OffsetsEeprom::EVB_REF_LIM,
            EepromField::EtbMax => OffsetsEeprom::ETB_MAX,
            EepromField::EtbMin => OffsetsEeprom::ETB_MIN,
            EepromField::EvSocGGy => OffsetsEeprom::EV_SOC_G_GY,
            EepromField::EvSocGyY => OffsetsEeprom::EV_SOC_GY_Y,
            EepromField::EvSocYYr => OffsetsEeprom::EV_SOC_Y_YR,
            EepromField::EvSocYrR => OffsetsEeprom::EV_SOC_YR_R,
            EepromField::EmodbusId => OffsetsEeprom::EMODBUS_ID,
            EepromField::EmeterbusId => OffsetsEeprom::EMETERBUS_ID,
            EepromField::EibLim => OffsetsEeprom::EIB_LIM,
            EepromField::EvaRefFixedInit => OffsetsEeprom::EVA_REF_FIXED_INIT,
            EepromField::EvaRefFixedPctInit => OffsetsEeprom::EVA_REF_FIXED_PCT_INIT,
        }
    }

    /// The quantity kind the field declares.
    pub fn kind(self) -> (r: QuantityKind)
        ensures
            r == spec_kind(self),
    {
        match self {
            EepromField::EvAbsorp => QuantityKind::Voltage,
            EepromField::EvFloat => QuantityKind::Voltage,
            EepromField::EtAbsorp => QuantityKind::Raw,
            EepromField::EtAbsorpExt => QuantityKind::Raw,
            EepromField::EvAbsorpExt => QuantityKind::Voltage,
            EepromField::EvFloatCancel => QuantityKind::Voltage,
            EepromField::EtFloatExitCum => QuantityKind::Raw,
            EepromField::EvEq => QuantityKind::Voltage,
            EepromField::EtEqcalendar => QuantityKind::Raw,
            EepromField::EtEqAbove => QuantityKind::Raw,
            EepromField::EtEqReg => QuantityKind::Raw,
            EepromField::EtBattService => QuantityKind::Raw,
            EepromField::EvTempcomp => QuantityKind::TemperatureCompensation,
            EepromField::EvHvd => QuantityKind::Voltage,
            EepromField::EvHvr => QuantityKind::Voltage,
            EepromField::EvbRefLim => QuantityKind::Voltage,
            EepromField::EtbMax => QuantityKind::Raw,
            EepromField::EtbMin => QuantityKind::Raw,
            EepromField::EvSocGGy => QuantityKind::Voltage,
            EepromField::EvSocGyY => QuantityKind::Voltage,
            EepromField::EvSocYYr => QuantityKind::Voltage,
            EepromField::EvSocYrR => QuantityKind::Voltage,
            EepromField::EmodbusId => QuantityKind::Raw,
            EepromField::EmeterbusId => QuantityKind::Raw,
            EepromField::EibLim => QuantityKind::Current,
            EepromField::EvaRefFixedInit => QuantityKind::Voltage,
            EepromField::EvaRefFixedPctInit => QuantityKind::VoltagePercentage,
        }
    }
}

/// The raw register value a configuration record holds for a field.
pub open spec fn spec_raw_of(rec: MpptEeprom, f: EepromField) -> u16 {
    match f {
        EepromField::EvAbsorp => rec.ev_absorp.data,
        EepromField::EvFloat => rec.ev_float.data,
        EepromField::EtAbsorp => rec.et_absorp.data,
        EepromField::EtAbsorpExt => rec.et_absorp_ext.data,
        EepromField::EvAbsorpExt => rec.ev_absorp_ext.data,
        EepromField::EvFloatCancel => rec.ev_float_cancel.data,
        EepromField::EtFloatExitCum => rec.et_float_exit_cum.data,
        EepromField::EvEq => rec.ev_eq.data,
        EepromField::EtEqcalendar => rec.et_eqcalendar.data,
        EepromField::EtEqAbove => rec.et_eq_above.data,
        EepromField::EtEqReg => rec.et_eq_reg.data,
        EepromField::EtBattService => rec.et_batt_service.data,
        EepromField::EvTempcomp => rec.ev_tempcomp.data,
        EepromField::EvHvd => rec.ev_hvd.data,
        EepromField::EvHvr => rec.ev_hvr.data,
        EepromField::EvbRefLim => rec.evb_ref_lim.data,
        EepromField::EtbMax => rec.etb_max.data,
        EepromField::EtbMin => rec.etb_min.data,
        EepromField::EvSocGGy => rec.ev_soc_g_gy.data,
        EepromField::EvSocGyY => rec.ev_soc_gy_y.data,
        EepromField::EvSocYYr => rec.ev_soc_y_yr.data,
        EepromField::EvSocYrR => rec.ev_soc_yr_r.data,
        EepromField::EmodbusId => rec.emodbus_id.data,
        EepromField::EmeterbusId => rec.emeterbus_id.data,
        EepromField::EibLim => rec.eib_lim.data,
        EepromField::EvaRefFixedInit => rec.eva_ref_fixed_init.data,
        EepromField::EvaRefFixedPctInit => rec.eva_ref_fixed_pct_init.data,
    }
}

impl MpptEeprom {
    /// The raw register value this record holds for a field.
    pub fn raw_of(&self, f: EepromField) -> (r: u16)
        ensures
            r == spec_raw_of(*self, f),
    {
        match f {
            EepromField::EvAbsorp => self.ev_absorp.data,
            EepromField::EvFloat => self.ev_float.data,
            EepromField::EtAbsorp => self.et_absorp.data,
            EepromField::EtAbsorpExt => self.et_absorp_ext.data,
            EepromField::EvAbsorpExt => self.ev_absorp_ext.data,
            EepromField::EvFloatCancel => self.ev_float_cancel.data,
            EepromField::EtFloatExitCum => self.et_float_exit_cum.data,
            EepromField::EvEq => self.ev_eq.data,
            EepromField::EtEqcalendar => self.et_eqcalendar.data,
            EepromField::EtEqAbove => self.et_eq_above.data,
            EepromField::EtEqReg => self.et_eq_reg.data,
            EepromField::EtBattService => self.et_batt_service.data,
            EepromField::EvTempcomp => self.ev_tempcomp.data,
            EepromField::EvHvd => self.ev_hvd.data,
            EepromField::EvHvr => self.ev_hvr.data,
            EepromField::EvbRefLim => self.evb_ref_lim.data,
            EepromField::EtbMax => self.etb_max.data,
            EepromField::EtbMin => self.etb_min.data,
            EepromField::EvSocGGy => self.ev_soc_g_gy.data,
            EepromField::EvSocGyY => self.ev_soc_gy_y.data,
            EepromField::EvSocYYr => self.ev_soc_y_yr.data,
            EepromField::EvSocYrR => self.ev_soc_yr_r.data,
            EepromField::EmodbusId => self.emodbus_id.data,
            EepromField::EmeterbusId => self.emeterbus_id.data,
            EepromField::EibLim => self.eib_lim.data,
            EepromField::EvaRefFixedInit => self.eva_ref_fixed_init.data,
            EepromField::EvaRefFixedPctInit => self.eva_ref_fixed_pct_init.data,
        }
    }
}

/// The block-relative offset a name denotes in the configuration
/// table, case-insensitively; `None` for an unknown name.
pub fn match_offset(name: &str) -> (r: Option<usize>)
    ensures
        spec_lookup(name@) matches Some(f) ==> r == Some(spec_offset(f)),
        spec_lookup(name@) is None ==> r is None,
{
    match lookup(name) {
        Some(f) => Some(f.offset()),
        None => None,
    }
}

/// One resolved read: the field's declared kind, its raw register
/// value, and the physical quantity it decodes to.
#[derive(Clone, Copy, Debug, PartialEq, Eq, Structural)]
pub struct DecodedField {
    /// The scaling law the field declares.
    pub kind: QuantityKind,
    /// The raw 16-bit register value.
    pub raw: u16,
    /// The physical quantity the raw value decodes to.
    pub value: Fixed32,
}

/// One resolved write: the raw value to store and the absolute bus
/// address to store it at.
#[derive(Clone, Copy, Debug, PartialEq, Eq, Structural)]
pub struct RegisterWrite {
    /// The new raw register value.
    pub raw: u16,
    /// The absolute write address: configuration-region base plus the
    /// field's block-relative offset.
    pub address: u16,
}

/// Resolves a name and reads the field from the configuration record:
/// its kind, its raw value, and the decoded quantity. Fails exactly on
/// unknown names, and never panics.
pub fn get_field(name: &str, record: &MpptEeprom, ctx: &ScaleContext) -> (r: Result<
    DecodedField,
    MpptError,
>)
    ensures
        spec_lookup(name@) is None <==> r == Err::<DecodedField, MpptError>(
            MpptError::UnknownField,
        ),
        spec_lookup(name@) matches Some(f) ==> r == Ok::<DecodedField, MpptError>(
            DecodedField {
                kind: spec_kind(f),
                raw: spec_raw_of(*record, f),
                value: Fixed32 {
                    bits: spec_decode_bits(spec_kind(f), spec_raw_of(*record, f), *ctx) as u64,
                },
            },
        ),
{
    let f = match lookup(name) {
        Some(f) => f,
        None => {
            return Err(MpptError::UnknownField);
        },
    };
    let raw = record.raw_of(f);
    let kind = f.kind();
    let value = decode(kind, raw, ctx);
    Ok(DecodedField { kind, raw, value })
}

/// Resolves a name and computes the write that stores a quantity into
/// the field: the value encoded under the field's declared law, and
/// the absolute register address. Performs no bus operation. Fails
/// exactly on unknown names and on quantities outside the 16-bit
/// register range, and never panics.
pub fn set_field(name: &str, value: Fixed32, ctx: &ScaleContext) -> (r: Result<
    RegisterWrite,
    MpptError,
>)
    requires
        ctx.wf(),
    ensures
        spec_lookup(name@) is None <==> r == Err::<RegisterWrite, MpptError>(
            MpptError::UnknownField,
        ),
        spec_lookup(name@) matches Some(f) ==> {
            let q = spec_encode(spec_kind(f), value, *ctx);
            &&& q > 0xFFFF ==> r == Err::<RegisterWrite, MpptError>(MpptError::EncodingOverflow)
            &&& q <= 0xFFFF ==> r == Ok::<RegisterWrite, MpptError>(
                RegisterWrite {
                    raw: q as u16,
                    address: (EEPROM_BEGIN + spec_offset(f)) as u16,
                },
            )
        },
{
    let f = match lookup(name) {
        Some(f) => f,
        None => {
            return Err(MpptError::UnknownField);
        },
    };
    let raw = match encode(f.kind(), value, ctx) {
        Ok(raw) => raw,
        Err(e) => {
            return Err(e);
        },
    };
    let address = EEPROM_BEGIN + (f.offset() as u16);
    Ok(RegisterWrite { raw, address })
}

} // verus!
