//! Canonical display strings.
//!
//! Every field displays as `"<decoded value><unit>, raw: <raw>"`. A
//! decoded quantity is an exact multiple of 2^-32, so its shortest
//! decimal form is finite: the whole part in decimal, then, when the
//! fractional part is not zero, a point and the fraction's decimal
//! digits up to the last non-zero one (a fraction with denominator 2^32
//! ends within 32 digits).

use vstd::prelude::*;
use vstd::string::*;

use crate::datatypes::{
    decode, spec_decode_bits, Current, Fixed32, QuantityKind, Raw, Tempcomp, Voltage,
    VoltagePercentage, FIXED32_ONE,
};
use crate::mppt_structs::MpptEeprom;
use crate::resolver::DecodedField;
use crate::scale::ScaleContext;

verus! {

/// The decimal digit character for `d` in `0..=9`.
pub open spec fn digit_char(d: int) -> char {
    if d == 0 {
        '0'
    } else if d == 1 {
        '1'
    } else if d == 2 {
        '2'
    } else if d == 3 {
        '3'
    } else if d == 4 {
        '4'
    } else if d == 5 {
        '5'
    } else if d == 6 {
        '6'
    } else if d == 7 {
        '7'
    } else if d == 8 {
        '8'
    } else {
        '9'
    }
}

/// The decimal digits of a whole number, most significant first, no
/// leading zero except for zero itself.
pub open spec fn dec_str(n: nat) -> Seq<char>
    decreases n,
{
    if n < 10 {
        seq![digit_char(n as int)]
    } else {
        dec_str(n / 10) + seq![digit_char((n % 10) as int)]
    }
}

/// The decimal digits after the point of the fraction `f / 2^32`,
/// up to the last non-zero digit: each step multiplies by ten, emits
/// the whole part, and keeps the remainder. The fuel bounds the digit
/// count; 32 digits always suffice for a denominator of 2^32.
pub open spec fn frac_str(f: nat, fuel: nat) -> Seq<char>
    decreases fuel,
{
    if f == 0 || fuel == 0 {
        Seq::empty()
    } else {
        seq![digit_char((f * 10 / (FIXED32_ONE as nat)) as int)] + frac_str(
            (f * 10) % (FIXED32_ONE as nat),
            (fuel - 1) as nat,
        )
    }
}

/// The shortest exact decimal form of a fixed-point quantity: the whole
/// part, then a point and the fraction's digits when the fraction is
/// not zero.
pub open spec fn fixed_str(v: Fixed32) -> Seq<char> {
    let whole = (v.bits / FIXED32_ONE) as nat;
    let frac = (v.bits % FIXED32_ONE) as nat;
    if frac == 0 {
        dec_str(whole)
    } else {
        dec_str(whole) + seq!['.'] + frac_str(frac, 32)
    }
}

/// The kind's unit label, appended to the decoded value.
pub open spec fn spec_unit(kind: QuantityKind) -> Seq<char> {
    match kind {
        QuantityKind::Voltage => "V"@,
        QuantityKind::Current => "A"@,
        QuantityKind::VoltagePercentage => "%"@,
        QuantityKind::TemperatureCompensation => " - temperature compensation value"@,
        QuantityKind::Raw => ""@,
    }
}

/// The kind's human-readable name.
pub open spec fn spec_kind_name(kind: QuantityKind) -> Seq<char> {
    match kind {
        QuantityKind::Voltage => "Voltage"@,
        QuantityKind::Current => "Current"@,
        QuantityKind::VoltagePercentage => "Voltage Percentage"@,
        QuantityKind::TemperatureCompensation => "Temperature Compensation"@,
        QuantityKind::Raw => "Raw Value"@,
    }
}

/// The canonical display string of a raw register value under a kind:
/// `"<decoded value><unit>, raw: <raw>"`.
pub open spec fn spec_display(kind: QuantityKind, raw: u16, ctx: ScaleContext) -> Seq<char> {
    fixed_str(Fixed32 { bits: spec_decode_bits(kind, raw, ctx) as u64 }) + spec_unit(kind)
        + ", raw: "@ + dec_str(raw as nat)
}

/// The digit character for `d` in `0..=9`, as a one-character string.
fn digit_str(d: u64) -> (s: &'static str)
    requires
        d < 10,
    ensures
        s@ == seq![digit_char(d as int)],
{
    proof {
        reveal_strlit("0");
        reveal_strlit("1");
        reveal_strlit("2");
        reveal_strlit("3");
        reveal_strlit("4");
        reveal_strlit("5");
        reveal_strlit("6");
        reveal_strlit("7");
        reveal_strlit("8");
        reveal_strlit("9");
    }
    match d {
        0 => "0",
        1 => "1",
        2 => "2",
        3 => "3",
        4 => "4",
        5 => "5",
        6 => "6",
        7 => "7",
        8 => "8",
        _ => "9",
    }
}

/// The decimal digits of a whole number as a string.
fn u64_dec(n: u64) -> (s: String)
    ensures
        s@ == dec_str(n as nat),
    decreases n,
{
    if n < 10 {
        String::from_str(digit_str(n))
    } else {
        let mut s = u64_dec(n / 10);
        s.append(digit_str(n % 10));
        s
    }
}

/// The decimal digits after the point of the fraction `f / 2^32`, up
/// to the last non-zero digit.
fn frac_dec(f: u64) -> (s: String)
    requires
        f < FIXED32_ONE,
    ensures
        s@ == frac_str(f as nat, 32),
{
    let mut s = String::new();
    let mut cur = f;
    let mut fuel: u64 = 32;
    while cur != 0 && fuel != 0
        invariant
            cur < FIXED32_ONE,
            fuel <= 32,
            s@ + frac_str(cur as nat, fuel as nat) == frac_str(f as nat, 32),
        decreases fuel,
    {
        let scaled = cur * 10;
        let d = scaled / FIXED32_ONE;
        proof {
            assert(scaled / FIXED32_ONE < 10) by (nonlinear_arith)
                requires
                    scaled < 10 * FIXED32_ONE,
            ;
            assert(s@ + (seq![digit_char(d as int)] + frac_str(
                (scaled % FIXED32_ONE) as nat,
                (fuel - 1) as nat,
            )) =~= (s@ + seq![digit_char(d as int)]) + frac_str(
                (scaled % FIXED32_ONE) as nat,
                (fuel - 1) as nat,
            ));
        }
        s.append(digit_str(d));
        cur = scaled % FIXED32_ONE;
        fuel -= 1;
    }
    proof {
        assert(s@ + frac_str(cur as nat, fuel as nat) =~= s@);
    }
    s
}

/// The shortest exact decimal form of a fixed-point quantity.
pub fn fixed_to_string(v: Fixed32) -> (s: String)
    ensures
        s@ == fixed_str(v),
{
    let whole = v.bits / FIXED32_ONE;
    let frac = v.bits % FIXED32_ONE;
    let mut s = u64_dec(whole);
    if frac != 0 {
        proof {
            reveal_strlit(".");
        }
        s.append(".");
        let fs = frac_dec(frac);
        s.append(fs.as_str());
    }
    s
}

/// The kind's unit label.
pub fn unit(kind: QuantityKind) -> (s: &'static str)
    ensures
        s@ == spec_unit(kind),
{
    match kind {
        QuantityKind::Voltage => "V",
        QuantityKind::Current => "A",
        QuantityKind::VoltagePercentage => "%",
        QuantityKind::TemperatureCompensation => " - temperature compensation value",
        QuantityKind::Raw => "",
    }
}

/// The kind's human-readable name.
pub fn kind_name(kind: QuantityKind) -> (s: &'static str)
    ensures
        s@ == spec_kind_name(kind),
{
    match kind {
        QuantityKind::Voltage => "Voltage",
        QuantityKind::Current => "Current",
        QuantityKind::VoltagePercentage => "Voltage Percentage",
        QuantityKind::TemperatureCompensation => "Temperature Compensation",
        QuantityKind::Raw => "Raw Value",
    }
}

/// Renders the canonical display string of a raw register value under
/// a kind: `"<decoded value><unit>, raw: <raw>"`.
pub fn display_value(kind: QuantityKind, raw: u16, ctx: &ScaleContext) -> (s: String)
    ensures
        s@ == spec_display(kind, raw, *ctx),
{
    let v = decode(kind, raw, ctx);
    let mut s = fixed_to_string(v);
    s.append(unit(kind));
    s.append(", raw: ");
    let rs = u64_dec(raw as u64);
    s.append(rs.as_str());
    s
}

impl DecodedField {
    /// The canonical display string of this field's value.
    pub fn to_string_v(&self, ctx: &ScaleContext) -> (s: String)
        ensures
            s@ == spec_display(self.kind, self.raw, *ctx),
    {
        display_value(self.kind, self.raw, ctx)
    }
}

impl Voltage {
    /// The canonical display string of this field's value.
    pub fn to_string_v(&self, ctx: &ScaleContext) -> (s: String)
        ensures
            s@ == spec_display(QuantityKind::Voltage, self.data, *ctx),
    {
        display_value(QuantityKind::Voltage, self.data, ctx)
    }

    /// The human-readable name of this field's kind.
    pub fn get_type(&self) -> (s: String)
        ensures
            s@ == spec_kind_name(QuantityKind::Voltage),
    {
        String::from_str(kind_name(QuantityKind::Voltage))
    }
}

impl Current {
    /// The canonical display string of this field's value.
    pub fn to_string_v(&self, ctx: &ScaleContext) -> (s: String)
        ensures
            s@ == spec_display(QuantityKind::Current, self.data, *ctx),
    {
        display_value(QuantityKind::Current, self.data, ctx)
    }

    /// The human-readable name of this field's kind.
    pub fn get_type(&self) -> (s: String)
        ensures
            s@ == spec_kind_name(QuantityKind::Current),
    {
        String::from_str(kind_name(QuantityKind::Current))
    }
}

impl VoltagePercentage {
    /// The canonical display string of this field's value.
    pub fn to_string_v(&self, ctx: &ScaleContext) -> (s: String)
        ensures
            s@ == spec_display(QuantityKind::VoltagePercentage, self.data, *ctx),
    {
        display_value(QuantityKind::VoltagePercentage, self.data, ctx)
    }

    /// The human-readable name of this field's kind.
    pub fn get_type(&self) -> (s: String)
        ensures
            s@ == spec_kind_name(QuantityKind::VoltagePercentage),
    {
        String::from_str(kind_name(QuantityKind::VoltagePercentage))
    }
}

impl Tempcomp {
    /// The canonical display string of this field's value.
    pub fn to_string_v(&self, ctx: &ScaleContext) -> (s: String)
        ensures
            s@ == spec_display(QuantityKind::TemperatureCompensation, self.data, *ctx),
    {
        display_value(QuantityKind::TemperatureCompensation, self.data, ctx)
    }

    /// The human-readable name of this field's kind.
    pub fn get_type(&self) -> (s: String)
        ensures
            s@ == spec_kind_name(QuantityKind::TemperatureCompensation),
    {
        String::from_str(kind_name(QuantityKind::TemperatureCompensation))
    }
}

impl Raw {
    /// The canonical display string of this field's value.
    pub fn to_string_v(&self, ctx: &ScaleContext) -> (s: String)
        ensures
            s@ == spec_display(QuantityKind::Raw, self.data, *ctx),
    {
        display_value(QuantityKind::Raw, self.data, ctx)
    }

    /// The human-readable name of this field's kind.
    pub fn get_type(&self) -> (s: String)
        ensures
            s@ == spec_kind_name(QuantityKind::Raw),
    {
        String::from_str(kind_name(QuantityKind::Raw))
    }
}

/// The full listing of a configuration record: one `name: <display>`
/// line per field, in table order.
pub open spec fn spec_eeprom_display(rec: MpptEeprom, ctx: ScaleContext) -> Seq<char> {
    "ev_absorp: "@ + spec_display(QuantityKind::Voltage, rec.ev_absorp.data, ctx)
        + "\nev_float: "@ + spec_display(QuantityKind::Voltage, rec.ev_float.data, ctx)
        + "\net_absorp: "@ + spec_display(QuantityKind::Raw, rec.et_absorp.data, ctx)
        + "\net_absorp_ext: "@ + spec_display(QuantityKind::Raw, rec.et_absorp_ext.data, ctx)
        + "\nev_absorp_ext: "@ + spec_display(QuantityKind::Voltage, rec.ev_absorp_ext.data, ctx)
        + "\nev_float_cancel: "@ + spec_display(
        QuantityKind::Voltage,
        rec.ev_float_cancel.data,
        ctx,
    ) + "\net_float_exit_cum: "@ + spec_display(QuantityKind::Raw, rec.et_float_exit_cum.data, ctx)
        + "\nev_eq: "@ + spec_display(QuantityKind::Voltage, rec.ev_eq.data, ctx)
        + "\net_eqcalendar: "@ + spec_display(QuantityKind::Raw, rec.et_eqcalendar.data, ctx)
        + "\net_eq_above: "@ + spec_display(QuantityKind::Raw, rec.et_eq_above.data, ctx)
        + "\net_eq_reg: "@ + spec_display(QuantityKind::Raw, rec.et_eq_reg.data, ctx)
        + "\net_batt_service: "@ + spec_display(QuantityKind::Raw, rec.et_batt_service.data, ctx)
        + "\nev_tempcomp: "@ + spec_display(
        QuantityKind::TemperatureCompensation,
        rec.ev_tempcomp.data,
        ctx,
    ) + "\nev_hvd: "@ + spec_display(QuantityKind::Voltage, rec.ev_hvd.data, ctx) + "\nev_hvr: "@
        + spec_display(QuantityKind::Voltage, rec.ev_hvr.data, ctx) + "\nevb_ref_lim: "@
        + spec_display(QuantityKind::Voltage, rec.evb_ref_lim.data, ctx) + "\netb_max: "@
        + spec_display(QuantityKind::Raw, rec.etb_max.data, ctx) + "\netb_min: "@ + spec_display(
        QuantityKind::Raw,
        rec.etb_min.data,
        ctx,
    ) + "\nev_soc_g_gy: "@ + spec_display(QuantityKind::Voltage, rec.ev_soc_g_gy.data, ctx)
        + "\nev_soc_gy_y: "@ + spec_display(QuantityKind::Voltage, rec.ev_soc_gy_y.data, ctx)
        + "\nev_soc_y_yr: "@ + spec_display(QuantityKind::Voltage, rec.ev_soc_y_yr.data, ctx)
        + "\nev_soc_yr_r: "@ + spec_display(QuantityKind::Voltage, rec.ev_soc_yr_r.data, ctx)
        + "\nemodbus_id: "@ + spec_display(QuantityKind::Raw, rec.emodbus_id.data, ctx)
        + "\nemeterbus_id: "@ + spec_display(QuantityKind::Raw, rec.emeterbus_id.data, ctx)
        + "\neib_lim: "@ + spec_display(QuantityKind::Current, rec.eib_lim.data, ctx)
        + "\neva_ref_fixed_init: "@ + spec_display(
        QuantityKind::Voltage,
        rec.eva_ref_fixed_init.data,
        ctx,
    ) + "\neva_ref_fixed_pct_init: "@ + spec_display(
        QuantityKind::VoltagePercentage,
        rec.eva_ref_fixed_pct_init.data,
        ctx,
    )
}

impl MpptEeprom {
    /// Renders the full listing of this record: one `name: <display>`
    /// line per field, in table order.
    pub fn to_display_string(&self, ctx: &ScaleContext) -> (s: String)
        ensures
            s@ == spec_eeprom_display(*self, *ctx),
    {
        let mut s = String::from_str("ev_absorp: ");
        s.append(self.ev_absorp.to_string_v(ctx).as_str());
        s.append("\nev_float: ");
        s.append(self.ev_float.to_string_v(ctx).as_str());
        s.append("\net_absorp: ");
        s.append(self.et_absorp.to_string_v(ctx).as_str());
        s.append("\net_absorp_ext: ");
        s.append(self.et_absorp_ext.to_string_v(ctx).as_str());
        s.append("\nev_absorp_ext: ");
        s.append(self.ev_absorp_ext.to_string_v(ctx).as_str());
        s.append("\nev_float_cancel: ");
        s.append(self.ev_float_cancel.to_string_v(ctx).as_str());
        s.append("\net_float_exit_cum: ");
        s.append(self.et_float_exit_cum.to_string_v(ctx).as_str());
        s.append("\nev_eq: ");
        s.append(self.ev_eq.to_string_v(ctx).as_str());
        s.append("\net_eqcalendar: ");
        s.append(self.et_eqcalendar.to_string_v(ctx).as_str());
        s.append("\net_eq_above: ");
        s.append(self.et_eq_above.to_string_v(ctx).as_str());
        s.append("\net_eq_reg: ");
        s.append(self.et_eq_reg.to_string_v(ctx).as_str());
        s.append("\net_batt_service: ");
        s.append(self.et_batt_service.to_string_v(ctx).as_str());
        s.append("\nev_tempcomp: ");
        s.append(self.ev_tempcomp.to_string_v(ctx).as_str());
        s.append("\nev_hvd: ");
        s.append(self.ev_hvd.to_string_v(ctx).as_str());
        s.append("\nev_hvr: ");
        s.append(self.ev_hvr.to_string_v(ctx).as_str());
        s.append("\nevb_ref_lim: ");
        s.append(self.evb_ref_lim.to_string_v(ctx).as_str());
        s.append("\netb_max: ");
        s.append(self.etb_max.to_string_v(ctx).as_str());
        s.append("\netb_min: ");
        s.append(self.etb_min.to_string_v(ctx).as_str());
        s.append("\nev_soc_g_gy: ");
        s.append(self.ev_soc_g_gy.to_string_v(ctx).as_str());
        s.append("\nev_soc_gy_y: ");
        s.append(self.ev_soc_gy_y.to_string_v(ctx).as_str());
        s.append("\nev_soc_y_yr: ");
        s.append(self.ev_soc_y_yr.to_string_v(ctx).as_str());
        s.append("\nev_soc_yr_r: ");
        s.append(self.ev_soc_yr_r.to_string_v(ctx).as_str());
        s.append("\nemodbus_id: ");
        s.append(self.emodbus_id.to_string_v(ctx).as_str());
        s.append("\nemeterbus_id: ");
        s.append(self.emeterbus_id.to_string_v(ctx).as_str());
        s.append("\neib_lim: ");
        s.append(self.eib_lim.to_string_v(ctx).as_str());
        s.append("\neva_ref_fixed_init: ");
        s.append(self.eva_ref_fixed_init.to_string_v(ctx).as_str());
        s.append("\neva_ref_fixed_pct_init: ");
        s.append(self.eva_ref_fixed_pct_init.to_string_v(ctx).as_str());
        s
    }
}

} // verus!
