use mppt_control::{
    get_field, match_offset, set_field, Fixed32, MpptEeprom, MpptError, QuantityKind,
    ScaleContext,
};

fn unit_ctx() -> ScaleContext {
    ScaleContext { v_num: 65536, i_num: 65536 }
}

#[test]
fn offset_lookup_is_case_insensitive() {
    assert_eq!(match_offset("EV_ABSORP"), match_offset("ev_absorp"));
    assert_eq!(match_offset("EV_ABSORP"), Some(0x0000));
    assert_eq!(match_offset("Ev_TempComp"), Some(0x000D));
    assert_eq!(match_offset("eVa_Ref_Fixed_Pct_Init"), Some(0x0021));
}

#[test]
fn offset_lookup_is_total() {
    assert_eq!(match_offset(""), None);
    assert_eq!(match_offset("ev_absorpx"), None);
    assert_eq!(match_offset("EV ABSORP"), None);
    assert_eq!(match_offset("völt"), None);
}

#[test]
fn offset_lookup_every_name() {
    let table: [(&str, usize); 27] = [
        ("ev_absorp", 0x0000),
        ("ev_float", 0x0001),
        ("et_absorp", 0x0002),
        ("et_absorp_ext", 0x0003),
        ("ev_absorp_ext", 0x0004),
        ("ev_float_cancel", 0x0005),
        ("et_float_exit_cum", 0x0006),
        ("ev_eq", 0x0007),
        ("et_eqcalendar", 0x0008),
        ("et_eq_above", 0x0009),
        ("et_eq_reg", 0x000A),
        ("et_batt_service", 0x000B),
        ("ev_tempcomp", 0x000D),
        ("ev_hvd", 0x000E),
        ("ev_hvr", 0x000F),
        ("evb_ref_lim", 0x0010),
        ("etb_max", 0x0011),
        ("etb_min", 0x0012),
        ("ev_soc_g_gy", 0x0015),
        ("ev_soc_gy_y", 0x0016),
        ("ev_soc_y_yr", 0x0017),
        ("ev_soc_yr_r", 0x0018),
        ("emodbus_id", 0x0019),
        ("emeterbus_id", 0x001A),
        ("eib_lim", 0x001D),
        ("eva_ref_fixed_init", 0x0020),
        ("eva_ref_fixed_pct_init", 0x0021),
    ];
    for (name, offset) in table {
        assert_eq!(match_offset(name), Some(offset), "{name}");
    }
}

#[test]
fn get_and_set_unknown_field_never_panic() {
    let record = MpptEeprom::get_fake();
    let ctx = unit_ctx();
    for name in ["", "bogus", "EV_ABSORPX", "raw", "ev absorp"] {
        assert_eq!(get_field(name, &record, &ctx).unwrap_err(), MpptError::UnknownField);
        let r = set_field(name, Fixed32 { bits: 0 }, &ctx);
        assert_eq!(r.unwrap_err(), MpptError::UnknownField);
    }
}

#[test]
fn get_field_reads_kind_raw_and_value() {
    let mut record = MpptEeprom::get_fake();
    record.ev_absorp.data = 0x4000;
    record.eib_lim.data = 0x2000;
    record.et_eq_reg.data = 42;
    let ctx = unit_ctx();

    let f = get_field("EV_ABSORP", &record, &ctx).unwrap();
    assert_eq!(f.kind, QuantityKind::Voltage);
    assert_eq!(f.raw, 0x4000);
    assert_eq!(f.value.bits, 1u64 << 31);

    let f = get_field("eib_lim", &record, &ctx).unwrap();
    assert_eq!(f.kind, QuantityKind::Current);
    assert_eq!(f.raw, 0x2000);
    assert_eq!(f.value.bits, 1u64 << 30);

    let f = get_field("et_eq_reg", &record, &ctx).unwrap();
    assert_eq!(f.kind, QuantityKind::Raw);
    assert_eq!(f.raw, 42);
    assert_eq!(f.value.bits, 42u64 << 32);
}

#[test]
fn set_field_scenario_absorption_voltage() {
    // A scale of 1.2 is not register-representable; the nearest context
    // cell pair gives v = 1 + 13107/65536. Setting 28.0 V under it
    // needs raw floor(28 * 2^15 / v) > 65535, so the hardened engine
    // reports the overflow instead of storing a truncated register.
    let ctx = ScaleContext { v_num: 78643, i_num: 65536 };
    let value = Fixed32 { bits: 28u64 << 32 };
    assert_eq!(set_field("ev_absorp", value, &ctx).unwrap_err(), MpptError::EncodingOverflow);

    // An in-range setpoint under the same context: 1.4 V (rounded to
    // the nearest 2^-32).
    let value = Fixed32 { bits: 6012954214 };
    let w = set_field("ev_absorp", value, &ctx).unwrap();
    assert_eq!(w.raw, 38229);
    assert_eq!(w.address, 0xE000);
    // Re-decoding the stored raw value stays within one truncation
    // unit (2 * v_num bits) below the requested value.
    let back = mppt_control::decode(QuantityKind::Voltage, w.raw, &ctx);
    assert!(back.bits <= value.bits);
    assert!(value.bits - back.bits < 2 * 78643);
}

#[test]
fn set_field_addresses_are_absolute() {
    let ctx = unit_ctx();
    let zero = Fixed32 { bits: 0 };
    assert_eq!(set_field("ev_tempcomp", zero, &ctx).unwrap().address, 0xE00D);
    assert_eq!(set_field("et_absorp_ext", zero, &ctx).unwrap().address, 0xE003);
    assert_eq!(set_field("EVA_REF_FIXED_PCT_INIT", zero, &ctx).unwrap().address, 0xE021);
}

#[test]
fn set_field_encodes_under_the_field_kind() {
    let ctx = unit_ctx();
    // 50 percent encodes as raw 32768 under the percentage law.
    let w = set_field("eva_ref_fixed_pct_init", Fixed32 { bits: 50u64 << 32 }, &ctx).unwrap();
    assert_eq!(w.raw, 32768);
    // The same quantity as a raw field stores its whole part.
    let w = set_field("emodbus_id", Fixed32 { bits: 50u64 << 32 }, &ctx).unwrap();
    assert_eq!(w.raw, 50);
}
