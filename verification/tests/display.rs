use mppt_control::{
    display_value, fixed_to_string, get_field, kind_name, unit, Fixed32, MpptEeprom,
    QuantityKind, ScaleContext, Tempcomp, Voltage,
};

fn unit_ctx() -> ScaleContext {
    ScaleContext { v_num: 65536, i_num: 65536 }
}

#[test]
fn fixed_point_decimal_forms() {
    assert_eq!(fixed_to_string(Fixed32 { bits: 0 }), "0");
    assert_eq!(fixed_to_string(Fixed32 { bits: 3u64 << 32 }), "3");
    assert_eq!(fixed_to_string(Fixed32 { bits: 1u64 << 31 }), "0.5");
    assert_eq!(fixed_to_string(Fixed32 { bits: (5u64 << 32) + (1 << 30) }), "5.25");
    assert_eq!(fixed_to_string(Fixed32 { bits: 65535u64 << 32 }), "65535");
    // The smallest positive quantity has the full 32-digit expansion.
    assert_eq!(fixed_to_string(Fixed32 { bits: 1 }), "0.00000000023283064365386962890625");
}

#[test]
fn display_voltage_scenario() {
    // ctx {v: 1.0, i: 1.0}, raw 16384 as Voltage -> "0.5V, raw: 16384".
    let s = display_value(QuantityKind::Voltage, 16384, &unit_ctx());
    assert_eq!(s, "0.5V, raw: 16384");
    let v = Voltage::from_u16(16384);
    assert_eq!(v.to_string_v(&unit_ctx()), "0.5V, raw: 16384");
}

#[test]
fn display_percentage_scenario() {
    let s = display_value(QuantityKind::VoltagePercentage, 32768, &unit_ctx());
    assert_eq!(s, "50%, raw: 32768");
}

#[test]
fn display_other_kinds() {
    assert_eq!(display_value(QuantityKind::Raw, 123, &unit_ctx()), "123, raw: 123");
    assert_eq!(display_value(QuantityKind::Current, 16384, &unit_ctx()), "0.5A, raw: 16384");
    let t = Tempcomp::from_u16(32768);
    assert_eq!(
        t.to_string_v(&unit_ctx()),
        "0.5 - temperature compensation value, raw: 32768"
    );
}

#[test]
fn display_through_resolver() {
    let mut record = MpptEeprom::get_fake();
    record.ev_absorp.data = 16384;
    let f = get_field("ev_absorp", &record, &unit_ctx()).unwrap();
    assert_eq!(f.to_string_v(&unit_ctx()), "0.5V, raw: 16384");
}

#[test]
fn unit_labels_and_kind_names() {
    assert_eq!(unit(QuantityKind::Voltage), "V");
    assert_eq!(unit(QuantityKind::Current), "A");
    assert_eq!(unit(QuantityKind::VoltagePercentage), "%");
    assert_eq!(unit(QuantityKind::TemperatureCompensation), " - temperature compensation value");
    assert_eq!(unit(QuantityKind::Raw), "");
    assert_eq!(kind_name(QuantityKind::Voltage), "Voltage");
    assert_eq!(kind_name(QuantityKind::VoltagePercentage), "Voltage Percentage");
    assert_eq!(kind_name(QuantityKind::TemperatureCompensation), "Temperature Compensation");
    assert_eq!(kind_name(QuantityKind::Raw), "Raw Value");
    assert_eq!(Voltage::from_u16(0).get_type(), "Voltage");
}

#[test]
fn eeprom_listing_renders_every_field() {
    let rec = MpptEeprom::get_fake();
    let s = rec.to_display_string(&unit_ctx());
    assert!(s.starts_with("ev_absorp: 0V, raw: 0\nev_float: 0V, raw: 0\n"));
    assert!(s.contains("\nev_tempcomp: 0 - temperature compensation value, raw: 0\n"));
    assert!(s.contains("\neib_lim: 0A, raw: 0\n"));
    assert!(s.ends_with("\neva_ref_fixed_pct_init: 0%, raw: 0"));
    assert_eq!(s.lines().count(), 27);
}

#[test]
fn display_respects_scale_context() {
    // v = 1.5: raw 16384 decodes to 0.75 V.
    let ctx = ScaleContext { v_num: 98304, i_num: 65536 };
    assert_eq!(display_value(QuantityKind::Voltage, 16384, &ctx), "0.75V, raw: 16384");
}
