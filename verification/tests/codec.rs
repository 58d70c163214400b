use mppt_control::{decode, encode, Fixed32, MpptError, QuantityKind, ScaleContext};

fn unit_ctx() -> ScaleContext {
    ScaleContext { v_num: 65536, i_num: 65536 }
}

fn all_kinds() -> [QuantityKind; 5] {
    [
        QuantityKind::Voltage,
        QuantityKind::Current,
        QuantityKind::VoltagePercentage,
        QuantityKind::TemperatureCompensation,
        QuantityKind::Raw,
    ]
}

fn divisor_of(kind: QuantityKind, ctx: &ScaleContext) -> u64 {
    match kind {
        QuantityKind::Voltage => 2 * ctx.v_num as u64,
        QuantityKind::Current => 2 * ctx.i_num as u64,
        QuantityKind::VoltagePercentage => 100 * 65536,
        QuantityKind::TemperatureCompensation => ctx.v_num as u64,
        QuantityKind::Raw => 1 << 32,
    }
}

#[test]
fn encode_decode_exact_unit_ctx_every_raw() {
    let ctx = unit_ctx();
    for kind in all_kinds() {
        for raw in 0..=65535u16 {
            let v = decode(kind, raw, &ctx);
            assert_eq!(encode(kind, v, &ctx), Ok(raw));
        }
    }
}

#[test]
fn encode_decode_exact_scaled_ctx_every_raw() {
    // Exactness does not depend on the factors being 1.0: the law holds
    // for any register-derived context.
    let ctx = ScaleContext { v_num: 98304, i_num: 78643 };
    for kind in all_kinds() {
        for raw in 0..=65535u16 {
            let v = decode(kind, raw, &ctx);
            assert_eq!(encode(kind, v, &ctx), Ok(raw));
        }
    }
}

#[test]
fn decode_encode_within_one_truncation_unit() {
    let ctxs = [
        unit_ctx(),
        ScaleContext { v_num: 98304, i_num: 78643 },
        ScaleContext { v_num: 1, i_num: 131072 },
    ];
    let samples: [u64; 6] = [
        0,
        1,
        1 << 31,
        (28u64) << 32,
        (5u64 << 32) + (1 << 30),
        (123u64 << 32) + 4567,
    ];
    for ctx in ctxs {
        for kind in all_kinds() {
            for bits in samples {
                let v = Fixed32 { bits };
                if let Ok(raw) = encode(kind, v, &ctx) {
                    let back = decode(kind, raw, &ctx);
                    assert!(back.bits <= v.bits);
                    assert!(v.bits - back.bits < divisor_of(kind, &ctx));
                }
            }
        }
    }
}

#[test]
fn raw_codec_is_exact_identity() {
    let ctx = ScaleContext { v_num: 98304, i_num: 78643 };
    for raw in [0u16, 1, 2, 255, 16384, 65535] {
        let v = decode(QuantityKind::Raw, raw, &ctx);
        assert_eq!(v.bits, (raw as u64) << 32);
        let as_float = v.bits as f64 / (1u64 << 32) as f64;
        assert_eq!(as_float as f32, raw as f32);
    }
    // Encoding truncates toward zero: 3.75 stores as 3.
    let v = Fixed32 { bits: (3u64 << 32) + (3 << 30) };
    assert_eq!(encode(QuantityKind::Raw, v, &ctx), Ok(3));
}

#[test]
fn voltage_scenario_half_volt() {
    // ctx {v: 1.0, i: 1.0}, raw 0x4000 decoded as Voltage -> 0.5 V.
    let ctx = unit_ctx();
    let v = decode(QuantityKind::Voltage, 0x4000, &ctx);
    assert_eq!(v.bits, 1u64 << 31);
    assert_eq!(v.bits as f64 / (1u64 << 32) as f64, 0.5);
}

#[test]
fn percentage_scenario_independent_of_ctx() {
    // raw 32768 decoded as VoltagePercentage -> 50.0, whatever the
    // context reports.
    for ctx in [unit_ctx(), ScaleContext { v_num: 98304, i_num: 1 }] {
        let v = decode(QuantityKind::VoltagePercentage, 32768, &ctx);
        assert_eq!(v.bits, 50u64 << 32);
    }
}

#[test]
fn fixed_point_construction() {
    let v = Fixed32::from_int(28);
    assert_eq!(v.bits, 28u64 << 32);
    assert_eq!(v.whole(), 28);
    assert_eq!(Fixed32 { bits: (5u64 << 32) + (1 << 30) }.whole(), 5);
}

#[test]
fn encode_overflow_is_reported() {
    // 65536.0 volts with unit scale needs raw 2^21: out of range.
    let ctx = unit_ctx();
    let v = Fixed32 { bits: 65536u64 << 32 };
    assert_eq!(encode(QuantityKind::Voltage, v, &ctx), Err(MpptError::EncodingOverflow));
    // The largest encodable value round-trips.
    let top = decode(QuantityKind::Voltage, 65535, &ctx);
    assert_eq!(encode(QuantityKind::Voltage, top, &ctx), Ok(65535));
}

#[test]
fn tempcomp_uses_voltage_scale_at_two_to_sixteen() {
    // raw 65536/2 with v scale 1.0: 32768 * 2^-16 = 0.5.
    let ctx = unit_ctx();
    let v = decode(QuantityKind::TemperatureCompensation, 32768, &ctx);
    assert_eq!(v.bits, 1u64 << 31);
}
