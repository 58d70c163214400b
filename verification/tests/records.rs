use mppt_control::{decode_session, MpptEeprom, MpptError, MpptRam, ScaleContext};

fn counting(n: usize) -> Vec<u16> {
    (0..n as u16).collect()
}

#[test]
fn derive_scale_context_from_head_cells() {
    // [1, 0, 1, 0] -> {v: 1.0, i: 1.0}
    let ctx = ScaleContext::from_registers(&vec![1, 0, 1, 0]).unwrap();
    assert_eq!(ctx.v_num, 65536);
    assert_eq!(ctx.i_num, 65536);
    // [1, 32768, 1, 0] -> {v: 1.5, i: 1.0}
    let ctx = ScaleContext::from_registers(&vec![1, 32768, 1, 0]).unwrap();
    assert_eq!(ctx.v_num, 98304);
    assert_eq!(ctx.v_num as f32 / 65536.0, 1.5);
    assert_eq!(ctx.i_num, 65536);
}

#[test]
fn derive_scale_context_insufficient_data() {
    assert_eq!(ScaleContext::from_registers(&vec![]), Err(MpptError::InsufficientData));
    assert_eq!(ScaleContext::from_registers(&vec![1, 0, 1]), Err(MpptError::InsufficientData));
}

#[test]
fn ram_record_reads_each_field_at_its_offset() {
    let data = counting(0x5C);
    let ram = MpptRam::from_registers(&data).unwrap();
    assert_eq!(ram.v_pu_hi.data, 0x0000);
    assert_eq!(ram.i_pu_lo.data, 0x0003);
    assert_eq!(ram.ver_sw.data, 0x0004);
    assert_eq!(ram.adc_vb_f_med.data, 0x0018);
    assert_eq!(ram.t_batt.data, 0x0025);
    assert_eq!(ram.kwhc_t.data, 0x0039);
    assert_eq!(ram.sweep_voc.data, 0x003E);
    assert_eq!(ram.time_fl_daily.data, 0x004F);
    assert_eq!(ram.va_ref_fixed_pct.data, 0x005B);
}

#[test]
fn ram_record_insufficient_data() {
    assert_eq!(MpptRam::from_registers(&counting(0x5B)), Err(MpptError::InsufficientData));
    assert_eq!(MpptRam::from_registers(&vec![]), Err(MpptError::InsufficientData));
}

#[test]
fn eeprom_record_reads_each_field_at_its_offset() {
    let data = counting(0x22);
    let rec = MpptEeprom::from_registers(&data).unwrap();
    assert_eq!(rec.ev_absorp.data, 0x0000);
    assert_eq!(rec.et_absorp_ext.data, 0x0003);
    assert_eq!(rec.ev_tempcomp.data, 0x000D);
    assert_eq!(rec.etb_min.data, 0x0012);
    assert_eq!(rec.ev_soc_yr_r.data, 0x0018);
    assert_eq!(rec.eib_lim.data, 0x001D);
    assert_eq!(rec.eva_ref_fixed_pct_init.data, 0x0021);
}

#[test]
fn eeprom_record_insufficient_data() {
    assert_eq!(MpptEeprom::from_registers(&counting(0x21)), Err(MpptError::InsufficientData));
}

#[test]
fn fake_records_are_all_zero() {
    let ram = MpptRam::get_fake();
    assert_eq!(ram.v_pu_hi.data, 0);
    assert_eq!(ram.charge_state.data, 0);
    assert_eq!(ram.va_ref_fixed_pct.data, 0);
    let rec = MpptEeprom::get_fake();
    assert_eq!(rec.ev_absorp.data, 0);
    assert_eq!(rec.ev_tempcomp.data, 0);
    assert_eq!(rec.eva_ref_fixed_pct_init.data, 0);
    // The fakes equal the records an all-zero block decodes to.
    assert_eq!(MpptRam::from_registers(&vec![0; 0x5C]).unwrap(), ram);
    assert_eq!(MpptEeprom::from_registers(&vec![0; 0x22]).unwrap(), rec);
}

#[test]
fn session_decode_combines_context_and_records() {
    let mut ram_data = counting(0x5C);
    ram_data[0] = 1;
    ram_data[1] = 32768;
    ram_data[2] = 2;
    ram_data[3] = 0;
    let eeprom_data = counting(0x22);
    let (ctx, ram, rec) = decode_session(&ram_data, &eeprom_data).unwrap();
    assert_eq!(ctx.v_num, 98304);
    assert_eq!(ctx.i_num, 131072);
    assert_eq!(ram.v_pu_hi.data, 1);
    assert_eq!(ram.v_pu_lo.data, 32768);
    assert_eq!(rec.ev_eq.data, 0x0007);

    assert_eq!(decode_session(&counting(4), &eeprom_data), Err(MpptError::InsufficientData));
    assert_eq!(decode_session(&ram_data, &counting(3)), Err(MpptError::InsufficientData));
}
