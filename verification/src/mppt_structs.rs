//! Structured register records.
//!
//! A status record ([`MpptRam`]) and a configuration record
//! ([`MpptEeprom`]) are built fresh from raw register arrays on every
//! read. Each output field is the raw cell at the field's offset,
//! wrapped in the field's declared quantity kind; no field depends on
//! another field's value. Status fields are all raw quantities in the
//! canonical layout; scaling, where desired, is the caller's concern.

use vstd::prelude::*;

use crate::datatypes::{Current, Raw, Tempcomp, Voltage, VoltagePercentage};
use crate::offsets::{OffsetsEeprom, OffsetsRam, EEPROM_DATA_SIZE, RAM_DATA_SIZE};
use crate::scale::ScaleContext;
use crate::MpptError;

verus! {

/// An all-zero register array of the given length, the stand-in block
/// used when no device is connected.
pub open spec fn spec_zeros(n: nat) -> Seq<u16> {
    Seq::new(n, |i: int| 0u16)
}

/// The live status (RAM) register record: one raw 16-bit quantity per
/// field.
#[derive(Clone, Copy, Debug, PartialEq, Eq, Structural)]
pub struct MpptRam {
    // scaling values
    pub v_pu_hi: Raw,
    pub v_pu_lo: Raw,
    pub i_pu_hi: Raw,
    pub i_pu_lo: Raw,
    pub ver_sw: Raw,
    // filtered ADC
    pub adc_vb_f_med: Raw,
    pub adc_vbterm_f: Raw,
    pub adc_vbs_f: Raw,
    pub adc_va_f: Raw,
    pub adc_ib_f_shadow: Raw,
    pub adc_ia_f_shadow: Raw,
    pub adc_p12_f: Raw,
    pub adc_p3_f: Raw,
    pub adc_pmeter_f: Raw,
    pub adc_p18_f: Raw,
    pub adc_v_ref: Raw,
    // temperatures
    pub t_hs: Raw,
    pub t_rts: Raw,
    pub t_batt: Raw,
    // status
    pub adc_vb_f_1m: Raw,
    pub adc_ib_f_1m: Raw,
    pub vb_min: Raw,
    pub vb_max: Raw,
    pub hourmeter_hi: Raw,
    pub hourmeter_lo: Raw,
    pub fault_all: Raw,
    pub alarm_hi: Raw,
    pub alarm_lo: Raw,
    pub dip_all: Raw,
    pub led_state: Raw,
    // charger
    pub charge_state: Raw,
    pub vb_ref: Raw,
    pub ahc_r_hi: Raw,
    pub ahc_r_lo: Raw,
    pub ahc_t_hi: Raw,
    pub ahc_t_lo: Raw,
    pub kwhc_r: Raw,
    pub kwhc_t: Raw,
    // MPPT
    pub power_out_shadow: Raw,
    pub power_in_shadow: Raw,
    pub sweep_pin_max: Raw,
    pub sweep_vmp: Raw,
    pub sweep_voc: Raw,
    // logger - today's values
    pub vb_min_daily: Raw,
    pub vb_max_daily: Raw,
    pub va_max_daily: Raw,
    pub ahc_daily: Raw,
    pub whc_daily: Raw,
    pub flags_daily: Raw,
    pub pout_max_daily: Raw,
    pub tb_min_daily: Raw,
    pub tb_max_daily: Raw,
    pub fault_daily: Raw,
    pub alarm_daily_hi: Raw,
    pub alarm_daily_lo: Raw,
    pub time_ab_daily: Raw,
    pub time_eq_daily: Raw,
    pub time_fl_daily: Raw,
    // manual control
    pub ib_ref_slave: Raw,
    pub vb_ref_slave: Raw,
    pub va_ref_fixed: Raw,
    pub va_ref_fixed_pct: Raw,
}

impl MpptRam {
    /// The status record a raw register array decodes to: each field is
    /// the cell at its offset.
    pub open spec fn spec_from(data: Seq<u16>) -> MpptRam {
        MpptRam {
            v_pu_hi: Raw { data: data[OffsetsRam::V_PU_HI as int] },
            v_pu_lo: Raw { data: data[OffsetsRam::V_PU_LO as int] },
            i_pu_hi: Raw { data: data[OffsetsRam::I_PU_HI as int] },
            i_pu_lo: Raw { data: data[OffsetsRam::I_PU_LO as int] },
            ver_sw: Raw { data: data[OffsetsRam::VER_SW as int] },
            adc_vb_f_med: Raw { data: data[OffsetsRam::ADC_VB_F_MED as int] },
            adc_vbterm_f: Raw { data: data[OffsetsRam::ADC_VBTERM_F as int] },
            adc_vbs_f: Raw { data: data[OffsetsRam::ADC_VBS_F as int] },
            adc_va_f: Raw { data: data[OffsetsRam::ADC_VA_F as int] },
            adc_ib_f_shadow: Raw { data: data[OffsetsRam::ADC_IB_F_SHADOW as int] },
            adc_ia_f_shadow: Raw { data: data[OffsetsRam::ADC_IA_F_SHADOW as int] },
            adc_p12_f: Raw { data: data[OffsetsRam::ADC_P12_F as int] },
            adc_p3_f: Raw { data: data[OffsetsRam::ADC_P3_F as int] },
            adc_pmeter_f: Raw { data: data[OffsetsRam::ADC_PMETER_F as int] },
            adc_p18_f: Raw { data: data[OffsetsRam::ADC_P18_F as int] },
            adc_v_ref: Raw { data: data[OffsetsRam::ADC_V_REF as int] },
            t_hs: Raw { data: data[OffsetsRam::T_HS as int] },
            t_rts: Raw { data: data[OffsetsRam::T_RTS as int] },
            t_batt: Raw { data: data[OffsetsRam::T_BATT as int] },
            adc_vb_f_1m: Raw { data: data[OffsetsRam::ADC_VB_F_1M as int] },
            adc_ib_f_1m: Raw { data: data[OffsetsRam::ADC_IB_F_1M as int] },
            vb_min: Raw { data: data[OffsetsRam::VB_MIN as int] },
            vb_max: Raw { data: data[OffsetsRam::VB_MAX as int] },
            hourmeter_hi: Raw { data: data[OffsetsRam::HOURMETER_HI as int] },
            hourmeter_lo: Raw { data: data[OffsetsRam::HOURMETER_LO as int] },
            fault_all: Raw { data: data[OffsetsRam::FAULT_ALL as int] },
            alarm_hi: Raw { data: data[OffsetsRam::ALARM_HI as int] },
            alarm_lo: Raw { data: data[OffsetsRam::ALARM_LO as int] },
            dip_all: Raw { data: data[OffsetsRam::DIP_ALL as int] },
            led_state: Raw { data: data[OffsetsRam::LED_STATE as int] },
            charge_state: Raw { data: data[OffsetsRam::CHARGE_STATE as int] },
            vb_ref: Raw { data: data[OffsetsRam::VB_REF as int] },
            ahc_r_hi: Raw { data: data[OffsetsRam::AHC_R_HI as int] },
            ahc_r_lo: Raw { data: data[OffsetsRam::AHC_R_LO as int] },
            ahc_t_hi: Raw { data: data[OffsetsRam::AHC_T_HI as int] },
            ahc_t_lo: Raw { data: data[OffsetsRam::AHC_T_LO as int] },
            kwhc_r: Raw { data: data[OffsetsRam::KWHC_R as int] },
            kwhc_t: Raw { data: data[OffsetsRam::KWHC_T as int] },
            power_out_shadow: Raw { data: data[OffsetsRam::POWER_OUT_SHADOW as int] },
            power_in_shadow: Raw { data: data[OffsetsRam::POWER_IN_SHADOW as int] },
            sweep_pin_max: Raw { data: data[OffsetsRam::SWEEP_PIN_MAX as int] },
            sweep_vmp: Raw { data: data[OffsetsRam::SWEEP_VMP as int] },
            sweep_voc: Raw { data: data[OffsetsRam::SWEEP_VOC as int] },
            vb_min_daily: Raw { data: data[OffsetsRam::VB_MIN_DAILY as int] },
            vb_max_daily: Raw { data: data[OffsetsRam::VB_MAX_DAILY as int] },
            va_max_daily: Raw { data: data[OffsetsRam::VA_MAX_DAILY as int] },
            ahc_daily: Raw { data: data[OffsetsRam::AHC_DAILY as int] },
            whc_daily: Raw { data: data[OffsetsRam::WHC_DAILY as int] },
            flags_daily: Raw { data: data[OffsetsRam::FLAGS_DAILY as int] },
            pout_max_daily: Raw { data: data[OffsetsRam::POUT_MAX_DAILY as int] },
            tb_min_daily: Raw { data: data[OffsetsRam::TB_MIN_DAILY as int] },
            tb_max_daily: Raw { data: data[OffsetsRam::TB_MAX_DAILY as int] },
            fault_daily: Raw { data: data[OffsetsRam::FAULT_DAILY as int] },
            alarm_daily_hi: Raw { data: data[OffsetsRam::ALARM_DAILY_HI as int] },
            alarm_daily_lo: Raw { data: data[OffsetsRam::ALARM_DAILY_LO as int] },
            time_ab_daily: Raw { data: data[OffsetsRam::TIME_AB_DAILY as int] },
            time_eq_daily: Raw { data: data[OffsetsRam::TIME_EQ_DAILY as int] },
            time_fl_daily: Raw { data: data[OffsetsRam::TIME_FL_DAILY as int] },
            ib_ref_slave: Raw { data: data[OffsetsRam::IB_REF_SLAVE as int] },
            vb_ref_slave: Raw { data: data[OffsetsRam::VB_REF_SLAVE as int] },
            va_ref_fixed: Raw { data: data[OffsetsRam::VA_REF_FIXED as int] },
            va_ref_fixed_pct: Raw { data: data[OffsetsRam::VA_REF_FIXED_PCT as int] },
        }
    }

    /// Builds the status record from a raw register array. Total: an
    /// array shorter than the status block is rejected, never indexed.
    pub fn from_registers(data: &Vec<u16>) -> (r: Result<MpptRam, MpptError>)
        ensures
            data@.len() >= RAM_DATA_SIZE ==> r == Ok::<MpptRam, MpptError>(
                MpptRam::spec_from(data@),
            ),
            data@.len() < RAM_DATA_SIZE ==> r == Err::<MpptRam, MpptError>(
                MpptError::InsufficientData,
            ),
    {
        if data.len() < RAM_DATA_SIZE as usize {
            return Err(MpptError::InsufficientData);
        }
        Ok(
            MpptRam {
                v_pu_hi: Raw::from_u16(data[OffsetsRam::V_PU_HI]),
                v_pu_lo: Raw::from_u16(data[OffsetsRam::V_PU_LO]),
                i_pu_hi: Raw::from_u16(data[OffsetsRam::I_PU_HI]),
                i_pu_lo: Raw::from_u16(data[OffsetsRam::I_PU_LO]),
                ver_sw: Raw::from_u16(data[OffsetsRam::VER_SW]),
                adc_vb_f_med: Raw::from_u16(data[OffsetsRam::ADC_VB_F_MED]),
                adc_vbterm_f: Raw::from_u16(data[OffsetsRam::ADC_VBTERM_F]),
                adc_vbs_f: Raw::from_u16(data[OffsetsRam::ADC_VBS_F]),
                adc_va_f: Raw::from_u16(data[OffsetsRam::ADC_VA_F]),
                adc_ib_f_shadow: Raw::from_u16(data[OffsetsRam::ADC_IB_F_SHADOW]),
                adc_ia_f_shadow: Raw::from_u16(data[OffsetsRam::ADC_IA_F_SHADOW]),
                adc_p12_f: Raw::from_u16(data[OffsetsRam::ADC_P12_F]),
                adc_p3_f: Raw::from_u16(data[OffsetsRam::ADC_P3_F]),
                adc_pmeter_f: Raw::from_u16(data[OffsetsRam::ADC_PMETER_F]),
                adc_p18_f: Raw::from_u16(data[OffsetsRam::ADC_P18_F]),
                adc_v_ref: Raw::from_u16(data[OffsetsRam::ADC_V_REF]),
                t_hs: Raw::from_u16(data[OffsetsRam::T_HS]),
                t_rts: Raw::from_u16(data[OffsetsRam::T_RTS]),
                t_batt: Raw::from_u16(data[OffsetsRam::T_BATT]),
                adc_vb_f_1m: Raw::from_u16(data[OffsetsRam::ADC_VB_F_1M]),
                adc_ib_f_1m: Raw::from_u16(data[OffsetsRam::ADC_IB_F_1M]),
                vb_min: Raw::from_u16(data[OffsetsRam::VB_MIN]),
                vb_max: Raw::from_u16(data[OffsetsRam::VB_MAX]),
                hourmeter_hi: Raw::from_u16(data[OffsetsRam::HOURMETER_HI]),
                hourmeter_lo: Raw::from_u16(data[OffsetsRam::HOURMETER_LO]),
                fault_all: Raw::from_u16(data[OffsetsRam::FAULT_ALL]),
                alarm_hi: Raw::from_u16(data[OffsetsRam::ALARM_HI]),
                alarm_lo: Raw::from_u16(data[OffsetsRam::ALARM_LO]),
                dip_all: Raw::from_u16(data[OffsetsRam::DIP_ALL]),
                led_state: Raw::from_u16(data[OffsetsRam::LED_STATE]),
                charge_state: Raw::from_u16(data[OffsetsRam::CHARGE_STATE]),
                vb_ref: Raw::from_u16(data[OffsetsRam::VB_REF]),
                ahc_r_hi: Raw::from_u16(data[OffsetsRam::AHC_R_HI]),
                ahc_r_lo: Raw::from_u16(data[OffsetsRam::AHC_R_LO]),
                ahc_t_hi: Raw::from_u16(data[OffsetsRam::AHC_T_HI]),
                ahc_t_lo: Raw::from_u16(data[OffsetsRam::AHC_T_LO]),
                kwhc_r: Raw::from_u16(data[OffsetsRam::KWHC_R]),
                kwhc_t: Raw::from_u16(data[OffsetsRam::KWHC_T]),
                power_out_shadow: Raw::from_u16(data[OffsetsRam::POWER_OUT_SHADOW]),
                power_in_shadow: Raw::from_u16(data[OffsetsRam::POWER_IN_SHADOW]),
                sweep_pin_max: Raw::from_u16(data[OffsetsRam::SWEEP_PIN_MAX]),
                sweep_vmp: Raw::from_u16(data[OffsetsRam::SWEEP_VMP]),
                sweep_voc: Raw::from_u16(data[OffsetsRam::SWEEP_VOC]),
                vb_min_daily: Raw::from_u16(data[OffsetsRam::VB_MIN_DAILY]),
                vb_max_daily: Raw::from_u16(data[OffsetsRam::VB_MAX_DAILY]),
                va_max_daily: Raw::from_u16(data[OffsetsRam::VA_MAX_DAILY]),
                ahc_daily: Raw::from_u16(data[OffsetsRam::AHC_DAILY]),
                whc_daily: Raw::from_u16(data[OffsetsRam::WHC_DAILY]),
                flags_daily: Raw::from_u16(data[OffsetsRam::FLAGS_DAILY]),
                pout_max_daily: Raw::from_u16(data[OffsetsRam::POUT_MAX_DAILY]),
                tb_min_daily: Raw::from_u16(data[OffsetsRam::TB_MIN_DAILY]),
                tb_max_daily: Raw::from_u16(data[OffsetsRam::TB_MAX_DAILY]),
                fault_daily: Raw::from_u16(data[OffsetsRam::FAULT_DAILY]),
                alarm_daily_hi: Raw::from_u16(data[OffsetsRam::ALARM_DAILY_HI]),
                alarm_daily_lo: Raw::from_u16(data[OffsetsRam::ALARM_DAILY_LO]),
                time_ab_daily: Raw::from_u16(data[OffsetsRam::TIME_AB_DAILY]),
                time_eq_daily: Raw::from_u16(data[OffsetsRam::TIME_EQ_DAILY]),
                time_fl_daily: Raw::from_u16(data[OffsetsRam::TIME_FL_DAILY]),
                ib_ref_slave: Raw::from_u16(data[OffsetsRam::IB_REF_SLAVE]),
                vb_ref_slave: Raw::from_u16(data[OffsetsRam::VB_REF_SLAVE]),
                va_ref_fixed: Raw::from_u16(data[OffsetsRam::VA_REF_FIXED]),
                va_ref_fixed_pct: Raw::from_u16(data[OffsetsRam::VA_REF_FIXED_PCT]),
            },
        )
    }

    /// The stand-in status record used without a device: every field
    /// zero, exactly the record an all-zero register block decodes to.
    pub fn get_fake() -> (r: MpptRam)
        ensures
            r == MpptRam::spec_from(spec_zeros(RAM_DATA_SIZE as nat)),
    {
        MpptRam {
            v_pu_hi: Raw::from_u16(0x0000),
            v_pu_lo: Raw::from_u16(0x0000),
            i_pu_hi: Raw::from_u16(0x0000),
            i_pu_lo: Raw::from_u16(0x0000),
            ver_sw: Raw::from_u16(0x0000),
            adc_vb_f_med: Raw::from_u16(0x0000),
            adc_vbterm_f: Raw::from_u16(0x0000),
            adc_vbs_f: Raw::from_u16(0x0000),
            adc_va_f: Raw::from_u16(0x0000),
            adc_ib_f_shadow: Raw::from_u16(0x0000),
            adc_ia_f_shadow: Raw::from_u16(0x0000),
            adc_p12_f: Raw::from_u16(0x0000),
            adc_p3_f: Raw::from_u16(0x0000),
            adc_pmeter_f: Raw::from_u16(0x0000),
            adc_p18_f: Raw::from_u16(0x0000),
            adc_v_ref: Raw::from_u16(0x0000),
            t_hs: Raw::from_u16(0x0000),
            t_rts: Raw::from_u16(0x0000),
            t_batt: Raw::from_u16(0x0000),
            adc_vb_f_1m: Raw::from_u16(0x0000),
            adc_ib_f_1m: Raw::from_u16(0x0000),
            vb_min: Raw::from_u16(0x0000),
            vb_max: Raw::from_u16(0x0000),
            hourmeter_hi: Raw::from_u16(0x0000),
            hourmeter_lo: Raw::from_u16(0x0000),
            fault_all: Raw::from_u16(0x0000),
            alarm_hi: Raw::from_u16(0x0000),
            alarm_lo: Raw::from_u16(0x0000),
            dip_all: Raw::from_u16(0x0000),
            led_state: Raw::from_u16(0x0000),
            charge_state: Raw::from_u16(0x0000),
            vb_ref: Raw::from_u16(0x0000),
            ahc_r_hi: Raw::from_u16(0x0000),
            ahc_r_lo: Raw::from_u16(0x0000),
            ahc_t_hi: Raw::from_u16(0x0000),
            ahc_t_lo: Raw::from_u16(0x0000),
            kwhc_r: Raw::from_u16(0x0000),
            kwhc_t: Raw::from_u16(0x0000),
            power_out_shadow: Raw::from_u16(0x0000),
            power_in_shadow: Raw::from_u16(0x0000),
            sweep_pin_max: Raw::from_u16(0x0000),
            sweep_vmp: Raw::from_u16(0x0000),
            sweep_voc: Raw::from_u16(0x0000),
            vb_min_daily: Raw::from_u16(0x0000),
            vb_max_daily: Raw::from_u16(0x0000),
            va_max_daily: Raw::from_u16(0x0000),
            ahc_daily: Raw::from_u16(0x0000),
            whc_daily: Raw::from_u16(0x0000),
            flags_daily: Raw::from_u16(0x0000),
            pout_max_daily: Raw::from_u16(0x0000),
            tb_min_daily: Raw::from_u16(0x0000),
            tb_max_daily: Raw::from_u16(0x0000),
            fault_daily: Raw::from_u16(0x0000),
            alarm_daily_hi: Raw::from_u16(0x0000),
            alarm_daily_lo: Raw::from_u16(0x0000),
            time_ab_daily: Raw::from_u16(0x0000),
            time_eq_daily: Raw::from_u16(0x0000),
            time_fl_daily: Raw::from_u16(0x0000),
            ib_ref_slave: Raw::from_u16(0x0000),
            vb_ref_slave: Raw::from_u16(0x0000),
            va_ref_fixed: Raw::from_u16(0x0000),
            va_ref_fixed_pct: Raw::from_u16(0x0000),
        }
    }
}

/// The persistent configuration (EEPROM) register record: one typed
/// quantity per field, each with its declared kind.
#[derive(Clone, Copy, Debug, PartialEq, Eq, Structural)]
pub struct MpptEeprom {
    pub ev_absorp: Voltage,
    pub ev_float: Voltage,
    pub et_absorp: Raw,
    pub et_absorp_ext: Raw,
    pub ev_absorp_ext: Voltage,
    pub ev_float_cancel: Voltage,
    pub et_float_exit_cum: Raw,
    pub ev_eq: Voltage,
    pub et_eqcalendar: Raw,
    pub et_eq_above: Raw,
    pub et_eq_reg: Raw,
    pub et_batt_service: Raw,
    pub ev_tempcomp: Tempcomp,
    pub ev_hvd: Voltage,
    pub ev_hvr: Voltage,
    pub evb_ref_lim: Voltage,
    pub etb_max: Raw,
    pub etb_min: Raw,
    pub ev_soc_g_gy: Voltage,
    pub ev_soc_gy_y: Voltage,
    pub ev_soc_y_yr: Voltage,
    pub ev_soc_yr_r: Voltage,
    pub emodbus_id: Raw,
    pub emeterbus_id: Raw,
    pub eib_lim: Current,
    pub eva_ref_fixed_init: Voltage,
    pub eva_ref_fixed_pct_init: VoltagePercentage,
}

impl MpptEeprom {
    /// The configuration record a raw register array decodes to: each
    /// field is the cell at its offset, wrapped in its declared kind.
    pub open spec fn spec_from(data: Seq<u16>) -> MpptEeprom {
        MpptEeprom {
            ev_absorp: Voltage { data: data[OffsetsEeprom::EV_ABSORP as int] },
            ev_float: Voltage { data: data[OffsetsEeprom::EV_FLOAT as int] },
            et_absorp: Raw { data: data[OffsetsEeprom::ET_ABSORP as int] },
            et_absorp_ext: Raw { data: data[OffsetsEeprom::ET_ABSORP_EXT as int] },
            ev_absorp_ext: Voltage { data: data[OffsetsEeprom::EV_ABSORP_EXT as int] },
            ev_float_cancel: Voltage { data: data[OffsetsEeprom::EV_FLOAT_CANCEL as int] },
            et_float_exit_cum: Raw { data: data[OffsetsEeprom::ET_FLOAT_EXIT_CUM as int] },
            ev_eq: Voltage { data: data[OffsetsEeprom::EV_EQ as int] },
            et_eqcalendar: Raw { data: data[OffsetsEeprom::ET_EQCALENDAR as int] },
            et_eq_above: Raw { data: data[OffsetsEeprom::ET_EQ_ABOVE as int] },
            et_eq_reg: Raw { data: data[OffsetsEeprom::ET_EQ_REG as int] },
            et_batt_service: Raw { data: data[OffsetsEeprom::ET_BATT_SERVICE as int] },
            ev_tempcomp: Tempcomp { data: data[OffsetsEeprom::EV_TEMPCOMP as int] },
            ev_hvd: Voltage { data: data[OffsetsEeprom::EV_HVD as int] },
            ev_hvr: Voltage { data: data[OffsetsEeprom::EV_HVR as int] },
            evb_ref_lim: Voltage { data: data[OffsetsEeprom::EVB_REF_LIM as int] },
            etb_max: Raw { data: data[OffsetsEeprom::ETB_MAX as int] },
            etb_min: Raw { data: data[OffsetsEeprom::ETB_MIN as int] },
            ev_soc_g_gy: Voltage { data: data[OffsetsEeprom::EV_SOC_G_GY as int] },
            ev_soc_gy_y: Voltage { data: data[OffsetsEeprom::EV_SOC_GY_Y as int] },
            ev_soc_y_yr: Voltage { data: data[OffsetsEeprom::EV_SOC_Y_YR as int] },
            ev_soc_yr_r: Voltage { data: data[OffsetsEeprom::EV_SOC_YR_R as int] },
            emodbus_id: Raw { data: data[OffsetsEeprom::EMODBUS_ID as int] },
            emeterbus_id: Raw { data: data[OffsetsEeprom::EMETERBUS_ID as int] },
            eib_lim: Current { data: data[OffsetsEeprom::EIB_LIM as int] },
            eva_ref_fixed_init: Voltage { data: data[OffsetsEeprom::EVA_REF_FIXED_INIT as int] },
            eva_ref_fixed_pct_init: VoltagePercentage {
                data: data[OffsetsEeprom::EVA_REF_FIXED_PCT_INIT as int],
            },
        }
    }

    /// Builds the configuration record from a raw register array.
    /// Total: an array shorter than the configuration block is
    /// rejected, never indexed.
    pub fn from_registers(data: &Vec<u16>) -> (r: Result<MpptEeprom, MpptError>)
        ensures
            data@.len() >= EEPROM_DATA_SIZE ==> r == Ok::<MpptEeprom, MpptError>(
                MpptEeprom::spec_from(data@),
            ),
            data@.len() < EEPROM_DATA_SIZE ==> r == Err::<MpptEeprom, MpptError>(
                MpptError::InsufficientData,
            ),
    {
        if data.len() < EEPROM_DATA_SIZE as usize {
            return Err(MpptError::InsufficientData);
        }
        Ok(
            MpptEeprom {
                ev_absorp: Voltage::from_u16(data[OffsetsEeprom::EV_ABSORP]),
                ev_float: Voltage::from_u16(data[OffsetsEeprom::EV_FLOAT]),
                et_absorp: Raw::from_u16(data[OffsetsEeprom::ET_ABSORP]),
                et_absorp_ext: Raw::from_u16(data[OffsetsEeprom::ET_ABSORP_EXT]),
                ev_absorp_ext: Voltage::from_u16(data[OffsetsEeprom::EV_ABSORP_EXT]),
                ev_float_cancel: Voltage::from_u16(data[OffsetsEeprom::EV_FLOAT_CANCEL]),
                et_float_exit_cum: Raw::from_u16(data[OffsetsEeprom::ET_FLOAT_EXIT_CUM]),
                ev_eq: Voltage::from_u16(data[OffsetsEeprom::EV_EQ]),
                et_eqcalendar: Raw::from_u16(data[OffsetsEeprom::ET_EQCALENDAR]),
                et_eq_above: Raw::from_u16(data[OffsetsEeprom::ET_EQ_ABOVE]),
                et_eq_reg: Raw::from_u16(data[OffsetsEeprom::ET_EQ_REG]),
                et_batt_service: Raw::from_u16(data[OffsetsEeprom::ET_BATT_SERVICE]),
                ev_tempcomp: Tempcomp::from_u16(data[OffsetsEeprom::EV_TEMPCOMP]),
                ev_hvd: Voltage::from_u16(data[OffsetsEeprom::EV_HVD]),
                ev_hvr: Voltage::from_u16(data[OffsetsEeprom::EV_HVR]),
                evb_ref_lim: Voltage::from_u16(data[OffsetsEeprom::EVB_REF_LIM]),
                etb_max: Raw::from_u16(data[OffsetsEeprom::ETB_MAX]),
                etb_min: Raw::from_u16(data[OffsetsEeprom::ETB_MIN]),
                ev_soc_g_gy: Voltage::from_u16(data[OffsetsEeprom::EV_SOC_G_GY]),
                ev_soc_gy_y: Voltage::from_u16(data[OffsetsEeprom::EV_SOC_GY_Y]),
                ev_soc_y_yr: Voltage::from_u16(data[OffsetsEeprom::EV_SOC_Y_YR]),
                ev_soc_yr_r: Voltage::from_u16(data[OffsetsEeprom::EV_SOC_YR_R]),
                emodbus_id: Raw::from_u16(data[OffsetsEeprom::EMODBUS_ID]),
                emeterbus_id: Raw::from_u16(data[OffsetsEeprom::EMETERBUS_ID]),
                eib_lim: Current::from_u16(data[OffsetsEeprom::EIB_LIM]),
                eva_ref_fixed_init: Voltage::from_u16(data[OffsetsEeprom::EVA_REF_FIXED_INIT]),
                eva_ref_fixed_pct_init: VoltagePercentage::from_u16(
                    data[OffsetsEeprom::EVA_REF_FIXED_PCT_INIT],
                ),
            },
        )
    }

    /// The stand-in configuration record used without a device: every
    /// field zero, exactly the record an all-zero register block
    /// decodes to.
    pub fn get_fake() -> (r: MpptEeprom)
        ensures
            r == MpptEeprom::spec_from(spec_zeros(EEPROM_DATA_SIZE as nat)),
    {
        MpptEeprom {
            ev_absorp: Voltage::from_u16(0x0000),
            ev_float: Voltage::from_u16(0x0000),
            et_absorp: Raw::from_u16(0x0000),
            et_absorp_ext: Raw::from_u16(0x0000),
            ev_absorp_ext: Voltage::from_u16(0x0000),
            ev_float_cancel: Voltage::from_u16(0x0000),
            et_float_exit_cum: Raw::from_u16(0x0000),
            ev_eq: Voltage::from_u16(0x0000),
            et_eqcalendar: Raw::from_u16(0x0000),
            et_eq_above: Raw::from_u16(0x0000),
            et_eq_reg: Raw::from_u16(0x0000),
            et_batt_service: Raw::from_u16(0x0000),
            ev_tempcomp: Tempcomp::from_u16(0x0000),
            ev_hvd: Voltage::from_u16(0x0000),
            ev_hvr: Voltage::from_u16(0x0000),
            evb_ref_lim: Voltage::from_u16(0x0000),
            etb_max: Raw::from_u16(0x0000),
            etb_min: Raw::from_u16(0x0000),
            ev_soc_g_gy: Voltage::from_u16(0x0000),
            ev_soc_gy_y: Voltage::from_u16(0x0000),
            ev_soc_y_yr: Voltage::from_u16(0x0000),
            ev_soc_yr_r: Voltage::from_u16(0x0000),
            emodbus_id: Raw::from_u16(0x0000),
            emeterbus_id: Raw::from_u16(0x0000),
            eib_lim: Current::from_u16(0x0000),
            eva_ref_fixed_init: Voltage::from_u16(0x0000),
            eva_ref_fixed_pct_init: VoltagePercentage::from_u16(0x0000),
        }
    }
}

/// Both register records of one session, as read together for
/// structured export.
#[derive(Clone, Copy, Debug, PartialEq, Eq, Structural)]
pub struct MpptData {
    pub ram: MpptRam,
    pub eeprom: MpptEeprom,
}

/// Decodes one session's reads: derives the scale context from the
/// status block, then builds both records. Fails exactly when a block
/// is shorter than its region.
pub fn decode_session(ram_data: &Vec<u16>, eeprom_data: &Vec<u16>) -> (r: Result<
    (ScaleContext, MpptRam, MpptEeprom),
    MpptError,
>)
    ensures
        ram_data@.len() >= RAM_DATA_SIZE && eeprom_data@.len() >= EEPROM_DATA_SIZE ==> r == Ok::<
            (ScaleContext, MpptRam, MpptEeprom),
            MpptError,
        >(
            (
                ScaleContext {
                    v_num: ScaleContext::spec_factor(ram_data@[0], ram_data@[1]),
                    i_num: ScaleContext::spec_factor(ram_data@[2], ram_data@[3]),
                },
                MpptRam::spec_from(ram_data@),
                MpptEeprom::spec_from(eeprom_data@),
            ),
        ),
        ram_data@.len() < RAM_DATA_SIZE || eeprom_data@.len() < EEPROM_DATA_SIZE ==> r == Err::<
            (ScaleContext, MpptRam, MpptEeprom),
            MpptError,
        >(MpptError::InsufficientData),
{
    let ctx = ScaleContext::from_registers(ram_data)?;
    let ram = MpptRam::from_registers(ram_data)?;
    let eeprom = MpptEeprom::from_registers(eeprom_data)?;
    Ok((ctx, ram, eeprom))
}

} // verus!
