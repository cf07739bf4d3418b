use bq2515x::ll::registers::{Stat, STAT0_ADDRESS};
use bq2515x::ll::registers::{Flag, FLAG0_ADDRESS};
use bq2515x::ll::registers::{Mask, MASK0_ADDRESS};
use bq2515x::ll::registers::{Buvlo, BUVLO_ADDRESS};
use bq2515x::prelude::BuvloThreshold;
use bq2515x::ll::registers::{DeviceId, DEVICE_ID_ADDRESS};
use bq2515x::bits::{get_bits, put_bits};
use bq2515x::ll::registers::{
    AdcCtrl, AdcDataRegister, AdcReadEn, AdcReadRate, IcCtrl, IchargeRange, IchgCtrl, IlimCtrl,
    LdoCtrl, LdoSwitchConfig, PchrgCtrl, PmidMode, PmidRegCtrl, VbatCtrl, ADCCTRL_ADDRESS,
    ADC_DATA_ADDRESS, ADC_READ_EN_ADDRESS, ILIMCTRL_ADDRESS, LDOCTRL_ADDRESS,
};
use bq2515x::ll::{write_frame, Bq2515xDevice, I2C_ADDRESS, MAX_TRANSACTION_SIZE};
use bq2515x::prelude::{
    AdcCompChannel, CurrentLimit, FastChargeCurrent, LDOOutputVoltage, VBatRegulationVoltage,
};

#[test]
fn bit_fields_read_and_write() {
    assert_eq!(get_bits(0b1010_1100, 2, 3), 0b011);
    assert_eq!(get_bits(0b1010_1100, 7, 1), 1);
    assert_eq!(get_bits(0b1010_1100, 0, 8), 0b1010_1100);
    assert_eq!(put_bits(0xff, 2, 3, 0), 0b1110_0011);
    assert_eq!(put_bits(0x00, 2, 3, 0xff), 0b0001_1100);
    assert_eq!(put_bits(0x5a, 0, 8, 0xa5), 0xa5);
}

#[test]
fn bit_field_write_reads_back_and_keeps_the_rest() {
    for byte in [0x00u8, 0x5a, 0xa5, 0xff] {
        for value in 0u8..8 {
            let written = put_bits(byte, 3, 3, value);
            assert_eq!(get_bits(written, 3, 3), value);
            assert_eq!(get_bits(written, 0, 3), get_bits(byte, 0, 3));
            assert_eq!(get_bits(written, 6, 2), get_bits(byte, 6, 2));
            assert_eq!(put_bits(written, 3, 3, get_bits(byte, 3, 3)), byte);
        }
    }
}

#[test]
fn register_addresses() {
    assert_eq!(I2C_ADDRESS, 0x6b);
    assert_eq!(LDOCTRL_ADDRESS, 0x1d);
    assert_eq!(ILIMCTRL_ADDRESS, 0x19);
    assert_eq!(ADCCTRL_ADDRESS, 0x40);
    assert_eq!(ADC_DATA_ADDRESS, 0x42);
    assert_eq!(ADC_READ_EN_ADDRESS, 0x58);
}

#[test]
fn ldo_control_fields() {
    let reg = LdoCtrl { value: 0b1000_1110 };
    assert!(reg.en_ls_ldo());
    assert_eq!(reg.vldo(), LDOOutputVoltage(3));
    assert_eq!(reg.ldo_switch_config(), LdoSwitchConfig::Switch);
    let reg = reg.with_en_ls_ldo(false);
    assert_eq!(reg.value, 0b0000_1110);
    let reg = reg.with_vldo(LDOOutputVoltage(31));
    assert_eq!(reg.value, 0b0111_1110);
    assert!(!reg.en_ls_ldo());
    assert_eq!(reg.ldo_switch_config(), LdoSwitchConfig::Switch);
    let reg = reg.with_ldo_switch_config(LdoSwitchConfig::Ldo);
    assert_eq!(reg.value, 0b0111_1100);
}

#[test]
fn ldo_voltage_code_is_cut_to_its_field() {
    let reg = LdoCtrl::reset_value().with_vldo(LDOOutputVoltage(0x21));
    assert_eq!(reg.vldo(), LDOOutputVoltage(1));
    assert_eq!(reg.value, 0b0000_0100);
}

#[test]
fn reserved_bits_are_kept() {
    let reg = LdoCtrl { value: 0b0000_0001 }.with_en_ls_ldo(true).with_vldo(LDOOutputVoltage(2));
    assert_eq!(reg.value, 0b1000_1001);
    let reg = VbatCtrl { value: 0x80 }.with_vbat_reg(VBatRegulationVoltage(60));
    assert_eq!(reg.value, 0x80 | 60);
    assert_eq!(reg.vbat_reg(), VBatRegulationVoltage(60));
}

#[test]
fn charge_current_registers() {
    let reg = IchgCtrl::reset_value().with_ichg(FastChargeCurrent(200));
    assert_eq!(reg.value, 200);
    assert_eq!(reg.ichg(), FastChargeCurrent(200));
    let reg = PchrgCtrl { value: 0x02 }.with_icharge_range(IchargeRange::Step2MilliA5);
    assert_eq!(reg.value, 0x82);
    assert_eq!(reg.icharge_range(), IchargeRange::Step2MilliA5);
    assert_eq!(reg.iprechg(), 2);
    let reg = reg.with_iprechg(0x3f);
    assert_eq!(reg.iprechg(), 0x1f);
    assert_eq!(reg.value, 0x9f);
}

#[test]
fn input_current_limit_register() {
    assert_eq!(IlimCtrl { value: 0b1111_1110 }.ilim(), CurrentLimit::_500mA);
    let reg = IlimCtrl { value: 0b1111_1000 }.with_ilim(CurrentLimit::_150mA);
    assert_eq!(reg.value, 0b1111_1010);
    assert_eq!(reg.ilim(), CurrentLimit::_150mA);
}

#[test]
fn pmid_control_register() {
    let reg = IcCtrl::from_bytes([0xaa, 0xfc, 0xf8])
        .with_pmid_mode(PmidMode::BatOrVin)
        .with_pmid_reg_ctrl(PmidRegCtrl::PassThrough);
    assert_eq!(reg.to_bytes(), [0xaa, 0xfc, 0xff]);
    assert_eq!(reg.pmid_mode(), PmidMode::BatOrVin);
    assert_eq!(reg.pmid_reg_ctrl(), PmidRegCtrl::PassThrough);
    let reg = reg.with_pmid_mode(PmidMode::PullDown);
    assert_eq!(reg.to_bytes(), [0xaa, 0xff, 0xff]);
}

#[test]
fn adc_control_register() {
    let reg = AdcCtrl::from_bytes([0b1100_0111, 0b1110_1100]);
    assert_eq!(reg.adc_read_rate(), AdcReadRate::EveryMinute);
    assert!(!reg.adc_conv_start());
    assert_eq!(reg.adc_conv_speed(), 0);
    assert_eq!(reg.adc_comp1(), AdcCompChannel::IIn);
    assert_eq!(reg.adc_comp2(), AdcCompChannel::IIn);
    assert_eq!(reg.adc_comp3(), AdcCompChannel::VBat);
    let reg = reg.with_adc_conv_speed(2).with_adc_comp3(AdcCompChannel::Disabled);
    assert_eq!(reg.to_bytes(), [0b1101_0111, 0b1110_0000]);
}

#[test]
fn adc_read_enable_register() {
    let reg = AdcReadEn { value: 0b0001_1000 };
    assert!(reg.vin());
    assert!(reg.vbat());
    assert!(!reg.iin() && !reg.pmid() && !reg.ichg() && !reg.ts() && !reg.adcin());
    let reg = AdcReadEn::reset_value().with_iin(true).with_adcin(true);
    assert_eq!(reg.value, 0b1000_0010);
}

#[test]
fn adc_data_register() {
    let data = AdcDataRegister::from_bytes([
        0x12, 0x34, 0x00, 0x01, 0xff, 0xff, 0x80, 0x00, 0xab, 0xcd, 0x00, 0x00, 0x01, 0x00,
    ]);
    assert_eq!(data.vbat(), 0x1234);
    assert_eq!(data.ts(), 0x0001);
    assert_eq!(data.ichg(), 0xffff);
    assert_eq!(data.adcin(), 0x8000);
    assert_eq!(data.vin(), 0xabcd);
    assert_eq!(data.pmid(), 0);
    assert_eq!(data.iin(), 0x0100);
}

#[test]
fn register_write_frame() {
    assert_eq!(write_frame(LDOCTRL_ADDRESS, &[0x8c]), vec![0x1d, 0x8c]);
    assert_eq!(write_frame(0x35, &[1, 2, 3]), vec![0x35, 1, 2, 3]);
    assert_eq!(write_frame(0x12, &[]), vec![0x12]);
    assert_eq!(write_frame(0x40, &[9, 8, 7, 6]).len(), MAX_TRANSACTION_SIZE);
}

#[test]
fn device_holds_its_bus() {
    let mut dev = Bq2515xDevice::new(7u32);
    assert_eq!(*dev.i2c(), 7);
    *dev.i2c() = 9;
    assert_eq!(*dev.i2c(), 9);
}

#[test]
fn status_register() {
    assert_eq!(STAT0_ADDRESS, 0x00);
    let stat = Stat::from_bytes([0b0000_0001, 0b1000_0000, 0b0100_0001]);
    assert!(stat.vin_vgood());
    assert!(!stat.charge_done() && !stat.chrg_cv() && !stat.thermreg_active());
    assert!(stat.vin_ovp());
    assert!(!stat.bat_uvlo() && !stat.bat_ocp());
    assert!(stat.comp1_alarm());
    assert!(!stat.comp2_alarm() && !stat.comp3_alarm());
    assert!(stat.ts_open());
    let stat = Stat::from_bytes([0b0110_0000, 0, 0]);
    assert!(stat.chrg_cv() && stat.charge_done() && !stat.vin_vgood());
    assert_eq!(stat.to_bytes(), [0b0110_0000, 0, 0]);
}

#[test]
fn event_register() {
    assert_eq!(FLAG0_ADDRESS, 0x03);
    let flag = Flag::from_bytes([0, 0, 0b1000_0000, 0xff]);
    assert!(flag.adc_ready());
    assert!(!flag.vin_vgood() && !flag.comp1_alarm() && !flag.ts_open());
    let flag = Flag::from_bytes([0b0000_0001, 0b0010_0000, 0b0001_0001, 0]);
    assert!(flag.vin_vgood() && flag.bat_ocp() && flag.comp3_alarm() && flag.ts_open());
    assert!(!flag.adc_ready());
}

#[test]
fn mask_register() {
    assert_eq!(MASK0_ADDRESS, 0x07);
    let mask = Mask::reset_value().with_adc_ready_mask(true).with_vin_vgood_mask(true);
    assert_eq!(mask.to_bytes(), [0x01, 0x00, 0x80, 0x00]);
    assert!(mask.adc_ready_mask() && mask.vin_vgood_mask());
    assert!(!mask.charge_done_mask());
    let mask = Mask::from_bytes([0xff, 0xff, 0xff, 0xa5]).with_vin_ovp_mask(false);
    assert_eq!(mask.to_bytes(), [0xff, 0x7f, 0xff, 0xa5]);
}

#[test]
fn undervoltage_lockout_register() {
    assert_eq!(BUVLO_ADDRESS, 0x16);
    let reg = Buvlo { value: 0b1111_1000 }.with_buvlo_threshold(BuvloThreshold::Uvlo2V8);
    assert_eq!(reg.value, 0b1111_1011);
    assert_eq!(reg.buvlo_threshold(), BuvloThreshold::Uvlo2V8);
    assert_eq!(Buvlo { value: 1 }.buvlo_threshold(), BuvloThreshold::Uvlo3V0);
    assert_eq!(Buvlo { value: 2 }.buvlo_threshold(), BuvloThreshold::Uvlo3V0);
    assert_eq!(Buvlo { value: 0xf6 }.buvlo_threshold(), BuvloThreshold::Uvlo2V2);
    assert_eq!(Buvlo { value: 7 }.buvlo_threshold(), BuvloThreshold::Disabled);
    assert_eq!(BuvloThreshold::Uvlo2V4.code(), 5);
    assert_eq!(BuvloThreshold::from_code(4), BuvloThreshold::Uvlo2V6);
}

#[test]
fn device_id_register() {
    assert_eq!(DEVICE_ID_ADDRESS, 0x6f);
    assert_eq!(DeviceId { value: 0x35 }.device_id(), 0x35);
    assert_eq!(DeviceId::reset_value().with_device_id(0x20).value, 0x20);
}
