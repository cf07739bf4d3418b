use bq2515x::hl::{
    adc_data_from_registers, adc_set_mode_register, adc_start_one_shot_register, ldo_register,
    Bq2515x, Bq2515xLowPower, LdoConfig, LP_EXIT_I2C_DELAY_MS,
};
use bq2515x::ll::registers::{
    AdcCtrl, AdcDataRegister, AdcReadEn, AdcReadRate, IlimCtrl, LdoSwitchConfig,
};
use bq2515x::prelude::{
    AdcCompChannel, IChargePercentage, IinCurrent, LDOOutputVoltage, Millivolts, RawVoltage,
};

#[test]
fn ldo_register_values() {
    assert_eq!(ldo_register(LdoConfig::Off).value, 0x00);
    assert_eq!(ldo_register(LdoConfig::Switch).value, 0x82);
    let reg = ldo_register(LdoConfig::Ldo(Millivolts(900).into()));
    assert_eq!(reg.value, 0x8c);
    assert!(reg.en_ls_ldo());
    assert_eq!(reg.ldo_switch_config(), LdoSwitchConfig::Ldo);
    assert_eq!(reg.vldo(), LDOOutputVoltage(3));
    assert_eq!(ldo_register(LdoConfig::Ldo(LDOOutputVoltage(40))).value, 0xa0);
}

#[test]
fn adc_set_mode_keeps_the_rest() {
    let current = AdcCtrl::from_bytes([0x27, 0x5c]);
    let reg = adc_set_mode_register(current, AdcReadRate::Continuous);
    assert_eq!(reg.to_bytes(), [0x67, 0x5c]);
    assert_eq!(reg.adc_read_rate(), AdcReadRate::Continuous);
    assert!(reg.adc_conv_start());
    let reg = adc_set_mode_register(reg, AdcReadRate::ManualRead);
    assert_eq!(reg.to_bytes(), [0x27, 0x5c]);
}

#[test]
fn adc_start_one_shot_sets_manual_read_and_start() {
    let current = AdcCtrl::from_bytes([0b1100_0111, 0b1110_1100]);
    let reg = adc_start_one_shot_register(current);
    assert_eq!(reg.to_bytes(), [0b0010_0111, 0b1110_1100]);
    assert_eq!(reg.adc_read_rate(), AdcReadRate::ManualRead);
    assert!(reg.adc_conv_start());
    assert_eq!(reg.adc_comp1(), AdcCompChannel::IIn);
}

fn sample_data() -> AdcDataRegister {
    AdcDataRegister::from_bytes([
        0x12, 0x34, 0x00, 0x01, 0xff, 0xff, 0x80, 0x00, 0xab, 0xcd, 0x00, 0x07, 0x01, 0x00,
    ])
}

#[test]
fn adc_data_of_enabled_channels_only() {
    let data = adc_data_from_registers(
        AdcReadEn { value: 0b0001_1000 },
        IlimCtrl { value: 6 },
        sample_data(),
    );
    assert_eq!(data.vin, Some(RawVoltage(0xabcd)));
    assert_eq!(data.vbat, Some(RawVoltage(0x1234)));
    assert_eq!(data.pmid, None);
    assert_eq!(data.iin, None);
    assert_eq!(data.ts, None);
    assert_eq!(data.adcin, None);
    assert_eq!(data.icharge, None);
}

#[test]
fn adc_data_of_all_channels() {
    let data = adc_data_from_registers(
        AdcReadEn { value: 0xfe },
        IlimCtrl { value: 0 },
        sample_data(),
    );
    assert_eq!(data.vbat, Some(RawVoltage(0x1234)));
    assert_eq!(data.ts, Some(RawVoltage(0x0001)));
    assert_eq!(data.icharge, Some(IChargePercentage(0xffff)));
    assert_eq!(data.adcin, Some(RawVoltage(0x8000)));
    assert_eq!(data.vin, Some(RawVoltage(0xabcd)));
    assert_eq!(data.pmid, Some(RawVoltage(0x0007)));
    assert_eq!(data.iin, Some(IinCurrent { raw: 0x0100, high_range: false }));
}

#[test]
fn input_current_range_follows_the_limit() {
    let channels = AdcReadEn::reset_value().with_iin(true);
    for (limit, high) in [(0u8, false), (1, false), (2, false), (3, true), (6, true), (7, true)] {
        let data = adc_data_from_registers(channels, IlimCtrl { value: limit }, sample_data());
        assert_eq!(data.iin, Some(IinCurrent { raw: 0x0100, high_range: high }));
    }
}

#[test]
fn charger_gives_its_register_level_device() {
    let mut charger = Bq2515x::new(3u16);
    assert_eq!(*charger.ll().i2c(), 3);
    *charger.ll().i2c() = 4;
    assert_eq!(*charger.ll().i2c(), 4);
}

#[test]
fn low_power_wrapper_holds_its_parts() {
    let mut bq = Bq2515xLowPower::new(1u8, 2u16, 3u32);
    let (charger, pin, delay) = bq.parts();
    assert_eq!(*charger.ll().i2c(), 1);
    assert_eq!(*pin, 2);
    assert_eq!(*delay, 3);
    *pin = 5;
    let (_, pin, _) = bq.parts();
    assert_eq!(*pin, 5);
    assert_eq!(LP_EXIT_I2C_DELAY_MS, 1);
}
