use bq2515x::prelude::{
    scale_u16, AdcCompChannel, CurrentLimit, FastChargeCurrent, IChargePercentage, IchargeRange,
    IinCurrent, InvalidCurrentLimit, LDOOutputVoltage, Milliampere, Millivolts, RawVoltage,
    VBatRegulationVoltage,
};

#[test]
fn scale_u16_rounds_down() {
    assert_eq!(scale_u16(32768, 65535, 6000), 3000);
    assert_eq!(scale_u16(65535, 65535, 6000), 6000);
    assert_eq!(scale_u16(0, 65535, 6000), 0);
}

#[test]
fn scale_u16_keeps_low_16_bits() {
    assert_eq!(scale_u16(7000, 6000, 65535), 10921);
}

#[test]
fn raw_voltage_to_millivolts() {
    let full: Millivolts = RawVoltage::<6000>(65535).into();
    assert_eq!(full, Millivolts(6000));
    let half: Millivolts = RawVoltage::<6000>(32768).into();
    assert_eq!(half, Millivolts(3000));
    let ts: Millivolts = RawVoltage::<1200>(65535).into();
    assert_eq!(ts, Millivolts(1200));
}

#[test]
fn millivolts_to_raw_voltage() {
    let raw: RawVoltage<6000> = Millivolts(4200).into();
    assert_eq!(raw, RawVoltage(45874));
    let raw: RawVoltage<1200> = Millivolts(600).into();
    assert_eq!(raw, RawVoltage(32767));
    assert_eq!(RawVoltage::<3000>::from_millivolts(Millivolts(3000)), RawVoltage(65535));
}

#[test]
fn raw_voltage_round_trip_loses_under_a_millivolt() {
    let raw: RawVoltage<6000> = Millivolts(4200).into();
    let back: Millivolts = raw.into();
    assert_eq!(back, Millivolts(4199));
    for mv in [0u16, 1, 999, 3000, 4200, 5999, 6000] {
        let raw: RawVoltage<6000> = Millivolts(mv).into();
        let back: Millivolts = raw.into();
        assert!(back.0 <= mv && mv <= back.0 + 1);
    }
}

#[test]
fn vbat_regulation_voltage_to_millivolts() {
    let mv: Millivolts = VBatRegulationVoltage(60).into();
    assert_eq!(mv, Millivolts(4200));
    let mv: Millivolts = VBatRegulationVoltage(0).into();
    assert_eq!(mv, Millivolts(3600));
    let mv: Millivolts = VBatRegulationVoltage(200).into();
    assert_eq!(mv, Millivolts(4600));
}

#[test]
fn millivolts_to_vbat_regulation_voltage() {
    let code: VBatRegulationVoltage = Millivolts(4200).into();
    assert_eq!(code, VBatRegulationVoltage(60));
    let code: VBatRegulationVoltage = Millivolts(4205).into();
    assert_eq!(code, VBatRegulationVoltage(60));
    let code: VBatRegulationVoltage = Millivolts(3000).into();
    assert_eq!(code, VBatRegulationVoltage(0));
    let code: VBatRegulationVoltage = Millivolts(5000).into();
    assert_eq!(code, VBatRegulationVoltage(100));
}

#[test]
fn vbat_codes_round_trip() {
    for code in 0u8..=100 {
        let mv: Millivolts = VBatRegulationVoltage(code).into();
        let back: VBatRegulationVoltage = mv.into();
        assert_eq!(back, VBatRegulationVoltage(code));
    }
}

#[test]
fn vbat_code_is_a_plain_byte() {
    let code: VBatRegulationVoltage = 42u8.into();
    assert_eq!(code, VBatRegulationVoltage(42));
    let byte: u8 = VBatRegulationVoltage(17).into();
    assert_eq!(byte, 17);
}

#[test]
fn ldo_output_voltage_conversions() {
    let code: LDOOutputVoltage = Millivolts(900).into();
    assert_eq!(code, LDOOutputVoltage(3));
    let mv: Millivolts = LDOOutputVoltage(3).into();
    assert_eq!(mv, Millivolts(900));
    let mv: Millivolts = LDOOutputVoltage(31).into();
    assert_eq!(mv, Millivolts(3700));
    let mv: Millivolts = LDOOutputVoltage(40).into();
    assert_eq!(mv, Millivolts(3700));
    let code: LDOOutputVoltage = Millivolts(500).into();
    assert_eq!(code, LDOOutputVoltage(0));
    let code: LDOOutputVoltage = Millivolts(4000).into();
    assert_eq!(code, LDOOutputVoltage(31));
    let code: LDOOutputVoltage = Millivolts(1850).into();
    assert_eq!(code, LDOOutputVoltage(12));
}

#[test]
fn ldo_codes_round_trip() {
    for code in 0u8..=31 {
        let mv: Millivolts = LDOOutputVoltage(code).into();
        let back: LDOOutputVoltage = mv.into();
        assert_eq!(back, LDOOutputVoltage(code));
    }
}

#[test]
fn iin_current_range() {
    assert_eq!(IinCurrent { raw: 0, high_range: true }.range(), Milliampere(750));
    assert_eq!(IinCurrent { raw: 0, high_range: false }.range(), Milliampere(375));
}

#[test]
fn iin_current_to_milliampere() {
    let ma: Milliampere = IinCurrent { raw: 65535, high_range: true }.into();
    assert_eq!(ma, Milliampere(750));
    let ma: Milliampere = IinCurrent { raw: 65535, high_range: false }.into();
    assert_eq!(ma, Milliampere(375));
    let ma: Milliampere = IinCurrent { raw: 32768, high_range: true }.into();
    assert_eq!(ma, Milliampere(375));
}

#[test]
fn milliampere_to_iin_current() {
    let iin: IinCurrent = Milliampere(750).into();
    assert_eq!(iin, IinCurrent { raw: 65535, high_range: true });
    let iin: IinCurrent = Milliampere(100).into();
    assert_eq!(iin, IinCurrent { raw: 8738, high_range: true });
    let iin: IinCurrent = Milliampere(1000).into();
    assert_eq!(iin, IinCurrent { raw: 21844, high_range: true });
}

#[test]
fn iin_current_round_trip_loses_under_a_milliampere() {
    for ma in [0u16, 1, 100, 374, 375, 749, 750] {
        let iin: IinCurrent = Milliampere(ma).into();
        let back: Milliampere = iin.into();
        assert!(back.0 <= ma && ma <= back.0 + 1);
    }
}

#[test]
fn fast_charge_current_from_milliampere() {
    assert_eq!(
        FastChargeCurrent::from_milliampere(Milliampere(200), IchargeRange::Step2MilliA5),
        FastChargeCurrent(80)
    );
    assert_eq!(
        FastChargeCurrent::from_milliampere(Milliampere(200), IchargeRange::Step1MilliA25),
        FastChargeCurrent(160)
    );
    assert_eq!(
        FastChargeCurrent::from_milliampere(Milliampere(1), IchargeRange::Step1MilliA25),
        FastChargeCurrent(0)
    );
}

#[test]
fn fast_charge_current_keeps_low_8_bits() {
    assert_eq!(
        FastChargeCurrent::from_milliampere(Milliampere(400), IchargeRange::Step1MilliA25),
        FastChargeCurrent(64)
    );
    assert_eq!(
        FastChargeCurrent::from_milliampere(Milliampere(655), IchargeRange::Step1MilliA25),
        FastChargeCurrent(12)
    );
}

#[test]
fn fast_charge_current_is_a_plain_byte() {
    let code: FastChargeCurrent = 9u8.into();
    assert_eq!(code, FastChargeCurrent(9));
    let byte: u8 = FastChargeCurrent(200).into();
    assert_eq!(byte, 200);
}

#[test]
fn icharge_percentage() {
    assert_eq!(IChargePercentage(65535).to_percentage(), 80);
    assert_eq!(IChargePercentage(32768).to_percentage(), 40);
    assert_eq!(IChargePercentage(0).to_percentage(), 0);
}

#[test]
fn current_limit_numbers() {
    assert_eq!(u8::from(CurrentLimit::_50mA), 0);
    assert_eq!(u8::from(CurrentLimit::_600mA), 7);
    assert_eq!(CurrentLimit::try_from(6u8), Ok(CurrentLimit::_500mA));
    assert_eq!(CurrentLimit::try_from(8u8), Err(InvalidCurrentLimit { number: 8 }));
    assert_eq!(CurrentLimit::try_from(255u8), Err(InvalidCurrentLimit { number: 255 }));
    for n in 0u8..=7 {
        let limit = CurrentLimit::try_from(n).unwrap();
        assert_eq!(u8::from(limit), n);
    }
}

#[test]
fn current_limits_are_ordered_by_current() {
    assert!(CurrentLimit::_200mA > CurrentLimit::_150mA);
    assert!(CurrentLimit::_50mA < CurrentLimit::_100mA);
}

#[test]
fn adc_comp_channel_numbers() {
    assert_eq!(u8::from(AdcCompChannel::VBat), 3);
    assert_eq!(AdcCompChannel::from(3u8), AdcCompChannel::VBat);
    assert_eq!(AdcCompChannel::from(7u8), AdcCompChannel::IIn);
    assert_eq!(AdcCompChannel::from(8u8), AdcCompChannel::Disabled);
    assert_eq!(AdcCompChannel::from(200u8), AdcCompChannel::Disabled);
    for n in 0u8..=7 {
        assert_eq!(u8::from(AdcCompChannel::from(n)), n);
    }
}
