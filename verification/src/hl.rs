//! Operations on the charger that span whole register values.
//!
//! Each operation of the charger is one or more register transfers around a step that
//! decides what to write or what was read. The steps are the functions of this module;
//! the transfers are made by the code that owns the bus.
use crate::bits::{lemma_low_mask_values, put_field};
use crate::ll::registers::{
    AdcCtrl, AdcDataRegister, AdcReadEn, AdcReadRate, IlimCtrl, LdoCtrl, LdoSwitchConfig,
};
use crate::ll::Bq2515xDevice;
use crate::prelude::{
    AdcData, CurrentLimit, IChargePercentage, IinCurrent, LDOOutputVoltage, RawVoltage,
};
use vstd::prelude::*;

mod lowpower;

pub use lowpower::{Bq2515xLowPower, LP_EXIT_I2C_DELAY_MS};

verus! {

/// The charger, reached through the I2C bus `I2C`.
pub struct Bq2515x<I2C> {
    dev: Bq2515xDevice<I2C>,
}

/// What the LDO / load switch output is set to.
#[derive(Clone, Copy, Debug, PartialEq, Eq, Structural)]
pub enum LdoConfig {
    /// Output off.
    Off,
    /// Output on, as a load switch.
    Switch,
    /// Output on, as a regulator at the given voltage.
    Ldo(LDOOutputVoltage),
}

impl<I2C> Bq2515x<I2C> {
    /// The register level view of the charger.
    pub closed spec fn device(&self) -> Bq2515xDevice<I2C> {
        self.dev
    }

    /// The charger on the bus `i2c`.
    pub fn new(i2c: I2C) -> (r: Self)
        ensures
            r.device().bus() == i2c,
    {
        Self { dev: Bq2515xDevice::new(i2c) }
    }

    /// The register level view of the charger, for direct register access.
    pub fn ll(&mut self) -> (r: &mut Bq2515xDevice<I2C>)
        ensures
            *r == old(self).device(),
            final(self).device() == *final(r),
    {
        &mut self.dev
    }
}


/// The `LDOCTRL` value that sets the output as `config` says, written over the reset
/// value of the register.
pub open spec fn ldo_control_value(config: LdoConfig) -> u8 {
    match config {
        LdoConfig::Off => 0x00,
        LdoConfig::Switch => 0x82,
        LdoConfig::Ldo(voltage) => 0x80 | ((voltage.0 & 0x1f) << 2),
    }
}

/// The `LDOCTRL` value to write to set the output as `config` says.
pub fn ldo_register(config: LdoConfig) -> (r: LdoCtrl)
    ensures
        r.value == ldo_control_value(config),
        config is Off ==> r.value == 0x00,
        config is Switch ==> r.value == 0x82,
        config matches LdoConfig::Ldo(voltage) ==> r.value == 0x80u8 | ((voltage.0 & 0x1fu8) << 2u8),
        r.en_ls_ldo() == !(config is Off),
        config is Switch ==> r.ldo_switch_config() == LdoSwitchConfig::Switch,
        config is Ldo ==> r.ldo_switch_config() == LdoSwitchConfig::Ldo,
        config matches LdoConfig::Ldo(voltage) ==> r.vldo() == LDOOutputVoltage(voltage.0 & 0x1f),
{
    let reset = LdoCtrl::reset_value();
    let r = match config {
        LdoConfig::Off => reset.with_en_ls_ldo(false),
        LdoConfig::Switch => reset.with_en_ls_ldo(true).with_ldo_switch_config(
            LdoSwitchConfig::Switch,
        ),
        LdoConfig::Ldo(voltage) => reset.with_en_ls_ldo(true).with_ldo_switch_config(
            LdoSwitchConfig::Ldo,
        ).with_vldo(voltage),
    };
    proof {
        let c = match config {
            LdoConfig::Ldo(voltage) => voltage.0,
            _ => 0,
        };
        assert(put_field(0, 7, 1, 0) == 0) by (bit_vector);
        assert(put_field(put_field(0, 7, 1, 1), 1, 1, 1) == 0x82) by (bit_vector);
        assert(put_field(put_field(put_field(0, 7, 1, 1), 1, 1, 0), 2, 5, c) == 0x80 | ((c & 0x1f)
            << 2)) by (bit_vector);
    }
    r
}

/// `ADCCTRL` as it is written back to set how often the ADC converts: `current` with
/// the read rate replaced.
pub fn adc_set_mode_register(current: AdcCtrl, mode: AdcReadRate) -> (r: AdcCtrl)
    ensures
        r.ctrl0 == put_field(current.ctrl0, 6, 2, mode.spec_code()),
        r.ctrl1 == current.ctrl1,
        r.adc_read_rate() == mode,
        r.adc_conv_start() == current.adc_conv_start(),
        r.adc_conv_speed() == current.adc_conv_speed(),
        r.adc_comp1() == current.adc_comp1(),
        r.adc_comp2() == current.adc_comp2(),
        r.adc_comp3() == current.adc_comp3(),
{
    current.with_adc_read_rate(mode)
}

/// `ADCCTRL` as it is written back to start one conversion: `current` set to manual
/// reads with a conversion started.
pub fn adc_start_one_shot_register(current: AdcCtrl) -> (r: AdcCtrl)
    ensures
        r.ctrl0 == put_field(
            put_field(current.ctrl0, 6, 2, AdcReadRate::ManualRead.spec_code()),
            5,
            1,
            1,
        ),
        r.ctrl1 == current.ctrl1,
        r.adc_read_rate() == AdcReadRate::ManualRead,
        r.adc_conv_start(),
        r.adc_conv_speed() == current.adc_conv_speed(),
        r.adc_comp1() == current.adc_comp1(),
        r.adc_comp2() == current.adc_comp2(),
        r.adc_comp3() == current.adc_comp3(),
{
    current.with_adc_read_rate(AdcReadRate::ManualRead).with_adc_conv_start(true)
}

/// Whether the input current reading of the ADC is in its high (750 mA) range: it is
/// when the input current limit is above 150 mA.
pub open spec fn iin_high_range(limit: CurrentLimit) -> bool {
    limit.spec_code() > CurrentLimit::_150mA.spec_code()
}

/// The readings of the channels that `channels` enables, out of the ADC data `data`,
/// with the input current read in the range that the input current limit `ilim` gives.
pub fn adc_data_from_registers(channels: AdcReadEn, ilim: IlimCtrl, data: AdcDataRegister) -> (r:
    AdcData)
    ensures
        r.vin == (if channels.vin() {
            Some(RawVoltage::<6000>(data.vin()))
        } else {
            None
        }),
        r.pmid == (if channels.pmid() {
            Some(RawVoltage::<6000>(data.pmid()))
        } else {
            None
        }),
        r.iin == (if channels.iin() {
            Some(IinCurrent { raw: data.iin(), high_range: iin_high_range(ilim.ilim()) })
        } else {
            None
        }),
        channels.iin() ==> r.iin == Some(
            IinCurrent { raw: data.iin(), high_range: (ilim.value & 7u8) >= 3 },
        ),
        r.vbat == (if channels.vbat() {
            Some(RawVoltage::<6000>(data.vbat()))
        } else {
            None
        }),
        r.ts == (if channels.ts() {
            Some(RawVoltage::<1200>(data.ts()))
        } else {
            None
        }),
        r.adcin == (if channels.adcin() {
            Some(RawVoltage::<1200>(data.adcin()))
        } else {
            None
        }),
        r.icharge == (if channels.ichg() {
            Some(IChargePercentage(data.ichg()))
        } else {
            None
        }),
{
    let limit = ilim.ilim();
    let high_range = limit.code() > CurrentLimit::_150mA.code();
    proof {
        let v = ilim.value;
        assert((v >> 0u8) & 7u8 == v & 7u8) by (bit_vector);
        assert(v & 7u8 <= 7) by (bit_vector);
    }
    AdcData {
        vin: if channels.vin() {
            Some(RawVoltage(data.vin()))
        } else {
            None
        },
        pmid: if channels.pmid() {
            Some(RawVoltage(data.pmid()))
        } else {
            None
        },
        iin: if channels.iin() {
            Some(IinCurrent { raw: data.iin(), high_range })
        } else {
            None
        },
        vbat: if channels.vbat() {
            Some(RawVoltage(data.vbat()))
        } else {
            None
        },
        ts: if channels.ts() {
            Some(RawVoltage(data.ts()))
        } else {
            None
        },
        adcin: if channels.adcin() {
            Some(RawVoltage(data.adcin()))
        } else {
            None
        },
        icharge: if channels.ichg() {
            Some(IChargePercentage(data.ichg()))
        } else {
            None
        },
    }
}

/// The input current reading is in its high range exactly for the limits above 150 mA:
/// 200, 300, 400, 500 and 600 mA.
pub proof fn lemma_iin_high_range(limit: CurrentLimit)
    ensures
        iin_high_range(limit) <==> !(limit == CurrentLimit::_50mA || limit == CurrentLimit::_100mA
            || limit == CurrentLimit::_150mA),
        iin_high_range(limit) <==> (limit == CurrentLimit::_200mA || limit == CurrentLimit::_300mA
            || limit == CurrentLimit::_400mA || limit == CurrentLimit::_500mA || limit
            == CurrentLimit::_600mA),
{
}

/// The input current limit field of `ILIMCTRL` is its bits 2..=0, numbered in the order
/// 50, 100, 150, 200, 300, 400, 500, 600 mA, and the input current reading is in its high
/// range exactly when that number is 3 or more.
pub proof fn lemma_ilim_field(reg: IlimCtrl)
    ensures
        reg.ilim() == CurrentLimit::_50mA <==> reg.value & 7u8 == 0,
        reg.ilim() == CurrentLimit::_100mA <==> reg.value & 7u8 == 1,
        reg.ilim() == CurrentLimit::_150mA <==> reg.value & 7u8 == 2,
        reg.ilim() == CurrentLimit::_200mA <==> reg.value & 7u8 == 3,
        reg.ilim() == CurrentLimit::_300mA <==> reg.value & 7u8 == 4,
        reg.ilim() == CurrentLimit::_400mA <==> reg.value & 7u8 == 5,
        reg.ilim() == CurrentLimit::_500mA <==> reg.value & 7u8 == 6,
        reg.ilim() == CurrentLimit::_600mA <==> reg.value & 7u8 == 7,
        iin_high_range(reg.ilim()) <==> reg.value & 7u8 >= 3,
{
    lemma_low_mask_values();
    let v = reg.value;
    assert((v >> 0u8) & 7u8 == v & 7u8) by (bit_vector);
    assert(v & 7u8 <= 7) by (bit_vector);
}

} // verus!
