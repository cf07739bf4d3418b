//! Physical units and the codes in which the device's registers hold them.
use vstd::prelude::*;
use vstd::std_specs::convert::FromSpec;
use vstd::std_specs::convert::FromSpecImpl;
use vstd::std_specs::convert::TryFromSpec;
use vstd::std_specs::convert::TryFromSpecImpl;

pub use crate::ll::registers::{
    AdcReadRate, BuvloThreshold, IchargeRange, LdoSwitchConfig, PmidMode, PmidRegCtrl,
};

verus! {

/// The full scale of a 16-bit ADC reading.
pub const ADC_FULL_SCALE: u16 = 65535;

/// Rescales `x` from the range `0..=old_range` to `0..=new_range`, rounding down and
/// keeping the low 16 bits of the result.
pub open spec fn scaled(x: u16, old_range: u16, new_range: u16) -> u16 {
    ((x as int * new_range as int / old_range as int) % 0x10000) as u16
}

/// Rescales `x` from the range `0..=old_range` to `0..=new_range`.
///
/// The product is taken in 32 bits, divided (rounding down) and cut back to 16 bits.
pub fn scale_u16(x: u16, old_range: u16, new_range: u16) -> (r: u16)
    requires
        old_range > 0,
    ensures
        r == scaled(x, old_range, new_range),
        r as int == (x as int * new_range as int / old_range as int) % 65536,
{
    assert(x as int * new_range as int <= 65535 * 65535) by (nonlinear_arith)
        requires
            x <= 65535,
            new_range <= 65535,
    ;
    let product: u32 = x as u32 * new_range as u32;
    assert(product == x as int * new_range as int);
    let quotient: u32 = product / old_range as u32;
    assert((quotient as u16) as int == quotient % 0x10000) by (bit_vector);
    #[verifier::truncate]
    (quotient as u16)
}

/// Rescaling a value of the old range never leaves the new range, so nothing is cut.
pub proof fn lemma_scaled_within(x: u16, old_range: u16, new_range: u16)
    requires
        old_range > 0,
        x <= old_range,
    ensures
        scaled(x, old_range, new_range) as int == x as int * new_range as int / old_range as int,
        scaled(x, old_range, new_range) <= new_range,
{
    let p = x as int * new_range as int;
    assert(p <= old_range as int * new_range as int) by (nonlinear_arith)
        requires
            x <= old_range,
            new_range >= 0,
            p == x as int * new_range as int,
    ;
    assert(p / old_range as int <= new_range) by (nonlinear_arith)
        requires
            p <= old_range as int * new_range as int,
            old_range > 0,
            p >= 0,
    ;
    assert(p / old_range as int >= 0) by (nonlinear_arith)
        requires
            old_range > 0,
            p >= 0,
    ;
}


/// The quantity that an ADC comparator of the device watches.
#[derive(Clone, Copy, Debug, PartialEq, Eq, PartialOrd, Structural)]
pub enum AdcCompChannel {
    Disabled,
    AdcIn,
    TS,
    VBat,
    ICharge,
    Vin,
    PMid,
    IIn,
}

impl AdcCompChannel {
    /// The 3-bit code of the channel in the register.
    pub open spec fn spec_code(self) -> u8 {
        match self {
            AdcCompChannel::Disabled => 0,
            AdcCompChannel::AdcIn => 1,
            AdcCompChannel::TS => 2,
            AdcCompChannel::VBat => 3,
            AdcCompChannel::ICharge => 4,
            AdcCompChannel::Vin => 5,
            AdcCompChannel::PMid => 6,
            AdcCompChannel::IIn => 7,
        }
    }

    /// The channel of a code; a code above 7 means `Disabled`.
    pub open spec fn spec_from_code(code: u8) -> Self {
        if code == 1 {
            AdcCompChannel::AdcIn
        } else if code == 2 {
            AdcCompChannel::TS
        } else if code == 3 {
            AdcCompChannel::VBat
        } else if code == 4 {
            AdcCompChannel::ICharge
        } else if code == 5 {
            AdcCompChannel::Vin
        } else if code == 6 {
            AdcCompChannel::PMid
        } else if code == 7 {
            AdcCompChannel::IIn
        } else {
            AdcCompChannel::Disabled
        }
    }

    #[verifier::when_used_as_spec(spec_code)]
    pub fn code(self) -> (r: u8)
        ensures
            r == self.spec_code(),
            r <= 7,
            Self::spec_from_code(r) == self,
            self == AdcCompChannel::Disabled ==> r == 0,
            self == AdcCompChannel::AdcIn ==> r == 1,
            self == AdcCompChannel::TS ==> r == 2,
            self == AdcCompChannel::VBat ==> r == 3,
            self == AdcCompChannel::ICharge ==> r == 4,
            self == AdcCompChannel::Vin ==> r == 5,
            self == AdcCompChannel::PMid ==> r == 6,
            self == AdcCompChannel::IIn ==> r == 7,
    {
        match self {
            AdcCompChannel::Disabled => 0,
            AdcCompChannel::AdcIn => 1,
            AdcCompChannel::TS => 2,
            AdcCompChannel::VBat => 3,
            AdcCompChannel::ICharge => 4,
            AdcCompChannel::Vin => 5,
            AdcCompChannel::PMid => 6,
            AdcCompChannel::IIn => 7,
        }
    }

    #[verifier::when_used_as_spec(spec_from_code)]
    pub fn from_code(code: u8) -> (r: Self)
        ensures
            r == Self::spec_from_code(code),
            code <= 7 ==> r.spec_code() == code,
            code == 0 ==> r == AdcCompChannel::Disabled,
            code == 1 ==> r == AdcCompChannel::AdcIn,
            code == 2 ==> r == AdcCompChannel::TS,
            code == 3 ==> r == AdcCompChannel::VBat,
            code == 4 ==> r == AdcCompChannel::ICharge,
            code == 5 ==> r == AdcCompChannel::Vin,
            code == 6 ==> r == AdcCompChannel::PMid,
            code == 7 ==> r == AdcCompChannel::IIn,
            code > 7 ==> r == AdcCompChannel::Disabled,
    {
        if code == 1 {
            AdcCompChannel::AdcIn
        } else if code == 2 {
            AdcCompChannel::TS
        } else if code == 3 {
            AdcCompChannel::VBat
        } else if code == 4 {
            AdcCompChannel::ICharge
        } else if code == 5 {
            AdcCompChannel::Vin
        } else if code == 6 {
            AdcCompChannel::PMid
        } else if code == 7 {
            AdcCompChannel::IIn
        } else {
            AdcCompChannel::Disabled
        }
    }
}

impl From<AdcCompChannel> for u8 {
    fn from(channel: AdcCompChannel) -> (r: u8)
        ensures
            r == channel.spec_code(),
    {
        channel.code()
    }
}

impl FromSpecImpl<AdcCompChannel> for u8 {
    open spec fn obeys_from_spec() -> bool {
        true
    }

    open spec fn from_spec(channel: AdcCompChannel) -> u8 {
        channel.spec_code()
    }
}

impl From<u8> for AdcCompChannel {
    fn from(code: u8) -> (r: AdcCompChannel)
        ensures
            r == AdcCompChannel::spec_from_code(code),
    {
        AdcCompChannel::from_code(code)
    }
}

impl FromSpecImpl<u8> for AdcCompChannel {
    open spec fn obeys_from_spec() -> bool {
        true
    }

    open spec fn from_spec(code: u8) -> AdcCompChannel {
        AdcCompChannel::spec_from_code(code)
    }
}

/// The input current limit of the charger.
#[allow(non_camel_case_types)]
#[derive(Clone, Copy, Debug, PartialEq, Eq, PartialOrd, Structural)]
pub enum CurrentLimit {
    _50mA,
    _100mA,
    _150mA,
    _200mA,
    _300mA,
    _400mA,
    _500mA,
    _600mA,
}

/// A number that is no code of a `CurrentLimit`.
#[derive(Clone, Copy, Debug, PartialEq, Eq, Structural)]
pub struct InvalidCurrentLimit {
    pub number: u8,
}

impl CurrentLimit {
    /// The 3-bit code of the limit in the register.
    pub open spec fn spec_code(self) -> u8 {
        match self {
            CurrentLimit::_50mA => 0,
            CurrentLimit::_100mA => 1,
            CurrentLimit::_150mA => 2,
            CurrentLimit::_200mA => 3,
            CurrentLimit::_300mA => 4,
            CurrentLimit::_400mA => 5,
            CurrentLimit::_500mA => 6,
            CurrentLimit::_600mA => 7,
        }
    }

    /// The limit of a code, taken modulo 8.
    pub open spec fn spec_from_code(code: u8) -> Self {
        let c = code % 8;
        if c == 0 {
            CurrentLimit::_50mA
        } else if c == 1 {
            CurrentLimit::_100mA
        } else if c == 2 {
            CurrentLimit::_150mA
        } else if c == 3 {
            CurrentLimit::_200mA
        } else if c == 4 {
            CurrentLimit::_300mA
        } else if c == 5 {
            CurrentLimit::_400mA
        } else if c == 6 {
            CurrentLimit::_500mA
        } else {
            CurrentLimit::_600mA
        }
    }

    #[verifier::when_used_as_spec(spec_code)]
    pub fn code(self) -> (r: u8)
        ensures
            r == self.spec_code(),
            r <= 7,
            Self::spec_from_code(r) == self,
            self == CurrentLimit::_50mA ==> r == 0,
            self == CurrentLimit::_100mA ==> r == 1,
            self == CurrentLimit::_150mA ==> r == 2,
            self == CurrentLimit::_200mA ==> r == 3,
            self == CurrentLimit::_300mA ==> r == 4,
            self == CurrentLimit::_400mA ==> r == 5,
            self == CurrentLimit::_500mA ==> r == 6,
            self == CurrentLimit::_600mA ==> r == 7,
    {
        match self {
            CurrentLimit::_50mA => 0,
            CurrentLimit::_100mA => 1,
            CurrentLimit::_150mA => 2,
            CurrentLimit::_200mA => 3,
            CurrentLimit::_300mA => 4,
            CurrentLimit::_400mA => 5,
            CurrentLimit::_500mA => 6,
            CurrentLimit::_600mA => 7,
        }
    }

    #[verifier::when_used_as_spec(spec_from_code)]
    pub fn from_code(code: u8) -> (r: Self)
        ensures
            r == Self::spec_from_code(code),
            code <= 7 ==> r.spec_code() == code,
            code == 0 ==> r == CurrentLimit::_50mA,
            code == 1 ==> r == CurrentLimit::_100mA,
            code == 2 ==> r == CurrentLimit::_150mA,
            code == 3 ==> r == CurrentLimit::_200mA,
            code == 4 ==> r == CurrentLimit::_300mA,
            code == 5 ==> r == CurrentLimit::_400mA,
            code == 6 ==> r == CurrentLimit::_500mA,
            code == 7 ==> r == CurrentLimit::_600mA,
    {
        let c = code % 8;
        if c == 0 {
            CurrentLimit::_50mA
        } else if c == 1 {
            CurrentLimit::_100mA
        } else if c == 2 {
            CurrentLimit::_150mA
        } else if c == 3 {
            CurrentLimit::_200mA
        } else if c == 4 {
            CurrentLimit::_300mA
        } else if c == 5 {
            CurrentLimit::_400mA
        } else if c == 6 {
            CurrentLimit::_500mA
        } else {
            CurrentLimit::_600mA
        }
    }
}

impl From<CurrentLimit> for u8 {
    fn from(limit: CurrentLimit) -> (r: u8)
        ensures
            r == limit.spec_code(),
    {
        limit.code()
    }
}

impl FromSpecImpl<CurrentLimit> for u8 {
    open spec fn obeys_from_spec() -> bool {
        true
    }

    open spec fn from_spec(limit: CurrentLimit) -> u8 {
        limit.spec_code()
    }
}

impl TryFrom<u8> for CurrentLimit {
    type Error = InvalidCurrentLimit;

    fn try_from(number: u8) -> (r: Result<CurrentLimit, InvalidCurrentLimit>) {
        if number <= 7 {
            Ok(CurrentLimit::from_code(number))
        } else {
            Err(InvalidCurrentLimit { number })
        }
    }
}

impl TryFromSpecImpl<u8> for CurrentLimit {
    open spec fn obeys_try_from_spec() -> bool {
        true
    }

    open spec fn try_from_spec(number: u8) -> Result<CurrentLimit, InvalidCurrentLimit> {
        if number <= 7 {
            Ok(CurrentLimit::spec_from_code(number))
        } else {
            Err(InvalidCurrentLimit { number })
        }
    }
}


/// A voltage in millivolts.
#[derive(Clone, Copy, Debug, PartialEq, Eq, PartialOrd, Ord, Structural)]
pub struct Millivolts(pub u16);

/// A current in milliampere.
#[derive(Clone, Copy, Debug, PartialEq, Eq, PartialOrd, Ord, Structural)]
pub struct Milliampere(pub u16);

/// A 16-bit ADC reading of a voltage whose full scale is `MAX_MV` millivolts.
#[derive(Clone, Copy, Debug, PartialEq, Eq, PartialOrd, Ord)]
pub struct RawVoltage<const MAX_MV: u16>(pub u16);

impl<const MAX_MV: u16> RawVoltage<MAX_MV> {
    /// The voltage of a reading: `raw * MAX_MV / 65535`, rounded down.
    pub open spec fn spec_to_millivolts(self) -> Millivolts {
        Millivolts(scaled(self.0, ADC_FULL_SCALE, MAX_MV))
    }

    /// The reading of a voltage: `mv * 65535 / MAX_MV`, rounded down, cut to 16 bits.
    pub open spec fn spec_from_millivolts(mv: Millivolts) -> Self {
        RawVoltage(scaled(mv.0, MAX_MV, ADC_FULL_SCALE))
    }

    /// Converts the reading to millivolts.
    #[verifier::when_used_as_spec(spec_to_millivolts)]
    pub fn to_millivolts(self) -> (r: Millivolts)
        ensures
            r == self.spec_to_millivolts(),
            r.0 as int == self.0 as int * MAX_MV as int / 65535,
            r.0 <= MAX_MV,
    {
        proof {
            lemma_scaled_within(self.0, ADC_FULL_SCALE, MAX_MV);
        }
        Millivolts(scale_u16(self.0, ADC_FULL_SCALE, MAX_MV))
    }

    /// Converts millivolts to the reading that the ADC would give for them.
    #[verifier::when_used_as_spec(spec_from_millivolts)]
    pub fn from_millivolts(mv: Millivolts) -> (r: Self)
        requires
            MAX_MV > 0,
        ensures
            r == Self::spec_from_millivolts(mv),
            mv.0 <= MAX_MV ==> r.0 as int == mv.0 as int * 65535 / MAX_MV as int,
    {
        proof {
            if mv.0 <= MAX_MV {
                lemma_scaled_within(mv.0, MAX_MV, ADC_FULL_SCALE);
            }
        }
        RawVoltage(scale_u16(mv.0, MAX_MV, ADC_FULL_SCALE))
    }
}

impl<const MAX_MV: u16> From<RawVoltage<MAX_MV>> for Millivolts {
    fn from(val: RawVoltage<MAX_MV>) -> (r: Millivolts)
        ensures
            r.0 as int == val.0 as int * MAX_MV as int / 65535,
    {
        val.to_millivolts()
    }
}

impl<const MAX_MV: u16> FromSpecImpl<RawVoltage<MAX_MV>> for Millivolts {
    open spec fn obeys_from_spec() -> bool {
        true
    }

    open spec fn from_spec(val: RawVoltage<MAX_MV>) -> Millivolts {
        val.spec_to_millivolts()
    }
}

impl From<Millivolts> for RawVoltage<6000> {
    fn from(val: Millivolts) -> (r: RawVoltage<6000>)
        ensures
            r.0 as int == (val.0 as int * 65535 / 6000) % 65536,
    {
        RawVoltage::<6000>::from_millivolts(val)
    }
}

impl FromSpecImpl<Millivolts> for RawVoltage<6000> {
    open spec fn obeys_from_spec() -> bool {
        true
    }

    open spec fn from_spec(val: Millivolts) -> RawVoltage<6000> {
        RawVoltage::<6000>::spec_from_millivolts(val)
    }
}

impl From<Millivolts> for RawVoltage<1200> {
    fn from(val: Millivolts) -> (r: RawVoltage<1200>)
        ensures
            r.0 as int == (val.0 as int * 65535 / 1200) % 65536,
    {
        RawVoltage::<1200>::from_millivolts(val)
    }
}

impl FromSpecImpl<Millivolts> for RawVoltage<1200> {
    open spec fn obeys_from_spec() -> bool {
        true
    }

    open spec fn from_spec(val: Millivolts) -> RawVoltage<1200> {
        RawVoltage::<1200>::spec_from_millivolts(val)
    }
}


/// `value` brought into `low..=high`.
pub open spec fn clamped(value: u16, low: u16, high: u16) -> u16 {
    if value < low {
        low
    } else if value > high {
        high
    } else {
        value
    }
}

fn clamp_u16(value: u16, low: u16, high: u16) -> (r: u16)
    requires
        low <= high,
    ensures
        r == clamped(value, low, high),
{
    if value < low {
        low
    } else if value > high {
        high
    } else {
        value
    }
}

/// The battery regulation voltage code: 3600 mV plus 10 mV per step, at most 4600 mV.
#[derive(Clone, Copy, Debug, PartialEq, Eq, PartialOrd, Ord, Structural)]
pub struct VBatRegulationVoltage(pub u8);

/// The millivolts of a battery regulation code.
pub open spec fn vbat_code_millivolts(code: u8) -> u16 {
    let mv = 3600 + code as int * 10;
    (if mv > 4600 {
        4600
    } else {
        mv
    }) as u16
}

/// The battery regulation code of a voltage, clamped to 3600..=4600 mV and rounded down
/// to a 10 mV step.
pub open spec fn vbat_millivolts_code(mv: u16) -> u8 {
    ((clamped(mv, 3600, 4600) - 3600) / 10) as u8
}

impl From<VBatRegulationVoltage> for Millivolts {
    fn from(value: VBatRegulationVoltage) -> (r: Millivolts)
        ensures
            r.0 as int == (if 3600 + 10 * value.0 as int <= 4600 {
                3600 + 10 * value.0 as int
            } else {
                4600
            }),
    {
        let value: u16 = 3600 + value.0 as u16 * 10;
        Millivolts(clamp_u16(value, 3600, 4600))
    }
}

impl FromSpecImpl<VBatRegulationVoltage> for Millivolts {
    open spec fn obeys_from_spec() -> bool {
        true
    }

    open spec fn from_spec(value: VBatRegulationVoltage) -> Millivolts {
        Millivolts(vbat_code_millivolts(value.0))
    }
}

impl From<Millivolts> for VBatRegulationVoltage {
    fn from(value: Millivolts) -> (r: VBatRegulationVoltage)
        ensures
            r.0 as int == ((if value.0 < 3600 {
                3600
            } else if value.0 > 4600 {
                4600
            } else {
                value.0 as int
            }) - 3600) / 10,
    {
        let value: u16 = clamp_u16(value.0, 3600, 4600);
        let value: u16 = (value - 3600) / 10;
        VBatRegulationVoltage(value as u8)
    }
}

impl FromSpecImpl<Millivolts> for VBatRegulationVoltage {
    open spec fn obeys_from_spec() -> bool {
        true
    }

    open spec fn from_spec(value: Millivolts) -> VBatRegulationVoltage {
        VBatRegulationVoltage(vbat_millivolts_code(value.0))
    }
}

impl From<u8> for VBatRegulationVoltage {
    fn from(code: u8) -> (r: VBatRegulationVoltage) {
        VBatRegulationVoltage(code)
    }
}

impl FromSpecImpl<u8> for VBatRegulationVoltage {
    open spec fn obeys_from_spec() -> bool {
        true
    }

    open spec fn from_spec(code: u8) -> VBatRegulationVoltage {
        VBatRegulationVoltage(code)
    }
}

impl From<VBatRegulationVoltage> for u8 {
    fn from(value: VBatRegulationVoltage) -> (r: u8) {
        value.0
    }
}

impl FromSpecImpl<VBatRegulationVoltage> for u8 {
    open spec fn obeys_from_spec() -> bool {
        true
    }

    open spec fn from_spec(value: VBatRegulationVoltage) -> u8 {
        value.0
    }
}


/// The fast charge current code: 1.25 mA or 2.5 mA per step, as `IchargeRange` says.
#[derive(Clone, Copy, Debug, PartialEq, Eq, PartialOrd, Ord, Structural)]
pub struct FastChargeCurrent(pub u8);

impl IchargeRange {
    /// A hundred times the milliampere of one step of the charge current code.
    pub open spec fn spec_step_100(self) -> u16 {
        match self {
            IchargeRange::Step1MilliA25 => 125,
            IchargeRange::Step2MilliA5 => 250,
        }
    }
}

impl FastChargeCurrent {
    /// The charge current code closest below `ma` in steps of `range`, cut to 8 bits.
    pub fn from_milliampere(ma: Milliampere, range: IchargeRange) -> (r: Self)
        requires
            ma.0 * 100 <= u16::MAX,
        ensures
            r.0 as int == (ma.0 * 100 / range.spec_step_100() as int) % 256,
            r.0 as int == (ma.0 * 100 / (if range == IchargeRange::Step1MilliA25 {
                125int
            } else {
                250int
            })) % 256,
    {
        let step_100: u16 = match range {
            IchargeRange::Step1MilliA25 => 125,
            IchargeRange::Step2MilliA5 => 250,
        };
        let steps: u16 = ma.0 * 100 / step_100;
        assert((steps as u8) as int == steps % 256) by (bit_vector);
        let code: u8 = #[verifier::truncate] (steps as u8);
        Self(code)
    }
}

impl From<u8> for FastChargeCurrent {
    fn from(code: u8) -> (r: FastChargeCurrent) {
        FastChargeCurrent(code)
    }
}

impl FromSpecImpl<u8> for FastChargeCurrent {
    open spec fn obeys_from_spec() -> bool {
        true
    }

    open spec fn from_spec(code: u8) -> FastChargeCurrent {
        FastChargeCurrent(code)
    }
}

impl From<FastChargeCurrent> for u8 {
    fn from(value: FastChargeCurrent) -> (r: u8) {
        value.0
    }
}

impl FromSpecImpl<FastChargeCurrent> for u8 {
    open spec fn obeys_from_spec() -> bool {
        true
    }

    open spec fn from_spec(value: FastChargeCurrent) -> u8 {
        value.0
    }
}

/// The LDO output voltage code: 600 mV plus 100 mV per step, at most 3700 mV.
#[derive(Clone, Copy, Debug, PartialEq, Eq, PartialOrd, Ord, Structural)]
pub struct LDOOutputVoltage(pub u8);

/// The millivolts of an LDO output voltage code.
pub open spec fn ldo_code_millivolts(code: u8) -> u16 {
    let mv = 600 + code as int * 100;
    (if mv > 3700 {
        3700
    } else {
        mv
    }) as u16
}

/// The LDO output voltage code of a voltage, clamped to 600..=3700 mV and rounded down
/// to a 100 mV step.
pub open spec fn ldo_millivolts_code(mv: u16) -> u8 {
    ((clamped(mv, 600, 3700) - 600) / 100) as u8
}

impl From<LDOOutputVoltage> for Millivolts {
    fn from(value: LDOOutputVoltage) -> (r: Millivolts)
        ensures
            r.0 as int == (if 600 + 100 * value.0 as int <= 3700 {
                600 + 100 * value.0 as int
            } else {
                3700
            }),
    {
        let value: u16 = 600 + value.0 as u16 * 100;
        Millivolts(clamp_u16(value, 600, 3700))
    }
}

impl FromSpecImpl<LDOOutputVoltage> for Millivolts {
    open spec fn obeys_from_spec() -> bool {
        true
    }

    open spec fn from_spec(value: LDOOutputVoltage) -> Millivolts {
        Millivolts(ldo_code_millivolts(value.0))
    }
}

impl From<Millivolts> for LDOOutputVoltage {
    fn from(value: Millivolts) -> (r: LDOOutputVoltage)
        ensures
            r.0 as int == ((if value.0 < 600 {
                600
            } else if value.0 > 3700 {
                3700
            } else {
                value.0 as int
            }) - 600) / 100,
    {
        let value: u16 = clamp_u16(value.0, 600, 3700);
        let value: u16 = (value - 600) / 100;
        LDOOutputVoltage(value as u8)
    }
}

impl FromSpecImpl<Millivolts> for LDOOutputVoltage {
    open spec fn obeys_from_spec() -> bool {
        true
    }

    open spec fn from_spec(value: Millivolts) -> LDOOutputVoltage {
        LDOOutputVoltage(ldo_millivolts_code(value.0))
    }
}

impl From<u8> for LDOOutputVoltage {
    fn from(code: u8) -> (r: LDOOutputVoltage) {
        LDOOutputVoltage(code)
    }
}

impl FromSpecImpl<u8> for LDOOutputVoltage {
    open spec fn obeys_from_spec() -> bool {
        true
    }

    open spec fn from_spec(code: u8) -> LDOOutputVoltage {
        LDOOutputVoltage(code)
    }
}

impl From<LDOOutputVoltage> for u8 {
    fn from(value: LDOOutputVoltage) -> (r: u8) {
        value.0
    }
}

impl FromSpecImpl<LDOOutputVoltage> for u8 {
    open spec fn obeys_from_spec() -> bool {
        true
    }

    open spec fn from_spec(value: LDOOutputVoltage) -> u8 {
        value.0
    }
}


/// A 16-bit ADC reading of the input current. Full scale is 750 mA in the high range and
/// 375 mA otherwise.
#[derive(Clone, Copy, Debug, PartialEq, Eq, PartialOrd, Ord, Structural)]
pub struct IinCurrent {
    pub raw: u16,
    pub high_range: bool,
}

impl IinCurrent {
    pub open spec fn spec_range(&self) -> Milliampere {
        Milliampere(
            if self.high_range {
                750
            } else {
                375
            },
        )
    }

    /// The full scale of the reading.
    #[verifier::when_used_as_spec(spec_range)]
    pub fn range(&self) -> (r: Milliampere)
        ensures
            r == self.spec_range(),
            r.0 == (if self.high_range {
                750u16
            } else {
                375u16
            }),
    {
        Milliampere(
            if self.high_range {
                750
            } else {
                375
            },
        )
    }
}

impl From<IinCurrent> for Milliampere {
    fn from(val: IinCurrent) -> (r: Milliampere)
        ensures
            r.0 as int == val.raw as int * (if val.high_range {
                750int
            } else {
                375int
            }) / 65535,
    {
        proof {
            lemma_scaled_within(val.raw, ADC_FULL_SCALE, val.spec_range().0);
        }
        let range = val.range();
        Milliampere(scale_u16(val.raw, ADC_FULL_SCALE, range.0))
    }
}

impl FromSpecImpl<IinCurrent> for Milliampere {
    open spec fn obeys_from_spec() -> bool {
        true
    }

    /// `raw * range / 65535`, rounded down.
    open spec fn from_spec(val: IinCurrent) -> Milliampere {
        Milliampere(scaled(val.raw, ADC_FULL_SCALE, val.spec_range().0))
    }
}

impl From<Milliampere> for IinCurrent {
    fn from(val: Milliampere) -> (r: IinCurrent)
        ensures
            r.high_range,
            r.raw as int == (val.0 as int * 65535 / 750) % 65536,
    {
        IinCurrent { raw: scale_u16(val.0, 750, ADC_FULL_SCALE), high_range: true }
    }
}

impl FromSpecImpl<Milliampere> for IinCurrent {
    open spec fn obeys_from_spec() -> bool {
        true
    }

    /// The high range reading of the current: `ma * 65535 / 750`, rounded down, cut to
    /// 16 bits.
    open spec fn from_spec(val: Milliampere) -> IinCurrent {
        IinCurrent { raw: scaled(val.0, 750, ADC_FULL_SCALE), high_range: true }
    }
}

/// A 16-bit ADC reading of the charge current, of which full scale is 80 % of the fast
/// charge current.
#[derive(Clone, Copy, Debug, PartialEq, Eq, PartialOrd, Ord, Structural)]
pub struct IChargePercentage(pub u16);

impl IChargePercentage {
    /// The charge current in percent of the fast charge current: `raw * 80 / 65535`,
    /// rounded down.
    pub fn to_percentage(&self) -> (r: u8)
        ensures
            r as int == self.0 as int * 80 / 65535,
            r <= 80,
    {
        proof {
            lemma_scaled_within(self.0, ADC_FULL_SCALE, 80);
        }
        let scaled: u16 = scale_u16(self.0, ADC_FULL_SCALE, 80);
        scaled as u8
    }
}

/// The readings of one ADC pass; a channel that is not converted has none.
#[derive(Clone, Copy, Debug, PartialEq, Eq)]
pub struct AdcData {
    pub vin: Option<RawVoltage<6000>>,
    pub pmid: Option<RawVoltage<6000>>,
    pub iin: Option<IinCurrent>,
    pub vbat: Option<RawVoltage<6000>>,
    pub ts: Option<RawVoltage<1200>>,
    pub adcin: Option<RawVoltage<1200>>,
    pub icharge: Option<IChargePercentage>,
}


/// A quotient rounded down: `q * d <= a < q * d + d`.
proof fn lemma_div_bounds(a: int, d: int)
    requires
        d > 0,
        a >= 0,
    ensures
        (a / d) * d <= a,
        a < (a / d) * d + d,
        a / d >= 0,
{
    assert((a / d) * d <= a && a < (a / d) * d + d && a / d >= 0) by (nonlinear_arith)
        requires
            d > 0,
            a >= 0,
    ;
}

/// Scaling a value of `0..=range` to full scale and back loses at most one unit, and
/// never gains one.
pub proof fn lemma_scale_round_trip(x: u16, range: u16)
    requires
        0 < range,
        x <= range,
    ensures
        scaled(scaled(x, range, ADC_FULL_SCALE), ADC_FULL_SCALE, range) <= x,
        x <= scaled(scaled(x, range, ADC_FULL_SCALE), ADC_FULL_SCALE, range) + 1,
{
    let full = ADC_FULL_SCALE as int;
    lemma_scaled_within(x, range, ADC_FULL_SCALE);
    let up = scaled(x, range, ADC_FULL_SCALE);
    lemma_scaled_within(up, ADC_FULL_SCALE, range);
    let back = scaled(up, ADC_FULL_SCALE, range);
    let a = x as int * full;
    lemma_div_bounds(a, range as int);
    assert(up as int == a / range as int);
    let b = up as int * range as int;
    lemma_div_bounds(b, full);
    assert(back as int == b / full);
    assert(back <= x) by (nonlinear_arith)
        requires
            back as int * full <= b,
            up as int * range as int <= a,
            b == up as int * range as int,
            a == x as int * full,
            full == 65535,
    ;
    assert(x <= back + 1) by (nonlinear_arith)
        requires
            a < up as int * range as int + range as int,
            b < back as int * full + full,
            b == up as int * range as int,
            a == x as int * full,
            range <= full,
            full == 65535,
    ;
}

/// A voltage of the range of a reading, turned into a reading and back, loses less
/// than one millivolt to rounding.
pub proof fn lemma_raw_voltage_round_trip<const MAX_MV: u16>(mv: Millivolts)
    requires
        MAX_MV > 0,
        mv.0 <= MAX_MV,
    ensures
        RawVoltage::<MAX_MV>::spec_from_millivolts(mv).spec_to_millivolts().0 <= mv.0,
        mv.0 <= RawVoltage::<MAX_MV>::spec_from_millivolts(mv).spec_to_millivolts().0 + 1,
{
    lemma_scale_round_trip(mv.0, MAX_MV);
}

/// An input current of up to 750 mA, turned into a reading and back, loses less than one
/// milliampere to rounding.
pub proof fn lemma_iin_current_round_trip(ma: Milliampere)
    requires
        ma.0 <= 750,
    ensures
        <Milliampere as FromSpec<IinCurrent>>::from_spec(<IinCurrent as FromSpec<Milliampere>>::from_spec(ma)).0 <= ma.0,
        ma.0 <= <Milliampere as FromSpec<IinCurrent>>::from_spec(<IinCurrent as FromSpec<Milliampere>>::from_spec(ma)).0 + 1,
{
    lemma_scale_round_trip(ma.0, 750);
}

/// Every battery regulation code stands for a voltage of 3600..=4600 mV, and each of the
/// codes 0..=100 is given back by the voltage it stands for.
pub proof fn lemma_vbat_code_round_trip(code: u8)
    ensures
        3600 <= vbat_code_millivolts(code) <= 4600,
        code <= 100 ==> vbat_millivolts_code(vbat_code_millivolts(code)) == code,
{
}

/// A voltage turned into a battery regulation code and back is the voltage clamped to
/// 3600..=4600 mV and rounded down to a 10 mV step.
pub proof fn lemma_vbat_millivolts_round_trip(mv: u16)
    ensures
        vbat_millivolts_code(mv) <= 100,
        vbat_code_millivolts(vbat_millivolts_code(mv)) as int == 3600 + (clamped(mv, 3600, 4600)
            - 3600) / 10 * 10,
        vbat_code_millivolts(vbat_millivolts_code(mv)) <= clamped(mv, 3600, 4600),
        clamped(mv, 3600, 4600) < vbat_code_millivolts(vbat_millivolts_code(mv)) + 10,
{
}

/// Every LDO output voltage code stands for a voltage of 600..=3700 mV, and each of the
/// codes 0..=31 is given back by the voltage it stands for.
pub proof fn lemma_ldo_code_round_trip(code: u8)
    ensures
        600 <= ldo_code_millivolts(code) <= 3700,
        code <= 31 ==> ldo_millivolts_code(ldo_code_millivolts(code)) == code,
{
}

/// A voltage turned into an LDO output voltage code and back is the voltage clamped to
/// 600..=3700 mV and rounded down to a 100 mV step.
pub proof fn lemma_ldo_millivolts_round_trip(mv: u16)
    ensures
        ldo_millivolts_code(mv) <= 31,
        ldo_code_millivolts(ldo_millivolts_code(mv)) as int == 600 + (clamped(mv, 600, 3700) - 600)
            / 100 * 100,
        ldo_code_millivolts(ldo_millivolts_code(mv)) <= clamped(mv, 600, 3700),
        clamped(mv, 600, 3700) < ldo_code_millivolts(ldo_millivolts_code(mv)) + 100,
{
}

/// A current limit converted to its number and back is itself, and exactly the numbers
/// 0..=7 are current limits.
pub proof fn lemma_current_limit_round_trip(limit: CurrentLimit, number: u8)
    ensures
        <CurrentLimit as TryFromSpec<u8>>::try_from_spec(<u8 as FromSpec<CurrentLimit>>::from_spec(limit)) == Ok::<CurrentLimit, InvalidCurrentLimit>(
            limit,
        ),
        <CurrentLimit as TryFromSpec<u8>>::try_from_spec(number) is Ok <==> number <= 7,
        number <= 7 ==> <u8 as FromSpec<CurrentLimit>>::from_spec(<CurrentLimit as TryFromSpec<u8>>::try_from_spec(number)->Ok_0) == number,
{
}

/// A comparator channel converted to its number and back is itself; a number above 7
/// reads as `Disabled`.
pub proof fn lemma_adc_comp_channel_round_trip(channel: AdcCompChannel, number: u8)
    ensures
        <AdcCompChannel as FromSpec<u8>>::from_spec(<u8 as FromSpec<AdcCompChannel>>::from_spec(channel)) == channel,
        number <= 7 ==> <u8 as FromSpec<AdcCompChannel>>::from_spec(<AdcCompChannel as FromSpec<u8>>::from_spec(number)) == number,
        number > 7 ==> <AdcCompChannel as FromSpec<u8>>::from_spec(number) == AdcCompChannel::Disabled,
{
}


/// The register number of an input current limit is its place in the list 50, 100, 150,
/// 200, 300, 400, 500, 600 mA, and each number of 0..=7 converts back to that limit.
pub proof fn lemma_current_limit_numbers()
    ensures
        <u8 as FromSpec<CurrentLimit>>::from_spec(CurrentLimit::_50mA) == 0,
        <u8 as FromSpec<CurrentLimit>>::from_spec(CurrentLimit::_100mA) == 1,
        <u8 as FromSpec<CurrentLimit>>::from_spec(CurrentLimit::_150mA) == 2,
        <u8 as FromSpec<CurrentLimit>>::from_spec(CurrentLimit::_200mA) == 3,
        <u8 as FromSpec<CurrentLimit>>::from_spec(CurrentLimit::_300mA) == 4,
        <u8 as FromSpec<CurrentLimit>>::from_spec(CurrentLimit::_400mA) == 5,
        <u8 as FromSpec<CurrentLimit>>::from_spec(CurrentLimit::_500mA) == 6,
        <u8 as FromSpec<CurrentLimit>>::from_spec(CurrentLimit::_600mA) == 7,
        <CurrentLimit as TryFromSpec<u8>>::try_from_spec(0) == Ok::<CurrentLimit, InvalidCurrentLimit>(CurrentLimit::_50mA),
        <CurrentLimit as TryFromSpec<u8>>::try_from_spec(1) == Ok::<CurrentLimit, InvalidCurrentLimit>(CurrentLimit::_100mA),
        <CurrentLimit as TryFromSpec<u8>>::try_from_spec(2) == Ok::<CurrentLimit, InvalidCurrentLimit>(CurrentLimit::_150mA),
        <CurrentLimit as TryFromSpec<u8>>::try_from_spec(3) == Ok::<CurrentLimit, InvalidCurrentLimit>(CurrentLimit::_200mA),
        <CurrentLimit as TryFromSpec<u8>>::try_from_spec(4) == Ok::<CurrentLimit, InvalidCurrentLimit>(CurrentLimit::_300mA),
        <CurrentLimit as TryFromSpec<u8>>::try_from_spec(5) == Ok::<CurrentLimit, InvalidCurrentLimit>(CurrentLimit::_400mA),
        <CurrentLimit as TryFromSpec<u8>>::try_from_spec(6) == Ok::<CurrentLimit, InvalidCurrentLimit>(CurrentLimit::_500mA),
        <CurrentLimit as TryFromSpec<u8>>::try_from_spec(7) == Ok::<CurrentLimit, InvalidCurrentLimit>(CurrentLimit::_600mA),
{
}

/// The register number of a comparator channel is its place in the order Disabled,
/// AdcIn, TS, VBat, ICharge, Vin, PMid, IIn; each number of 0..=7 converts back to that
/// channel and every larger number to `Disabled`.
pub proof fn lemma_adc_comp_channel_numbers(number: u8)
    ensures
        <u8 as FromSpec<AdcCompChannel>>::from_spec(AdcCompChannel::Disabled) == 0,
        <u8 as FromSpec<AdcCompChannel>>::from_spec(AdcCompChannel::AdcIn) == 1,
        <u8 as FromSpec<AdcCompChannel>>::from_spec(AdcCompChannel::TS) == 2,
        <u8 as FromSpec<AdcCompChannel>>::from_spec(AdcCompChannel::VBat) == 3,
        <u8 as FromSpec<AdcCompChannel>>::from_spec(AdcCompChannel::ICharge) == 4,
        <u8 as FromSpec<AdcCompChannel>>::from_spec(AdcCompChannel::Vin) == 5,
        <u8 as FromSpec<AdcCompChannel>>::from_spec(AdcCompChannel::PMid) == 6,
        <u8 as FromSpec<AdcCompChannel>>::from_spec(AdcCompChannel::IIn) == 7,
        <AdcCompChannel as FromSpec<u8>>::from_spec(0) == AdcCompChannel::Disabled,
        <AdcCompChannel as FromSpec<u8>>::from_spec(1) == AdcCompChannel::AdcIn,
        <AdcCompChannel as FromSpec<u8>>::from_spec(2) == AdcCompChannel::TS,
        <AdcCompChannel as FromSpec<u8>>::from_spec(3) == AdcCompChannel::VBat,
        <AdcCompChannel as FromSpec<u8>>::from_spec(4) == AdcCompChannel::ICharge,
        <AdcCompChannel as FromSpec<u8>>::from_spec(5) == AdcCompChannel::Vin,
        <AdcCompChannel as FromSpec<u8>>::from_spec(6) == AdcCompChannel::PMid,
        <AdcCompChannel as FromSpec<u8>>::from_spec(7) == AdcCompChannel::IIn,
        number > 7 ==> <AdcCompChannel as FromSpec<u8>>::from_spec(number) == AdcCompChannel::Disabled,
{
}

/// The current of an input current reading is `raw * 750 / 65535` mA in the high range
/// and `raw * 375 / 65535` mA otherwise, rounded down; it never exceeds the range, and a
/// larger reading in the same range never gives a smaller current.
pub proof fn lemma_iin_current_milliampere(val: IinCurrent, other: IinCurrent)
    ensures
        <Milliampere as FromSpec<IinCurrent>>::from_spec(val).0 as int == val.raw as int * (if val.high_range {
            750int
        } else {
            375int
        }) / 65535,
        <Milliampere as FromSpec<IinCurrent>>::from_spec(val).0 <= (if val.high_range {
            750u16
        } else {
            375u16
        }),
        val.high_range == other.high_range && val.raw <= other.raw ==> <Milliampere as FromSpec<
            IinCurrent,
        >>::from_spec(val).0 <= <Milliampere as FromSpec<IinCurrent>>::from_spec(other).0,
{
    lemma_scaled_within(val.raw, ADC_FULL_SCALE, val.spec_range().0);
    lemma_scaled_within(other.raw, ADC_FULL_SCALE, other.spec_range().0);
    if val.high_range == other.high_range && val.raw <= other.raw {
        let f = val.spec_range().0 as int;
        assert(val.raw as int * f / 65535 <= other.raw as int * f / 65535) by (nonlinear_arith)
            requires
                val.raw <= other.raw,
                f >= 0,
        ;
    }
}

/// The voltage of a reading is `raw * MAX_MV / 65535` mV, rounded down, and a larger
/// reading never gives a smaller voltage.
pub proof fn lemma_raw_voltage_millivolts<const MAX_MV: u16>(
    raw: RawVoltage<MAX_MV>,
    other: RawVoltage<MAX_MV>,
)
    ensures
        <Millivolts as FromSpec<RawVoltage<MAX_MV>>>::from_spec(raw).0 as int == raw.0 as int
            * MAX_MV as int / 65535,
        raw.0 <= other.0 ==> <Millivolts as FromSpec<RawVoltage<MAX_MV>>>::from_spec(raw).0
            <= <Millivolts as FromSpec<RawVoltage<MAX_MV>>>::from_spec(other).0,
{
    lemma_scaled_within(raw.0, ADC_FULL_SCALE, MAX_MV);
    lemma_scaled_within(other.0, ADC_FULL_SCALE, MAX_MV);
    if raw.0 <= other.0 {
        assert(raw.0 as int * MAX_MV as int / 65535 <= other.0 as int * MAX_MV as int / 65535)
            by (nonlinear_arith)
            requires
                raw.0 <= other.0,
        ;
    }
}

/// A battery regulation code `c` stands for `min(3600 + 10 * c, 4600)` mV; a voltage
/// has the code `(clamp(mv, 3600, 4600) - 3600) / 10`; both conversions keep order.
pub proof fn lemma_vbat_conversions(code: u8, other_code: u8, mv: u16, other_mv: u16)
    ensures
        <Millivolts as FromSpec<VBatRegulationVoltage>>::from_spec(VBatRegulationVoltage(code)).0 as int
            == (if 3600 + 10 * code as int <= 4600 {
            3600 + 10 * code as int
        } else {
            4600
        }),
        <VBatRegulationVoltage as FromSpec<Millivolts>>::from_spec(Millivolts(mv)).0 as int == ((if mv
            < 3600 {
            3600
        } else if mv > 4600 {
            4600
        } else {
            mv as int
        }) - 3600) / 10,
        code <= other_code ==> <Millivolts as FromSpec<VBatRegulationVoltage>>::from_spec(
            VBatRegulationVoltage(code),
        ).0 <= <Millivolts as FromSpec<VBatRegulationVoltage>>::from_spec(
            VBatRegulationVoltage(other_code),
        ).0,
        mv <= other_mv ==> <VBatRegulationVoltage as FromSpec<Millivolts>>::from_spec(
            Millivolts(mv),
        ).0 <= <VBatRegulationVoltage as FromSpec<Millivolts>>::from_spec(Millivolts(other_mv)).0,
{
}

/// An LDO output voltage code `c` stands for `min(600 + 100 * c, 3700)` mV; a voltage has
/// the code `(clamp(mv, 600, 3700) - 600) / 100`; both conversions keep order.
pub proof fn lemma_ldo_conversions(code: u8, other_code: u8, mv: u16, other_mv: u16)
    ensures
        <Millivolts as FromSpec<LDOOutputVoltage>>::from_spec(LDOOutputVoltage(code)).0 as int == (if 600
            + 100 * code as int <= 3700 {
            600 + 100 * code as int
        } else {
            3700
        }),
        <LDOOutputVoltage as FromSpec<Millivolts>>::from_spec(Millivolts(mv)).0 as int == ((if mv
            < 600 {
            600
        } else if mv > 3700 {
            3700
        } else {
            mv as int
        }) - 600) / 100,
        code <= other_code ==> <Millivolts as FromSpec<LDOOutputVoltage>>::from_spec(
            LDOOutputVoltage(code),
        ).0 <= <Millivolts as FromSpec<LDOOutputVoltage>>::from_spec(LDOOutputVoltage(other_code)).0,
        mv <= other_mv ==> <LDOOutputVoltage as FromSpec<Millivolts>>::from_spec(Millivolts(mv)).0
            <= <LDOOutputVoltage as FromSpec<Millivolts>>::from_spec(Millivolts(other_mv)).0,
{
}

} // verus!
