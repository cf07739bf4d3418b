//! The registers of the device.
//!
//! Each register is held as the bytes that travel over the bus. A field is read with
//! the method named after it and written with the `with_` method of the same name,
//! which keeps every other bit of the register, the bits that no field names included.
//!
//! Addresses and bit positions follow the register map in the data sheet of the
//! BQ25150, BQ25155 and BQ25157. The registers here are the status, event and mask
//! registers, the charge, input current, undervoltage and LDO controls, the device
//! control holding the PMID settings, the ADC control, enables and data, and the device
//! identification. A write of a whole register starts from its `reset_value`, which has
//! every bit clear; that is the starting value this crate chooses, not the value the
//! device holds after power-on.
use crate::bits::{
    get_bits, get_field, lemma_fits_mask, lemma_get_put_other, lemma_get_put_same,
    lemma_low_mask_values, put_bits, put_field,
};
use crate::prelude::{
    AdcCompChannel, CurrentLimit, FastChargeCurrent, LDOOutputVoltage, VBatRegulationVoltage,
};
use vstd::prelude::*;

verus! {

/// The battery voltage below which the battery is disconnected from the system.
#[derive(Clone, Copy, Debug, PartialEq, Eq, PartialOrd, Structural)]
pub enum BuvloThreshold {
    /// 3.0 V (codes 0, 1 and 2).
    Uvlo3V0,
    /// 2.8 V (code 3).
    Uvlo2V8,
    /// 2.6 V (code 4).
    Uvlo2V6,
    /// 2.4 V (code 5).
    Uvlo2V4,
    /// 2.2 V (code 6).
    Uvlo2V2,
    /// No undervoltage lockout (code 7).
    Disabled,
}

impl BuvloThreshold {
    /// The 3-bit code that this crate writes for the threshold.
    pub open spec fn spec_code(self) -> u8 {
        match self {
            BuvloThreshold::Uvlo3V0 => 0,
            BuvloThreshold::Uvlo2V8 => 3,
            BuvloThreshold::Uvlo2V6 => 4,
            BuvloThreshold::Uvlo2V4 => 5,
            BuvloThreshold::Uvlo2V2 => 6,
            BuvloThreshold::Disabled => 7,
        }
    }

    /// The threshold of a code; codes 0 to 2 all mean 3.0 V, a code above 7 reads as
    /// `Disabled`.
    pub open spec fn spec_from_code(code: u8) -> Self {
        if code <= 2 {
            BuvloThreshold::Uvlo3V0
        } else if code == 3 {
            BuvloThreshold::Uvlo2V8
        } else if code == 4 {
            BuvloThreshold::Uvlo2V6
        } else if code == 5 {
            BuvloThreshold::Uvlo2V4
        } else if code == 6 {
            BuvloThreshold::Uvlo2V2
        } else {
            BuvloThreshold::Disabled
        }
    }

    #[verifier::when_used_as_spec(spec_code)]
    pub fn code(self) -> (r: u8)
        ensures
            r == self.spec_code(),
            r <= 7,
            Self::spec_from_code(r) == self,
    {
        match self {
            BuvloThreshold::Uvlo3V0 => 0,
            BuvloThreshold::Uvlo2V8 => 3,
            BuvloThreshold::Uvlo2V6 => 4,
            BuvloThreshold::Uvlo2V4 => 5,
            BuvloThreshold::Uvlo2V2 => 6,
            BuvloThreshold::Disabled => 7,
        }
    }

    #[verifier::when_used_as_spec(spec_from_code)]
    pub fn from_code(code: u8) -> (r: Self)
        ensures
            r == Self::spec_from_code(code),
            3 <= code <= 7 ==> r.spec_code() == code,
            code <= 2 ==> r.spec_code() == 0,
    {
        if code <= 2 {
            BuvloThreshold::Uvlo3V0
        } else if code == 3 {
            BuvloThreshold::Uvlo2V8
        } else if code == 4 {
            BuvloThreshold::Uvlo2V6
        } else if code == 5 {
            BuvloThreshold::Uvlo2V4
        } else if code == 6 {
            BuvloThreshold::Uvlo2V2
        } else {
            BuvloThreshold::Disabled
        }
    }
}

/// How often the ADC converts.
#[derive(Clone, Copy, Debug, PartialEq, Eq, PartialOrd, Structural)]
pub enum AdcReadRate {
    /// Only when a conversion is started.
    ManualRead,
    /// Continuously.
    Continuous,
    /// Once a second.
    EverySecond,
    /// Once a minute.
    EveryMinute,
}

impl AdcReadRate {
    /// The 2-bit code of the value in its register field.
    pub open spec fn spec_code(self) -> u8 {
        match self {
            AdcReadRate::ManualRead => 0,
            AdcReadRate::Continuous => 1,
            AdcReadRate::EverySecond => 2,
            AdcReadRate::EveryMinute => 3,
        }
    }

    /// The value of a code; a code above 3 reads as the last value.
    pub open spec fn spec_from_code(code: u8) -> Self {
        if code == 0 {
            AdcReadRate::ManualRead
        } else if code == 1 {
            AdcReadRate::Continuous
        } else if code == 2 {
            AdcReadRate::EverySecond
        } else {
            AdcReadRate::EveryMinute
        }
    }

    #[verifier::when_used_as_spec(spec_code)]
    pub fn code(self) -> (r: u8)
        ensures
            r == self.spec_code(),
            r <= 3,
            Self::spec_from_code(r) == self,
            self == AdcReadRate::ManualRead ==> r == 0,
            self == AdcReadRate::Continuous ==> r == 1,
            self == AdcReadRate::EverySecond ==> r == 2,
            self == AdcReadRate::EveryMinute ==> r == 3,
    {
        match self {
            AdcReadRate::ManualRead => 0,
            AdcReadRate::Continuous => 1,
            AdcReadRate::EverySecond => 2,
            AdcReadRate::EveryMinute => 3,
        }
    }

    #[verifier::when_used_as_spec(spec_from_code)]
    pub fn from_code(code: u8) -> (r: Self)
        ensures
            r == Self::spec_from_code(code),
            code <= 3 ==> r.spec_code() == code,
            code == 0 ==> r == AdcReadRate::ManualRead,
            code == 1 ==> r == AdcReadRate::Continuous,
            code == 2 ==> r == AdcReadRate::EverySecond,
            code >= 3 ==> r == AdcReadRate::EveryMinute,
    {
        if code == 0 {
            AdcReadRate::ManualRead
        } else if code == 1 {
            AdcReadRate::Continuous
        } else if code == 2 {
            AdcReadRate::EverySecond
        } else {
            AdcReadRate::EveryMinute
        }
    }
}

/// The step of the fast charge current code.
#[derive(Clone, Copy, Debug, PartialEq, Eq, PartialOrd, Structural)]
pub enum IchargeRange {
    /// 1.25 mA per step.
    Step1MilliA25,
    /// 2.5 mA per step.
    Step2MilliA5,
}

impl IchargeRange {
    /// The 1-bit code of the value in its register field.
    pub open spec fn spec_code(self) -> u8 {
        match self {
            IchargeRange::Step1MilliA25 => 0,
            IchargeRange::Step2MilliA5 => 1,
        }
    }

    /// The value of a code; a code above 1 reads as the last value.
    pub open spec fn spec_from_code(code: u8) -> Self {
        if code == 0 {
            IchargeRange::Step1MilliA25
        } else {
            IchargeRange::Step2MilliA5
        }
    }

    #[verifier::when_used_as_spec(spec_code)]
    pub fn code(self) -> (r: u8)
        ensures
            r == self.spec_code(),
            r <= 1,
            Self::spec_from_code(r) == self,
            self == IchargeRange::Step1MilliA25 ==> r == 0,
            self == IchargeRange::Step2MilliA5 ==> r == 1,
    {
        match self {
            IchargeRange::Step1MilliA25 => 0,
            IchargeRange::Step2MilliA5 => 1,
        }
    }

    #[verifier::when_used_as_spec(spec_from_code)]
    pub fn from_code(code: u8) -> (r: Self)
        ensures
            r == Self::spec_from_code(code),
            code <= 1 ==> r.spec_code() == code,
            code == 0 ==> r == IchargeRange::Step1MilliA25,
            code >= 1 ==> r == IchargeRange::Step2MilliA5,
    {
        if code == 0 {
            IchargeRange::Step1MilliA25
        } else {
            IchargeRange::Step2MilliA5
        }
    }
}

/// What powers the PMID output.
#[derive(Clone, Copy, Debug, PartialEq, Eq, PartialOrd, Structural)]
pub enum PmidMode {
    /// The battery, or VIN when it is present.
    BatOrVin,
    /// The battery only, even when VIN is present.
    Bat,
    /// Nothing: PMID is disconnected and left floating.
    Floating,
    /// Nothing: PMID is disconnected and pulled down.
    PullDown,
}

impl PmidMode {
    /// The 2-bit code of the value in its register field.
    pub open spec fn spec_code(self) -> u8 {
        match self {
            PmidMode::BatOrVin => 0,
            PmidMode::Bat => 1,
            PmidMode::Floating => 2,
            PmidMode::PullDown => 3,
        }
    }

    /// The value of a code; a code above 3 reads as the last value.
    pub open spec fn spec_from_code(code: u8) -> Self {
        if code == 0 {
            PmidMode::BatOrVin
        } else if code == 1 {
            PmidMode::Bat
        } else if code == 2 {
            PmidMode::Floating
        } else {
            PmidMode::PullDown
        }
    }

    #[verifier::when_used_as_spec(spec_code)]
    pub fn code(self) -> (r: u8)
        ensures
            r == self.spec_code(),
            r <= 3,
            Self::spec_from_code(r) == self,
            self == PmidMode::BatOrVin ==> r == 0,
            self == PmidMode::Bat ==> r == 1,
            self == PmidMode::Floating ==> r == 2,
            self == PmidMode::PullDown ==> r == 3,
    {
        match self {
            PmidMode::BatOrVin => 0,
            PmidMode::Bat => 1,
            PmidMode::Floating => 2,
            PmidMode::PullDown => 3,
        }
    }

    #[verifier::when_used_as_spec(spec_from_code)]
    pub fn from_code(code: u8) -> (r: Self)
        ensures
            r == Self::spec_from_code(code),
            code <= 3 ==> r.spec_code() == code,
            code == 0 ==> r == PmidMode::BatOrVin,
            code == 1 ==> r == PmidMode::Bat,
            code == 2 ==> r == PmidMode::Floating,
            code >= 3 ==> r == PmidMode::PullDown,
    {
        if code == 0 {
            PmidMode::BatOrVin
        } else if code == 1 {
            PmidMode::Bat
        } else if code == 2 {
            PmidMode::Floating
        } else {
            PmidMode::PullDown
        }
    }
}

/// The regulation target of PMID.
#[derive(Clone, Copy, Debug, PartialEq, Eq, PartialOrd, Structural)]
pub enum PmidRegCtrl {
    /// Follows the battery voltage.
    BatteryTracking,
    /// 4.4 V.
    Reg4V4,
    /// 4.5 V.
    Reg4V5,
    /// 4.6 V.
    Reg4V6,
    /// 4.7 V.
    Reg4V7,
    /// 4.8 V.
    Reg4V8,
    /// 4.9 V.
    Reg4V9,
    /// VIN passed through.
    PassThrough,
}

impl PmidRegCtrl {
    /// The 3-bit code of the value in its register field.
    pub open spec fn spec_code(self) -> u8 {
        match self {
            PmidRegCtrl::BatteryTracking => 0,
            PmidRegCtrl::Reg4V4 => 1,
            PmidRegCtrl::Reg4V5 => 2,
            PmidRegCtrl::Reg4V6 => 3,
            PmidRegCtrl::Reg4V7 => 4,
            PmidRegCtrl::Reg4V8 => 5,
            PmidRegCtrl::Reg4V9 => 6,
            PmidRegCtrl::PassThrough => 7,
        }
    }

    /// The value of a code; a code above 7 reads as the last value.
    pub open spec fn spec_from_code(code: u8) -> Self {
        if code == 0 {
            PmidRegCtrl::BatteryTracking
        } else if code == 1 {
            PmidRegCtrl::Reg4V4
        } else if code == 2 {
            PmidRegCtrl::Reg4V5
        } else if code == 3 {
            PmidRegCtrl::Reg4V6
        } else if code == 4 {
            PmidRegCtrl::Reg4V7
        } else if code == 5 {
            PmidRegCtrl::Reg4V8
        } else if code == 6 {
            PmidRegCtrl::Reg4V9
        } else {
            PmidRegCtrl::PassThrough
        }
    }

    #[verifier::when_used_as_spec(spec_code)]
    pub fn code(self) -> (r: u8)
        ensures
            r == self.spec_code(),
            r <= 7,
            Self::spec_from_code(r) == self,
            self == PmidRegCtrl::BatteryTracking ==> r == 0,
            self == PmidRegCtrl::Reg4V4 ==> r == 1,
            self == PmidRegCtrl::Reg4V5 ==> r == 2,
            self == PmidRegCtrl::Reg4V6 ==> r == 3,
            self == PmidRegCtrl::Reg4V7 ==> r == 4,
            self == PmidRegCtrl::Reg4V8 ==> r == 5,
            self == PmidRegCtrl::Reg4V9 ==> r == 6,
            self == PmidRegCtrl::PassThrough ==> r == 7,
    {
        match self {
            PmidRegCtrl::BatteryTracking => 0,
            PmidRegCtrl::Reg4V4 => 1,
            PmidRegCtrl::Reg4V5 => 2,
            PmidRegCtrl::Reg4V6 => 3,
            PmidRegCtrl::Reg4V7 => 4,
            PmidRegCtrl::Reg4V8 => 5,
            PmidRegCtrl::Reg4V9 => 6,
            PmidRegCtrl::PassThrough => 7,
        }
    }

    #[verifier::when_used_as_spec(spec_from_code)]
    pub fn from_code(code: u8) -> (r: Self)
        ensures
            r == Self::spec_from_code(code),
            code <= 7 ==> r.spec_code() == code,
            code == 0 ==> r == PmidRegCtrl::BatteryTracking,
            code == 1 ==> r == PmidRegCtrl::Reg4V4,
            code == 2 ==> r == PmidRegCtrl::Reg4V5,
            code == 3 ==> r == PmidRegCtrl::Reg4V6,
            code == 4 ==> r == PmidRegCtrl::Reg4V7,
            code == 5 ==> r == PmidRegCtrl::Reg4V8,
            code == 6 ==> r == PmidRegCtrl::Reg4V9,
            code >= 7 ==> r == PmidRegCtrl::PassThrough,
    {
        if code == 0 {
            PmidRegCtrl::BatteryTracking
        } else if code == 1 {
            PmidRegCtrl::Reg4V4
        } else if code == 2 {
            PmidRegCtrl::Reg4V5
        } else if code == 3 {
            PmidRegCtrl::Reg4V6
        } else if code == 4 {
            PmidRegCtrl::Reg4V7
        } else if code == 5 {
            PmidRegCtrl::Reg4V8
        } else if code == 6 {
            PmidRegCtrl::Reg4V9
        } else {
            PmidRegCtrl::PassThrough
        }
    }
}

/// What the LDO output works as.
#[derive(Clone, Copy, Debug, PartialEq, Eq, PartialOrd, Structural)]
pub enum LdoSwitchConfig {
    /// A regulator (LDO).
    Ldo,
    /// A load switch.
    Switch,
}

impl LdoSwitchConfig {
    /// The 1-bit code of the value in its register field.
    pub open spec fn spec_code(self) -> u8 {
        match self {
            LdoSwitchConfig::Ldo => 0,
            LdoSwitchConfig::Switch => 1,
        }
    }

    /// The value of a code; a code above 1 reads as the last value.
    pub open spec fn spec_from_code(code: u8) -> Self {
        if code == 0 {
            LdoSwitchConfig::Ldo
        } else {
            LdoSwitchConfig::Switch
        }
    }

    #[verifier::when_used_as_spec(spec_code)]
    pub fn code(self) -> (r: u8)
        ensures
            r == self.spec_code(),
            r <= 1,
            Self::spec_from_code(r) == self,
            self == LdoSwitchConfig::Ldo ==> r == 0,
            self == LdoSwitchConfig::Switch ==> r == 1,
    {
        match self {
            LdoSwitchConfig::Ldo => 0,
            LdoSwitchConfig::Switch => 1,
        }
    }

    #[verifier::when_used_as_spec(spec_from_code)]
    pub fn from_code(code: u8) -> (r: Self)
        ensures
            r == Self::spec_from_code(code),
            code <= 1 ==> r.spec_code() == code,
            code == 0 ==> r == LdoSwitchConfig::Ldo,
            code >= 1 ==> r == LdoSwitchConfig::Switch,
    {
        if code == 0 {
            LdoSwitchConfig::Ldo
        } else {
            LdoSwitchConfig::Switch
        }
    }
}

/// Address of `STAT0`, the first of the three bytes of `Stat`.
pub const STAT0_ADDRESS: u8 = 0x00;

/// Charger status (`STAT0` to `STAT2`).
#[derive(Clone, Copy, Debug, PartialEq, Eq, Structural)]
pub struct Stat {
    /// `STAT0`.
    pub stat0: u8,
    /// `STAT1`.
    pub stat1: u8,
    /// `STAT2`.
    pub stat2: u8,
}

impl Stat {
    /// The register from its 3 bytes, in the order of their addresses.
    pub fn from_bytes(bytes: [u8; 3]) -> (r: Self)
        ensures
            r.stat0 == bytes@[0],
            r.stat1 == bytes@[1],
            r.stat2 == bytes@[2],
    {
        Stat { stat0: bytes[0], stat1: bytes[1], stat2: bytes[2] }
    }

    /// The 3 bytes of the register, in the order of their addresses.
    pub fn to_bytes(&self) -> (r: [u8; 3])
        ensures
            r@ == seq![self.stat0, self.stat1, self.stat2],
    {
        [self.stat0, self.stat1, self.stat2]
    }

    /// Whether charging is in its constant voltage phase (bit 6 of `stat0`).
    pub open spec fn spec_chrg_cv(&self) -> bool {
        get_field(self.stat0, 6, 1) == 1
    }

    #[verifier::when_used_as_spec(spec_chrg_cv)]
    pub fn chrg_cv(&self) -> (r: bool)
        ensures
            r == self.spec_chrg_cv(),
            r == ((self.stat0 >> 6u8) & 0x1u8 == 1),
    {
        proof {
            lemma_low_mask_values();
        }
        get_bits(self.stat0, 6, 1) == 1
    }

    /// Whether charging is done (bit 5 of `stat0`).
    pub open spec fn spec_charge_done(&self) -> bool {
        get_field(self.stat0, 5, 1) == 1
    }

    #[verifier::when_used_as_spec(spec_charge_done)]
    pub fn charge_done(&self) -> (r: bool)
        ensures
            r == self.spec_charge_done(),
            r == ((self.stat0 >> 5u8) & 0x1u8 == 1),
    {
        proof {
            lemma_low_mask_values();
        }
        get_bits(self.stat0, 5, 1) == 1
    }

    /// Whether the input current limit is active (bit 4 of `stat0`).
    pub open spec fn spec_iinlim_active(&self) -> bool {
        get_field(self.stat0, 4, 1) == 1
    }

    #[verifier::when_used_as_spec(spec_iinlim_active)]
    pub fn iinlim_active(&self) -> (r: bool)
        ensures
            r == self.spec_iinlim_active(),
            r == ((self.stat0 >> 4u8) & 0x1u8 == 1),
    {
        proof {
            lemma_low_mask_values();
        }
        get_bits(self.stat0, 4, 1) == 1
    }

    /// Whether dynamic power path management is active (bit 3 of `stat0`).
    pub open spec fn spec_vdppm_active(&self) -> bool {
        get_field(self.stat0, 3, 1) == 1
    }

    #[verifier::when_used_as_spec(spec_vdppm_active)]
    pub fn vdppm_active(&self) -> (r: bool)
        ensures
            r == self.spec_vdppm_active(),
            r == ((self.stat0 >> 3u8) & 0x1u8 == 1),
    {
        proof {
            lemma_low_mask_values();
        }
        get_bits(self.stat0, 3, 1) == 1
    }

    /// Whether input voltage based power management is active (bit 2 of `stat0`).
    pub open spec fn spec_vindpm_active(&self) -> bool {
        get_field(self.stat0, 2, 1) == 1
    }

    #[verifier::when_used_as_spec(spec_vindpm_active)]
    pub fn vindpm_active(&self) -> (r: bool)
        ensures
            r == self.spec_vindpm_active(),
            r == ((self.stat0 >> 2u8) & 0x1u8 == 1),
    {
        proof {
            lemma_low_mask_values();
        }
        get_bits(self.stat0, 2, 1) == 1
    }

    /// Whether thermal regulation is active (bit 1 of `stat0`).
    pub open spec fn spec_thermreg_active(&self) -> bool {
        get_field(self.stat0, 1, 1) == 1
    }

    #[verifier::when_used_as_spec(spec_thermreg_active)]
    pub fn thermreg_active(&self) -> (r: bool)
        ensures
            r == self.spec_thermreg_active(),
            r == ((self.stat0 >> 1u8) & 0x1u8 == 1),
    {
        proof {
            lemma_low_mask_values();
        }
        get_bits(self.stat0, 1, 1) == 1
    }

    /// Whether the input voltage is good (bit 0 of `stat0`).
    pub open spec fn spec_vin_vgood(&self) -> bool {
        get_field(self.stat0, 0, 1) == 1
    }

    #[verifier::when_used_as_spec(spec_vin_vgood)]
    pub fn vin_vgood(&self) -> (r: bool)
        ensures
            r == self.spec_vin_vgood(),
            r == ((self.stat0 >> 0u8) & 0x1u8 == 1),
    {
        proof {
            lemma_low_mask_values();
        }
        get_bits(self.stat0, 0, 1) == 1
    }

    /// Whether the input voltage is above its overvoltage threshold (bit 7 of `stat1`).
    pub open spec fn spec_vin_ovp(&self) -> bool {
        get_field(self.stat1, 7, 1) == 1
    }

    #[verifier::when_used_as_spec(spec_vin_ovp)]
    pub fn vin_ovp(&self) -> (r: bool)
        ensures
            r == self.spec_vin_ovp(),
            r == ((self.stat1 >> 7u8) & 0x1u8 == 1),
    {
        proof {
            lemma_low_mask_values();
        }
        get_bits(self.stat1, 7, 1) == 1
    }

    /// Whether the battery voltage is below its undervoltage lockout threshold (bit 6 of `stat1`).
    pub open spec fn spec_bat_uvlo(&self) -> bool {
        get_field(self.stat1, 6, 1) == 1
    }

    #[verifier::when_used_as_spec(spec_bat_uvlo)]
    pub fn bat_uvlo(&self) -> (r: bool)
        ensures
            r == self.spec_bat_uvlo(),
            r == ((self.stat1 >> 6u8) & 0x1u8 == 1),
    {
        proof {
            lemma_low_mask_values();
        }
        get_bits(self.stat1, 6, 1) == 1
    }

    /// Whether the battery overcurrent protection has tripped (bit 5 of `stat1`).
    pub open spec fn spec_bat_ocp(&self) -> bool {
        get_field(self.stat1, 5, 1) == 1
    }

    #[verifier::when_used_as_spec(spec_bat_ocp)]
    pub fn bat_ocp(&self) -> (r: bool)
        ensures
            r == self.spec_bat_ocp(),
            r == ((self.stat1 >> 5u8) & 0x1u8 == 1),
    {
        proof {
            lemma_low_mask_values();
        }
        get_bits(self.stat1, 5, 1) == 1
    }

    /// Whether the first ADC comparator alarms (bit 6 of `stat2`).
    pub open spec fn spec_comp1_alarm(&self) -> bool {
        get_field(self.stat2, 6, 1) == 1
    }

    #[verifier::when_used_as_spec(spec_comp1_alarm)]
    pub fn comp1_alarm(&self) -> (r: bool)
        ensures
            r == self.spec_comp1_alarm(),
            r == ((self.stat2 >> 6u8) & 0x1u8 == 1),
    {
        proof {
            lemma_low_mask_values();
        }
        get_bits(self.stat2, 6, 1) == 1
    }

    /// Whether the second ADC comparator alarms (bit 5 of `stat2`).
    pub open spec fn spec_comp2_alarm(&self) -> bool {
        get_field(self.stat2, 5, 1) == 1
    }

    #[verifier::when_used_as_spec(spec_comp2_alarm)]
    pub fn comp2_alarm(&self) -> (r: bool)
        ensures
            r == self.spec_comp2_alarm(),
            r == ((self.stat2 >> 5u8) & 0x1u8 == 1),
    {
        proof {
            lemma_low_mask_values();
        }
        get_bits(self.stat2, 5, 1) == 1
    }

    /// Whether the third ADC comparator alarms (bit 4 of `stat2`).
    pub open spec fn spec_comp3_alarm(&self) -> bool {
        get_field(self.stat2, 4, 1) == 1
    }

    #[verifier::when_used_as_spec(spec_comp3_alarm)]
    pub fn comp3_alarm(&self) -> (r: bool)
        ensures
            r == self.spec_comp3_alarm(),
            r == ((self.stat2 >> 4u8) & 0x1u8 == 1),
    {
        proof {
            lemma_low_mask_values();
        }
        get_bits(self.stat2, 4, 1) == 1
    }

    /// Whether the TS pin is open (bit 0 of `stat2`).
    pub open spec fn spec_ts_open(&self) -> bool {
        get_field(self.stat2, 0, 1) == 1
    }

    #[verifier::when_used_as_spec(spec_ts_open)]
    pub fn ts_open(&self) -> (r: bool)
        ensures
            r == self.spec_ts_open(),
            r == ((self.stat2 >> 0u8) & 0x1u8 == 1),
    {
        proof {
            lemma_low_mask_values();
        }
        get_bits(self.stat2, 0, 1) == 1
    }
}

/// Address of `FLAG0`, the first of the four bytes of `Flag`.
pub const FLAG0_ADDRESS: u8 = 0x03;

/// Charger events since the last read (`FLAG0` to `FLAG3`); the device clears them when they are read.
#[derive(Clone, Copy, Debug, PartialEq, Eq, Structural)]
pub struct Flag {
    /// `FLAG0`: events of the `STAT0` conditions.
    pub flag0: u8,
    /// `FLAG1`: events of the `STAT1` conditions.
    pub flag1: u8,
    /// `FLAG2`: events of the `STAT2` conditions and of ADC conversions.
    pub flag2: u8,
    /// `FLAG3`.
    pub flag3: u8,
}

impl Flag {
    /// The register from its 4 bytes, in the order of their addresses.
    pub fn from_bytes(bytes: [u8; 4]) -> (r: Self)
        ensures
            r.flag0 == bytes@[0],
            r.flag1 == bytes@[1],
            r.flag2 == bytes@[2],
            r.flag3 == bytes@[3],
    {
        Flag { flag0: bytes[0], flag1: bytes[1], flag2: bytes[2], flag3: bytes[3] }
    }

    /// The 4 bytes of the register, in the order of their addresses.
    pub fn to_bytes(&self) -> (r: [u8; 4])
        ensures
            r@ == seq![self.flag0, self.flag1, self.flag2, self.flag3],
    {
        [self.flag0, self.flag1, self.flag2, self.flag3]
    }

    /// Whether it became true that charging is in its constant voltage phase (bit 6 of `flag0`).
    pub open spec fn spec_chrg_cv(&self) -> bool {
        get_field(self.flag0, 6, 1) == 1
    }

    #[verifier::when_used_as_spec(spec_chrg_cv)]
    pub fn chrg_cv(&self) -> (r: bool)
        ensures
            r == self.spec_chrg_cv(),
            r == ((self.flag0 >> 6u8) & 0x1u8 == 1),
    {
        proof {
            lemma_low_mask_values();
        }
        get_bits(self.flag0, 6, 1) == 1
    }

    /// Whether it became true that charging is done (bit 5 of `flag0`).
    pub open spec fn spec_charge_done(&self) -> bool {
        get_field(self.flag0, 5, 1) == 1
    }

    #[verifier::when_used_as_spec(spec_charge_done)]
    pub fn charge_done(&self) -> (r: bool)
        ensures
            r == self.spec_charge_done(),
            r == ((self.flag0 >> 5u8) & 0x1u8 == 1),
    {
        proof {
            lemma_low_mask_values();
        }
        get_bits(self.flag0, 5, 1) == 1
    }

    /// Whether it became true that the input current limit is active (bit 4 of `flag0`).
    pub open spec fn spec_iinlim_active(&self) -> bool {
        get_field(self.flag0, 4, 1) == 1
    }

    #[verifier::when_used_as_spec(spec_iinlim_active)]
    pub fn iinlim_active(&self) -> (r: bool)
        ensures
            r == self.spec_iinlim_active(),
            r == ((self.flag0 >> 4u8) & 0x1u8 == 1),
    {
        proof {
            lemma_low_mask_values();
        }
        get_bits(self.flag0, 4, 1) == 1
    }

    /// Whether it became true that dynamic power path management is active (bit 3 of `flag0`).
    pub open spec fn spec_vdppm_active(&self) -> bool {
        get_field(self.flag0, 3, 1) == 1
    }

    #[verifier::when_used_as_spec(spec_vdppm_active)]
    pub fn vdppm_active(&self) -> (r: bool)
        ensures
            r == self.spec_vdppm_active(),
            r == ((self.flag0 >> 3u8) & 0x1u8 == 1),
    {
        proof {
            lemma_low_mask_values();
        }
        get_bits(self.flag0, 3, 1) == 1
    }

    /// Whether it became true that input voltage based power management is active (bit 2 of `flag0`).
    pub open spec fn spec_vindpm_active(&self) -> bool {
        get_field(self.flag0, 2, 1) == 1
    }

    #[verifier::when_used_as_spec(spec_vindpm_active)]
    pub fn vindpm_active(&self) -> (r: bool)
        ensures
            r == self.spec_vindpm_active(),
            r == ((self.flag0 >> 2u8) & 0x1u8 == 1),
    {
        proof {
            lemma_low_mask_values();
        }
        get_bits(self.flag0, 2, 1) == 1
    }

    /// Whether it became true that thermal regulation is active (bit 1 of `flag0`).
    pub open spec fn spec_thermreg_active(&self) -> bool {
        get_field(self.flag0, 1, 1) == 1
    }

    #[verifier::when_used_as_spec(spec_thermreg_active)]
    pub fn thermreg_active(&self) -> (r: bool)
        ensures
            r == self.spec_thermreg_active(),
            r == ((self.flag0 >> 1u8) & 0x1u8 == 1),
    {
        proof {
            lemma_low_mask_values();
        }
        get_bits(self.flag0, 1, 1) == 1
    }

    /// Whether it became true that the input voltage is good (bit 0 of `flag0`).
    pub open spec fn spec_vin_vgood(&self) -> bool {
        get_field(self.flag0, 0, 1) == 1
    }

    #[verifier::when_used_as_spec(spec_vin_vgood)]
    pub fn vin_vgood(&self) -> (r: bool)
        ensures
            r == self.spec_vin_vgood(),
            r == ((self.flag0 >> 0u8) & 0x1u8 == 1),
    {
        proof {
            lemma_low_mask_values();
        }
        get_bits(self.flag0, 0, 1) == 1
    }

    /// Whether it became true that the input voltage is above its overvoltage threshold (bit 7 of `flag1`).
    pub open spec fn spec_vin_ovp(&self) -> bool {
        get_field(self.flag1, 7, 1) == 1
    }

    #[verifier::when_used_as_spec(spec_vin_ovp)]
    pub fn vin_ovp(&self) -> (r: bool)
        ensures
            r == self.spec_vin_ovp(),
            r == ((self.flag1 >> 7u8) & 0x1u8 == 1),
    {
        proof {
            lemma_low_mask_values();
        }
        get_bits(self.flag1, 7, 1) == 1
    }

    /// Whether it became true that the battery voltage is below its undervoltage lockout threshold (bit 6 of `flag1`).
    pub open spec fn spec_bat_uvlo(&self) -> bool {
        get_field(self.flag1, 6, 1) == 1
    }

    #[verifier::when_used_as_spec(spec_bat_uvlo)]
    pub fn bat_uvlo(&self) -> (r: bool)
        ensures
            r == self.spec_bat_uvlo(),
            r == ((self.flag1 >> 6u8) & 0x1u8 == 1),
    {
        proof {
            lemma_low_mask_values();
        }
        get_bits(self.flag1, 6, 1) == 1
    }

    /// Whether it became true that the battery overcurrent protection has tripped (bit 5 of `flag1`).
    pub open spec fn spec_bat_ocp(&self) -> bool {
        get_field(self.flag1, 5, 1) == 1
    }

    #[verifier::when_used_as_spec(spec_bat_ocp)]
    pub fn bat_ocp(&self) -> (r: bool)
        ensures
            r == self.spec_bat_ocp(),
            r == ((self.flag1 >> 5u8) & 0x1u8 == 1),
    {
        proof {
            lemma_low_mask_values();
        }
        get_bits(self.flag1, 5, 1) == 1
    }

    /// Whether an ADC conversion completed (bit 7 of `flag2`).
    pub open spec fn spec_adc_ready(&self) -> bool {
        get_field(self.flag2, 7, 1) == 1
    }

    #[verifier::when_used_as_spec(spec_adc_ready)]
    pub fn adc_ready(&self) -> (r: bool)
        ensures
            r == self.spec_adc_ready(),
            r == ((self.flag2 >> 7u8) & 0x1u8 == 1),
    {
        proof {
            lemma_low_mask_values();
        }
        get_bits(self.flag2, 7, 1) == 1
    }

    /// Whether it became true that the first ADC comparator alarms (bit 6 of `flag2`).
    pub open spec fn spec_comp1_alarm(&self) -> bool {
        get_field(self.flag2, 6, 1) == 1
    }

    #[verifier::when_used_as_spec(spec_comp1_alarm)]
    pub fn comp1_alarm(&self) -> (r: bool)
        ensures
            r == self.spec_comp1_alarm(),
            r == ((self.flag2 >> 6u8) & 0x1u8 == 1),
    {
        proof {
            lemma_low_mask_values();
        }
        get_bits(self.flag2, 6, 1) == 1
    }

    /// Whether it became true that the second ADC comparator alarms (bit 5 of `flag2`).
    pub open spec fn spec_comp2_alarm(&self) -> bool {
        get_field(self.flag2, 5, 1) == 1
    }

    #[verifier::when_used_as_spec(spec_comp2_alarm)]
    pub fn comp2_alarm(&self) -> (r: bool)
        ensures
            r == self.spec_comp2_alarm(),
            r == ((self.flag2 >> 5u8) & 0x1u8 == 1),
    {
        proof {
            lemma_low_mask_values();
        }
        get_bits(self.flag2, 5, 1) == 1
    }

    /// Whether it became true that the third ADC comparator alarms (bit 4 of `flag2`).
    pub open spec fn spec_comp3_alarm(&self) -> bool {
        get_field(self.flag2, 4, 1) == 1
    }

    #[verifier::when_used_as_spec(spec_comp3_alarm)]
    pub fn comp3_alarm(&self) -> (r: bool)
        ensures
            r == self.spec_comp3_alarm(),
            r == ((self.flag2 >> 4u8) & 0x1u8 == 1),
    {
        proof {
            lemma_low_mask_values();
        }
        get_bits(self.flag2, 4, 1) == 1
    }

    /// Whether it became true that the TS pin is open (bit 0 of `flag2`).
    pub open spec fn spec_ts_open(&self) -> bool {
        get_field(self.flag2, 0, 1) == 1
    }

    #[verifier::when_used_as_spec(spec_ts_open)]
    pub fn ts_open(&self) -> (r: bool)
        ensures
            r == self.spec_ts_open(),
            r == ((self.flag2 >> 0u8) & 0x1u8 == 1),
    {
        proof {
            lemma_low_mask_values();
        }
        get_bits(self.flag2, 0, 1) == 1
    }
}

/// Address of `MASK0`, the first of the four bytes of `Mask`.
pub const MASK0_ADDRESS: u8 = 0x07;

/// Interrupt masks of the charger events (`MASK0` to `MASK3`).
#[derive(Clone, Copy, Debug, PartialEq, Eq, Structural)]
pub struct Mask {
    /// `MASK0`: masks of the `FLAG0` events.
    pub mask0: u8,
    /// `MASK1`: masks of the `FLAG1` events.
    pub mask1: u8,
    /// `MASK2`: masks of the `FLAG2` events.
    pub mask2: u8,
    /// `MASK3`.
    pub mask3: u8,
}

impl Mask {
    /// The value that a write of this register starts from: every bit clear.
    pub fn reset_value() -> (r: Self)
        ensures
            r.mask0 == 0,
            r.mask1 == 0,
            r.mask2 == 0,
            r.mask3 == 0,
    {
        Mask { mask0: 0, mask1: 0, mask2: 0, mask3: 0 }
    }

    /// The register from its 4 bytes, in the order of their addresses.
    pub fn from_bytes(bytes: [u8; 4]) -> (r: Self)
        ensures
            r.mask0 == bytes@[0],
            r.mask1 == bytes@[1],
            r.mask2 == bytes@[2],
            r.mask3 == bytes@[3],
    {
        Mask { mask0: bytes[0], mask1: bytes[1], mask2: bytes[2], mask3: bytes[3] }
    }

    /// The 4 bytes of the register, in the order of their addresses.
    pub fn to_bytes(&self) -> (r: [u8; 4])
        ensures
            r@ == seq![self.mask0, self.mask1, self.mask2, self.mask3],
    {
        [self.mask0, self.mask1, self.mask2, self.mask3]
    }

    /// Whether the interrupt for `chrg_cv` is masked (bit 6 of `mask0`).
    pub open spec fn spec_chrg_cv_mask(&self) -> bool {
        get_field(self.mask0, 6, 1) == 1
    }

    #[verifier::when_used_as_spec(spec_chrg_cv_mask)]
    pub fn chrg_cv_mask(&self) -> (r: bool)
        ensures
            r == self.spec_chrg_cv_mask(),
            r == ((self.mask0 >> 6u8) & 0x1u8 == 1),
    {
        proof {
            lemma_low_mask_values();
        }
        get_bits(self.mask0, 6, 1) == 1
    }

    /// The register with its `chrg_cv_mask` field set to `value`; every other bit is kept.
    pub fn with_chrg_cv_mask(self, value: bool) -> (r: Self)
        ensures
            r.mask0 == put_field(self.mask0, 6, 1, (if value {
                    1u8
                } else {
                    0u8
                })),
            r.mask0 == (self.mask0 & !(0x1u8 << 6u8)) | (((if value {
                    1u8
                } else {
                    0u8
                }) & 0x1u8) << 6u8),
            r.mask1 == self.mask1,
            r.mask2 == self.mask2,
            r.mask3 == self.mask3,
            r.chrg_cv_mask() == value,
            r.charge_done_mask() == self.charge_done_mask(),
            r.iinlim_active_mask() == self.iinlim_active_mask(),
            r.vdppm_active_mask() == self.vdppm_active_mask(),
            r.vindpm_active_mask() == self.vindpm_active_mask(),
            r.thermreg_active_mask() == self.thermreg_active_mask(),
            r.vin_vgood_mask() == self.vin_vgood_mask(),
            r.vin_ovp_mask() == self.vin_ovp_mask(),
            r.bat_uvlo_mask() == self.bat_uvlo_mask(),
            r.bat_ocp_mask() == self.bat_ocp_mask(),
            r.adc_ready_mask() == self.adc_ready_mask(),
            r.comp1_alarm_mask() == self.comp1_alarm_mask(),
            r.comp2_alarm_mask() == self.comp2_alarm_mask(),
            r.comp3_alarm_mask() == self.comp3_alarm_mask(),
            r.ts_open_mask() == self.ts_open_mask(),
    {
        let code: u8 = if value {
            1u8
        } else {
            0u8
        };
        proof {
            lemma_low_mask_values();
            lemma_get_put_same(self.mask0, 6, 1, code);
            lemma_fits_mask(code, 1);
            lemma_get_put_other(self.mask0, 6, 1, code, 5, 1);
            lemma_get_put_other(self.mask0, 6, 1, code, 4, 1);
            lemma_get_put_other(self.mask0, 6, 1, code, 3, 1);
            lemma_get_put_other(self.mask0, 6, 1, code, 2, 1);
            lemma_get_put_other(self.mask0, 6, 1, code, 1, 1);
            lemma_get_put_other(self.mask0, 6, 1, code, 0, 1);
        }
        Mask { mask0: put_bits(self.mask0, 6, 1, code), mask1: self.mask1, mask2: self.mask2, mask3: self.mask3 }
    }

    /// Whether the interrupt for `charge_done` is masked (bit 5 of `mask0`).
    pub open spec fn spec_charge_done_mask(&self) -> bool {
        get_field(self.mask0, 5, 1) == 1
    }

    #[verifier::when_used_as_spec(spec_charge_done_mask)]
    pub fn charge_done_mask(&self) -> (r: bool)
        ensures
            r == self.spec_charge_done_mask(),
            r == ((self.mask0 >> 5u8) & 0x1u8 == 1),
    {
        proof {
            lemma_low_mask_values();
        }
        get_bits(self.mask0, 5, 1) == 1
    }

    /// The register with its `charge_done_mask` field set to `value`; every other bit is kept.
    pub fn with_charge_done_mask(self, value: bool) -> (r: Self)
        ensures
            r.mask0 == put_field(self.mask0, 5, 1, (if value {
                    1u8
                } else {
                    0u8
                })),
            r.mask0 == (self.mask0 & !(0x1u8 << 5u8)) | (((if value {
                    1u8
                } else {
                    0u8
                }) & 0x1u8) << 5u8),
            r.mask1 == self.mask1,
            r.mask2 == self.mask2,
            r.mask3 == self.mask3,
            r.charge_done_mask() == value,
            r.chrg_cv_mask() == self.chrg_cv_mask(),
            r.iinlim_active_mask() == self.iinlim_active_mask(),
            r.vdppm_active_mask() == self.vdppm_active_mask(),
            r.vindpm_active_mask() == self.vindpm_active_mask(),
            r.thermreg_active_mask() == self.thermreg_active_mask(),
            r.vin_vgood_mask() == self.vin_vgood_mask(),
            r.vin_ovp_mask() == self.vin_ovp_mask(),
            r.bat_uvlo_mask() == self.bat_uvlo_mask(),
            r.bat_ocp_mask() == self.bat_ocp_mask(),
            r.adc_ready_mask() == self.adc_ready_mask(),
            r.comp1_alarm_mask() == self.comp1_alarm_mask(),
            r.comp2_alarm_mask() == self.comp2_alarm_mask(),
            r.comp3_alarm_mask() == self.comp3_alarm_mask(),
            r.ts_open_mask() == self.ts_open_mask(),
    {
        let code: u8 = if value {
            1u8
        } else {
            0u8
        };
        proof {
            lemma_low_mask_values();
            lemma_get_put_same(self.mask0, 5, 1, code);
            lemma_fits_mask(code, 1);
            lemma_get_put_other(self.mask0, 5, 1, code, 6, 1);
            lemma_get_put_other(self.mask0, 5, 1, code, 4, 1);
            lemma_get_put_other(self.mask0, 5, 1, code, 3, 1);
            lemma_get_put_other(self.mask0, 5, 1, code, 2, 1);
            lemma_get_put_other(self.mask0, 5, 1, code, 1, 1);
            lemma_get_put_other(self.mask0, 5, 1, code, 0, 1);
        }
        Mask { mask0: put_bits(self.mask0, 5, 1, code), mask1: self.mask1, mask2: self.mask2, mask3: self.mask3 }
    }

    /// Whether the interrupt for `iinlim_active` is masked (bit 4 of `mask0`).
    pub open spec fn spec_iinlim_active_mask(&self) -> bool {
        get_field(self.mask0, 4, 1) == 1
    }

    #[verifier::when_used_as_spec(spec_iinlim_active_mask)]
    pub fn iinlim_active_mask(&self) -> (r: bool)
        ensures
            r == self.spec_iinlim_active_mask(),
            r == ((self.mask0 >> 4u8) & 0x1u8 == 1),
    {
        proof {
            lemma_low_mask_values();
        }
        get_bits(self.mask0, 4, 1) == 1
    }

    /// The register with its `iinlim_active_mask` field set to `value`; every other bit is kept.
    pub fn with_iinlim_active_mask(self, value: bool) -> (r: Self)
        ensures
            r.mask0 == put_field(self.mask0, 4, 1, (if value {
                    1u8
                } else {
                    0u8
                })),
            r.mask0 == (self.mask0 & !(0x1u8 << 4u8)) | (((if value {
                    1u8
                } else {
                    0u8
                }) & 0x1u8) << 4u8),
            r.mask1 == self.mask1,
            r.mask2 == self.mask2,
            r.mask3 == self.mask3,
            r.iinlim_active_mask() == value,
            r.chrg_cv_mask() == self.chrg_cv_mask(),
            r.charge_done_mask() == self.charge_done_mask(),
            r.vdppm_active_mask() == self.vdppm_active_mask(),
            r.vindpm_active_mask() == self.vindpm_active_mask(),
            r.thermreg_active_mask() == self.thermreg_active_mask(),
            r.vin_vgood_mask() == self.vin_vgood_mask(),
            r.vin_ovp_mask() == self.vin_ovp_mask(),
            r.bat_uvlo_mask() == self.bat_uvlo_mask(),
            r.bat_ocp_mask() == self.bat_ocp_mask(),
            r.adc_ready_mask() == self.adc_ready_mask(),
            r.comp1_alarm_mask() == self.comp1_alarm_mask(),
            r.comp2_alarm_mask() == self.comp2_alarm_mask(),
            r.comp3_alarm_mask() == self.comp3_alarm_mask(),
            r.ts_open_mask() == self.ts_open_mask(),
    {
        let code: u8 = if value {
            1u8
        } else {
            0u8
        };
        proof {
            lemma_low_mask_values();
            lemma_get_put_same(self.mask0, 4, 1, code);
            lemma_fits_mask(code, 1);
            lemma_get_put_other(self.mask0, 4, 1, code, 6, 1);
            lemma_get_put_other(self.mask0, 4, 1, code, 5, 1);
            lemma_get_put_other(self.mask0, 4, 1, code, 3, 1);
            lemma_get_put_other(self.mask0, 4, 1, code, 2, 1);
            lemma_get_put_other(self.mask0, 4, 1, code, 1, 1);
            lemma_get_put_other(self.mask0, 4, 1, code, 0, 1);
        }
        Mask { mask0: put_bits(self.mask0, 4, 1, code), mask1: self.mask1, mask2: self.mask2, mask3: self.mask3 }
    }

    /// Whether the interrupt for `vdppm_active` is masked (bit 3 of `mask0`).
    pub open spec fn spec_vdppm_active_mask(&self) -> bool {
        get_field(self.mask0, 3, 1) == 1
    }

    #[verifier::when_used_as_spec(spec_vdppm_active_mask)]
    pub fn vdppm_active_mask(&self) -> (r: bool)
        ensures
            r == self.spec_vdppm_active_mask(),
            r == ((self.mask0 >> 3u8) & 0x1u8 == 1),
    {
        proof {
            lemma_low_mask_values();
        }
        get_bits(self.mask0, 3, 1) == 1
    }

    /// The register with its `vdppm_active_mask` field set to `value`; every other bit is kept.
    pub fn with_vdppm_active_mask(self, value: bool) -> (r: Self)
        ensures
            r.mask0 == put_field(self.mask0, 3, 1, (if value {
                    1u8
                } else {
                    0u8
                })),
            r.mask0 == (self.mask0 & !(0x1u8 << 3u8)) | (((if value {
                    1u8
                } else {
                    0u8
                }) & 0x1u8) << 3u8),
            r.mask1 == self.mask1,
            r.mask2 == self.mask2,
            r.mask3 == self.mask3,
            r.vdppm_active_mask() == value,
            r.chrg_cv_mask() == self.chrg_cv_mask(),
            r.charge_done_mask() == self.charge_done_mask(),
            r.iinlim_active_mask() == self.iinlim_active_mask(),
            r.vindpm_active_mask() == self.vindpm_active_mask(),
            r.thermreg_active_mask() == self.thermreg_active_mask(),
            r.vin_vgood_mask() == self.vin_vgood_mask(),
            r.vin_ovp_mask() == self.vin_ovp_mask(),
            r.bat_uvlo_mask() == self.bat_uvlo_mask(),
            r.bat_ocp_mask() == self.bat_ocp_mask(),
            r.adc_ready_mask() == self.adc_ready_mask(),
            r.comp1_alarm_mask() == self.comp1_alarm_mask(),
            r.comp2_alarm_mask() == self.comp2_alarm_mask(),
            r.comp3_alarm_mask() == self.comp3_alarm_mask(),
            r.ts_open_mask() == self.ts_open_mask(),
    {
        let code: u8 = if value {
            1u8
        } else {
            0u8
        };
        proof {
            lemma_low_mask_values();
            lemma_get_put_same(self.mask0, 3, 1, code);
            lemma_fits_mask(code, 1);
            lemma_get_put_other(self.mask0, 3, 1, code, 6, 1);
            lemma_get_put_other(self.mask0, 3, 1, code, 5, 1);
            lemma_get_put_other(self.mask0, 3, 1, code, 4, 1);
            lemma_get_put_other(self.mask0, 3, 1, code, 2, 1);
            lemma_get_put_other(self.mask0, 3, 1, code, 1, 1);
            lemma_get_put_other(self.mask0, 3, 1, code, 0, 1);
        }
        Mask { mask0: put_bits(self.mask0, 3, 1, code), mask1: self.mask1, mask2: self.mask2, mask3: self.mask3 }
    }

    /// Whether the interrupt for `vindpm_active` is masked (bit 2 of `mask0`).
    pub open spec fn spec_vindpm_active_mask(&self) -> bool {
        get_field(self.mask0, 2, 1) == 1
    }

    #[verifier::when_used_as_spec(spec_vindpm_active_mask)]
    pub fn vindpm_active_mask(&self) -> (r: bool)
        ensures
            r == self.spec_vindpm_active_mask(),
            r == ((self.mask0 >> 2u8) & 0x1u8 == 1),
    {
        proof {
            lemma_low_mask_values();
        }
        get_bits(self.mask0, 2, 1) == 1
    }

    /// The register with its `vindpm_active_mask` field set to `value`; every other bit is kept.
    pub fn with_vindpm_active_mask(self, value: bool) -> (r: Self)
        ensures
            r.mask0 == put_field(self.mask0, 2, 1, (if value {
                    1u8
                } else {
                    0u8
                })),
            r.mask0 == (self.mask0 & !(0x1u8 << 2u8)) | (((if value {
                    1u8
                } else {
                    0u8
                }) & 0x1u8) << 2u8),
            r.mask1 == self.mask1,
            r.mask2 == self.mask2,
            r.mask3 == self.mask3,
            r.vindpm_active_mask() == value,
            r.chrg_cv_mask() == self.chrg_cv_mask(),
            r.charge_done_mask() == self.charge_done_mask(),
            r.iinlim_active_mask() == self.iinlim_active_mask(),
            r.vdppm_active_mask() == self.vdppm_active_mask(),
            r.thermreg_active_mask() == self.thermreg_active_mask(),
            r.vin_vgood_mask() == self.vin_vgood_mask(),
            r.vin_ovp_mask() == self.vin_ovp_mask(),
            r.bat_uvlo_mask() == self.bat_uvlo_mask(),
            r.bat_ocp_mask() == self.bat_ocp_mask(),
            r.adc_ready_mask() == self.adc_ready_mask(),
            r.comp1_alarm_mask() == self.comp1_alarm_mask(),
            r.comp2_alarm_mask() == self.comp2_alarm_mask(),
            r.comp3_alarm_mask() == self.comp3_alarm_mask(),
            r.ts_open_mask() == self.ts_open_mask(),
    {
        let code: u8 = if value {
            1u8
        } else {
            0u8
        };
        proof {
            lemma_low_mask_values();
            lemma_get_put_same(self.mask0, 2, 1, code);
            lemma_fits_mask(code, 1);
            lemma_get_put_other(self.mask0, 2, 1, code, 6, 1);
            lemma_get_put_other(self.mask0, 2, 1, code, 5, 1);
            lemma_get_put_other(self.mask0, 2, 1, code, 4, 1);
            lemma_get_put_other(self.mask0, 2, 1, code, 3, 1);
            lemma_get_put_other(self.mask0, 2, 1, code, 1, 1);
            lemma_get_put_other(self.mask0, 2, 1, code, 0, 1);
        }
        Mask { mask0: put_bits(self.mask0, 2, 1, code), mask1: self.mask1, mask2: self.mask2, mask3: self.mask3 }
    }

    /// Whether the interrupt for `thermreg_active` is masked (bit 1 of `mask0`).
    pub open spec fn spec_thermreg_active_mask(&self) -> bool {
        get_field(self.mask0, 1, 1) == 1
    }

    #[verifier::when_used_as_spec(spec_thermreg_active_mask)]
    pub fn thermreg_active_mask(&self) -> (r: bool)
        ensures
            r == self.spec_thermreg_active_mask(),
            r == ((self.mask0 >> 1u8) & 0x1u8 == 1),
    {
        proof {
            lemma_low_mask_values();
        }
        get_bits(self.mask0, 1, 1) == 1
    }

    /// The register with its `thermreg_active_mask` field set to `value`; every other bit is kept.
    pub fn with_thermreg_active_mask(self, value: bool) -> (r: Self)
        ensures
            r.mask0 == put_field(self.mask0, 1, 1, (if value {
                    1u8
                } else {
                    0u8
                })),
            r.mask0 == (self.mask0 & !(0x1u8 << 1u8)) | (((if value {
                    1u8
                } else {
                    0u8
                }) & 0x1u8) << 1u8),
            r.mask1 == self.mask1,
            r.mask2 == self.mask2,
            r.mask3 == self.mask3,
            r.thermreg_active_mask() == value,
            r.chrg_cv_mask() == self.chrg_cv_mask(),
            r.charge_done_mask() == self.charge_done_mask(),
            r.iinlim_active_mask() == self.iinlim_active_mask(),
            r.vdppm_active_mask() == self.vdppm_active_mask(),
            r.vindpm_active_mask() == self.vindpm_active_mask(),
            r.vin_vgood_mask() == self.vin_vgood_mask(),
            r.vin_ovp_mask() == self.vin_ovp_mask(),
            r.bat_uvlo_mask() == self.bat_uvlo_mask(),
            r.bat_ocp_mask() == self.bat_ocp_mask(),
            r.adc_ready_mask() == self.adc_ready_mask(),
            r.comp1_alarm_mask() == self.comp1_alarm_mask(),
            r.comp2_alarm_mask() == self.comp2_alarm_mask(),
            r.comp3_alarm_mask() == self.comp3_alarm_mask(),
            r.ts_open_mask() == self.ts_open_mask(),
    {
        let code: u8 = if value {
            1u8
        } else {
            0u8
        };
        proof {
            lemma_low_mask_values();
            lemma_get_put_same(self.mask0, 1, 1, code);
            lemma_fits_mask(code, 1);
            lemma_get_put_other(self.mask0, 1, 1, code, 6, 1);
            lemma_get_put_other(self.mask0, 1, 1, code, 5, 1);
            lemma_get_put_other(self.mask0, 1, 1, code, 4, 1);
            lemma_get_put_other(self.mask0, 1, 1, code, 3, 1);
            lemma_get_put_other(self.mask0, 1, 1, code, 2, 1);
            lemma_get_put_other(self.mask0, 1, 1, code, 0, 1);
        }
        Mask { mask0: put_bits(self.mask0, 1, 1, code), mask1: self.mask1, mask2: self.mask2, mask3: self.mask3 }
    }

    /// Whether the interrupt for `vin_vgood` is masked (bit 0 of `mask0`).
    pub open spec fn spec_vin_vgood_mask(&self) -> bool {
        get_field(self.mask0, 0, 1) == 1
    }

    #[verifier::when_used_as_spec(spec_vin_vgood_mask)]
    pub fn vin_vgood_mask(&self) -> (r: bool)
        ensures
            r == self.spec_vin_vgood_mask(),
            r == ((self.mask0 >> 0u8) & 0x1u8 == 1),
    {
        proof {
            lemma_low_mask_values();
        }
        get_bits(self.mask0, 0, 1) == 1
    }

    /// The register with its `vin_vgood_mask` field set to `value`; every other bit is kept.
    pub fn with_vin_vgood_mask(self, value: bool) -> (r: Self)
        ensures
            r.mask0 == put_field(self.mask0, 0, 1, (if value {
                    1u8
                } else {
                    0u8
                })),
            r.mask0 == (self.mask0 & !(0x1u8 << 0u8)) | (((if value {
                    1u8
                } else {
                    0u8
                }) & 0x1u8) << 0u8),
            r.mask1 == self.mask1,
            r.mask2 == self.mask2,
            r.mask3 == self.mask3,
            r.vin_vgood_mask() == value,
            r.chrg_cv_mask() == self.chrg_cv_mask(),
            r.charge_done_mask() == self.charge_done_mask(),
            r.iinlim_active_mask() == self.iinlim_active_mask(),
            r.vdppm_active_mask() == self.vdppm_active_mask(),
            r.vindpm_active_mask() == self.vindpm_active_mask(),
            r.thermreg_active_mask() == self.thermreg_active_mask(),
            r.vin_ovp_mask() == self.vin_ovp_mask(),
            r.bat_uvlo_mask() == self.bat_uvlo_mask(),
            r.bat_ocp_mask() == self.bat_ocp_mask(),
            r.adc_ready_mask() == self.adc_ready_mask(),
            r.comp1_alarm_mask() == self.comp1_alarm_mask(),
            r.comp2_alarm_mask() == self.comp2_alarm_mask(),
            r.comp3_alarm_mask() == self.comp3_alarm_mask(),
            r.ts_open_mask() == self.ts_open_mask(),
    {
        let code: u8 = if value {
            1u8
        } else {
            0u8
        };
        proof {
            lemma_low_mask_values();
            lemma_get_put_same(self.mask0, 0, 1, code);
            lemma_fits_mask(code, 1);
            lemma_get_put_other(self.mask0, 0, 1, code, 6, 1);
            lemma_get_put_other(self.mask0, 0, 1, code, 5, 1);
            lemma_get_put_other(self.mask0, 0, 1, code, 4, 1);
            lemma_get_put_other(self.mask0, 0, 1, code, 3, 1);
            lemma_get_put_other(self.mask0, 0, 1, code, 2, 1);
            lemma_get_put_other(self.mask0, 0, 1, code, 1, 1);
        }
        Mask { mask0: put_bits(self.mask0, 0, 1, code), mask1: self.mask1, mask2: self.mask2, mask3: self.mask3 }
    }

    /// Whether the interrupt for `vin_ovp` is masked (bit 7 of `mask1`).
    pub open spec fn spec_vin_ovp_mask(&self) -> bool {
        get_field(self.mask1, 7, 1) == 1
    }

    #[verifier::when_used_as_spec(spec_vin_ovp_mask)]
    pub fn vin_ovp_mask(&self) -> (r: bool)
        ensures
            r == self.spec_vin_ovp_mask(),
            r == ((self.mask1 >> 7u8) & 0x1u8 == 1),
    {
        proof {
            lemma_low_mask_values();
        }
        get_bits(self.mask1, 7, 1) == 1
    }

    /// The register with its `vin_ovp_mask` field set to `value`; every other bit is kept.
    pub fn with_vin_ovp_mask(self, value: bool) -> (r: Self)
        ensures
            r.mask1 == put_field(self.mask1, 7, 1, (if value {
                    1u8
                } else {
                    0u8
                })),
            r.mask1 == (self.mask1 & !(0x1u8 << 7u8)) | (((if value {
                    1u8
                } else {
                    0u8
                }) & 0x1u8) << 7u8),
            r.mask0 == self.mask0,
            r.mask2 == self.mask2,
            r.mask3 == self.mask3,
            r.vin_ovp_mask() == value,
            r.chrg_cv_mask() == self.chrg_cv_mask(),
            r.charge_done_mask() == self.charge_done_mask(),
            r.iinlim_active_mask() == self.iinlim_active_mask(),
            r.vdppm_active_mask() == self.vdppm_active_mask(),
            r.vindpm_active_mask() == self.vindpm_active_mask(),
            r.thermreg_active_mask() == self.thermreg_active_mask(),
            r.vin_vgood_mask() == self.vin_vgood_mask(),
            r.bat_uvlo_mask() == self.bat_uvlo_mask(),
            r.bat_ocp_mask() == self.bat_ocp_mask(),
            r.adc_ready_mask() == self.adc_ready_mask(),
            r.comp1_alarm_mask() == self.comp1_alarm_mask(),
            r.comp2_alarm_mask() == self.comp2_alarm_mask(),
            r.comp3_alarm_mask() == self.comp3_alarm_mask(),
            r.ts_open_mask() == self.ts_open_mask(),
    {
        let code: u8 = if value {
            1u8
        } else {
            0u8
        };
        proof {
            lemma_low_mask_values();
            lemma_get_put_same(self.mask1, 7, 1, code);
            lemma_fits_mask(code, 1);
            lemma_get_put_other(self.mask1, 7, 1, code, 6, 1);
            lemma_get_put_other(self.mask1, 7, 1, code, 5, 1);
        }
        Mask { mask0: self.mask0, mask1: put_bits(self.mask1, 7, 1, code), mask2: self.mask2, mask3: self.mask3 }
    }

    /// Whether the interrupt for `bat_uvlo` is masked (bit 6 of `mask1`).
    pub open spec fn spec_bat_uvlo_mask(&self) -> bool {
        get_field(self.mask1, 6, 1) == 1
    }

    #[verifier::when_used_as_spec(spec_bat_uvlo_mask)]
    pub fn bat_uvlo_mask(&self) -> (r: bool)
        ensures
            r == self.spec_bat_uvlo_mask(),
            r == ((self.mask1 >> 6u8) & 0x1u8 == 1),
    {
        proof {
            lemma_low_mask_values();
        }
        get_bits(self.mask1, 6, 1) == 1
    }

    /// The register with its `bat_uvlo_mask` field set to `value`; every other bit is kept.
    pub fn with_bat_uvlo_mask(self, value: bool) -> (r: Self)
        ensures
            r.mask1 == put_field(self.mask1, 6, 1, (if value {
                    1u8
                } else {
                    0u8
                })),
            r.mask1 == (self.mask1 & !(0x1u8 << 6u8)) | (((if value {
                    1u8
                } else {
                    0u8
                }) & 0x1u8) << 6u8),
            r.mask0 == self.mask0,
            r.mask2 == self.mask2,
            r.mask3 == self.mask3,
            r.bat_uvlo_mask() == value,
            r.chrg_cv_mask() == self.chrg_cv_mask(),
            r.charge_done_mask() == self.charge_done_mask(),
            r.iinlim_active_mask() == self.iinlim_active_mask(),
            r.vdppm_active_mask() == self.vdppm_active_mask(),
            r.vindpm_active_mask() == self.vindpm_active_mask(),
            r.thermreg_active_mask() == self.thermreg_active_mask(),
            r.vin_vgood_mask() == self.vin_vgood_mask(),
            r.vin_ovp_mask() == self.vin_ovp_mask(),
            r.bat_ocp_mask() == self.bat_ocp_mask(),
            r.adc_ready_mask() == self.adc_ready_mask(),
            r.comp1_alarm_mask() == self.comp1_alarm_mask(),
            r.comp2_alarm_mask() == self.comp2_alarm_mask(),
            r.comp3_alarm_mask() == self.comp3_alarm_mask(),
            r.ts_open_mask() == self.ts_open_mask(),
    {
        let code: u8 = if value {
            1u8
        } else {
            0u8
        };
        proof {
            lemma_low_mask_values();
            lemma_get_put_same(self.mask1, 6, 1, code);
            lemma_fits_mask(code, 1);
            lemma_get_put_other(self.mask1, 6, 1, code, 7, 1);
            lemma_get_put_other(self.mask1, 6, 1, code, 5, 1);
        }
        Mask { mask0: self.mask0, mask1: put_bits(self.mask1, 6, 1, code), mask2: self.mask2, mask3: self.mask3 }
    }

    /// Whether the interrupt for `bat_ocp` is masked (bit 5 of `mask1`).
    pub open spec fn spec_bat_ocp_mask(&self) -> bool {
        get_field(self.mask1, 5, 1) == 1
    }

    #[verifier::when_used_as_spec(spec_bat_ocp_mask)]
    pub fn bat_ocp_mask(&self) -> (r: bool)
        ensures
            r == self.spec_bat_ocp_mask(),
            r == ((self.mask1 >> 5u8) & 0x1u8 == 1),
    {
        proof {
            lemma_low_mask_values();
        }
        get_bits(self.mask1, 5, 1) == 1
    }

    /// The register with its `bat_ocp_mask` field set to `value`; every other bit is kept.
    pub fn with_bat_ocp_mask(self, value: bool) -> (r: Self)
        ensures
            r.mask1 == put_field(self.mask1, 5, 1, (if value {
                    1u8
                } else {
                    0u8
                })),
            r.mask1 == (self.mask1 & !(0x1u8 << 5u8)) | (((if value {
                    1u8
                } else {
                    0u8
                }) & 0x1u8) << 5u8),
            r.mask0 == self.mask0,
            r.mask2 == self.mask2,
            r.mask3 == self.mask3,
            r.bat_ocp_mask() == value,
            r.chrg_cv_mask() == self.chrg_cv_mask(),
            r.charge_done_mask() == self.charge_done_mask(),
            r.iinlim_active_mask() == self.iinlim_active_mask(),
            r.vdppm_active_mask() == self.vdppm_active_mask(),
            r.vindpm_active_mask() == self.vindpm_active_mask(),
            r.thermreg_active_mask() == self.thermreg_active_mask(),
            r.vin_vgood_mask() == self.vin_vgood_mask(),
            r.vin_ovp_mask() == self.vin_ovp_mask(),
            r.bat_uvlo_mask() == self.bat_uvlo_mask(),
            r.adc_ready_mask() == self.adc_ready_mask(),
            r.comp1_alarm_mask() == self.comp1_alarm_mask(),
            r.comp2_alarm_mask() == self.comp2_alarm_mask(),
            r.comp3_alarm_mask() == self.comp3_alarm_mask(),
            r.ts_open_mask() == self.ts_open_mask(),
    {
        let code: u8 = if value {
            1u8
        } else {
            0u8
        };
        proof {
            lemma_low_mask_values();
            lemma_get_put_same(self.mask1, 5, 1, code);
            lemma_fits_mask(code, 1);
            lemma_get_put_other(self.mask1, 5, 1, code, 7, 1);
            lemma_get_put_other(self.mask1, 5, 1, code, 6, 1);
        }
        Mask { mask0: self.mask0, mask1: put_bits(self.mask1, 5, 1, code), mask2: self.mask2, mask3: self.mask3 }
    }

    /// Whether the interrupt for `adc_ready` is masked (bit 7 of `mask2`).
    pub open spec fn spec_adc_ready_mask(&self) -> bool {
        get_field(self.mask2, 7, 1) == 1
    }

    #[verifier::when_used_as_spec(spec_adc_ready_mask)]
    pub fn adc_ready_mask(&self) -> (r: bool)
        ensures
            r == self.spec_adc_ready_mask(),
            r == ((self.mask2 >> 7u8) & 0x1u8 == 1),
    {
        proof {
            lemma_low_mask_values();
        }
        get_bits(self.mask2, 7, 1) == 1
    }

    /// The register with its `adc_ready_mask` field set to `value`; every other bit is kept.
    pub fn with_adc_ready_mask(self, value: bool) -> (r: Self)
        ensures
            r.mask2 == put_field(self.mask2, 7, 1, (if value {
                    1u8
                } else {
                    0u8
                })),
            r.mask2 == (self.mask2 & !(0x1u8 << 7u8)) | (((if value {
                    1u8
                } else {
                    0u8
                }) & 0x1u8) << 7u8),
            r.mask0 == self.mask0,
            r.mask1 == self.mask1,
            r.mask3 == self.mask3,
            r.adc_ready_mask() == value,
            r.chrg_cv_mask() == self.chrg_cv_mask(),
            r.charge_done_mask() == self.charge_done_mask(),
            r.iinlim_active_mask() == self.iinlim_active_mask(),
            r.vdppm_active_mask() == self.vdppm_active_mask(),
            r.vindpm_active_mask() == self.vindpm_active_mask(),
            r.thermreg_active_mask() == self.thermreg_active_mask(),
            r.vin_vgood_mask() == self.vin_vgood_mask(),
            r.vin_ovp_mask() == self.vin_ovp_mask(),
            r.bat_uvlo_mask() == self.bat_uvlo_mask(),
            r.bat_ocp_mask() == self.bat_ocp_mask(),
            r.comp1_alarm_mask() == self.comp1_alarm_mask(),
            r.comp2_alarm_mask() == self.comp2_alarm_mask(),
            r.comp3_alarm_mask() == self.comp3_alarm_mask(),
            r.ts_open_mask() == self.ts_open_mask(),
    {
        let code: u8 = if value {
            1u8
        } else {
            0u8
        };
        proof {
            lemma_low_mask_values();
            lemma_get_put_same(self.mask2, 7, 1, code);
            lemma_fits_mask(code, 1);
            lemma_get_put_other(self.mask2, 7, 1, code, 6, 1);
            lemma_get_put_other(self.mask2, 7, 1, code, 5, 1);
            lemma_get_put_other(self.mask2, 7, 1, code, 4, 1);
            lemma_get_put_other(self.mask2, 7, 1, code, 0, 1);
        }
        Mask { mask0: self.mask0, mask1: self.mask1, mask2: put_bits(self.mask2, 7, 1, code), mask3: self.mask3 }
    }

    /// Whether the interrupt for `comp1_alarm` is masked (bit 6 of `mask2`).
    pub open spec fn spec_comp1_alarm_mask(&self) -> bool {
        get_field(self.mask2, 6, 1) == 1
    }

    #[verifier::when_used_as_spec(spec_comp1_alarm_mask)]
    pub fn comp1_alarm_mask(&self) -> (r: bool)
        ensures
            r == self.spec_comp1_alarm_mask(),
            r == ((self.mask2 >> 6u8) & 0x1u8 == 1),
    {
        proof {
            lemma_low_mask_values();
        }
        get_bits(self.mask2, 6, 1) == 1
    }

    /// The register with its `comp1_alarm_mask` field set to `value`; every other bit is kept.
    pub fn with_comp1_alarm_mask(self, value: bool) -> (r: Self)
        ensures
            r.mask2 == put_field(self.mask2, 6, 1, (if value {
                    1u8
                } else {
                    0u8
                })),
            r.mask2 == (self.mask2 & !(0x1u8 << 6u8)) | (((if value {
                    1u8
                } else {
                    0u8
                }) & 0x1u8) << 6u8),
            r.mask0 == self.mask0,
            r.mask1 == self.mask1,
            r.mask3 == self.mask3,
            r.comp1_alarm_mask() == value,
            r.chrg_cv_mask() == self.chrg_cv_mask(),
            r.charge_done_mask() == self.charge_done_mask(),
            r.iinlim_active_mask() == self.iinlim_active_mask(),
            r.vdppm_active_mask() == self.vdppm_active_mask(),
            r.vindpm_active_mask() == self.vindpm_active_mask(),
            r.thermreg_active_mask() == self.thermreg_active_mask(),
            r.vin_vgood_mask() == self.vin_vgood_mask(),
            r.vin_ovp_mask() == self.vin_ovp_mask(),
            r.bat_uvlo_mask() == self.bat_uvlo_mask(),
            r.bat_ocp_mask() == self.bat_ocp_mask(),
            r.adc_ready_mask() == self.adc_ready_mask(),
            r.comp2_alarm_mask() == self.comp2_alarm_mask(),
            r.comp3_alarm_mask() == self.comp3_alarm_mask(),
            r.ts_open_mask() == self.ts_open_mask(),
    {
        let code: u8 = if value {
            1u8
        } else {
            0u8
        };
        proof {
            lemma_low_mask_values();
            lemma_get_put_same(self.mask2, 6, 1, code);
            lemma_fits_mask(code, 1);
            lemma_get_put_other(self.mask2, 6, 1, code, 7, 1);
            lemma_get_put_other(self.mask2, 6, 1, code, 5, 1);
            lemma_get_put_other(self.mask2, 6, 1, code, 4, 1);
            lemma_get_put_other(self.mask2, 6, 1, code, 0, 1);
        }
        Mask { mask0: self.mask0, mask1: self.mask1, mask2: put_bits(self.mask2, 6, 1, code), mask3: self.mask3 }
    }

    /// Whether the interrupt for `comp2_alarm` is masked (bit 5 of `mask2`).
    pub open spec fn spec_comp2_alarm_mask(&self) -> bool {
        get_field(self.mask2, 5, 1) == 1
    }

    #[verifier::when_used_as_spec(spec_comp2_alarm_mask)]
    pub fn comp2_alarm_mask(&self) -> (r: bool)
        ensures
            r == self.spec_comp2_alarm_mask(),
            r == ((self.mask2 >> 5u8) & 0x1u8 == 1),
    {
        proof {
            lemma_low_mask_values();
        }
        get_bits(self.mask2, 5, 1) == 1
    }

    /// The register with its `comp2_alarm_mask` field set to `value`; every other bit is kept.
    pub fn with_comp2_alarm_mask(self, value: bool) -> (r: Self)
        ensures
            r.mask2 == put_field(self.mask2, 5, 1, (if value {
                    1u8
                } else {
                    0u8
                })),
            r.mask2 == (self.mask2 & !(0x1u8 << 5u8)) | (((if value {
                    1u8
                } else {
                    0u8
                }) & 0x1u8) << 5u8),
            r.mask0 == self.mask0,
            r.mask1 == self.mask1,
            r.mask3 == self.mask3,
            r.comp2_alarm_mask() == value,
            r.chrg_cv_mask() == self.chrg_cv_mask(),
            r.charge_done_mask() == self.charge_done_mask(),
            r.iinlim_active_mask() == self.iinlim_active_mask(),
            r.vdppm_active_mask() == self.vdppm_active_mask(),
            r.vindpm_active_mask() == self.vindpm_active_mask(),
            r.thermreg_active_mask() == self.thermreg_active_mask(),
            r.vin_vgood_mask() == self.vin_vgood_mask(),
            r.vin_ovp_mask() == self.vin_ovp_mask(),
            r.bat_uvlo_mask() == self.bat_uvlo_mask(),
            r.bat_ocp_mask() == self.bat_ocp_mask(),
            r.adc_ready_mask() == self.adc_ready_mask(),
            r.comp1_alarm_mask() == self.comp1_alarm_mask(),
            r.comp3_alarm_mask() == self.comp3_alarm_mask(),
            r.ts_open_mask() == self.ts_open_mask(),
    {
        let code: u8 = if value {
            1u8
        } else {
            0u8
        };
        proof {
            lemma_low_mask_values();
            lemma_get_put_same(self.mask2, 5, 1, code);
            lemma_fits_mask(code, 1);
            lemma_get_put_other(self.mask2, 5, 1, code, 7, 1);
            lemma_get_put_other(self.mask2, 5, 1, code, 6, 1);
            lemma_get_put_other(self.mask2, 5, 1, code, 4, 1);
            lemma_get_put_other(self.mask2, 5, 1, code, 0, 1);
        }
        Mask { mask0: self.mask0, mask1: self.mask1, mask2: put_bits(self.mask2, 5, 1, code), mask3: self.mask3 }
    }

    /// Whether the interrupt for `comp3_alarm` is masked (bit 4 of `mask2`).
    pub open spec fn spec_comp3_alarm_mask(&self) -> bool {
        get_field(self.mask2, 4, 1) == 1
    }

    #[verifier::when_used_as_spec(spec_comp3_alarm_mask)]
    pub fn comp3_alarm_mask(&self) -> (r: bool)
        ensures
            r == self.spec_comp3_alarm_mask(),
            r == ((self.mask2 >> 4u8) & 0x1u8 == 1),
    {
        proof {
            lemma_low_mask_values();
        }
        get_bits(self.mask2, 4, 1) == 1
    }

    /// The register with its `comp3_alarm_mask` field set to `value`; every other bit is kept.
    pub fn with_comp3_alarm_mask(self, value: bool) -> (r: Self)
        ensures
            r.mask2 == put_field(self.mask2, 4, 1, (if value {
                    1u8
                } else {
                    0u8
                })),
            r.mask2 == (self.mask2 & !(0x1u8 << 4u8)) | (((if value {
                    1u8
                } else {
                    0u8
                }) & 0x1u8) << 4u8),
            r.mask0 == self.mask0,
            r.mask1 == self.mask1,
            r.mask3 == self.mask3,
            r.comp3_alarm_mask() == value,
            r.chrg_cv_mask() == self.chrg_cv_mask(),
            r.charge_done_mask() == self.charge_done_mask(),
            r.iinlim_active_mask() == self.iinlim_active_mask(),
            r.vdppm_active_mask() == self.vdppm_active_mask(),
            r.vindpm_active_mask() == self.vindpm_active_mask(),
            r.thermreg_active_mask() == self.thermreg_active_mask(),
            r.vin_vgood_mask() == self.vin_vgood_mask(),
            r.vin_ovp_mask() == self.vin_ovp_mask(),
            r.bat_uvlo_mask() == self.bat_uvlo_mask(),
            r.bat_ocp_mask() == self.bat_ocp_mask(),
            r.adc_ready_mask() == self.adc_ready_mask(),
            r.comp1_alarm_mask() == self.comp1_alarm_mask(),
            r.comp2_alarm_mask() == self.comp2_alarm_mask(),
            r.ts_open_mask() == self.ts_open_mask(),
    {
        let code: u8 = if value {
            1u8
        } else {
            0u8
        };
        proof {
            lemma_low_mask_values();
            lemma_get_put_same(self.mask2, 4, 1, code);
            lemma_fits_mask(code, 1);
            lemma_get_put_other(self.mask2, 4, 1, code, 7, 1);
            lemma_get_put_other(self.mask2, 4, 1, code, 6, 1);
            lemma_get_put_other(self.mask2, 4, 1, code, 5, 1);
            lemma_get_put_other(self.mask2, 4, 1, code, 0, 1);
        }
        Mask { mask0: self.mask0, mask1: self.mask1, mask2: put_bits(self.mask2, 4, 1, code), mask3: self.mask3 }
    }

    /// Whether the interrupt for `ts_open` is masked (bit 0 of `mask2`).
    pub open spec fn spec_ts_open_mask(&self) -> bool {
        get_field(self.mask2, 0, 1) == 1
    }

    #[verifier::when_used_as_spec(spec_ts_open_mask)]
    pub fn ts_open_mask(&self) -> (r: bool)
        ensures
            r == self.spec_ts_open_mask(),
            r == ((self.mask2 >> 0u8) & 0x1u8 == 1),
    {
        proof {
            lemma_low_mask_values();
        }
        get_bits(self.mask2, 0, 1) == 1
    }

    /// The register with its `ts_open_mask` field set to `value`; every other bit is kept.
    pub fn with_ts_open_mask(self, value: bool) -> (r: Self)
        ensures
            r.mask2 == put_field(self.mask2, 0, 1, (if value {
                    1u8
                } else {
                    0u8
                })),
            r.mask2 == (self.mask2 & !(0x1u8 << 0u8)) | (((if value {
                    1u8
                } else {
                    0u8
                }) & 0x1u8) << 0u8),
            r.mask0 == self.mask0,
            r.mask1 == self.mask1,
            r.mask3 == self.mask3,
            r.ts_open_mask() == value,
            r.chrg_cv_mask() == self.chrg_cv_mask(),
            r.charge_done_mask() == self.charge_done_mask(),
            r.iinlim_active_mask() == self.iinlim_active_mask(),
            r.vdppm_active_mask() == self.vdppm_active_mask(),
            r.vindpm_active_mask() == self.vindpm_active_mask(),
            r.thermreg_active_mask() == self.thermreg_active_mask(),
            r.vin_vgood_mask() == self.vin_vgood_mask(),
            r.vin_ovp_mask() == self.vin_ovp_mask(),
            r.bat_uvlo_mask() == self.bat_uvlo_mask(),
            r.bat_ocp_mask() == self.bat_ocp_mask(),
            r.adc_ready_mask() == self.adc_ready_mask(),
            r.comp1_alarm_mask() == self.comp1_alarm_mask(),
            r.comp2_alarm_mask() == self.comp2_alarm_mask(),
            r.comp3_alarm_mask() == self.comp3_alarm_mask(),
    {
        let code: u8 = if value {
            1u8
        } else {
            0u8
        };
        proof {
            lemma_low_mask_values();
            lemma_get_put_same(self.mask2, 0, 1, code);
            lemma_fits_mask(code, 1);
            lemma_get_put_other(self.mask2, 0, 1, code, 7, 1);
            lemma_get_put_other(self.mask2, 0, 1, code, 6, 1);
            lemma_get_put_other(self.mask2, 0, 1, code, 5, 1);
            lemma_get_put_other(self.mask2, 0, 1, code, 4, 1);
        }
        Mask { mask0: self.mask0, mask1: self.mask1, mask2: put_bits(self.mask2, 0, 1, code), mask3: self.mask3 }
    }
}

/// Address of `VBAT_CTRL`.
pub const VBAT_CTRL_ADDRESS: u8 = 0x12;

/// Battery regulation voltage (`VBAT_CTRL`).
#[derive(Clone, Copy, Debug, PartialEq, Eq, Structural)]
pub struct VbatCtrl {
    /// The byte at the register's address.
    pub value: u8,
}

impl VbatCtrl {
    /// The value that a write of this register starts from: every bit clear.
    pub fn reset_value() -> (r: Self)
        ensures
            r.value == 0,
    {
        VbatCtrl { value: 0 }
    }

    /// The battery regulation voltage code (bits 6..=0 of `value`).
    pub open spec fn spec_vbat_reg(&self) -> VBatRegulationVoltage {
        VBatRegulationVoltage(get_field(self.value, 0, 7))
    }

    #[verifier::when_used_as_spec(spec_vbat_reg)]
    pub fn vbat_reg(&self) -> (r: VBatRegulationVoltage)
        ensures
            r == self.spec_vbat_reg(),
            r == (VBatRegulationVoltage((self.value >> 0u8) & 0x7fu8)),
    {
        proof {
            lemma_low_mask_values();
        }
        VBatRegulationVoltage(get_bits(self.value, 0, 7))
    }

    /// The register with its `vbat_reg` field set to `value`; every other bit is kept.
    pub fn with_vbat_reg(self, value: VBatRegulationVoltage) -> (r: Self)
        ensures
            r.value == put_field(self.value, 0, 7, value.0),
            r.value == (self.value & !(0x7fu8 << 0u8)) | ((value.0 & 0x7fu8) << 0u8),
            r.vbat_reg() == VBatRegulationVoltage(value.0 & 0x7f),
            value.0 <= 0x7f ==> r.vbat_reg() == value,
    {
        let code: u8 = value.0;
        proof {
            lemma_low_mask_values();
            lemma_get_put_same(self.value, 0, 7, code);
            if code <= 0x7f {
                lemma_fits_mask(code, 7);
            }
        }
        VbatCtrl { value: put_bits(self.value, 0, 7, code) }
    }
}

/// Address of `ICHG_CTRL`.
pub const ICHG_CTRL_ADDRESS: u8 = 0x13;

/// Fast charge current (`ICHG_CTRL`).
#[derive(Clone, Copy, Debug, PartialEq, Eq, Structural)]
pub struct IchgCtrl {
    /// The byte at the register's address.
    pub value: u8,
}

impl IchgCtrl {
    /// The value that a write of this register starts from: every bit clear.
    pub fn reset_value() -> (r: Self)
        ensures
            r.value == 0,
    {
        IchgCtrl { value: 0 }
    }

    /// The fast charge current code (bits 7..=0 of `value`).
    pub open spec fn spec_ichg(&self) -> FastChargeCurrent {
        FastChargeCurrent(get_field(self.value, 0, 8))
    }

    #[verifier::when_used_as_spec(spec_ichg)]
    pub fn ichg(&self) -> (r: FastChargeCurrent)
        ensures
            r == self.spec_ichg(),
            r == (FastChargeCurrent((self.value >> 0u8) & 0xffu8)),
    {
        proof {
            lemma_low_mask_values();
        }
        FastChargeCurrent(get_bits(self.value, 0, 8))
    }

    /// The register with its `ichg` field set to `value`; every other bit is kept.
    pub fn with_ichg(self, value: FastChargeCurrent) -> (r: Self)
        ensures
            r.value == put_field(self.value, 0, 8, value.0),
            r.value == (self.value & !(0xffu8 << 0u8)) | ((value.0 & 0xffu8) << 0u8),
            r.ichg() == value,
    {
        let code: u8 = value.0;
        proof {
            lemma_low_mask_values();
            lemma_get_put_same(self.value, 0, 8, code);
            if code <= 0xff {
                lemma_fits_mask(code, 8);
            }
        }
        IchgCtrl { value: put_bits(self.value, 0, 8, code) }
    }
}

/// Address of `PCHRGCTRL`.
pub const PCHRGCTRL_ADDRESS: u8 = 0x14;

/// Pre-charge control (`PCHRGCTRL`).
#[derive(Clone, Copy, Debug, PartialEq, Eq, Structural)]
pub struct PchrgCtrl {
    /// The byte at the register's address.
    pub value: u8,
}

impl PchrgCtrl {
    /// The value that a write of this register starts from: every bit clear.
    pub fn reset_value() -> (r: Self)
        ensures
            r.value == 0,
    {
        PchrgCtrl { value: 0 }
    }

    /// The step of the charge current codes (bit 7 of `value`).
    pub open spec fn spec_icharge_range(&self) -> IchargeRange {
        IchargeRange::spec_from_code(get_field(self.value, 7, 1))
    }

    #[verifier::when_used_as_spec(spec_icharge_range)]
    pub fn icharge_range(&self) -> (r: IchargeRange)
        ensures
            r == self.spec_icharge_range(),
            r == (IchargeRange::spec_from_code((self.value >> 7u8) & 0x1u8)),
    {
        proof {
            lemma_low_mask_values();
        }
        IchargeRange::from_code(get_bits(self.value, 7, 1))
    }

    /// The register with its `icharge_range` field set to `value`; every other bit is kept.
    pub fn with_icharge_range(self, value: IchargeRange) -> (r: Self)
        ensures
            r.value == put_field(self.value, 7, 1, value.spec_code()),
            r.value == (self.value & !(0x1u8 << 7u8)) | ((value.spec_code() & 0x1u8) << 7u8),
            r.icharge_range() == value,
            r.iprechg() == self.iprechg(),
    {
        let code: u8 = value.code();
        proof {
            lemma_low_mask_values();
            lemma_get_put_same(self.value, 7, 1, code);
            lemma_fits_mask(code, 1);
            lemma_get_put_other(self.value, 7, 1, code, 0, 5);
        }
        PchrgCtrl { value: put_bits(self.value, 7, 1, code) }
    }

    /// The pre-charge current code (bits 4..=0 of `value`).
    pub open spec fn spec_iprechg(&self) -> u8 {
        get_field(self.value, 0, 5)
    }

    #[verifier::when_used_as_spec(spec_iprechg)]
    pub fn iprechg(&self) -> (r: u8)
        ensures
            r == self.spec_iprechg(),
            r == ((self.value >> 0u8) & 0x1fu8),
    {
        proof {
            lemma_low_mask_values();
        }
        get_bits(self.value, 0, 5)
    }

    /// The register with its `iprechg` field set to `value`; every other bit is kept.
    pub fn with_iprechg(self, value: u8) -> (r: Self)
        ensures
            r.value == put_field(self.value, 0, 5, value),
            r.value == (self.value & !(0x1fu8 << 0u8)) | ((value & 0x1fu8) << 0u8),
            r.iprechg() == value & 0x1f,
            value <= 0x1f ==> r.iprechg() == value,
            r.icharge_range() == self.icharge_range(),
    {
        let code: u8 = value;
        proof {
            lemma_low_mask_values();
            lemma_get_put_same(self.value, 0, 5, code);
            if code <= 0x1f {
                lemma_fits_mask(code, 5);
            }
            lemma_get_put_other(self.value, 0, 5, code, 7, 1);
        }
        PchrgCtrl { value: put_bits(self.value, 0, 5, code) }
    }
}

/// Address of `BUVLO`.
pub const BUVLO_ADDRESS: u8 = 0x16;

/// Battery undervoltage lockout (`BUVLO`).
#[derive(Clone, Copy, Debug, PartialEq, Eq, Structural)]
pub struct Buvlo {
    /// The byte at the register's address.
    pub value: u8,
}

impl Buvlo {
    /// The value that a write of this register starts from: every bit clear.
    pub fn reset_value() -> (r: Self)
        ensures
            r.value == 0,
    {
        Buvlo { value: 0 }
    }

    /// The battery undervoltage lockout threshold (bits 2..=0 of `value`).
    pub open spec fn spec_buvlo_threshold(&self) -> BuvloThreshold {
        BuvloThreshold::spec_from_code(get_field(self.value, 0, 3))
    }

    #[verifier::when_used_as_spec(spec_buvlo_threshold)]
    pub fn buvlo_threshold(&self) -> (r: BuvloThreshold)
        ensures
            r == self.spec_buvlo_threshold(),
            r == (BuvloThreshold::spec_from_code((self.value >> 0u8) & 0x7u8)),
    {
        proof {
            lemma_low_mask_values();
        }
        BuvloThreshold::from_code(get_bits(self.value, 0, 3))
    }

    /// The register with its `buvlo_threshold` field set to `value`; every other bit is kept.
    pub fn with_buvlo_threshold(self, value: BuvloThreshold) -> (r: Self)
        ensures
            r.value == put_field(self.value, 0, 3, value.spec_code()),
            r.value == (self.value & !(0x7u8 << 0u8)) | ((value.spec_code() & 0x7u8) << 0u8),
            r.buvlo_threshold() == value,
    {
        let code: u8 = value.code();
        proof {
            lemma_low_mask_values();
            lemma_get_put_same(self.value, 0, 3, code);
            lemma_fits_mask(code, 3);
        }
        Buvlo { value: put_bits(self.value, 0, 3, code) }
    }
}

/// Address of `ILIMCTRL`.
pub const ILIMCTRL_ADDRESS: u8 = 0x19;

/// Input current limit (`ILIMCTRL`).
#[derive(Clone, Copy, Debug, PartialEq, Eq, Structural)]
pub struct IlimCtrl {
    /// The byte at the register's address.
    pub value: u8,
}

impl IlimCtrl {
    /// The value that a write of this register starts from: every bit clear.
    pub fn reset_value() -> (r: Self)
        ensures
            r.value == 0,
    {
        IlimCtrl { value: 0 }
    }

    /// The input current limit (bits 2..=0 of `value`).
    pub open spec fn spec_ilim(&self) -> CurrentLimit {
        CurrentLimit::spec_from_code(get_field(self.value, 0, 3))
    }

    #[verifier::when_used_as_spec(spec_ilim)]
    pub fn ilim(&self) -> (r: CurrentLimit)
        ensures
            r == self.spec_ilim(),
            r == (CurrentLimit::spec_from_code((self.value >> 0u8) & 0x7u8)),
    {
        proof {
            lemma_low_mask_values();
        }
        CurrentLimit::from_code(get_bits(self.value, 0, 3))
    }

    /// The register with its `ilim` field set to `value`; every other bit is kept.
    pub fn with_ilim(self, value: CurrentLimit) -> (r: Self)
        ensures
            r.value == put_field(self.value, 0, 3, value.spec_code()),
            r.value == (self.value & !(0x7u8 << 0u8)) | ((value.spec_code() & 0x7u8) << 0u8),
            r.ilim() == value,
    {
        let code: u8 = value.code();
        proof {
            lemma_low_mask_values();
            lemma_get_put_same(self.value, 0, 3, code);
            lemma_fits_mask(code, 3);
        }
        IlimCtrl { value: put_bits(self.value, 0, 3, code) }
    }
}

/// Address of `LDOCTRL`.
pub const LDOCTRL_ADDRESS: u8 = 0x1D;

/// LDO / load switch control (`LDOCTRL`).
#[derive(Clone, Copy, Debug, PartialEq, Eq, Structural)]
pub struct LdoCtrl {
    /// The byte at the register's address.
    pub value: u8,
}

impl LdoCtrl {
    /// The value that a write of this register starts from: every bit clear.
    pub fn reset_value() -> (r: Self)
        ensures
            r.value == 0,
    {
        LdoCtrl { value: 0 }
    }

    /// Whether the LDO / load switch output is on (bit 7 of `value`).
    pub open spec fn spec_en_ls_ldo(&self) -> bool {
        get_field(self.value, 7, 1) == 1
    }

    #[verifier::when_used_as_spec(spec_en_ls_ldo)]
    pub fn en_ls_ldo(&self) -> (r: bool)
        ensures
            r == self.spec_en_ls_ldo(),
            r == ((self.value >> 7u8) & 0x1u8 == 1),
    {
        proof {
            lemma_low_mask_values();
        }
        get_bits(self.value, 7, 1) == 1
    }

    /// The register with its `en_ls_ldo` field set to `value`; every other bit is kept.
    pub fn with_en_ls_ldo(self, value: bool) -> (r: Self)
        ensures
            r.value == put_field(self.value, 7, 1, (if value {
                    1u8
                } else {
                    0u8
                })),
            r.value == (self.value & !(0x1u8 << 7u8)) | (((if value {
                    1u8
                } else {
                    0u8
                }) & 0x1u8) << 7u8),
            r.en_ls_ldo() == value,
            r.vldo() == self.vldo(),
            r.ldo_switch_config() == self.ldo_switch_config(),
    {
        let code: u8 = if value {
            1u8
        } else {
            0u8
        };
        proof {
            lemma_low_mask_values();
            lemma_get_put_same(self.value, 7, 1, code);
            lemma_fits_mask(code, 1);
            lemma_get_put_other(self.value, 7, 1, code, 2, 5);
            lemma_get_put_other(self.value, 7, 1, code, 1, 1);
        }
        LdoCtrl { value: put_bits(self.value, 7, 1, code) }
    }

    /// The LDO output voltage code (bits 6..=2 of `value`).
    pub open spec fn spec_vldo(&self) -> LDOOutputVoltage {
        LDOOutputVoltage(get_field(self.value, 2, 5))
    }

    #[verifier::when_used_as_spec(spec_vldo)]
    pub fn vldo(&self) -> (r: LDOOutputVoltage)
        ensures
            r == self.spec_vldo(),
            r == (LDOOutputVoltage((self.value >> 2u8) & 0x1fu8)),
    {
        proof {
            lemma_low_mask_values();
        }
        LDOOutputVoltage(get_bits(self.value, 2, 5))
    }

    /// The register with its `vldo` field set to `value`; every other bit is kept.
    pub fn with_vldo(self, value: LDOOutputVoltage) -> (r: Self)
        ensures
            r.value == put_field(self.value, 2, 5, value.0),
            r.value == (self.value & !(0x1fu8 << 2u8)) | ((value.0 & 0x1fu8) << 2u8),
            r.vldo() == LDOOutputVoltage(value.0 & 0x1f),
            value.0 <= 0x1f ==> r.vldo() == value,
            r.en_ls_ldo() == self.en_ls_ldo(),
            r.ldo_switch_config() == self.ldo_switch_config(),
    {
        let code: u8 = value.0;
        proof {
            lemma_low_mask_values();
            lemma_get_put_same(self.value, 2, 5, code);
            if code <= 0x1f {
                lemma_fits_mask(code, 5);
            }
            lemma_get_put_other(self.value, 2, 5, code, 7, 1);
            lemma_get_put_other(self.value, 2, 5, code, 1, 1);
        }
        LdoCtrl { value: put_bits(self.value, 2, 5, code) }
    }

    /// Whether the output is a regulator or a load switch (bit 1 of `value`).
    pub open spec fn spec_ldo_switch_config(&self) -> LdoSwitchConfig {
        LdoSwitchConfig::spec_from_code(get_field(self.value, 1, 1))
    }

    #[verifier::when_used_as_spec(spec_ldo_switch_config)]
    pub fn ldo_switch_config(&self) -> (r: LdoSwitchConfig)
        ensures
            r == self.spec_ldo_switch_config(),
            r == (LdoSwitchConfig::spec_from_code((self.value >> 1u8) & 0x1u8)),
    {
        proof {
            lemma_low_mask_values();
        }
        LdoSwitchConfig::from_code(get_bits(self.value, 1, 1))
    }

    /// The register with its `ldo_switch_config` field set to `value`; every other bit is kept.
    pub fn with_ldo_switch_config(self, value: LdoSwitchConfig) -> (r: Self)
        ensures
            r.value == put_field(self.value, 1, 1, value.spec_code()),
            r.value == (self.value & !(0x1u8 << 1u8)) | ((value.spec_code() & 0x1u8) << 1u8),
            r.ldo_switch_config() == value,
            r.en_ls_ldo() == self.en_ls_ldo(),
            r.vldo() == self.vldo(),
    {
        let code: u8 = value.code();
        proof {
            lemma_low_mask_values();
            lemma_get_put_same(self.value, 1, 1, code);
            lemma_fits_mask(code, 1);
            lemma_get_put_other(self.value, 1, 1, code, 7, 1);
            lemma_get_put_other(self.value, 1, 1, code, 2, 5);
        }
        LdoCtrl { value: put_bits(self.value, 1, 1, code) }
    }
}

/// Address of `ICCTRL0`, the first of the three bytes of `IcCtrl`.
pub const ICCTRL_ADDRESS: u8 = 0x35;

/// Device control (`ICCTRL0` to `ICCTRL2`).
#[derive(Clone, Copy, Debug, PartialEq, Eq, Structural)]
pub struct IcCtrl {
    /// `ICCTRL0`.
    pub ctrl0: u8,
    /// `ICCTRL1`.
    pub ctrl1: u8,
    /// `ICCTRL2`.
    pub ctrl2: u8,
}

impl IcCtrl {
    /// The value that a write of this register starts from: every bit clear.
    pub fn reset_value() -> (r: Self)
        ensures
            r.ctrl0 == 0,
            r.ctrl1 == 0,
            r.ctrl2 == 0,
    {
        IcCtrl { ctrl0: 0, ctrl1: 0, ctrl2: 0 }
    }

    /// The register from its 3 bytes, in the order of their addresses.
    pub fn from_bytes(bytes: [u8; 3]) -> (r: Self)
        ensures
            r.ctrl0 == bytes@[0],
            r.ctrl1 == bytes@[1],
            r.ctrl2 == bytes@[2],
    {
        IcCtrl { ctrl0: bytes[0], ctrl1: bytes[1], ctrl2: bytes[2] }
    }

    /// The 3 bytes of the register, in the order of their addresses.
    pub fn to_bytes(&self) -> (r: [u8; 3])
        ensures
            r@ == seq![self.ctrl0, self.ctrl1, self.ctrl2],
    {
        [self.ctrl0, self.ctrl1, self.ctrl2]
    }

    /// What powers PMID (bits 1..=0 of `ctrl1`).
    pub open spec fn spec_pmid_mode(&self) -> PmidMode {
        PmidMode::spec_from_code(get_field(self.ctrl1, 0, 2))
    }

    #[verifier::when_used_as_spec(spec_pmid_mode)]
    pub fn pmid_mode(&self) -> (r: PmidMode)
        ensures
            r == self.spec_pmid_mode(),
            r == (PmidMode::spec_from_code((self.ctrl1 >> 0u8) & 0x3u8)),
    {
        proof {
            lemma_low_mask_values();
        }
        PmidMode::from_code(get_bits(self.ctrl1, 0, 2))
    }

    /// The register with its `pmid_mode` field set to `value`; every other bit is kept.
    pub fn with_pmid_mode(self, value: PmidMode) -> (r: Self)
        ensures
            r.ctrl1 == put_field(self.ctrl1, 0, 2, value.spec_code()),
            r.ctrl1 == (self.ctrl1 & !(0x3u8 << 0u8)) | ((value.spec_code() & 0x3u8) << 0u8),
            r.ctrl0 == self.ctrl0,
            r.ctrl2 == self.ctrl2,
            r.pmid_mode() == value,
            r.pmid_reg_ctrl() == self.pmid_reg_ctrl(),
    {
        let code: u8 = value.code();
        proof {
            lemma_low_mask_values();
            lemma_get_put_same(self.ctrl1, 0, 2, code);
            lemma_fits_mask(code, 2);
        }
        IcCtrl { ctrl0: self.ctrl0, ctrl1: put_bits(self.ctrl1, 0, 2, code), ctrl2: self.ctrl2 }
    }

    /// The regulation target of PMID (bits 2..=0 of `ctrl2`).
    pub open spec fn spec_pmid_reg_ctrl(&self) -> PmidRegCtrl {
        PmidRegCtrl::spec_from_code(get_field(self.ctrl2, 0, 3))
    }

    #[verifier::when_used_as_spec(spec_pmid_reg_ctrl)]
    pub fn pmid_reg_ctrl(&self) -> (r: PmidRegCtrl)
        ensures
            r == self.spec_pmid_reg_ctrl(),
            r == (PmidRegCtrl::spec_from_code((self.ctrl2 >> 0u8) & 0x7u8)),
    {
        proof {
            lemma_low_mask_values();
        }
        PmidRegCtrl::from_code(get_bits(self.ctrl2, 0, 3))
    }

    /// The register with its `pmid_reg_ctrl` field set to `value`; every other bit is kept.
    pub fn with_pmid_reg_ctrl(self, value: PmidRegCtrl) -> (r: Self)
        ensures
            r.ctrl2 == put_field(self.ctrl2, 0, 3, value.spec_code()),
            r.ctrl2 == (self.ctrl2 & !(0x7u8 << 0u8)) | ((value.spec_code() & 0x7u8) << 0u8),
            r.ctrl0 == self.ctrl0,
            r.ctrl1 == self.ctrl1,
            r.pmid_reg_ctrl() == value,
            r.pmid_mode() == self.pmid_mode(),
    {
        let code: u8 = value.code();
        proof {
            lemma_low_mask_values();
            lemma_get_put_same(self.ctrl2, 0, 3, code);
            lemma_fits_mask(code, 3);
        }
        IcCtrl { ctrl0: self.ctrl0, ctrl1: self.ctrl1, ctrl2: put_bits(self.ctrl2, 0, 3, code) }
    }
}

/// Address of `ADCCTRL0`, the first of the two bytes of `AdcCtrl`.
pub const ADCCTRL_ADDRESS: u8 = 0x40;

/// ADC control (`ADCCTRL0` and `ADCCTRL1`).
#[derive(Clone, Copy, Debug, PartialEq, Eq, Structural)]
pub struct AdcCtrl {
    /// `ADCCTRL0`.
    pub ctrl0: u8,
    /// `ADCCTRL1`.
    pub ctrl1: u8,
}

impl AdcCtrl {
    /// The value that a write of this register starts from: every bit clear.
    pub fn reset_value() -> (r: Self)
        ensures
            r.ctrl0 == 0,
            r.ctrl1 == 0,
    {
        AdcCtrl { ctrl0: 0, ctrl1: 0 }
    }

    /// The register from its 2 bytes, in the order of their addresses.
    pub fn from_bytes(bytes: [u8; 2]) -> (r: Self)
        ensures
            r.ctrl0 == bytes@[0],
            r.ctrl1 == bytes@[1],
    {
        AdcCtrl { ctrl0: bytes[0], ctrl1: bytes[1] }
    }

    /// The 2 bytes of the register, in the order of their addresses.
    pub fn to_bytes(&self) -> (r: [u8; 2])
        ensures
            r@ == seq![self.ctrl0, self.ctrl1],
    {
        [self.ctrl0, self.ctrl1]
    }

    /// How often the ADC converts (bits 7..=6 of `ctrl0`).
    pub open spec fn spec_adc_read_rate(&self) -> AdcReadRate {
        AdcReadRate::spec_from_code(get_field(self.ctrl0, 6, 2))
    }

    #[verifier::when_used_as_spec(spec_adc_read_rate)]
    pub fn adc_read_rate(&self) -> (r: AdcReadRate)
        ensures
            r == self.spec_adc_read_rate(),
            r == (AdcReadRate::spec_from_code((self.ctrl0 >> 6u8) & 0x3u8)),
    {
        proof {
            lemma_low_mask_values();
        }
        AdcReadRate::from_code(get_bits(self.ctrl0, 6, 2))
    }

    /// The register with its `adc_read_rate` field set to `value`; every other bit is kept.
    pub fn with_adc_read_rate(self, value: AdcReadRate) -> (r: Self)
        ensures
            r.ctrl0 == put_field(self.ctrl0, 6, 2, value.spec_code()),
            r.ctrl0 == (self.ctrl0 & !(0x3u8 << 6u8)) | ((value.spec_code() & 0x3u8) << 6u8),
            r.ctrl1 == self.ctrl1,
            r.adc_read_rate() == value,
            r.adc_conv_start() == self.adc_conv_start(),
            r.adc_conv_speed() == self.adc_conv_speed(),
            r.adc_comp1() == self.adc_comp1(),
            r.adc_comp2() == self.adc_comp2(),
            r.adc_comp3() == self.adc_comp3(),
    {
        let code: u8 = value.code();
        proof {
            lemma_low_mask_values();
            lemma_get_put_same(self.ctrl0, 6, 2, code);
            lemma_fits_mask(code, 2);
            lemma_get_put_other(self.ctrl0, 6, 2, code, 5, 1);
            lemma_get_put_other(self.ctrl0, 6, 2, code, 3, 2);
            lemma_get_put_other(self.ctrl0, 6, 2, code, 0, 3);
        }
        AdcCtrl { ctrl0: put_bits(self.ctrl0, 6, 2, code), ctrl1: self.ctrl1 }
    }

    /// Whether a conversion is started (bit 5 of `ctrl0`).
    pub open spec fn spec_adc_conv_start(&self) -> bool {
        get_field(self.ctrl0, 5, 1) == 1
    }

    #[verifier::when_used_as_spec(spec_adc_conv_start)]
    pub fn adc_conv_start(&self) -> (r: bool)
        ensures
            r == self.spec_adc_conv_start(),
            r == ((self.ctrl0 >> 5u8) & 0x1u8 == 1),
    {
        proof {
            lemma_low_mask_values();
        }
        get_bits(self.ctrl0, 5, 1) == 1
    }

    /// The register with its `adc_conv_start` field set to `value`; every other bit is kept.
    pub fn with_adc_conv_start(self, value: bool) -> (r: Self)
        ensures
            r.ctrl0 == put_field(self.ctrl0, 5, 1, (if value {
                    1u8
                } else {
                    0u8
                })),
            r.ctrl0 == (self.ctrl0 & !(0x1u8 << 5u8)) | (((if value {
                    1u8
                } else {
                    0u8
                }) & 0x1u8) << 5u8),
            r.ctrl1 == self.ctrl1,
            r.adc_conv_start() == value,
            r.adc_read_rate() == self.adc_read_rate(),
            r.adc_conv_speed() == self.adc_conv_speed(),
            r.adc_comp1() == self.adc_comp1(),
            r.adc_comp2() == self.adc_comp2(),
            r.adc_comp3() == self.adc_comp3(),
    {
        let code: u8 = if value {
            1u8
        } else {
            0u8
        };
        proof {
            lemma_low_mask_values();
            lemma_get_put_same(self.ctrl0, 5, 1, code);
            lemma_fits_mask(code, 1);
            lemma_get_put_other(self.ctrl0, 5, 1, code, 6, 2);
            lemma_get_put_other(self.ctrl0, 5, 1, code, 3, 2);
            lemma_get_put_other(self.ctrl0, 5, 1, code, 0, 3);
        }
        AdcCtrl { ctrl0: put_bits(self.ctrl0, 5, 1, code), ctrl1: self.ctrl1 }
    }

    /// The conversion speed code (bits 4..=3 of `ctrl0`).
    pub open spec fn spec_adc_conv_speed(&self) -> u8 {
        get_field(self.ctrl0, 3, 2)
    }

    #[verifier::when_used_as_spec(spec_adc_conv_speed)]
    pub fn adc_conv_speed(&self) -> (r: u8)
        ensures
            r == self.spec_adc_conv_speed(),
            r == ((self.ctrl0 >> 3u8) & 0x3u8),
    {
        proof {
            lemma_low_mask_values();
        }
        get_bits(self.ctrl0, 3, 2)
    }

    /// The register with its `adc_conv_speed` field set to `value`; every other bit is kept.
    pub fn with_adc_conv_speed(self, value: u8) -> (r: Self)
        ensures
            r.ctrl0 == put_field(self.ctrl0, 3, 2, value),
            r.ctrl0 == (self.ctrl0 & !(0x3u8 << 3u8)) | ((value & 0x3u8) << 3u8),
            r.ctrl1 == self.ctrl1,
            r.adc_conv_speed() == value & 0x3,
            value <= 0x3 ==> r.adc_conv_speed() == value,
            r.adc_read_rate() == self.adc_read_rate(),
            r.adc_conv_start() == self.adc_conv_start(),
            r.adc_comp1() == self.adc_comp1(),
            r.adc_comp2() == self.adc_comp2(),
            r.adc_comp3() == self.adc_comp3(),
    {
        let code: u8 = value;
        proof {
            lemma_low_mask_values();
            lemma_get_put_same(self.ctrl0, 3, 2, code);
            if code <= 0x3 {
                lemma_fits_mask(code, 2);
            }
            lemma_get_put_other(self.ctrl0, 3, 2, code, 6, 2);
            lemma_get_put_other(self.ctrl0, 3, 2, code, 5, 1);
            lemma_get_put_other(self.ctrl0, 3, 2, code, 0, 3);
        }
        AdcCtrl { ctrl0: put_bits(self.ctrl0, 3, 2, code), ctrl1: self.ctrl1 }
    }

    /// The channel of the first comparator (bits 2..=0 of `ctrl0`).
    pub open spec fn spec_adc_comp1(&self) -> AdcCompChannel {
        AdcCompChannel::spec_from_code(get_field(self.ctrl0, 0, 3))
    }

    #[verifier::when_used_as_spec(spec_adc_comp1)]
    pub fn adc_comp1(&self) -> (r: AdcCompChannel)
        ensures
            r == self.spec_adc_comp1(),
            r == (AdcCompChannel::spec_from_code((self.ctrl0 >> 0u8) & 0x7u8)),
    {
        proof {
            lemma_low_mask_values();
        }
        AdcCompChannel::from_code(get_bits(self.ctrl0, 0, 3))
    }

    /// The register with its `adc_comp1` field set to `value`; every other bit is kept.
    pub fn with_adc_comp1(self, value: AdcCompChannel) -> (r: Self)
        ensures
            r.ctrl0 == put_field(self.ctrl0, 0, 3, value.spec_code()),
            r.ctrl0 == (self.ctrl0 & !(0x7u8 << 0u8)) | ((value.spec_code() & 0x7u8) << 0u8),
            r.ctrl1 == self.ctrl1,
            r.adc_comp1() == value,
            r.adc_read_rate() == self.adc_read_rate(),
            r.adc_conv_start() == self.adc_conv_start(),
            r.adc_conv_speed() == self.adc_conv_speed(),
            r.adc_comp2() == self.adc_comp2(),
            r.adc_comp3() == self.adc_comp3(),
    {
        let code: u8 = value.code();
        proof {
            lemma_low_mask_values();
            lemma_get_put_same(self.ctrl0, 0, 3, code);
            lemma_fits_mask(code, 3);
            lemma_get_put_other(self.ctrl0, 0, 3, code, 6, 2);
            lemma_get_put_other(self.ctrl0, 0, 3, code, 5, 1);
            lemma_get_put_other(self.ctrl0, 0, 3, code, 3, 2);
        }
        AdcCtrl { ctrl0: put_bits(self.ctrl0, 0, 3, code), ctrl1: self.ctrl1 }
    }

    /// The channel of the second comparator (bits 7..=5 of `ctrl1`).
    pub open spec fn spec_adc_comp2(&self) -> AdcCompChannel {
        AdcCompChannel::spec_from_code(get_field(self.ctrl1, 5, 3))
    }

    #[verifier::when_used_as_spec(spec_adc_comp2)]
    pub fn adc_comp2(&self) -> (r: AdcCompChannel)
        ensures
            r == self.spec_adc_comp2(),
            r == (AdcCompChannel::spec_from_code((self.ctrl1 >> 5u8) & 0x7u8)),
    {
        proof {
            lemma_low_mask_values();
        }
        AdcCompChannel::from_code(get_bits(self.ctrl1, 5, 3))
    }

    /// The register with its `adc_comp2` field set to `value`; every other bit is kept.
    pub fn with_adc_comp2(self, value: AdcCompChannel) -> (r: Self)
        ensures
            r.ctrl1 == put_field(self.ctrl1, 5, 3, value.spec_code()),
            r.ctrl1 == (self.ctrl1 & !(0x7u8 << 5u8)) | ((value.spec_code() & 0x7u8) << 5u8),
            r.ctrl0 == self.ctrl0,
            r.adc_comp2() == value,
            r.adc_read_rate() == self.adc_read_rate(),
            r.adc_conv_start() == self.adc_conv_start(),
            r.adc_conv_speed() == self.adc_conv_speed(),
            r.adc_comp1() == self.adc_comp1(),
            r.adc_comp3() == self.adc_comp3(),
    {
        let code: u8 = value.code();
        proof {
            lemma_low_mask_values();
            lemma_get_put_same(self.ctrl1, 5, 3, code);
            lemma_fits_mask(code, 3);
            lemma_get_put_other(self.ctrl1, 5, 3, code, 2, 3);
        }
        AdcCtrl { ctrl0: self.ctrl0, ctrl1: put_bits(self.ctrl1, 5, 3, code) }
    }

    /// The channel of the third comparator (bits 4..=2 of `ctrl1`).
    pub open spec fn spec_adc_comp3(&self) -> AdcCompChannel {
        AdcCompChannel::spec_from_code(get_field(self.ctrl1, 2, 3))
    }

    #[verifier::when_used_as_spec(spec_adc_comp3)]
    pub fn adc_comp3(&self) -> (r: AdcCompChannel)
        ensures
            r == self.spec_adc_comp3(),
            r == (AdcCompChannel::spec_from_code((self.ctrl1 >> 2u8) & 0x7u8)),
    {
        proof {
            lemma_low_mask_values();
        }
        AdcCompChannel::from_code(get_bits(self.ctrl1, 2, 3))
    }

    /// The register with its `adc_comp3` field set to `value`; every other bit is kept.
    pub fn with_adc_comp3(self, value: AdcCompChannel) -> (r: Self)
        ensures
            r.ctrl1 == put_field(self.ctrl1, 2, 3, value.spec_code()),
            r.ctrl1 == (self.ctrl1 & !(0x7u8 << 2u8)) | ((value.spec_code() & 0x7u8) << 2u8),
            r.ctrl0 == self.ctrl0,
            r.adc_comp3() == value,
            r.adc_read_rate() == self.adc_read_rate(),
            r.adc_conv_start() == self.adc_conv_start(),
            r.adc_conv_speed() == self.adc_conv_speed(),
            r.adc_comp1() == self.adc_comp1(),
            r.adc_comp2() == self.adc_comp2(),
    {
        let code: u8 = value.code();
        proof {
            lemma_low_mask_values();
            lemma_get_put_same(self.ctrl1, 2, 3, code);
            lemma_fits_mask(code, 3);
            lemma_get_put_other(self.ctrl1, 2, 3, code, 5, 3);
        }
        AdcCtrl { ctrl0: self.ctrl0, ctrl1: put_bits(self.ctrl1, 2, 3, code) }
    }
}

/// Address of `ADC_READ_EN`.
pub const ADC_READ_EN_ADDRESS: u8 = 0x58;

/// The channels that the ADC converts (`ADC_READ_EN`).
#[derive(Clone, Copy, Debug, PartialEq, Eq, Structural)]
pub struct AdcReadEn {
    /// The byte at the register's address.
    pub value: u8,
}

impl AdcReadEn {
    /// The value that a write of this register starts from: every bit clear.
    pub fn reset_value() -> (r: Self)
        ensures
            r.value == 0,
    {
        AdcReadEn { value: 0 }
    }

    /// Whether the input current is converted (bit 7 of `value`).
    pub open spec fn spec_iin(&self) -> bool {
        get_field(self.value, 7, 1) == 1
    }

    #[verifier::when_used_as_spec(spec_iin)]
    pub fn iin(&self) -> (r: bool)
        ensures
            r == self.spec_iin(),
            r == ((self.value >> 7u8) & 0x1u8 == 1),
    {
        proof {
            lemma_low_mask_values();
        }
        get_bits(self.value, 7, 1) == 1
    }

    /// The register with its `iin` field set to `value`; every other bit is kept.
    pub fn with_iin(self, value: bool) -> (r: Self)
        ensures
            r.value == put_field(self.value, 7, 1, (if value {
                    1u8
                } else {
                    0u8
                })),
            r.value == (self.value & !(0x1u8 << 7u8)) | (((if value {
                    1u8
                } else {
                    0u8
                }) & 0x1u8) << 7u8),
            r.iin() == value,
            r.pmid() == self.pmid(),
            r.ichg() == self.ichg(),
            r.vin() == self.vin(),
            r.vbat() == self.vbat(),
            r.ts() == self.ts(),
            r.adcin() == self.adcin(),
    {
        let code: u8 = if value {
            1u8
        } else {
            0u8
        };
        proof {
            lemma_low_mask_values();
            lemma_get_put_same(self.value, 7, 1, code);
            lemma_fits_mask(code, 1);
            lemma_get_put_other(self.value, 7, 1, code, 6, 1);
            lemma_get_put_other(self.value, 7, 1, code, 5, 1);
            lemma_get_put_other(self.value, 7, 1, code, 4, 1);
            lemma_get_put_other(self.value, 7, 1, code, 3, 1);
            lemma_get_put_other(self.value, 7, 1, code, 2, 1);
            lemma_get_put_other(self.value, 7, 1, code, 1, 1);
        }
        AdcReadEn { value: put_bits(self.value, 7, 1, code) }
    }

    /// Whether the PMID voltage is converted (bit 6 of `value`).
    pub open spec fn spec_pmid(&self) -> bool {
        get_field(self.value, 6, 1) == 1
    }

    #[verifier::when_used_as_spec(spec_pmid)]
    pub fn pmid(&self) -> (r: bool)
        ensures
            r == self.spec_pmid(),
            r == ((self.value >> 6u8) & 0x1u8 == 1),
    {
        proof {
            lemma_low_mask_values();
        }
        get_bits(self.value, 6, 1) == 1
    }

    /// The register with its `pmid` field set to `value`; every other bit is kept.
    pub fn with_pmid(self, value: bool) -> (r: Self)
        ensures
            r.value == put_field(self.value, 6, 1, (if value {
                    1u8
                } else {
                    0u8
                })),
            r.value == (self.value & !(0x1u8 << 6u8)) | (((if value {
                    1u8
                } else {
                    0u8
                }) & 0x1u8) << 6u8),
            r.pmid() == value,
            r.iin() == self.iin(),
            r.ichg() == self.ichg(),
            r.vin() == self.vin(),
            r.vbat() == self.vbat(),
            r.ts() == self.ts(),
            r.adcin() == self.adcin(),
    {
        let code: u8 = if value {
            1u8
        } else {
            0u8
        };
        proof {
            lemma_low_mask_values();
            lemma_get_put_same(self.value, 6, 1, code);
            lemma_fits_mask(code, 1);
            lemma_get_put_other(self.value, 6, 1, code, 7, 1);
            lemma_get_put_other(self.value, 6, 1, code, 5, 1);
            lemma_get_put_other(self.value, 6, 1, code, 4, 1);
            lemma_get_put_other(self.value, 6, 1, code, 3, 1);
            lemma_get_put_other(self.value, 6, 1, code, 2, 1);
            lemma_get_put_other(self.value, 6, 1, code, 1, 1);
        }
        AdcReadEn { value: put_bits(self.value, 6, 1, code) }
    }

    /// Whether the charge current is converted (bit 5 of `value`).
    pub open spec fn spec_ichg(&self) -> bool {
        get_field(self.value, 5, 1) == 1
    }

    #[verifier::when_used_as_spec(spec_ichg)]
    pub fn ichg(&self) -> (r: bool)
        ensures
            r == self.spec_ichg(),
            r == ((self.value >> 5u8) & 0x1u8 == 1),
    {
        proof {
            lemma_low_mask_values();
        }
        get_bits(self.value, 5, 1) == 1
    }

    /// The register with its `ichg` field set to `value`; every other bit is kept.
    pub fn with_ichg(self, value: bool) -> (r: Self)
        ensures
            r.value == put_field(self.value, 5, 1, (if value {
                    1u8
                } else {
                    0u8
                })),
            r.value == (self.value & !(0x1u8 << 5u8)) | (((if value {
                    1u8
                } else {
                    0u8
                }) & 0x1u8) << 5u8),
            r.ichg() == value,
            r.iin() == self.iin(),
            r.pmid() == self.pmid(),
            r.vin() == self.vin(),
            r.vbat() == self.vbat(),
            r.ts() == self.ts(),
            r.adcin() == self.adcin(),
    {
        let code: u8 = if value {
            1u8
        } else {
            0u8
        };
        proof {
            lemma_low_mask_values();
            lemma_get_put_same(self.value, 5, 1, code);
            lemma_fits_mask(code, 1);
            lemma_get_put_other(self.value, 5, 1, code, 7, 1);
            lemma_get_put_other(self.value, 5, 1, code, 6, 1);
            lemma_get_put_other(self.value, 5, 1, code, 4, 1);
            lemma_get_put_other(self.value, 5, 1, code, 3, 1);
            lemma_get_put_other(self.value, 5, 1, code, 2, 1);
            lemma_get_put_other(self.value, 5, 1, code, 1, 1);
        }
        AdcReadEn { value: put_bits(self.value, 5, 1, code) }
    }

    /// Whether the input voltage is converted (bit 4 of `value`).
    pub open spec fn spec_vin(&self) -> bool {
        get_field(self.value, 4, 1) == 1
    }

    #[verifier::when_used_as_spec(spec_vin)]
    pub fn vin(&self) -> (r: bool)
        ensures
            r == self.spec_vin(),
            r == ((self.value >> 4u8) & 0x1u8 == 1),
    {
        proof {
            lemma_low_mask_values();
        }
        get_bits(self.value, 4, 1) == 1
    }

    /// The register with its `vin` field set to `value`; every other bit is kept.
    pub fn with_vin(self, value: bool) -> (r: Self)
        ensures
            r.value == put_field(self.value, 4, 1, (if value {
                    1u8
                } else {
                    0u8
                })),
            r.value == (self.value & !(0x1u8 << 4u8)) | (((if value {
                    1u8
                } else {
                    0u8
                }) & 0x1u8) << 4u8),
            r.vin() == value,
            r.iin() == self.iin(),
            r.pmid() == self.pmid(),
            r.ichg() == self.ichg(),
            r.vbat() == self.vbat(),
            r.ts() == self.ts(),
            r.adcin() == self.adcin(),
    {
        let code: u8 = if value {
            1u8
        } else {
            0u8
        };
        proof {
            lemma_low_mask_values();
            lemma_get_put_same(self.value, 4, 1, code);
            lemma_fits_mask(code, 1);
            lemma_get_put_other(self.value, 4, 1, code, 7, 1);
            lemma_get_put_other(self.value, 4, 1, code, 6, 1);
            lemma_get_put_other(self.value, 4, 1, code, 5, 1);
            lemma_get_put_other(self.value, 4, 1, code, 3, 1);
            lemma_get_put_other(self.value, 4, 1, code, 2, 1);
            lemma_get_put_other(self.value, 4, 1, code, 1, 1);
        }
        AdcReadEn { value: put_bits(self.value, 4, 1, code) }
    }

    /// Whether the battery voltage is converted (bit 3 of `value`).
    pub open spec fn spec_vbat(&self) -> bool {
        get_field(self.value, 3, 1) == 1
    }

    #[verifier::when_used_as_spec(spec_vbat)]
    pub fn vbat(&self) -> (r: bool)
        ensures
            r == self.spec_vbat(),
            r == ((self.value >> 3u8) & 0x1u8 == 1),
    {
        proof {
            lemma_low_mask_values();
        }
        get_bits(self.value, 3, 1) == 1
    }

    /// The register with its `vbat` field set to `value`; every other bit is kept.
    pub fn with_vbat(self, value: bool) -> (r: Self)
        ensures
            r.value == put_field(self.value, 3, 1, (if value {
                    1u8
                } else {
                    0u8
                })),
            r.value == (self.value & !(0x1u8 << 3u8)) | (((if value {
                    1u8
                } else {
                    0u8
                }) & 0x1u8) << 3u8),
            r.vbat() == value,
            r.iin() == self.iin(),
            r.pmid() == self.pmid(),
            r.ichg() == self.ichg(),
            r.vin() == self.vin(),
            r.ts() == self.ts(),
            r.adcin() == self.adcin(),
    {
        let code: u8 = if value {
            1u8
        } else {
            0u8
        };
        proof {
            lemma_low_mask_values();
            lemma_get_put_same(self.value, 3, 1, code);
            lemma_fits_mask(code, 1);
            lemma_get_put_other(self.value, 3, 1, code, 7, 1);
            lemma_get_put_other(self.value, 3, 1, code, 6, 1);
            lemma_get_put_other(self.value, 3, 1, code, 5, 1);
            lemma_get_put_other(self.value, 3, 1, code, 4, 1);
            lemma_get_put_other(self.value, 3, 1, code, 2, 1);
            lemma_get_put_other(self.value, 3, 1, code, 1, 1);
        }
        AdcReadEn { value: put_bits(self.value, 3, 1, code) }
    }

    /// Whether the TS pin voltage is converted (bit 2 of `value`).
    pub open spec fn spec_ts(&self) -> bool {
        get_field(self.value, 2, 1) == 1
    }

    #[verifier::when_used_as_spec(spec_ts)]
    pub fn ts(&self) -> (r: bool)
        ensures
            r == self.spec_ts(),
            r == ((self.value >> 2u8) & 0x1u8 == 1),
    {
        proof {
            lemma_low_mask_values();
        }
        get_bits(self.value, 2, 1) == 1
    }

    /// The register with its `ts` field set to `value`; every other bit is kept.
    pub fn with_ts(self, value: bool) -> (r: Self)
        ensures
            r.value == put_field(self.value, 2, 1, (if value {
                    1u8
                } else {
                    0u8
                })),
            r.value == (self.value & !(0x1u8 << 2u8)) | (((if value {
                    1u8
                } else {
                    0u8
                }) & 0x1u8) << 2u8),
            r.ts() == value,
            r.iin() == self.iin(),
            r.pmid() == self.pmid(),
            r.ichg() == self.ichg(),
            r.vin() == self.vin(),
            r.vbat() == self.vbat(),
            r.adcin() == self.adcin(),
    {
        let code: u8 = if value {
            1u8
        } else {
            0u8
        };
        proof {
            lemma_low_mask_values();
            lemma_get_put_same(self.value, 2, 1, code);
            lemma_fits_mask(code, 1);
            lemma_get_put_other(self.value, 2, 1, code, 7, 1);
            lemma_get_put_other(self.value, 2, 1, code, 6, 1);
            lemma_get_put_other(self.value, 2, 1, code, 5, 1);
            lemma_get_put_other(self.value, 2, 1, code, 4, 1);
            lemma_get_put_other(self.value, 2, 1, code, 3, 1);
            lemma_get_put_other(self.value, 2, 1, code, 1, 1);
        }
        AdcReadEn { value: put_bits(self.value, 2, 1, code) }
    }

    /// Whether the ADCIN pin voltage is converted (bit 1 of `value`).
    pub open spec fn spec_adcin(&self) -> bool {
        get_field(self.value, 1, 1) == 1
    }

    #[verifier::when_used_as_spec(spec_adcin)]
    pub fn adcin(&self) -> (r: bool)
        ensures
            r == self.spec_adcin(),
            r == ((self.value >> 1u8) & 0x1u8 == 1),
    {
        proof {
            lemma_low_mask_values();
        }
        get_bits(self.value, 1, 1) == 1
    }

    /// The register with its `adcin` field set to `value`; every other bit is kept.
    pub fn with_adcin(self, value: bool) -> (r: Self)
        ensures
            r.value == put_field(self.value, 1, 1, (if value {
                    1u8
                } else {
                    0u8
                })),
            r.value == (self.value & !(0x1u8 << 1u8)) | (((if value {
                    1u8
                } else {
                    0u8
                }) & 0x1u8) << 1u8),
            r.adcin() == value,
            r.iin() == self.iin(),
            r.pmid() == self.pmid(),
            r.ichg() == self.ichg(),
            r.vin() == self.vin(),
            r.vbat() == self.vbat(),
            r.ts() == self.ts(),
    {
        let code: u8 = if value {
            1u8
        } else {
            0u8
        };
        proof {
            lemma_low_mask_values();
            lemma_get_put_same(self.value, 1, 1, code);
            lemma_fits_mask(code, 1);
            lemma_get_put_other(self.value, 1, 1, code, 7, 1);
            lemma_get_put_other(self.value, 1, 1, code, 6, 1);
            lemma_get_put_other(self.value, 1, 1, code, 5, 1);
            lemma_get_put_other(self.value, 1, 1, code, 4, 1);
            lemma_get_put_other(self.value, 1, 1, code, 3, 1);
            lemma_get_put_other(self.value, 1, 1, code, 2, 1);
        }
        AdcReadEn { value: put_bits(self.value, 1, 1, code) }
    }
}

/// Address of `DEVICE_ID`.
pub const DEVICE_ID_ADDRESS: u8 = 0x6F;

/// Device identification (`DEVICE_ID`).
#[derive(Clone, Copy, Debug, PartialEq, Eq, Structural)]
pub struct DeviceId {
    /// The byte at the register's address.
    pub value: u8,
}

impl DeviceId {
    /// The value that a write of this register starts from: every bit clear.
    pub fn reset_value() -> (r: Self)
        ensures
            r.value == 0,
    {
        DeviceId { value: 0 }
    }

    /// The identification code of the device (bits 7..=0 of `value`).
    pub open spec fn spec_device_id(&self) -> u8 {
        get_field(self.value, 0, 8)
    }

    #[verifier::when_used_as_spec(spec_device_id)]
    pub fn device_id(&self) -> (r: u8)
        ensures
            r == self.spec_device_id(),
            r == ((self.value >> 0u8) & 0xffu8),
    {
        proof {
            lemma_low_mask_values();
        }
        get_bits(self.value, 0, 8)
    }

    /// The register with its `device_id` field set to `value`; every other bit is kept.
    pub fn with_device_id(self, value: u8) -> (r: Self)
        ensures
            r.value == put_field(self.value, 0, 8, value),
            r.value == (self.value & !(0xffu8 << 0u8)) | ((value & 0xffu8) << 0u8),
            r.device_id() == value & 0xff,
    {
        let code: u8 = value;
        proof {
            lemma_low_mask_values();
            lemma_get_put_same(self.value, 0, 8, code);
            if code <= 0xff {
                lemma_fits_mask(code, 8);
            }
        }
        DeviceId { value: put_bits(self.value, 0, 8, code) }
    }
}

/// Address of `ADC_DATA_VBAT_M`, the first of the fourteen bytes of `AdcDataRegister`.
pub const ADC_DATA_ADDRESS: u8 = 0x42;

/// A big-endian 16-bit value.
pub open spec fn be_u16(high: u8, low: u8) -> u16 {
    (high as int * 256 + low as int) as u16
}

fn read_be_u16(high: u8, low: u8) -> (r: u16)
    ensures
        r == be_u16(high, low),
        r as int == high as int * 256 + low as int,
{
    high as u16 * 256 + low as u16
}

/// The latest ADC readings (`ADC_DATA_VBAT_M` to `ADC_DATA_IIN_L`): seven 16-bit values,
/// most significant byte first, of which full scale is 65535.
#[derive(Clone, Copy, Debug, PartialEq, Eq)]
pub struct AdcDataRegister {
    /// The fourteen bytes, in the order of their addresses.
    pub bytes: [u8; 14],
}

impl AdcDataRegister {
    /// The register from the bytes read at its address.
    pub fn from_bytes(bytes: [u8; 14]) -> (r: Self)
        ensures
            r.bytes@ == bytes@,
    {
        AdcDataRegister { bytes }
    }

    /// The battery voltage (bytes 0 and 1).
    pub open spec fn spec_vbat(&self) -> u16 {
        be_u16(self.bytes@[0], self.bytes@[1])
    }

    #[verifier::when_used_as_spec(spec_vbat)]
    pub fn vbat(&self) -> (r: u16)
        ensures
            r == self.spec_vbat(),
    {
        read_be_u16(self.bytes[0], self.bytes[1])
    }

    /// The TS pin voltage (bytes 2 and 3).
    pub open spec fn spec_ts(&self) -> u16 {
        be_u16(self.bytes@[2], self.bytes@[3])
    }

    #[verifier::when_used_as_spec(spec_ts)]
    pub fn ts(&self) -> (r: u16)
        ensures
            r == self.spec_ts(),
    {
        read_be_u16(self.bytes[2], self.bytes[3])
    }

    /// The charge current, as a share of the fast charge current (bytes 4 and 5).
    pub open spec fn spec_ichg(&self) -> u16 {
        be_u16(self.bytes@[4], self.bytes@[5])
    }

    #[verifier::when_used_as_spec(spec_ichg)]
    pub fn ichg(&self) -> (r: u16)
        ensures
            r == self.spec_ichg(),
    {
        read_be_u16(self.bytes[4], self.bytes[5])
    }

    /// The ADCIN pin voltage (bytes 6 and 7).
    pub open spec fn spec_adcin(&self) -> u16 {
        be_u16(self.bytes@[6], self.bytes@[7])
    }

    #[verifier::when_used_as_spec(spec_adcin)]
    pub fn adcin(&self) -> (r: u16)
        ensures
            r == self.spec_adcin(),
    {
        read_be_u16(self.bytes[6], self.bytes[7])
    }

    /// The input voltage (bytes 8 and 9).
    pub open spec fn spec_vin(&self) -> u16 {
        be_u16(self.bytes@[8], self.bytes@[9])
    }

    #[verifier::when_used_as_spec(spec_vin)]
    pub fn vin(&self) -> (r: u16)
        ensures
            r == self.spec_vin(),
    {
        read_be_u16(self.bytes[8], self.bytes[9])
    }

    /// The PMID voltage (bytes 10 and 11).
    pub open spec fn spec_pmid(&self) -> u16 {
        be_u16(self.bytes@[10], self.bytes@[11])
    }

    #[verifier::when_used_as_spec(spec_pmid)]
    pub fn pmid(&self) -> (r: u16)
        ensures
            r == self.spec_pmid(),
    {
        read_be_u16(self.bytes[10], self.bytes[11])
    }

    /// The input current (bytes 12 and 13).
    pub open spec fn spec_iin(&self) -> u16 {
        be_u16(self.bytes@[12], self.bytes@[13])
    }

    #[verifier::when_used_as_spec(spec_iin)]
    pub fn iin(&self) -> (r: u16)
        ensures
            r == self.spec_iin(),
    {
        read_be_u16(self.bytes[12], self.bytes[13])
    }
}

} // verus!
