//! The charger behind its *not-low-power* (/LP) pin.
//!
//! The I2C interface of the device only answers while /LP is driven high. The code
//! that owns the pin drives it high, waits `LP_EXIT_I2C_DELAY_MS` milliseconds and only
//! then talks to the charger; it drives the pin low again when it is done.
use super::Bq2515x;
use vstd::prelude::*;

verus! {

/// Milliseconds between driving /LP high and the first I2C transfer (`tLP_EXIT_I2C`).
pub const LP_EXIT_I2C_DELAY_MS: u32 = 1;

/// The charger together with the pin that takes it out of low power mode and a source
/// of delays.
pub struct Bq2515xLowPower<I2C, P, D> {
    inner: Bq2515x<I2C>,
    nlp_pin: P,
    delay: D,
}

impl<I2C, P, D> Bq2515xLowPower<I2C, P, D> {
    /// The charger.
    pub closed spec fn charger(&self) -> Bq2515x<I2C> {
        self.inner
    }

    /// The /LP pin.
    pub closed spec fn pin(&self) -> P {
        self.nlp_pin
    }

    /// The source of delays.
    pub closed spec fn delay_source(&self) -> D {
        self.delay
    }

    /// The charger on the bus `i2c`, with its /LP pin and a source of delays.
    pub fn new(i2c: I2C, nlp_pin: P, delay: D) -> (r: Self)
        ensures
            r.charger().device().bus() == i2c,
            r.pin() == nlp_pin,
            r.delay_source() == delay,
    {
        Self { inner: Bq2515x::new(i2c), nlp_pin, delay }
    }

    /// The charger, the pin and the source of delays, each to be used on its own.
    pub fn parts(&mut self) -> (r: (&mut Bq2515x<I2C>, &mut P, &mut D))
        ensures
            *r.0 == old(self).charger(),
            *r.1 == old(self).pin(),
            *r.2 == old(self).delay_source(),
            final(self).charger() == *final(r.0),
            final(self).pin() == *final(r.1),
            final(self).delay_source() == *final(r.2),
    {
        (&mut self.inner, &mut self.nlp_pin, &mut self.delay)
    }
}

} // verus!
