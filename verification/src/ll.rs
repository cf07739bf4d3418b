//! The device on its I2C bus, and its registers.
//!
//! A register is written with one I2C write that holds its address followed by its
//! bytes, and read with an I2C write of its address followed by a read of its bytes.
use vstd::prelude::*;

pub mod registers;

verus! {

/// The 7-bit I2C address of the device.
pub const I2C_ADDRESS: u8 = 0x6B;

/// The most bytes that one register write puts on the bus, the address included.
pub const MAX_TRANSACTION_SIZE: usize = 5;

/// The device, reached through the I2C bus `I2C`.
pub struct Bq2515xDevice<I2C> {
    i2c: I2C,
}

impl<I2C> Bq2515xDevice<I2C> {
    /// The bus through which the device is reached.
    pub closed spec fn bus(&self) -> I2C {
        self.i2c
    }

    /// The device on the bus `i2c`.
    pub fn new(i2c: I2C) -> (r: Self)
        ensures
            r.bus() == i2c,
    {
        Self { i2c }
    }

    /// The bus, to perform transfers on.
    pub fn i2c(&mut self) -> (r: &mut I2C)
        ensures
            *r == old(self).bus(),
            final(self).bus() == *final(r),
    {
        &mut self.i2c
    }
}

/// The bytes of the I2C write that stores `data` in the register at `address`: the
/// address, then the data.
pub fn write_frame(address: u8, data: &[u8]) -> (r: Vec<u8>)
    requires
        data@.len() + 1 <= MAX_TRANSACTION_SIZE,
    ensures
        r@ == seq![address] + data@,
        r@.len() <= MAX_TRANSACTION_SIZE,
{
    let mut frame: Vec<u8> = Vec::new();
    frame.push(address);
    let mut i: usize = 0;
    while i < data.len()
        invariant
            i <= data@.len(),
            frame@ == seq![address] + data@.subrange(0, i as int),
        decreases data@.len() - i,
    {
        frame.push(data[i]);
        i = i + 1;
        assert(data@.subrange(0, i as int) == data@.subrange(0, i - 1).push(data@[i - 1]));
    }
    assert(data@.subrange(0, data@.len() as int) == data@);
    frame
}

} // verus!
