//! Driver logic for the BQ2515x family of Texas Instruments linear battery chargers.
//!
//! `ll` holds the registers of the device (status, events, masks, charge, undervoltage,
//! input current, LDO, PMID and ADC controls, ADC data, identification) and the framing
//! of its I2C transfers,
//! `hl` the higher level operations built on top of them, and `prelude` the physical
//! units that the registers encode.
pub mod bits;
pub mod prelude;
pub mod ll;
pub mod hl;
