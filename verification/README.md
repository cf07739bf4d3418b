# bq2515x

Driver for the BQ2515x family of Texas Instruments linear battery chargers
(BQ25150, BQ25155, BQ25157), with its logic verified by Verus.

- `src/bits.rs`: reading and writing bit fields of a register byte, with the laws
  that make a register behave like memory (a field reads back what was written, and
  writing one field keeps every other).
- `src/ll.rs`, `src/ll/registers.rs`: the I2C address, the framing of register
  writes, and the registers: status (`STAT0`-`STAT2`), events (`FLAG0`-`FLAG3`),
  masks (`MASK0`-`MASK3`), `VBAT_CTRL`, `ICHG_CTRL`, `PCHRGCTRL`, `BUVLO`,
  `ILIMCTRL`, `LDOCTRL`, `ICCTRL0`-`ICCTRL2`, `ADCCTRL0`-`ADCCTRL1`, the ADC data,
  `ADC_READ_EN` and `DEVICE_ID`; one type per register, a getter per field and,
  for the registers that are written, a `with_` setter per field. Whole-register
  writes start from every bit clear.
- `src/prelude.rs`: millivolts, milliampere, ADC readings and register codes, and
  the conversions between them, with their round-trip laws.
- `src/hl.rs`, `src/hl/lowpower.rs`: the charger, the register values that its
  operations write, and the decoding of ADC readings.
- `app/lib.rs`: the async I2C transfers (`embedded-hal-async`) around the library,
  the register device of the `device-driver` crate, and the /LP pin handling.
