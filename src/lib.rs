//! Board-management protocol for the bitaxe-raw control board: frame codec,
//! a half-duplex control channel, and the GPIO, I2C passthrough and ADC
//! operations built on top of it.

pub mod frame;
pub mod gpio;
pub mod channel;
pub mod i2c;
pub mod adc;
