//! Typed handles for the peripherals of a BeagleBone board.
//!
//! The crate holds the rules of the sysfs and character-device protocols:
//! which attribute file an operation writes and what text it writes there,
//! how a value read from an attribute is decoded, when an export request
//! writes at all, and what a control block for an I2C or SPI transfer holds.
//!
//! It opens no file itself. Every operation takes the access to the device
//! file as a function of the caller: the operation decides what is handed to
//! that function, and what its answer means.

pub mod adc;
pub mod enums;
pub mod errors;
pub mod export;
pub mod gpio;
pub mod i2c;
pub mod ioctl;
pub mod pins;
pub mod prelude;
pub mod pwm;
pub mod spi;
pub mod text;
pub mod uart;
pub mod util;
