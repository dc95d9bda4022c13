//! Exports types that might be useful to have in scope.

pub use crate::adc::ADC;
pub use crate::enums::DeviceState;
pub use crate::errors::{Error, IoFailure};
pub use crate::gpio::{PinDirection, PinState, GPIO};
pub use crate::i2c::I2C;
pub use crate::pins::Pin;
pub use crate::pwm::{PWMState, PWM};
pub use crate::spi::SPI;
pub use crate::uart::UART;
