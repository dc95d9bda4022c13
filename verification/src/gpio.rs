//! The GPIO module.
//!
//! The BeagleBone Black has 65 GPIO pins, many of which are enabled by the
//! default device tree overlay.
//! However, these pins may need to be explicitly configured as GPIOs by using
//! the `config-pin` command, for example `sudo config-pin P9.22 gpio`.
//!
//! A pin is exported through `/sys/class/gpio/export`, and then has a
//! directory `/sys/class/gpio/gpio{N}` with the attributes `direction` and
//! `value`. The kernel, not this module, refuses a write to the value of a
//! pin that is an input.

use crate::enums::DeviceState;
use crate::errors::{reported, Error, IoFailure, Operation};
use crate::export::{accepts_export, accepts_probe, exported, set_export};
use crate::pins::Pin;
use crate::text::{decimal, decimal_string, trim};
use crate::util::{accepts_read, accepts_write, wrote, Readable, Writeable};
use vstd::prelude::*;
use vstd::string::*;

verus! {

/// The direction of the pin, which can be either an input or output.
#[derive(Debug, Clone, Copy, PartialEq, Eq, Structural)]
pub enum PinDirection {
    /// GPIO in
    In,
    /// GPIO out
    Out,
}

impl PinDirection {
    /// What the attribute `direction` holds for the direction.
    pub open spec fn text(self) -> Seq<char> {
        match self {
            PinDirection::In => "in"@,
            PinDirection::Out => "out"@,
        }
    }
}

/// The logic level of an output GPIO pin, either high or low.
#[derive(Debug, Clone, Copy, PartialEq, Eq, Structural)]
pub enum PinState {
    /// GPIO logic high
    High,
    /// GPIO logic low
    Low,
}

impl PinState {
    /// What the attribute `value` holds for the level.
    pub open spec fn text(self) -> Seq<char> {
        match self {
            PinState::High => "1"@,
            PinState::Low => "0"@,
        }
    }

    /// The level that the text `t` stands for: `1` is high, `0` is low, and
    /// no other text is a level.
    pub open spec fn of_text(t: Seq<char>) -> Option<PinState> {
        if t == "1"@ {
            Some(PinState::High)
        } else if t == "0"@ {
            Some(PinState::Low)
        } else {
            None
        }
    }

    /// Decodes what the attribute `value` held, once trimmed.
    pub fn from_text(t: &str) -> (state: Option<PinState>)
        ensures
            state == Self::of_text(t@),
    {
        proof {
            reveal_strlit("1");
            reveal_strlit("0");
        }
        assert("1"@.len() == 1 && "1"@[0] == '1');
        assert("0"@.len() == 1 && "0"@[0] == '0');
        if t.unicode_len() != 1 {
            return None;
        }
        let c = t.get_char(0);
        if c == '1' {
            assert(t@ =~= "1"@);
            Some(PinState::High)
        } else if c == '0' {
            assert(t@ =~= "0"@);
            Some(PinState::Low)
        } else {
            None
        }
    }
}

/// The directory under which all GPIO pins are exported.
pub open spec fn gpio_control_directory() -> Seq<char> {
    "/sys/class/gpio"@
}

/// The directory of the exported pin `pin_num`.
pub open spec fn gpio_directory(pin_num: u8) -> Seq<char> {
    "/sys/class/gpio/gpio"@ + decimal(pin_num as nat)
}

/// The path of the attribute that holds the direction of the pin `pin_num`.
pub open spec fn gpio_direction_path(pin_num: u8) -> Seq<char> {
    gpio_directory(pin_num) + "/direction"@
}

/// The path of the attribute that holds the level of the pin `pin_num`.
pub open spec fn gpio_value_path(pin_num: u8) -> Seq<char> {
    gpio_directory(pin_num) + "/value"@
}

/// What a read of a pin returns for the outcome of the access to its value
/// attribute, which is at `path`: the level that the trimmed content stands
/// for; `MalformedValue` with the path and the trimmed content where it
/// stands for none; a failed access with its context.
pub open spec fn level_read(
    outcome: Result<String, IoFailure>,
    path: Seq<char>,
    r: Result<PinState, Error>,
) -> bool {
    match outcome {
        Ok(content) => match PinState::of_text(trim(content@)) {
            Some(state) => r == Ok::<PinState, Error>(state),
            None => r matches Err(Error::MalformedValue { path: p, content: c }) && p@ == path
                && c@ == trim(content@),
        },
        Err(failure) => r matches Err(error) && reported(
            failure,
            path,
            Operation::GpioRead,
            error,
        ),
    }
}

/// Represents a pin configured as a GPIO.
#[derive(Debug)]
pub struct GPIO {
    pin_num: u8,
}

impl GPIO {
    /// The number by which the kernel knows the pin.
    pub closed spec fn spec_pin_num(&self) -> u8 {
        self.pin_num
    }

    /// Creates a new GPIO pin object.
    ///
    /// Note: this doesn't do any sort of initialization, you have to call
    /// `set_direction()`, `set_export()`, yourself.
    ///
    /// The pin's number is kept in one byte. Every digital pin's number fits;
    /// of an analog input's number, which is no GPIO number, the low byte is
    /// kept.
    pub fn new(pin: Pin) -> (gpio: GPIO)
        ensures
            gpio.pin_num() == pin.number() % 256,
            !pin.is_analog() ==> gpio.pin_num() == pin.number(),
    {
        GPIO { pin_num: (pin.number() % 256) as u8 }
    }

    /// The number by which the kernel knows the pin.
    #[verifier::when_used_as_spec(spec_pin_num)]
    pub fn pin_num(&self) -> (n: u8)
        ensures
            n == self.spec_pin_num(),
    {
        self.pin_num
    }

    /// The pin's directory, which is there exactly while the pin is exported.
    pub fn pin_path(&self) -> (path: String)
        ensures
            path@ == gpio_directory(self.pin_num()),
    {
        let mut path = String::from_str("/sys/class/gpio/gpio");
        path.append(decimal_string(self.pin_num as u32).as_str());
        path
    }

    /// Sets the direction of the pin as either an input or output, by one
    /// call of `write`, with `in` or `out` for the pin's attribute
    /// `direction`.
    ///
    /// # Errors
    ///
    /// Fails if `write` does, which it will if the GPIO pin is not configured
    /// correctly.
    pub fn set_direction<W: FnOnce(&str, &str) -> Result<(), IoFailure>>(
        &self,
        direction: PinDirection,
        write: W,
    ) -> (r: Result<(), Error>)
        requires
            accepts_write(write, gpio_direction_path(self.pin_num()), direction.text()),
        ensures
            wrote(
                write,
                gpio_direction_path(self.pin_num()),
                direction.text(),
                Operation::GpioSetDirection,
                r,
            ),
    {
        let mut path = self.pin_path();
        path.append("/direction");
        let text = match direction {
            PinDirection::In => "in",
            PinDirection::Out => "out",
        };
        path.as_str().write_file(text, Operation::GpioSetDirection, write)
    }

    /// Exports or unexports a GPIO pin.
    ///
    /// `probe` is asked whether the pin's directory is there. `set_export()`
    /// won't try to export pins that are already exported, or unexport pins
    /// that aren't exported: only where the probe shows the other state does
    /// `write` get the pin's number, for `/sys/class/gpio/export` or
    /// `/sys/class/gpio/unexport`.
    ///
    /// # Errors
    ///
    /// Fails with `ExportFailed` if `write` fails.
    pub fn set_export<P: FnOnce(&str) -> bool, W: FnOnce(&str, &str) -> Result<(), IoFailure>>(
        &self,
        state: DeviceState,
        probe: P,
        write: W,
    ) -> (r: Result<(), Error>)
        requires
            accepts_probe(probe, gpio_directory(self.pin_num())),
            accepts_export(
                probe,
                write,
                gpio_directory(self.pin_num()),
                gpio_control_directory(),
                self.pin_num(),
                state,
            ),
        ensures
            exported(
                probe,
                write,
                gpio_directory(self.pin_num()),
                gpio_control_directory(),
                self.pin_num(),
                state,
                r,
            ),
    {
        let directory = self.pin_path();
        set_export(directory.as_str(), "/sys/class/gpio", self.pin_num, state, probe, write)
    }

    /// Writes to the pin, setting it either logic high or low, by one call of
    /// `write`, with `1` or `0` for the pin's attribute `value`.
    ///
    /// # Errors
    ///
    /// Fails if `write` does: the kernel refuses the write for a pin that is
    /// no output.
    pub fn write<W: FnOnce(&str, &str) -> Result<(), IoFailure>>(
        &mut self,
        state: PinState,
        write: W,
    ) -> (r: Result<(), Error>)
        requires
            accepts_write(write, gpio_value_path(old(self).pin_num()), state.text()),
        ensures
            *final(self) == *old(self),
            wrote(
                write,
                gpio_value_path(old(self).pin_num()),
                state.text(),
                Operation::GpioWrite,
                r,
            ),
    {
        let mut path = self.pin_path();
        path.append("/value");
        let text = match state {
            PinState::High => "1",
            PinState::Low => "0",
        };
        path.as_str().write_file(text, Operation::GpioWrite, write)
    }

    /// Reads the logic level of the pin, returning either high or low, by one
    /// call of `read` for the pin's attribute `value`.
    ///
    /// # Errors
    ///
    /// Fails if `read` does, and with `MalformedValue` if the attribute holds
    /// neither `1` nor `0`.
    pub fn read<R: FnOnce(&str) -> Result<String, IoFailure>>(&self, read: R) -> (r: Result<
        PinState,
        Error,
    >)
        requires
            accepts_read(read, gpio_value_path(self.pin_num())),
        ensures
            exists|p: &str, outcome: Result<String, IoFailure>|
                p@ == gpio_value_path(self.pin_num()) && #[trigger] read.ensures((p,), outcome)
                    && level_read(outcome, gpio_value_path(self.pin_num()), r),
    {
        let mut path = self.pin_path();
        path.append("/value");
        match path.as_str().read_file(Operation::GpioRead, read) {
            Ok(value) => match PinState::from_text(value.as_str()) {
                Some(state) => Ok(state),
                None => Err(Error::MalformedValue { path, content: value }),
            },
            Err(error) => Err(error),
        }
    }
}

/// What `write` puts into the value attribute for a level, `read` takes for
/// that level, with or without a line break behind it.
pub proof fn lemma_level_round_trip(state: PinState)
    ensures
        PinState::of_text(trim(state.text())) == Some(state),
        PinState::of_text(trim(state.text() + "\n"@)) == Some(state),
{
    reveal_strlit("1");
    reveal_strlit("0");
    reveal_strlit("\n");
    let t = state.text();
    assert(t.len() == 1);
    assert(trim(t) =~= t) by {
        reveal_with_fuel(crate::text::trim_start, 2);
        reveal_with_fuel(crate::text::trim_end, 2);
    }
    let u = t + "\n"@;
    assert(u.len() == 2 && u[0] == t[0] && u[1] == '\n');
    assert(crate::text::trim_start(u) == u);
    assert(u.drop_last() =~= t);
    assert(crate::text::trim_end(u) == crate::text::trim_end(t));
    assert("1"@ != "0"@) by {
        assert("1"@[0] == '1');
        assert("0"@[0] == '0');
    }
}

} // verus!
