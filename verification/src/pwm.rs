//! The PWM module.
//!
//! The BeagleBone Black has 8 PWM outputs.
//! However, these pins may need to be explicitly configured as PWMs by using
//! the `config-pin` command, for example `sudo config-pin P9.29 pwm`.
//!
//! For the output to behave, a PWM is exported, then given a period, then
//! enabled, then given a duty cycle: an order that this module leaves to its
//! caller. It validates neither a duty cycle against the period nor anything
//! else before it writes: the kernel refuses what it cannot set, and a write
//! that was refused leaves the handle as it was. So the handle remembers only
//! what the kernel took.

use crate::enums::DeviceState;
use crate::errors::{Error, IoFailure, Operation};
use crate::export::{accepts_export, accepts_probe, exported, set_export};
use crate::text::{decimal, decimal_string};
use crate::util::{accepts_write, wrote, Writeable};
use vstd::prelude::*;
use vstd::string::*;

verus! {

/// The state in which the PWM is in, either on or off.
#[derive(Debug, Clone, Copy, PartialEq, Eq, Structural)]
pub enum PWMState {
    /// PWM on
    Enabled,
    /// PWM off
    Disabled,
}

impl PWMState {
    /// What the attribute `enable` holds for the state.
    pub open spec fn text(self) -> Seq<char> {
        match self {
            PWMState::Enabled => "1"@,
            PWMState::Disabled => "0"@,
        }
    }
}

/// The directory of the PWM chip `chip`, which holds its control files.
pub open spec fn pwm_chip_directory(chip: u8) -> Seq<char> {
    "/sys/class/pwm/pwmchip"@ + decimal(chip as nat)
}

/// The directory of the exported PWM `pwm` of the chip `chip`.
pub open spec fn pwm_directory(chip: u8, pwm: u8) -> Seq<char> {
    pwm_chip_directory(chip) + "/pwm"@ + decimal(pwm as nat)
}

/// The path of the attribute that holds the period, in nanoseconds.
pub open spec fn pwm_period_path(chip: u8, pwm: u8) -> Seq<char> {
    pwm_directory(chip, pwm) + "/period"@
}

/// The path of the attribute that holds the duty cycle, in nanoseconds.
pub open spec fn pwm_duty_cycle_path(chip: u8, pwm: u8) -> Seq<char> {
    pwm_directory(chip, pwm) + "/duty_cycle"@
}

/// The path of the attribute that switches the output on and off.
pub open spec fn pwm_enable_path(chip: u8, pwm: u8) -> Seq<char> {
    pwm_directory(chip, pwm) + "/enable"@
}

/// What a PWM handle holds: which PWM it stands for, and the period, the
/// duty cycle and the state that were last set through it.
pub struct PWMConfig {
    pub chip: u8,
    pub pwm: u8,
    pub period: u32,
    pub duty_cycle: u32,
    pub state: PWMState,
}

/// Represents a PWM device.
#[derive(Debug)]
pub struct PWM {
    pwm_chip_num: u8,
    pwm_num: u8,
    period: u32,
    duty_cycle: u32,
    state: PWMState,
}

impl View for PWM {
    type V = PWMConfig;

    closed spec fn view(&self) -> PWMConfig {
        PWMConfig {
            chip: self.pwm_chip_num,
            pwm: self.pwm_num,
            period: self.period,
            duty_cycle: self.duty_cycle,
            state: self.state,
        }
    }
}

impl PWM {
    /// Creates a new PWM object, for the PWM `pwm_num` of the chip
    /// `pwm_chip_num`: disabled, with a period and a duty cycle of zero.
    ///
    /// Note: you will need to configure the selected pin as a PWM output prior
    /// to use using the `config-pin` utility.
    pub fn new(pwm_chip_num: u8, pwm_num: u8) -> (pwm: PWM)
        ensures
            pwm@ == (PWMConfig {
                chip: pwm_chip_num,
                pwm: pwm_num,
                period: 0,
                duty_cycle: 0,
                state: PWMState::Disabled,
            }),
    {
        PWM { pwm_chip_num, pwm_num, period: 0, duty_cycle: 0, state: PWMState::Disabled }
    }

    /// The period that was last set through this handle, in nanoseconds.
    pub fn period(&self) -> (period_ns: u32)
        ensures
            period_ns == self@.period,
    {
        self.period
    }

    /// The duty cycle that was last set through this handle, in nanoseconds.
    pub fn duty_cycle(&self) -> (duty_cycle_ns: u32)
        ensures
            duty_cycle_ns == self@.duty_cycle,
    {
        self.duty_cycle
    }

    /// The state that was last set through this handle.
    pub fn state(&self) -> (state: PWMState)
        ensures
            state == self@.state,
    {
        self.state
    }

    fn chip_path(&self) -> (path: String)
        ensures
            path@ == pwm_chip_directory(self@.chip),
    {
        let mut path = String::from_str("/sys/class/pwm/pwmchip");
        path.append(decimal_string(self.pwm_chip_num as u32).as_str());
        path
    }

    /// The PWM's directory, which is there exactly while the PWM is exported.
    pub fn pwm_path(&self) -> (path: String)
        ensures
            path@ == pwm_directory(self@.chip, self@.pwm),
    {
        let mut path = self.chip_path();
        path.append("/pwm");
        path.append(decimal_string(self.pwm_num as u32).as_str());
        path
    }

    /// Exports or unexports the PWM.
    ///
    /// `probe` is asked whether the PWM's directory is there. Only where that
    /// shows the other state than `state` does `write` get the PWM's number,
    /// for the file `export` or `unexport` of the PWM's chip.
    ///
    /// # Errors
    ///
    /// Fails with `ExportFailed` if `write` fails.
    pub fn set_export<P: FnOnce(&str) -> bool, W: FnOnce(&str, &str) -> Result<(), IoFailure>>(
        &self,
        state: DeviceState,
        probe: P,
        write: W,
    ) -> (r: Result<(), Error>)
        requires
            accepts_probe(probe, pwm_directory(self@.chip, self@.pwm)),
            accepts_export(
                probe,
                write,
                pwm_directory(self@.chip, self@.pwm),
                pwm_chip_directory(self@.chip),
                self@.pwm,
                state,
            ),
        ensures
            exported(
                probe,
                write,
                pwm_directory(self@.chip, self@.pwm),
                pwm_chip_directory(self@.chip),
                self@.pwm,
                state,
                r,
            ),
    {
        let directory = self.pwm_path();
        let control_dir = self.chip_path();
        set_export(directory.as_str(), control_dir.as_str(), self.pwm_num, state, probe, write)
    }

    /// Sets the period of the PWM in nanoseconds, by one call of `write`,
    /// with the decimal period for the PWM's attribute `period`. The handle
    /// takes the new period where the write succeeded.
    ///
    /// # Errors
    ///
    /// Fails if `write` does, and then leaves the handle as it was.
    pub fn set_period<W: FnOnce(&str, &str) -> Result<(), IoFailure>>(
        &mut self,
        period_ns: u32,
        write: W,
    ) -> (r: Result<(), Error>)
        requires
            accepts_write(
                write,
                pwm_period_path(old(self)@.chip, old(self)@.pwm),
                decimal(period_ns as nat),
            ),
        ensures
            wrote(
                write,
                pwm_period_path(old(self)@.chip, old(self)@.pwm),
                decimal(period_ns as nat),
                Operation::PwmSetPeriod,
                r,
            ),
            r is Ok ==> final(self)@ == (PWMConfig { period: period_ns, ..old(self)@ }),
            r is Err ==> final(self)@ == old(self)@,
    {
        let mut path = self.pwm_path();
        path.append("/period");
        let text = decimal_string(period_ns);
        let r = path.as_str().write_file(text.as_str(), Operation::PwmSetPeriod, write);
        if r.is_ok() {
            self.period = period_ns;
        }
        r
    }

    /// Sets the state (enabled or disabled) of the PWM, by one call of
    /// `write`, with `1` or `0` for the PWM's attribute `enable`. The handle
    /// takes the new state where the write succeeded.
    ///
    /// # Errors
    ///
    /// Fails if `write` does, and then leaves the handle as it was.
    pub fn set_state<W: FnOnce(&str, &str) -> Result<(), IoFailure>>(
        &mut self,
        state: PWMState,
        write: W,
    ) -> (r: Result<(), Error>)
        requires
            accepts_write(write, pwm_enable_path(old(self)@.chip, old(self)@.pwm), state.text()),
        ensures
            wrote(
                write,
                pwm_enable_path(old(self)@.chip, old(self)@.pwm),
                state.text(),
                Operation::PwmSetState,
                r,
            ),
            r is Ok ==> final(self)@ == (PWMConfig { state: state, ..old(self)@ }),
            r is Err ==> final(self)@ == old(self)@,
    {
        let mut path = self.pwm_path();
        path.append("/enable");
        let text = match state {
            PWMState::Enabled => "1",
            PWMState::Disabled => "0",
        };
        let r = path.as_str().write_file(text, Operation::PwmSetState, write);
        if r.is_ok() {
            self.state = state;
        }
        r
    }

    /// Sets the duty cycle of the PWM in nanoseconds, by one call of `write`,
    /// with the decimal duty cycle for the PWM's attribute `duty_cycle`. The
    /// handle takes the new duty cycle where the write succeeded.
    ///
    /// The duty cycle is written as it is given, whatever the period.
    ///
    /// # Errors
    ///
    /// Fails if `write` does, which it will where the duty cycle exceeds the
    /// period that the kernel holds, and then leaves the handle as it was.
    pub fn set_duty_cycle<W: FnOnce(&str, &str) -> Result<(), IoFailure>>(
        &mut self,
        duty_cycle_ns: u32,
        write: W,
    ) -> (r: Result<(), Error>)
        requires
            accepts_write(
                write,
                pwm_duty_cycle_path(old(self)@.chip, old(self)@.pwm),
                decimal(duty_cycle_ns as nat),
            ),
        ensures
            wrote(
                write,
                pwm_duty_cycle_path(old(self)@.chip, old(self)@.pwm),
                decimal(duty_cycle_ns as nat),
                Operation::PwmSetDutyCycle,
                r,
            ),
            r is Ok ==> final(self)@ == (PWMConfig { duty_cycle: duty_cycle_ns, ..old(self)@ }),
            r is Err ==> final(self)@ == old(self)@,
    {
        let mut path = self.pwm_path();
        path.append("/duty_cycle");
        let text = decimal_string(duty_cycle_ns);
        let r = path.as_str().write_file(text.as_str(), Operation::PwmSetDutyCycle, write);
        if r.is_ok() {
            self.duty_cycle = duty_cycle_ns;
        }
        r
    }
}

} // verus!
