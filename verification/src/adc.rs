//! The ADC module.
//!
//! The BeagleBone Black has 7 usable ADC inputs.
//!
//! These can be enabled by using the bone_capemgr module and enabling a device
//! tree overlay that allows the use of the ADCs, such as BB-ADC. An input is
//! not exported: once the overlay is there, so is each input's attribute.
//!
//! *NOTE:* the ADC inputs on the BeagleBone are limited to 1.8V.

use crate::errors::{reported, Error, IoFailure, Operation};
use crate::pins::{Pin, ANALOG_OFFSET};
use crate::text::{
    decimal, decimal_string, is_digit, lemma_decimal_digits, lemma_decimal_round_trip,
    parse_decimal, parse_u32, trim, trim_end, trim_start,
};
use crate::util::{accepts_read, Readable};
use vstd::prelude::*;
use vstd::string::*;

verus! {

/// The path of the attribute that holds the raw voltage of the analog input
/// `adc_num`.
pub open spec fn adc_raw_path(adc_num: u16) -> Seq<char> {
    "/sys/bus/iio/devices/iio:device0/in_voltage"@ + decimal(adc_num as nat) + "_raw"@
}

/// What a read of an analog input returns for the outcome of the access to
/// its attribute, which is at `path`: the number that the trimmed content
/// writes in decimal; `MalformedValue` with the path and the trimmed content
/// where it writes none of 32 bits; a failed access with its context.
pub open spec fn raw_read(
    outcome: Result<String, IoFailure>,
    path: Seq<char>,
    r: Result<u32, Error>,
) -> bool {
    match outcome {
        Ok(content) => match parse_decimal(trim(content@)) {
            Some(value) => r == Ok::<u32, Error>(value),
            None => r matches Err(Error::MalformedValue { path: p, content: c }) && p@ == path
                && c@ == trim(content@),
        },
        Err(failure) => r matches Err(error) && reported(failure, path, Operation::AdcRead, error),
    }
}

/// Represents a pin configured as an ADC.
#[derive(Debug)]
pub struct ADC {
    adc_num: u16,
}

impl ADC {
    /// The channel of the analog input.
    pub closed spec fn spec_adc_num(&self) -> u16 {
        self.adc_num
    }

    /// Creates a new ADC object for an analog input. Its channel is the
    /// pin's number without the offset that sets the analog inputs apart.
    pub fn new(pin: Pin) -> (adc: ADC)
        requires
            pin.is_analog(),
        ensures
            adc.adc_num() == pin.number() - ANALOG_OFFSET,
            pin.analog_channel() == Some(adc.adc_num()),
    {
        ADC { adc_num: pin.number() - ANALOG_OFFSET }
    }

    /// The channel of the analog input.
    #[verifier::when_used_as_spec(spec_adc_num)]
    pub fn adc_num(&self) -> (n: u16)
        ensures
            n == self.spec_adc_num(),
    {
        self.adc_num
    }

    /// Reads the raw voltage of the ADC, by one call of `read` for the
    /// input's attribute.
    ///
    /// # Errors
    ///
    /// Fails if `read` does, and with `MalformedValue` if the attribute does
    /// not hold a decimal number of 32 bits.
    pub fn read<R: FnOnce(&str) -> Result<String, IoFailure>>(&self, read: R) -> (r: Result<
        u32,
        Error,
    >)
        requires
            accepts_read(read, adc_raw_path(self.adc_num())),
        ensures
            exists|p: &str, outcome: Result<String, IoFailure>|
                p@ == adc_raw_path(self.adc_num()) && #[trigger] read.ensures((p,), outcome)
                    && raw_read(outcome, adc_raw_path(self.adc_num()), r),
    {
        let mut path = String::from_str("/sys/bus/iio/devices/iio:device0/in_voltage");
        path.append(decimal_string(self.adc_num as u32).as_str());
        path.append("_raw");
        match path.as_str().read_file(Operation::AdcRead, read) {
            Ok(value) => match parse_u32(value.as_str()) {
                Some(raw) => Ok(raw),
                None => Err(Error::MalformedValue { path, content: value }),
            },
            Err(error) => Err(error),
        }
    }
}

/// What the kernel writes for a reading, the decimal number and a line
/// break, `read` takes for that reading; and the decimal number alone too.
pub proof fn lemma_reading_round_trip(raw: u32)
    ensures
        parse_decimal(trim(decimal(raw as nat))) == Some(raw),
        parse_decimal(trim(decimal(raw as nat) + "\n"@)) == Some(raw),
{
    reveal_strlit("\n");
    lemma_decimal_round_trip(raw);
    let numeral = decimal(raw as nat);
    let line = numeral + "\n"@;
    assert(numeral.len() > 0 && is_digit(numeral[0]) && is_digit(numeral.last())) by {
        lemma_decimal_digits(raw as nat);
    }
    assert(trim(numeral) == numeral);
    assert(line[0] == numeral[0]);
    assert(trim_start(line) == line);
    assert(line.last() == '\n');
    assert(line.drop_last() =~= numeral);
    assert(trim_end(line) == trim_end(numeral));
}

} // verus!
