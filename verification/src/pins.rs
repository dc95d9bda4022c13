//! The pins of the two expansion headers, by name, and the number that the
//! kernel knows each by.

use vstd::prelude::*;

verus! {

/// What an analog input's number is raised by, so that it is none of a
/// digital pin.
pub const ANALOG_OFFSET: u16 = 1000;

/// A pin of the board: a digital pin of header P8 or P9, or an analog input.
#[allow(non_camel_case_types)]
#[derive(Debug, Clone, Copy, PartialEq, Eq, Structural)]
pub enum Pin {
    GPIO_P8_3,
    GPIO_P8_4,
    GPIO_P8_5,
    GPIO_P8_6,
    GPIO_P8_7,
    GPIO_P8_8,
    GPIO_P8_9,
    GPIO_P8_10,
    GPIO_P8_11,
    GPIO_P8_12,
    GPIO_P8_13,
    GPIO_P8_14,
    GPIO_P8_15,
    GPIO_P8_16,
    GPIO_P8_17,
    GPIO_P8_18,
    GPIO_P8_19,
    GPIO_P8_20,
    GPIO_P8_21,
    GPIO_P8_22,
    GPIO_P8_23,
    GPIO_P8_24,
    GPIO_P8_25,
    GPIO_P8_26,
    GPIO_P8_27,
    GPIO_P8_28,
    GPIO_P8_29,
    GPIO_P8_30,
    GPIO_P8_31,
    GPIO_P8_32,
    GPIO_P8_33,
    GPIO_P8_34,
    GPIO_P8_35,
    GPIO_P8_36,
    GPIO_P8_37,
    GPIO_P8_38,
    GPIO_P8_39,
    GPIO_P8_40,
    GPIO_P8_41,
    GPIO_P8_42,
    GPIO_P8_43,
    GPIO_P8_44,
    GPIO_P8_45,
    GPIO_P8_46,
    GPIO_P9_11,
    GPIO_P9_12,
    GPIO_P9_13,
    GPIO_P9_14,
    GPIO_P9_15,
    GPIO_P9_16,
    GPIO_P9_17,
    GPIO_P9_18,
    GPIO_P9_21,
    GPIO_P9_22,
    GPIO_P9_23,
    GPIO_P9_24,
    GPIO_P9_25,
    GPIO_P9_26,
    GPIO_P9_27,
    GPIO_P9_28,
    GPIO_P9_29,
    GPIO_P9_30,
    GPIO_P9_31,
    GPIO_P9_41,
    GPIO_P9_42,
    AIN_0,
    AIN_1,
    AIN_2,
    AIN_3,
    AIN_4,
    AIN_5,
    AIN_6,
    AIN_7,
}

impl Pin {
    /// The number of the pin: for a digital pin its GPIO number, for the
    /// analog input `n` the sum of `ANALOG_OFFSET` and `n`.
    pub open spec fn spec_number(self) -> u16 {
        match self {
            Pin::GPIO_P8_3 => 38,
            Pin::GPIO_P8_4 => 39,
            Pin::GPIO_P8_5 => 34,
            Pin::GPIO_P8_6 => 35,
            Pin::GPIO_P8_7 => 66,
            Pin::GPIO_P8_8 => 67,
            Pin::GPIO_P8_9 => 69,
            Pin::GPIO_P8_10 => 68,
            Pin::GPIO_P8_11 => 45,
            Pin::GPIO_P8_12 => 44,
            Pin::GPIO_P8_13 => 23,
            Pin::GPIO_P8_14 => 26,
            Pin::GPIO_P8_15 => 47,
            Pin::GPIO_P8_16 => 46,
            Pin::GPIO_P8_17 => 27,
            Pin::GPIO_P8_18 => 65,
            Pin::GPIO_P8_19 => 22,
            Pin::GPIO_P8_20 => 63,
            Pin::GPIO_P8_21 => 62,
            Pin::GPIO_P8_22 => 37,
            Pin::GPIO_P8_23 => 36,
            Pin::GPIO_P8_24 => 33,
            Pin::GPIO_P8_25 => 32,
            Pin::GPIO_P8_26 => 61,
            Pin::GPIO_P8_27 => 86,
            Pin::GPIO_P8_28 => 88,
            Pin::GPIO_P8_29 => 87,
            Pin::GPIO_P8_30 => 89,
            Pin::GPIO_P8_31 => 10,
            Pin::GPIO_P8_32 => 11,
            Pin::GPIO_P8_33 => 9,
            Pin::GPIO_P8_34 => 81,
            Pin::GPIO_P8_35 => 8,
            Pin::GPIO_P8_36 => 80,
            Pin::GPIO_P8_37 => 78,
            Pin::GPIO_P8_38 => 79,
            Pin::GPIO_P8_39 => 76,
            Pin::GPIO_P8_40 => 77,
            Pin::GPIO_P8_41 => 74,
            Pin::GPIO_P8_42 => 75,
            Pin::GPIO_P8_43 => 72,
            Pin::GPIO_P8_44 => 73,
            Pin::GPIO_P8_45 => 70,
            Pin::GPIO_P8_46 => 71,
            Pin::GPIO_P9_11 => 30,
            Pin::GPIO_P9_12 => 60,
            Pin::GPIO_P9_13 => 31,
            Pin::GPIO_P9_14 => 40,
            Pin::GPIO_P9_15 => 48,
            Pin::GPIO_P9_16 => 51,
            Pin::GPIO_P9_17 => 4,
            Pin::GPIO_P9_18 => 5,
            Pin::GPIO_P9_21 => 3,
            Pin::GPIO_P9_22 => 2,
            Pin::GPIO_P9_23 => 49,
            Pin::GPIO_P9_24 => 15,
            Pin::GPIO_P9_25 => 117,
            Pin::GPIO_P9_26 => 14,
            Pin::GPIO_P9_27 => 125,
            Pin::GPIO_P9_28 => 123,
            Pin::GPIO_P9_29 => 121,
            Pin::GPIO_P9_30 => 122,
            Pin::GPIO_P9_31 => 120,
            Pin::GPIO_P9_41 => 20,
            Pin::GPIO_P9_42 => 7,
            Pin::AIN_0 => 1000,
            Pin::AIN_1 => 1001,
            Pin::AIN_2 => 1002,
            Pin::AIN_3 => 1003,
            Pin::AIN_4 => 1004,
            Pin::AIN_5 => 1005,
            Pin::AIN_6 => 1006,
            Pin::AIN_7 => 1007,
        }
    }

    /// The number of the pin.
    #[verifier::when_used_as_spec(spec_number)]
    pub fn number(self) -> (n: u16)
        ensures
            n == self.spec_number(),
    {
        match self {
            Pin::GPIO_P8_3 => 38,
            Pin::GPIO_P8_4 => 39,
            Pin::GPIO_P8_5 => 34,
            Pin::GPIO_P8_6 => 35,
            Pin::GPIO_P8_7 => 66,
            Pin::GPIO_P8_8 => 67,
            Pin::GPIO_P8_9 => 69,
            Pin::GPIO_P8_10 => 68,
            Pin::GPIO_P8_11 => 45,
            Pin::GPIO_P8_12 => 44,
            Pin::GPIO_P8_13 => 23,
            Pin::GPIO_P8_14 => 26,
            Pin::GPIO_P8_15 => 47,
            Pin::GPIO_P8_16 => 46,
            Pin::GPIO_P8_17 => 27,
            Pin::GPIO_P8_18 => 65,
            Pin::GPIO_P8_19 => 22,
            Pin::GPIO_P8_20 => 63,
            Pin::GPIO_P8_21 => 62,
            Pin::GPIO_P8_22 => 37,
            Pin::GPIO_P8_23 => 36,
            Pin::GPIO_P8_24 => 33,
            Pin::GPIO_P8_25 => 32,
            Pin::GPIO_P8_26 => 61,
            Pin::GPIO_P8_27 => 86,
            Pin::GPIO_P8_28 => 88,
            Pin::GPIO_P8_29 => 87,
            Pin::GPIO_P8_30 => 89,
            Pin::GPIO_P8_31 => 10,
            Pin::GPIO_P8_32 => 11,
            Pin::GPIO_P8_33 => 9,
            Pin::GPIO_P8_34 => 81,
            Pin::GPIO_P8_35 => 8,
            Pin::GPIO_P8_36 => 80,
            Pin::GPIO_P8_37 => 78,
            Pin::GPIO_P8_38 => 79,
            Pin::GPIO_P8_39 => 76,
            Pin::GPIO_P8_40 => 77,
            Pin::GPIO_P8_41 => 74,
            Pin::GPIO_P8_42 => 75,
            Pin::GPIO_P8_43 => 72,
            Pin::GPIO_P8_44 => 73,
            Pin::GPIO_P8_45 => 70,
            Pin::GPIO_P8_46 => 71,
            Pin::GPIO_P9_11 => 30,
            Pin::GPIO_P9_12 => 60,
            Pin::GPIO_P9_13 => 31,
            Pin::GPIO_P9_14 => 40,
            Pin::GPIO_P9_15 => 48,
            Pin::GPIO_P9_16 => 51,
            Pin::GPIO_P9_17 => 4,
            Pin::GPIO_P9_18 => 5,
            Pin::GPIO_P9_21 => 3,
            Pin::GPIO_P9_22 => 2,
            Pin::GPIO_P9_23 => 49,
            Pin::GPIO_P9_24 => 15,
            Pin::GPIO_P9_25 => 117,
            Pin::GPIO_P9_26 => 14,
            Pin::GPIO_P9_27 => 125,
            Pin::GPIO_P9_28 => 123,
            Pin::GPIO_P9_29 => 121,
            Pin::GPIO_P9_30 => 122,
            Pin::GPIO_P9_31 => 120,
            Pin::GPIO_P9_41 => 20,
            Pin::GPIO_P9_42 => 7,
            Pin::AIN_0 => 1000,
            Pin::AIN_1 => 1001,
            Pin::AIN_2 => 1002,
            Pin::AIN_3 => 1003,
            Pin::AIN_4 => 1004,
            Pin::AIN_5 => 1005,
            Pin::AIN_6 => 1006,
            Pin::AIN_7 => 1007,
        }
    }

    /// Whether the pin is an analog input.
    pub open spec fn spec_is_analog(self) -> bool {
        self.spec_number() >= ANALOG_OFFSET
    }

    /// Whether the pin is an analog input.
    #[verifier::when_used_as_spec(spec_is_analog)]
    pub fn is_analog(self) -> (b: bool)
        ensures
            b == self.spec_is_analog(),
    {
        self.number() >= ANALOG_OFFSET
    }

    /// The channel of an analog input: its number without the offset.
    pub open spec fn spec_analog_channel(self) -> Option<u16> {
        if self.spec_is_analog() {
            Some((self.spec_number() - ANALOG_OFFSET) as u16)
        } else {
            None
        }
    }

    /// The channel of the pin, if it is an analog input.
    #[verifier::when_used_as_spec(spec_analog_channel)]
    pub fn analog_channel(self) -> (channel: Option<u16>)
        ensures
            channel == self.spec_analog_channel(),
    {
        let n = self.number();
        if n >= ANALOG_OFFSET {
            Some(n - ANALOG_OFFSET)
        } else {
            None
        }
    }
}

/// No two pins share a number: the offset keeps the analog inputs clear
/// of the digital pins.
pub proof fn lemma_numbers_tell_pins_apart(a: Pin, b: Pin)
    ensures
        a.number() == b.number() <==> a == b,
{
}

/// The number of a digital pin fits in one byte, and an analog input has
/// one of the channels 0 to 7.
pub proof fn lemma_number_ranges(pin: Pin)
    ensures
        !pin.is_analog() ==> pin.number() <= 125,
        pin.is_analog() ==> pin.number() - ANALOG_OFFSET <= 7,
{
}

} // verus!
