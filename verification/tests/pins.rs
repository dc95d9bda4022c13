use libbeaglebone::gpio::GPIO;
use libbeaglebone::pins::Pin;

fn every_pin() -> Vec<(Pin, u16)> {
    vec![
        (Pin::GPIO_P8_3, 38),
        (Pin::GPIO_P8_4, 39),
        (Pin::GPIO_P8_5, 34),
        (Pin::GPIO_P8_6, 35),
        (Pin::GPIO_P8_7, 66),
        (Pin::GPIO_P8_8, 67),
        (Pin::GPIO_P8_9, 69),
        (Pin::GPIO_P8_10, 68),
        (Pin::GPIO_P8_11, 45),
        (Pin::GPIO_P8_12, 44),
        (Pin::GPIO_P8_13, 23),
        (Pin::GPIO_P8_14, 26),
        (Pin::GPIO_P8_15, 47),
        (Pin::GPIO_P8_16, 46),
        (Pin::GPIO_P8_17, 27),
        (Pin::GPIO_P8_18, 65),
        (Pin::GPIO_P8_19, 22),
        (Pin::GPIO_P8_20, 63),
        (Pin::GPIO_P8_21, 62),
        (Pin::GPIO_P8_22, 37),
        (Pin::GPIO_P8_23, 36),
        (Pin::GPIO_P8_24, 33),
        (Pin::GPIO_P8_25, 32),
        (Pin::GPIO_P8_26, 61),
        (Pin::GPIO_P8_27, 86),
        (Pin::GPIO_P8_28, 88),
        (Pin::GPIO_P8_29, 87),
        (Pin::GPIO_P8_30, 89),
        (Pin::GPIO_P8_31, 10),
        (Pin::GPIO_P8_32, 11),
        (Pin::GPIO_P8_33, 9),
        (Pin::GPIO_P8_34, 81),
        (Pin::GPIO_P8_35, 8),
        (Pin::GPIO_P8_36, 80),
        (Pin::GPIO_P8_37, 78),
        (Pin::GPIO_P8_38, 79),
        (Pin::GPIO_P8_39, 76),
        (Pin::GPIO_P8_40, 77),
        (Pin::GPIO_P8_41, 74),
        (Pin::GPIO_P8_42, 75),
        (Pin::GPIO_P8_43, 72),
        (Pin::GPIO_P8_44, 73),
        (Pin::GPIO_P8_45, 70),
        (Pin::GPIO_P8_46, 71),
        (Pin::GPIO_P9_11, 30),
        (Pin::GPIO_P9_12, 60),
        (Pin::GPIO_P9_13, 31),
        (Pin::GPIO_P9_14, 40),
        (Pin::GPIO_P9_15, 48),
        (Pin::GPIO_P9_16, 51),
        (Pin::GPIO_P9_17, 4),
        (Pin::GPIO_P9_18, 5),
        (Pin::GPIO_P9_21, 3),
        (Pin::GPIO_P9_22, 2),
        (Pin::GPIO_P9_23, 49),
        (Pin::GPIO_P9_24, 15),
        (Pin::GPIO_P9_25, 117),
        (Pin::GPIO_P9_26, 14),
        (Pin::GPIO_P9_27, 125),
        (Pin::GPIO_P9_28, 123),
        (Pin::GPIO_P9_29, 121),
        (Pin::GPIO_P9_30, 122),
        (Pin::GPIO_P9_31, 120),
        (Pin::GPIO_P9_41, 20),
        (Pin::GPIO_P9_42, 7),
        (Pin::AIN_0, 1000),
        (Pin::AIN_1, 1001),
        (Pin::AIN_2, 1002),
        (Pin::AIN_3, 1003),
        (Pin::AIN_4, 1004),
        (Pin::AIN_5, 1005),
        (Pin::AIN_6, 1006),
        (Pin::AIN_7, 1007),
    ]
}

#[test]
fn every_pin_has_the_number_of_the_board() {
    let pins = every_pin();
    assert_eq!(pins.len(), 73);
    for (pin, number) in pins {
        assert_eq!(pin.number(), number);
    }
}

#[test]
fn no_two_pins_share_a_number() {
    let pins = every_pin();
    for (a, number_a) in &pins {
        for (b, number_b) in &pins {
            assert_eq!(a == b, number_a == number_b);
            assert_eq!(a == b, a.number() == b.number());
        }
    }
}

#[test]
fn digital_pins_fit_in_a_byte_and_analog_inputs_have_a_channel() {
    for (pin, number) in every_pin() {
        if pin.is_analog() {
            assert!(number >= 1000);
            assert_eq!(pin.analog_channel(), Some(number - 1000));
            assert!(number - 1000 <= 7);
        } else {
            assert!(number <= 125);
            assert_eq!(pin.analog_channel(), None);
            assert_eq!(u16::from(GPIO::new(pin).pin_num()), number);
        }
    }
}
