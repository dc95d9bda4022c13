use libbeaglebone::adc::ADC;
use libbeaglebone::errors::{Error, IoFailure, Operation};
use libbeaglebone::pins::Pin;

fn malformed(channel: u16, content: &str) -> Error {
    Error::MalformedValue {
        path: format!("/sys/bus/iio/devices/iio:device0/in_voltage{}_raw", channel),
        content: content.to_string(),
    }
}

#[test]
fn new_adc_takes_the_offset_off_the_pin_number() {
    assert_eq!(ADC::new(Pin::AIN_0).adc_num(), 0);
    assert_eq!(ADC::new(Pin::AIN_6).adc_num(), 6);
    assert_eq!(ADC::new(Pin::AIN_7).adc_num(), 7);
}

#[test]
fn adc_read_parses_the_raw_attribute_of_its_channel() {
    let adc = ADC::new(Pin::AIN_6);
    let mut asked: Vec<String> = Vec::new();
    let r = adc.read(|path: &str| {
        asked.push(path.to_string());
        Ok("1234\n".to_string())
    });
    assert_eq!(r, Ok(1234));
    assert_eq!(asked, vec!["/sys/bus/iio/devices/iio:device0/in_voltage6_raw".to_string()]);
}

#[test]
fn adc_read_takes_every_number_of_32_bits() {
    let adc = ADC::new(Pin::AIN_0);
    assert_eq!(adc.read(|_: &str| Ok("0\n".to_string())), Ok(0));
    assert_eq!(adc.read(|_: &str| Ok("4095".to_string())), Ok(4095));
    assert_eq!(adc.read(|_: &str| Ok("  4294967295 \n".to_string())), Ok(4_294_967_295));
    assert_eq!(adc.read(|_: &str| Ok("007\n".to_string())), Ok(7));
    assert_eq!(adc.read(|_: &str| Ok("+5\n".to_string())), Ok(5));
    assert_eq!(adc.read(|_: &str| Ok("00000000000000000012".to_string())), Ok(12));
}

#[test]
fn adc_read_refuses_what_is_no_number_of_32_bits() {
    let adc = ADC::new(Pin::AIN_3);
    let contents: [(&str, &str); 9] = [
        ("", ""),
        ("\n", ""),
        ("abc\n", "abc"),
        ("-1\n", "-1"),
        ("+", "+"),
        ("12 34\n", "12 34"),
        ("1.5", "1.5"),
        ("4294967296\n", "4294967296"),
        ("99999999999999999999", "99999999999999999999"),
    ];
    for (content, trimmed) in contents {
        assert_eq!(adc.read(|_: &str| Ok(content.to_string())), Err(malformed(3, trimmed)));
    }
}

#[test]
fn adc_read_reports_a_failure_with_its_context() {
    let adc = ADC::new(Pin::AIN_1);
    assert_eq!(
        adc.read(|_: &str| Err(IoFailure::OpenFailed)),
        Err(Error::OpenFailed {
            path: "/sys/bus/iio/devices/iio:device0/in_voltage1_raw".to_string()
        })
    );
    assert_eq!(
        adc.read(|_: &str| Err(IoFailure::TransferFailed)),
        Err(Error::TransferFailed { operation: Operation::AdcRead })
    );
}

#[test]
fn scaled_reading_is_the_raw_reading_times_the_factor() {
    let adc = ADC::new(Pin::AIN_6);
    let raw: u32 = adc.read(|_: &str| Ok("2048\n".to_string())).unwrap();
    assert_eq!(raw as f32 * 0.5, 1024.0);
    assert_eq!(raw as f32 * 0.0, 0.0);
    let top: u32 = adc.read(|_: &str| Ok("4095\n".to_string())).unwrap();
    assert_eq!(top as f32 * 0.0, 0.0);
    assert_eq!(top as f32 * 2.0, 8190.0);
}
