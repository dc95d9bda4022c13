use libbeaglebone::enums::DeviceState;
use libbeaglebone::errors::{Error, IoFailure, Operation};
use libbeaglebone::gpio::{PinDirection, PinState, GPIO};
use libbeaglebone::pins::Pin;
use std::cell::RefCell;
use std::collections::BTreeMap;
use std::collections::BTreeSet;

/// A stand-in for the GPIO part of sysfs: the directories that are there, the
/// attributes with what they hold, and every write that was made.
struct FakeGpioFs {
    directories: RefCell<BTreeSet<String>>,
    attributes: RefCell<BTreeMap<String, String>>,
    writes: RefCell<Vec<(String, String)>>,
}

impl FakeGpioFs {
    fn new() -> FakeGpioFs {
        FakeGpioFs {
            directories: RefCell::new(BTreeSet::new()),
            attributes: RefCell::new(BTreeMap::new()),
            writes: RefCell::new(Vec::new()),
        }
    }

    fn is_there(&self, path: &str) -> bool {
        self.directories.borrow().contains(path)
    }

    fn write(&self, path: &str, text: &str) -> Result<(), IoFailure> {
        self.writes.borrow_mut().push((path.to_string(), text.to_string()));
        if path == "/sys/class/gpio/export" {
            self.directories.borrow_mut().insert(format!("/sys/class/gpio/gpio{}", text));
        } else if path == "/sys/class/gpio/unexport" {
            self.directories.borrow_mut().remove(&format!("/sys/class/gpio/gpio{}", text));
        } else {
            self.attributes.borrow_mut().insert(path.to_string(), format!("{}\n", text));
        }
        Ok(())
    }

    fn read(&self, path: &str) -> Result<String, IoFailure> {
        match self.attributes.borrow().get(path) {
            Some(content) => Ok(content.clone()),
            None => Err(IoFailure::OpenFailed),
        }
    }

    fn writes(&self) -> Vec<(String, String)> {
        self.writes.borrow().clone()
    }
}

fn pair(path: &str, text: &str) -> (String, String) {
    (path.to_string(), text.to_string())
}

#[test]
fn new_keeps_the_number_of_a_digital_pin() {
    assert_eq!(GPIO::new(Pin::GPIO_P8_9).pin_num(), 69);
    assert_eq!(GPIO::new(Pin::GPIO_P8_11).pin_num(), 45);
    assert_eq!(GPIO::new(Pin::GPIO_P9_27).pin_num(), 125);
    assert_eq!(GPIO::new(Pin::GPIO_P9_22).pin_num(), 2);
}

#[test]
fn new_keeps_the_low_byte_of_an_analog_number() {
    assert_eq!(GPIO::new(Pin::AIN_0).pin_num(), 232);
    assert_eq!(GPIO::new(Pin::AIN_7).pin_num(), 239);
}

#[test]
fn pin_path_is_the_directory_of_the_pin() {
    assert_eq!(GPIO::new(Pin::GPIO_P8_9).pin_path(), "/sys/class/gpio/gpio69");
    assert_eq!(GPIO::new(Pin::GPIO_P9_22).pin_path(), "/sys/class/gpio/gpio2");
    assert_eq!(GPIO::new(Pin::GPIO_P9_27).pin_path(), "/sys/class/gpio/gpio125");
}

#[test]
fn set_direction_writes_out_to_the_direction_attribute() {
    let gpio = GPIO::new(Pin::GPIO_P8_9);
    let fs = FakeGpioFs::new();
    let r = gpio.set_direction(PinDirection::Out, |path: &str, text: &str| fs.write(path, text));
    assert_eq!(r, Ok(()));
    assert_eq!(fs.writes(), vec![pair("/sys/class/gpio/gpio69/direction", "out")]);
}

#[test]
fn set_direction_writes_in_to_the_direction_attribute() {
    let gpio = GPIO::new(Pin::GPIO_P8_7);
    let fs = FakeGpioFs::new();
    let r = gpio.set_direction(PinDirection::In, |path: &str, text: &str| fs.write(path, text));
    assert_eq!(r, Ok(()));
    assert_eq!(fs.writes(), vec![pair("/sys/class/gpio/gpio66/direction", "in")]);
}

#[test]
fn set_direction_reports_a_file_that_did_not_open() {
    let gpio = GPIO::new(Pin::GPIO_P8_9);
    let r = gpio.set_direction(PinDirection::Out, |_: &str, _: &str| Err(IoFailure::OpenFailed));
    assert_eq!(
        r,
        Err(Error::OpenFailed { path: "/sys/class/gpio/gpio69/direction".to_string() })
    );
}

#[test]
fn set_direction_reports_a_write_that_failed() {
    let gpio = GPIO::new(Pin::GPIO_P8_9);
    let r =
        gpio.set_direction(PinDirection::Out, |_: &str, _: &str| Err(IoFailure::TransferFailed));
    assert_eq!(r, Err(Error::TransferFailed { operation: Operation::GpioSetDirection }));
}

#[test]
fn export_of_an_unexported_pin_writes_its_number_once() {
    let gpio = GPIO::new(Pin::GPIO_P8_9);
    let fs = FakeGpioFs::new();
    let r = gpio.set_export(
        DeviceState::Exported,
        |path: &str| fs.is_there(path),
        |path: &str, text: &str| fs.write(path, text),
    );
    assert_eq!(r, Ok(()));
    assert_eq!(fs.writes(), vec![pair("/sys/class/gpio/export", "69")]);
    assert!(fs.is_there("/sys/class/gpio/gpio69"));
}

#[test]
fn export_twice_writes_once() {
    let gpio = GPIO::new(Pin::GPIO_P8_9);
    let fs = FakeGpioFs::new();
    let first = gpio.set_export(
        DeviceState::Exported,
        |path: &str| fs.is_there(path),
        |path: &str, text: &str| fs.write(path, text),
    );
    let second = gpio.set_export(
        DeviceState::Exported,
        |path: &str| fs.is_there(path),
        |path: &str, text: &str| fs.write(path, text),
    );
    assert_eq!(first, Ok(()));
    assert_eq!(second, Ok(()));
    assert_eq!(fs.writes(), vec![pair("/sys/class/gpio/export", "69")]);
}

#[test]
fn export_twice_writes_once_for_every_pin_number() {
    let pins: [Pin; 5] =
        [Pin::GPIO_P9_22, Pin::GPIO_P8_33, Pin::GPIO_P8_11, Pin::GPIO_P8_30, Pin::GPIO_P9_27];
    for pin in pins {
        let gpio = GPIO::new(pin);
        let fs = FakeGpioFs::new();
        for _ in 0..2 {
            let r = gpio.set_export(
                DeviceState::Exported,
                |path: &str| fs.is_there(path),
                |path: &str, text: &str| fs.write(path, text),
            );
            assert_eq!(r, Ok(()));
        }
        assert_eq!(fs.writes(), vec![pair("/sys/class/gpio/export", &pin.number().to_string())]);
    }
}

#[test]
fn unexport_of_an_unexported_pin_writes_nothing() {
    let gpio = GPIO::new(Pin::GPIO_P8_9);
    let fs = FakeGpioFs::new();
    let r = gpio.set_export(
        DeviceState::Unexported,
        |path: &str| fs.is_there(path),
        |path: &str, text: &str| fs.write(path, text),
    );
    assert_eq!(r, Ok(()));
    assert_eq!(fs.writes(), Vec::new());
}

#[test]
fn unexport_of_an_exported_pin_writes_its_number_to_unexport() {
    let gpio = GPIO::new(Pin::GPIO_P8_9);
    let fs = FakeGpioFs::new();
    fs.directories.borrow_mut().insert("/sys/class/gpio/gpio69".to_string());
    let r = gpio.set_export(
        DeviceState::Unexported,
        |path: &str| fs.is_there(path),
        |path: &str, text: &str| fs.write(path, text),
    );
    assert_eq!(r, Ok(()));
    assert_eq!(fs.writes(), vec![pair("/sys/class/gpio/unexport", "69")]);
    assert!(!fs.is_there("/sys/class/gpio/gpio69"));
}

#[test]
fn export_probes_the_directory_of_the_pin() {
    let gpio = GPIO::new(Pin::GPIO_P8_9);
    let mut probed: Vec<String> = Vec::new();
    let r = gpio.set_export(
        DeviceState::Exported,
        |path: &str| {
            probed.push(path.to_string());
            true
        },
        |_: &str, _: &str| panic!("an exported pin is not exported again"),
    );
    assert_eq!(r, Ok(()));
    assert_eq!(probed, vec!["/sys/class/gpio/gpio69".to_string()]);
}

#[test]
fn export_that_fails_names_the_pin_and_the_state() {
    let gpio = GPIO::new(Pin::GPIO_P8_9);
    let opened = gpio.set_export(
        DeviceState::Exported,
        |_: &str| false,
        |_: &str, _: &str| Err(IoFailure::OpenFailed),
    );
    assert_eq!(opened, Err(Error::ExportFailed { id: 69, direction: DeviceState::Exported }));
    let written = gpio.set_export(
        DeviceState::Unexported,
        |_: &str| true,
        |_: &str, _: &str| Err(IoFailure::TransferFailed),
    );
    assert_eq!(written, Err(Error::ExportFailed { id: 69, direction: DeviceState::Unexported }));
}

#[test]
fn write_puts_the_level_into_the_value_attribute() {
    let mut gpio = GPIO::new(Pin::GPIO_P8_9);
    let fs = FakeGpioFs::new();
    assert_eq!(gpio.write(PinState::High, |path: &str, text: &str| fs.write(path, text)), Ok(()));
    assert_eq!(gpio.write(PinState::Low, |path: &str, text: &str| fs.write(path, text)), Ok(()));
    assert_eq!(
        fs.writes(),
        vec![pair("/sys/class/gpio/gpio69/value", "1"), pair("/sys/class/gpio/gpio69/value", "0")]
    );
    assert_eq!(gpio.pin_num(), 69);
}

#[test]
fn write_reports_a_failure_with_its_context() {
    let mut gpio = GPIO::new(Pin::GPIO_P8_9);
    assert_eq!(
        gpio.write(PinState::High, |_: &str, _: &str| Err(IoFailure::OpenFailed)),
        Err(Error::OpenFailed { path: "/sys/class/gpio/gpio69/value".to_string() })
    );
    assert_eq!(
        gpio.write(PinState::High, |_: &str, _: &str| Err(IoFailure::TransferFailed)),
        Err(Error::TransferFailed { operation: Operation::GpioWrite })
    );
}

#[test]
fn read_takes_one_for_high_and_zero_for_low() {
    let gpio = GPIO::new(Pin::GPIO_P8_9);
    let mut asked: Vec<String> = Vec::new();
    let high = gpio.read(|path: &str| {
        asked.push(path.to_string());
        Ok("1\n".to_string())
    });
    assert_eq!(high, Ok(PinState::High));
    assert_eq!(asked, vec!["/sys/class/gpio/gpio69/value".to_string()]);
    assert_eq!(gpio.read(|_: &str| Ok("0\n".to_string())), Ok(PinState::Low));
    assert_eq!(gpio.read(|_: &str| Ok("1".to_string())), Ok(PinState::High));
    assert_eq!(gpio.read(|_: &str| Ok(" \t0\r\n".to_string())), Ok(PinState::Low));
}

#[test]
fn read_refuses_what_is_no_level() {
    let gpio = GPIO::new(Pin::GPIO_P8_9);
    let contents: [(&str, &str); 6] =
        [("2\n", "2"), ("", ""), ("\n", ""), ("10\n", "10"), ("high", "high"), ("1 1", "1 1")];
    for (content, trimmed) in contents {
        assert_eq!(
            gpio.read(|_: &str| Ok(content.to_string())),
            Err(Error::MalformedValue {
                path: "/sys/class/gpio/gpio69/value".to_string(),
                content: trimmed.to_string(),
            })
        );
    }
}

#[test]
fn read_reports_a_failure_with_its_context() {
    let gpio = GPIO::new(Pin::GPIO_P8_9);
    assert_eq!(
        gpio.read(|_: &str| Err(IoFailure::OpenFailed)),
        Err(Error::OpenFailed { path: "/sys/class/gpio/gpio69/value".to_string() })
    );
    assert_eq!(
        gpio.read(|_: &str| Err(IoFailure::TransferFailed)),
        Err(Error::TransferFailed { operation: Operation::GpioRead })
    );
}

#[test]
fn read_gives_back_what_write_wrote() {
    let mut gpio = GPIO::new(Pin::GPIO_P8_9);
    let fs = FakeGpioFs::new();
    assert_eq!(gpio.write(PinState::High, |path: &str, text: &str| fs.write(path, text)), Ok(()));
    assert_eq!(gpio.read(|path: &str| fs.read(path)), Ok(PinState::High));
    assert_eq!(gpio.write(PinState::Low, |path: &str, text: &str| fs.write(path, text)), Ok(()));
    assert_eq!(gpio.read(|path: &str| fs.read(path)), Ok(PinState::Low));
}

#[test]
fn from_text_decodes_a_trimmed_level() {
    assert_eq!(PinState::from_text("1"), Some(PinState::High));
    assert_eq!(PinState::from_text("0"), Some(PinState::Low));
    assert_eq!(PinState::from_text("1\n"), None);
    assert_eq!(PinState::from_text(""), None);
    assert_eq!(PinState::from_text("01"), None);
}

#[test]
fn led_on_pin_69_is_exported_set_up_switched_on_and_read_back() {
    let mut gpio = GPIO::new(Pin::GPIO_P8_9);
    let fs = FakeGpioFs::new();
    assert!(!fs.is_there("/sys/class/gpio/gpio69"));
    let exported = gpio.set_export(
        DeviceState::Exported,
        |path: &str| fs.is_there(path),
        |path: &str, text: &str| fs.write(path, text),
    );
    assert_eq!(exported, Ok(()));
    assert_eq!(fs.writes(), vec![pair("/sys/class/gpio/export", "69")]);
    assert!(fs.is_there("/sys/class/gpio/gpio69"));

    let directed =
        gpio.set_direction(PinDirection::Out, |path: &str, text: &str| fs.write(path, text));
    assert_eq!(directed, Ok(()));
    assert_eq!(fs.writes()[1], pair("/sys/class/gpio/gpio69/direction", "out"));

    let written = gpio.write(PinState::High, |path: &str, text: &str| fs.write(path, text));
    assert_eq!(written, Ok(()));
    assert_eq!(fs.writes()[2], pair("/sys/class/gpio/gpio69/value", "1"));
    assert_eq!(fs.writes().len(), 3);

    assert_eq!(gpio.read(|_: &str| Ok("1\n".to_string())), Ok(PinState::High));
}
