//! The UART module.
//!
//! The BeagleBone Black has 6 UART interfaces available (UART{0-5}).
//! UART0 is enabled by default and is used by the kernel.
//! The rest of the UART devices can be enabled by using the bone_capemgr
//! module, with the overlay `BB-UART4` for the fifth of them.
//!
//! A UART is the serial device `/dev/ttyO{N}`. This module names the device
//! and moves bytes and text through a port that its caller has opened; the
//! line settings of the port are the caller's.

use crate::errors::{Error, IoFailure, Operation};
use crate::ioctl::{control_outcome, control_result};
use crate::text::{decimal, decimal_string};
use vstd::prelude::*;
use vstd::string::*;
use vstd::utf8::{
    decode_utf8, encode_utf8, encode_utf8_decode_utf8, encode_utf8_valid_utf8, valid_utf8,
};

verus! {

/// The path of the serial device of the UART `uart_num`.
pub open spec fn uart_device_path(uart_num: u32) -> Seq<char> {
    "/dev/ttyO"@ + decimal(uart_num as nat)
}

/// What a read returns for the outcome of the port's read of `num_bytes`
/// bytes: the bytes, where the port gave as many as were asked for, and else
/// `TransferFailed`.
pub open spec fn bytes_read(
    outcome: Result<Vec<u8>, IoFailure>,
    num_bytes: usize,
    r: Result<Vec<u8>, Error>,
) -> bool {
    match outcome {
        Ok(bytes) if bytes@.len() == num_bytes => r == Ok::<Vec<u8>, Error>(bytes),
        _ => r == Err::<Vec<u8>, Error>(Error::TransferFailed { operation: Operation::UartRead }),
    }
}

/// What a read of text returns for the outcome of the port's read of
/// `num_bytes` bytes: the text that the bytes encode in UTF-8;
/// `MalformedValue` with the device's path and no content where they encode
/// none; `TransferFailed` where the port gave no bytes, or not as many as
/// were asked for.
pub open spec fn text_read(
    outcome: Result<Vec<u8>, IoFailure>,
    num_bytes: usize,
    path: Seq<char>,
    r: Result<String, Error>,
) -> bool {
    match outcome {
        Ok(bytes) if bytes@.len() == num_bytes => if valid_utf8(bytes@) {
            r matches Ok(text) && text@ == decode_utf8(bytes@)
        } else {
            r matches Err(Error::MalformedValue { path: p, content: c }) && p@ == path && c@
                == Seq::<char>::empty()
        },
        _ => r == Err::<String, Error>(Error::TransferFailed { operation: Operation::UartRead }),
    }
}

/// `String::from_utf8` of std, with its error left out. It gives the text
/// whose bytes are `bytes`, and nothing if `bytes` are not UTF-8.
#[verifier::external_body]
fn string_from_utf8(bytes: Vec<u8>) -> (text: Option<String>)
    ensures
        match text {
            Some(text) => encode_utf8(text@) == bytes@,
            None => !valid_utf8(bytes@),
        },
{
    String::from_utf8(bytes).ok()
}

/// Represents a UART port.
#[derive(Debug)]
pub struct UART {
    uart_num: u32,
}

impl UART {
    /// The number of the UART.
    pub closed spec fn spec_uart_num(&self) -> u32 {
        self.uart_num
    }

    /// The number of the UART.
    #[verifier::when_used_as_spec(spec_uart_num)]
    pub fn uart_num(&self) -> (n: u32)
        ensures
            n == self.spec_uart_num(),
    {
        self.uart_num
    }

    /// The path of the UART's serial device.
    pub fn port_path(&self) -> (path: String)
        ensures
            path@ == uart_device_path(self.uart_num()),
    {
        let mut path = String::from_str("/dev/ttyO");
        path.append(decimal_string(self.uart_num).as_str());
        path
    }

    /// Creates a new UART port, by one call of `open` with the path of the
    /// UART's serial device.
    ///
    /// # Errors
    ///
    /// Fails with `OpenFailed` and the path if `open` fails, which it will
    /// if `uart_num` is no UART of the board.
    pub fn new<O: FnOnce(&str) -> Result<(), IoFailure>>(uart_num: u32, open: O) -> (r: Result<
        UART,
        Error,
    >)
        requires
            forall|p: &str| p@ == uart_device_path(uart_num) ==> #[trigger] open.requires((p,)),
        ensures
            exists|p: &str, outcome: Result<(), IoFailure>|
                p@ == uart_device_path(uart_num) && #[trigger] open.ensures((p,), outcome) && (
                match outcome {
                    Ok(()) => r matches Ok(uart) && uart.uart_num() == uart_num,
                    Err(_) => r matches Err(Error::OpenFailed { path }) && path@
                        == uart_device_path(uart_num),
                }),
    {
        let uart = UART { uart_num };
        let path = uart.port_path();
        let outcome = open(path.as_str());
        match outcome {
            Ok(()) => Ok(uart),
            Err(_) => Err(Error::OpenFailed { path }),
        }
    }

    /// Write data to a UART port, by one call of `write_all` with the bytes
    /// of `data`, which are its encoding in UTF-8.
    ///
    /// # Errors
    ///
    /// Fails with `TransferFailed` if `write_all` fails.
    pub fn write<W: FnOnce(&[u8]) -> Result<(), IoFailure>>(&mut self, data: &str, write_all: W) -> (r:
        Result<(), Error>)
        requires
            forall|bytes: &[u8]| bytes@ == data.spec_bytes() ==> #[trigger] write_all.requires((bytes,)),
        ensures
            *final(self) == *old(self),
            exists|bytes: &[u8], outcome: Result<(), IoFailure>|
                bytes@ == data.spec_bytes() && #[trigger] write_all.ensures((bytes,), outcome)
                    && control_result(outcome, Operation::UartWrite, r),
    {
        control_outcome(write_all(data.as_bytes()), Operation::UartWrite)
    }

    /// Read the specified number of bytes from the UART port, by one call of
    /// `read_exact` with that number.
    ///
    /// Returns a vector of bytes containing the bytes that were read from the
    /// port.
    ///
    /// # Errors
    ///
    /// Fails with `TransferFailed` if `read_exact` fails, or gives another
    /// number of bytes.
    pub fn read_chars<R: FnOnce(usize) -> Result<Vec<u8>, IoFailure>>(
        &mut self,
        num_bytes: usize,
        read_exact: R,
    ) -> (r: Result<Vec<u8>, Error>)
        requires
            read_exact.requires((num_bytes,)),
        ensures
            *final(self) == *old(self),
            exists|outcome: Result<Vec<u8>, IoFailure>| #[trigger]
                read_exact.ensures((num_bytes,), outcome) && bytes_read(outcome, num_bytes, r),
    {
        match read_exact(num_bytes) {
            Ok(bytes) => {
                if bytes.len() == num_bytes {
                    Ok(bytes)
                } else {
                    Err(Error::TransferFailed { operation: Operation::UartRead })
                }
            },
            Err(_) => Err(Error::TransferFailed { operation: Operation::UartRead }),
        }
    }

    /// Read the specified number of bytes and return it as a string.
    ///
    /// Returns a string containing the bytes that were read from the port,
    /// by one call of `read_exact`.
    ///
    /// # Errors
    ///
    /// Fails with `TransferFailed` as `read_chars` does, and with
    /// `MalformedValue` if the bytes are not UTF-8.
    pub fn read_to_string<R: FnOnce(usize) -> Result<Vec<u8>, IoFailure>>(
        &mut self,
        num_bytes: usize,
        read_exact: R,
    ) -> (r: Result<String, Error>)
        requires
            read_exact.requires((num_bytes,)),
        ensures
            *final(self) == *old(self),
            exists|outcome: Result<Vec<u8>, IoFailure>| #[trigger]
                read_exact.ensures((num_bytes,), outcome) && text_read(
                    outcome,
                    num_bytes,
                    uart_device_path(old(self).uart_num()),
                    r,
                ),
    {
        match read_exact(num_bytes) {
            Ok(bytes) => {
                if bytes.len() == num_bytes {
                    match string_from_utf8(bytes) {
                        Some(text) => {
                            proof {
                                encode_utf8_valid_utf8(text@);
                                encode_utf8_decode_utf8(text@);
                            }
                            Ok(text)
                        },
                        None => Err(
                            Error::MalformedValue { path: self.port_path(), content: String::new() },
                        ),
                    }
                } else {
                    Err(Error::TransferFailed { operation: Operation::UartRead })
                }
            },
            Err(_) => Err(Error::TransferFailed { operation: Operation::UartRead }),
        }
    }
}

} // verus!
