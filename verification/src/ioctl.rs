//! What names a control call on a character device.
//!
//! The kernel tells the control calls of a driver apart by a magic byte and
//! a number. For most calls the request number that reaches the kernel also
//! holds which way the payload goes and how large it is; the two calls of the
//! I2C driver are older than that, and their request number is the magic byte
//! and the number alone. What is fixed here must be what the drivers
//! `i2c-dev` and `spidev` of the running kernel expect.

use crate::errors::{Error, IoFailure, Operation};
use vstd::prelude::*;

verus! {

/// Which way a control call moves its payload, as far as its request number
/// says so.
#[derive(Debug, Clone, Copy, PartialEq, Eq, Structural)]
pub enum Access {
    /// The request number is the magic byte and the number, nothing else.
    Bare,
    /// The kernel fills the payload in.
    Read,
    /// The kernel takes the payload.
    Write,
}

/// What a control call carries.
#[derive(Debug, Clone, Copy, PartialEq, Eq, Structural)]
pub enum PayloadType {
    /// The address of an I2C slave, passed as the argument itself.
    Address,
    /// A block that describes one SMBus transfer.
    SmbusBlock,
    /// One byte.
    U8,
    /// One word of 32 bits.
    U32,
    /// A block that describes one SPI transfer.
    SpiTransfer,
}

/// The name of a control call: the driver's magic byte, the call's number,
/// the way of its payload and the payload's type.
#[derive(Debug, Clone, Copy, PartialEq, Eq, Structural)]
pub struct ControlCode {
    pub magic: u8,
    pub number: u8,
    pub access: Access,
    pub payload: PayloadType,
}

/// A value that a control call hands to the kernel, in the width in which
/// the call takes it.
#[derive(Debug, Clone, Copy, PartialEq, Eq, Structural)]
pub enum Payload {
    /// One byte.
    U8(u8),
    /// One word of 32 bits.
    U32(u32),
}

/// What an operation returns for the outcome of its control call: what the
/// call gave, or, for any failure of the call, `TransferFailed` with the
/// operation.
pub open spec fn control_result<T>(
    outcome: Result<T, IoFailure>,
    operation: Operation,
    r: Result<T, Error>,
) -> bool {
    match outcome {
        Ok(value) => r == Ok::<T, Error>(value),
        Err(_) => r == Err::<T, Error>(Error::TransferFailed { operation }),
    }
}

/// Turns the outcome of the control call that `operation` made into the
/// operation's result.
pub fn control_outcome<T>(outcome: Result<T, IoFailure>, operation: Operation) -> (r: Result<
    T,
    Error,
>)
    ensures
        control_result(outcome, operation, r),
{
    match outcome {
        Ok(value) => Ok(value),
        Err(_) => Err(Error::TransferFailed { operation }),
    }
}

} // verus!
