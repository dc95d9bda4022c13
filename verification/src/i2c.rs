//! The I2C module.
//!
//! The BeagleBone Black has 2 I2C interfaces available (I2C1 and I2C2).
//! These can be enabled by using the bone_capemgr module, with the overlay
//! `BB-I2C1` for the first of them.
//!
//! An interface is the character device `/dev/i2c-{N}`. It is spoken to by
//! two control calls: one selects the slave that the transfers after it go
//! to, the other makes one SMBus transfer that a control block describes.
//! This module moves single bytes only.

use crate::errors::{Error, IoFailure, Operation};
use crate::ioctl::{control_outcome, control_result, Access, ControlCode, PayloadType};
use crate::text::{decimal, decimal_string};
use vstd::prelude::*;
use vstd::string::*;

verus! {

/// The magic byte of the I2C driver's control calls.
pub const I2C_IOC_MAGIC: u8 = 0x07;

/// The number of the control call that selects the slave.
pub const I2C_IOC_NR_SLAVE: u8 = 0x03;

/// The number of the control call that makes an SMBus transfer.
pub const I2C_IOC_NR_SMBUS: u8 = 0x20;

/// The direction flag of a transfer to the slave.
pub const I2C_SMBUS_WRITE: u8 = 0;

/// The direction flag of a transfer from the slave.
pub const I2C_SMBUS_READ: u8 = 1;

/// The size field of a transfer of one byte.
pub const I2C_SMBUS_BYTE: u32 = 1;

/// The length of a control block's data buffer: the longest SMBus block, of
/// 32 bytes, and 2 bytes more for its length and its checksum.
pub const I2C_SMBUS_BUFFER: usize = 34;

/// The control call that selects the slave.
pub open spec fn slave_code() -> ControlCode {
    ControlCode {
        magic: I2C_IOC_MAGIC,
        number: I2C_IOC_NR_SLAVE,
        access: Access::Bare,
        payload: PayloadType::Address,
    }
}

/// The control call that makes an SMBus transfer.
pub open spec fn smbus_code() -> ControlCode {
    ControlCode {
        magic: I2C_IOC_MAGIC,
        number: I2C_IOC_NR_SMBUS,
        access: Access::Bare,
        payload: PayloadType::SmbusBlock,
    }
}

/// The way of an SMBus transfer.
#[derive(Debug, Clone, Copy, PartialEq, Eq, Structural)]
pub enum I2CDirection {
    /// To the slave.
    Write,
    /// From the slave.
    Read,
}

impl I2CDirection {
    /// The direction flag of the control block.
    pub open spec fn spec_flag(self) -> u8 {
        match self {
            I2CDirection::Write => I2C_SMBUS_WRITE,
            I2CDirection::Read => I2C_SMBUS_READ,
        }
    }

    /// The direction flag of the control block.
    #[verifier::when_used_as_spec(spec_flag)]
    pub fn flag(self) -> (flag: u8)
        ensures
            flag == self.spec_flag(),
    {
        match self {
            I2CDirection::Write => I2C_SMBUS_WRITE,
            I2CDirection::Read => I2C_SMBUS_READ,
        }
    }
}

/// The control block of one SMBus transfer, with the fields of the kernel's
/// record in their order, and the data buffer itself where the kernel's
/// record points to one.
#[derive(Debug, Clone, Copy, PartialEq, Eq)]
pub struct I2CTransferBlock {
    /// The way of the transfer.
    pub direction: I2CDirection,
    /// The command byte. A write of one byte carries the byte here.
    pub command: u8,
    /// The kind of transfer.
    pub size: u32,
    /// The data buffer.
    pub data: [u8; 34],
}

/// Whether `block` is the control block of a transfer of one byte: in the
/// direction `direction`, with the command `command`, and with a data buffer
/// of zeros.
pub open spec fn is_byte_transfer(
    block: I2CTransferBlock,
    direction: I2CDirection,
    command: u8,
) -> bool {
    &&& block.direction == direction
    &&& block.command == command
    &&& block.size == I2C_SMBUS_BYTE
    &&& forall|i: int| 0 <= i < I2C_SMBUS_BUFFER ==> #[trigger] block.data@[i] == 0
}

/// The path of the character device of the interface `i2c_num`.
pub open spec fn i2c_device_path(i2c_num: u8) -> Seq<char> {
    "/dev/i2c-"@ + decimal(i2c_num as nat)
}

/// Represents an I2C interface.
#[derive(Debug)]
pub struct I2C {
    i2c_num: u8,
}

impl I2C {
    /// The number of the interface.
    pub closed spec fn spec_i2c_num(&self) -> u8 {
        self.i2c_num
    }

    /// The number of the interface.
    #[verifier::when_used_as_spec(spec_i2c_num)]
    pub fn i2c_num(&self) -> (n: u8)
        ensures
            n == self.spec_i2c_num(),
    {
        self.i2c_num
    }

    /// Creates a new I2C device, by one call of `open` with the path of the
    /// interface's character device, which is to be opened for reading and
    /// writing.
    ///
    /// # Errors
    ///
    /// Fails with `OpenFailed` and the path if `open` fails, which it will if
    /// `i2c_num` is no I2C port of the board.
    pub fn new<O: FnOnce(&str) -> Result<(), IoFailure>>(i2c_num: u8, open: O) -> (r: Result<
        I2C,
        Error,
    >)
        requires
            forall|p: &str| p@ == i2c_device_path(i2c_num) ==> #[trigger] open.requires((p,)),
        ensures
            exists|p: &str, outcome: Result<(), IoFailure>|
                p@ == i2c_device_path(i2c_num) && #[trigger] open.ensures((p,), outcome) && (
                match outcome {
                    Ok(()) => r matches Ok(i2c) && i2c.i2c_num() == i2c_num,
                    Err(_) => r matches Err(Error::OpenFailed { path }) && path@
                        == i2c_device_path(i2c_num),
                }),
    {
        let mut path = String::from_str("/dev/i2c-");
        path.append(decimal_string(i2c_num as u32).as_str());
        let outcome = open(path.as_str());
        match outcome {
            Ok(()) => Ok(I2C { i2c_num }),
            Err(_) => Err(Error::OpenFailed { path }),
        }
    }

    /// Sets the address of the I2C slave device, by one call of `call`, with
    /// the name of the control call that selects the slave and the address.
    /// The transfers after it go to that slave.
    ///
    /// # Errors
    ///
    /// Fails with `TransferFailed` if `call` fails.
    pub fn set_slave_address<C: FnOnce(ControlCode, u16) -> Result<(), IoFailure>>(
        &self,
        slave_addr: u16,
        call: C,
    ) -> (r: Result<(), Error>)
        requires
            call.requires((slave_code(), slave_addr)),
        ensures
            exists|outcome: Result<(), IoFailure>| #[trigger]
                call.ensures((slave_code(), slave_addr), outcome) && control_result(
                    outcome,
                    Operation::I2cSetSlaveAddress,
                    r,
                ),
    {
        let code = ControlCode {
            magic: I2C_IOC_MAGIC,
            number: I2C_IOC_NR_SLAVE,
            access: Access::Bare,
            payload: PayloadType::Address,
        };
        let outcome = call(code, slave_addr);
        control_outcome(outcome, Operation::I2cSetSlaveAddress)
    }

    /// Writes a single byte to an I2C slave, by one call of `call`, with the
    /// name of the control call for an SMBus transfer and the control block
    /// of a write of one byte, which carries `data` as its command.
    ///
    /// # Errors
    ///
    /// Fails with `TransferFailed` if `call` fails.
    pub fn write<C: FnOnce(ControlCode, I2CTransferBlock) -> Result<[u8; 34], IoFailure>>(
        &self,
        data: u8,
        call: C,
    ) -> (r: Result<(), Error>)
        requires
            forall|block: I2CTransferBlock|
                is_byte_transfer(block, I2CDirection::Write, data) ==> #[trigger] call.requires(
                    (smbus_code(), block),
                ),
        ensures
            exists|block: I2CTransferBlock, outcome: Result<[u8; 34], IoFailure>|
                is_byte_transfer(block, I2CDirection::Write, data) && #[trigger] call.ensures(
                    (smbus_code(), block),
                    outcome,
                ) && (match outcome {
                    Ok(_) => r is Ok,
                    Err(_) => r == Err::<(), Error>(
                        Error::TransferFailed { operation: Operation::I2cWrite },
                    ),
                }),
    {
        let code = ControlCode {
            magic: I2C_IOC_MAGIC,
            number: I2C_IOC_NR_SMBUS,
            access: Access::Bare,
            payload: PayloadType::SmbusBlock,
        };
        let block = I2CTransferBlock {
            direction: I2CDirection::Write,
            command: data,
            size: I2C_SMBUS_BYTE,
            data: [0u8; 34],
        };
        let outcome = call(code, block);
        match outcome {
            Ok(_) => Ok(()),
            Err(_) => Err(Error::TransferFailed { operation: Operation::I2cWrite }),
        }
    }

    /// Reads a single byte from an I2C slave and returns it, by one call of
    /// `call`, with the name of the control call for an SMBus transfer and
    /// the control block of a read of one byte. `call` gives the data buffer
    /// as the kernel left it, and the byte read is the buffer's first.
    ///
    /// # Errors
    ///
    /// Fails with `TransferFailed` if `call` fails.
    pub fn read<C: FnOnce(ControlCode, I2CTransferBlock) -> Result<[u8; 34], IoFailure>>(
        &self,
        call: C,
    ) -> (r: Result<u8, Error>)
        requires
            forall|block: I2CTransferBlock|
                is_byte_transfer(block, I2CDirection::Read, 0) ==> #[trigger] call.requires(
                    (smbus_code(), block),
                ),
        ensures
            exists|block: I2CTransferBlock, outcome: Result<[u8; 34], IoFailure>|
                is_byte_transfer(block, I2CDirection::Read, 0) && #[trigger] call.ensures(
                    (smbus_code(), block),
                    outcome,
                ) && (match outcome {
                    Ok(buffer) => r == Ok::<u8, Error>(buffer@[0]),
                    Err(_) => r == Err::<u8, Error>(
                        Error::TransferFailed { operation: Operation::I2cRead },
                    ),
                }),
    {
        let code = ControlCode {
            magic: I2C_IOC_MAGIC,
            number: I2C_IOC_NR_SMBUS,
            access: Access::Bare,
            payload: PayloadType::SmbusBlock,
        };
        let block = I2CTransferBlock {
            direction: I2CDirection::Read,
            command: 0,
            size: I2C_SMBUS_BYTE,
            data: [0u8; 34],
        };
        let outcome = call(code, block);
        match outcome {
            Ok(buffer) => Ok(buffer[0]),
            Err(_) => Err(Error::TransferFailed { operation: Operation::I2cRead }),
        }
    }
}

} // verus!
