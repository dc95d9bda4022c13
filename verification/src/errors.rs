//! The failures that an operation on a peripheral reports.

use crate::enums::DeviceState;
use vstd::prelude::*;

verus! {

/// How an access to a device file went wrong, as the function that made the
/// access reports it.
#[derive(Debug, Clone, Copy, PartialEq, Eq, Structural)]
pub enum IoFailure {
    /// The file could not be opened.
    OpenFailed,
    /// The file was opened, and the read, write or control call on it failed.
    TransferFailed,
}

/// The operations that move data to or from a device file.
#[derive(Debug, Clone, Copy, PartialEq, Eq, Structural)]
pub enum Operation {
    GpioSetDirection,
    GpioWrite,
    GpioRead,
    PwmSetPeriod,
    PwmSetState,
    PwmSetDutyCycle,
    AdcRead,
    I2cSetSlaveAddress,
    I2cWrite,
    I2cRead,
    SpiGetMode,
    SpiSetMode,
    SpiGetLsbFirst,
    SpiSetLsbFirst,
    SpiGetBitsPerWord,
    SpiSetBitsPerWord,
    SpiGetMaxSpeedHz,
    SpiSetMaxSpeedHz,
    SpiTransfer,
    UartWrite,
    UartRead,
    UartConfigure,
}

/// Why an operation on a peripheral failed.
#[derive(Debug, PartialEq, Eq)]
pub enum Error {
    /// The device file at `path` could not be opened.
    OpenFailed { path: String },
    /// The device file was opened, and the access that `operation` makes
    /// failed.
    TransferFailed { operation: Operation },
    /// The attribute at `path` held `content`, which is not a value of the
    /// attribute's encoding.
    MalformedValue { path: String, content: String },
    /// The peripheral `id` could not be brought into the state `direction`.
    ExportFailed { id: u8, direction: DeviceState },
    /// The arguments break a rule of the operation; no access was made.
    PreconditionViolated,
}

/// What the failure `failure` of an access to the file at `path`, made by
/// `operation`, is reported as.
pub open spec fn reported(failure: IoFailure, path: Seq<char>, operation: Operation, error: Error) -> bool {
    match failure {
        IoFailure::OpenFailed => error matches Error::OpenFailed { path: p } && p@ == path,
        IoFailure::TransferFailed => error == (Error::TransferFailed { operation }),
    }
}

impl Error {
    /// Adds to a failed access the context that tells which access it was:
    /// the path of a file that did not open, the operation whose transfer
    /// failed.
    pub fn from_io(failure: IoFailure, path: &str, operation: Operation) -> (error: Error)
        ensures
            reported(failure, path@, operation, error),
    {
        match failure {
            IoFailure::OpenFailed => Error::OpenFailed { path: path.to_owned() },
            IoFailure::TransferFailed => Error::TransferFailed { operation },
        }
    }
}

} // verus!
