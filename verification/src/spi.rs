//! The SPI module.
//!
//! An interface is the character device `/dev/spidev{N}.0`. Its mode, its bit
//! order, its word size and its clock are each read and set by a control call
//! of their own, and one more control call makes a transfer that a transfer
//! block describes.

use crate::errors::{Error, IoFailure, Operation};
use crate::ioctl::{control_outcome, control_result, Access, ControlCode, Payload, PayloadType};
use crate::text::{decimal, decimal_string};
use vstd::prelude::*;
use vstd::string::*;

verus! {

// Constants extracted from linux/spi/spidev.h
/// Clock Phase
pub const SPI_CPHA: u32 = 0x01;

/// Clock Polarity
pub const SPI_CPOL: u32 = 0x02;

/// Chipselect Active High?
pub const SPI_CS_HIGH: u32 = 0x04;

/// Per-word Bits On Wire
pub const SPI_LSB_FIRST: u32 = 0x08;

/// SI/SO Signals Shared
pub const SPI_3WIRE: u32 = 0x10;

/// Loopback Mode
pub const SPI_LOOP: u32 = 0x20;

/// 1 dev/bus; no chipselect
pub const SPI_NO_CS: u32 = 0x40;

/// Slave pulls low to pause
pub const SPI_READY: u32 = 0x80;

// Common Configurations
pub const SPI_MODE_0: u32 = 0x00;

pub const SPI_MODE_1: u32 = SPI_CPHA;

pub const SPI_MODE_2: u32 = SPI_CPOL;

pub const SPI_MODE_3: u32 = SPI_CPOL | SPI_CPHA;

/// Transmit with 2 wires
pub const SPI_TX_DUAL: u32 = 0x100;

/// Transmit with 4 wires
pub const SPI_TX_QUAD: u32 = 0x200;

/// Receive with 2 wires
pub const SPI_RX_DUAL: u32 = 0x400;

/// Receive with 4 wires
pub const SPI_RX_QUAD: u32 = 0x800;

/// All the mode flags there are: the twelve lowest bits.
pub const SPI_MODE_ALL: u32 = 0xFFF;

/// A set of mode flags. It holds no bit that is no mode flag.
#[derive(Debug, Clone, Copy, PartialEq, Eq)]
pub struct SPIModeFlags {
    bits: u32,
}

impl SPIModeFlags {
    #[verifier::type_invariant]
    closed spec fn known(&self) -> bool {
        self.bits & !SPI_MODE_ALL == 0
    }

    /// The flags of the set, as the bits of one word.
    pub closed spec fn spec_bits(&self) -> u32 {
        self.bits
    }

    /// The set of no flags.
    pub fn empty() -> (flags: SPIModeFlags)
        ensures
            flags.bits() == 0,
    {
        assert(0u32 & !SPI_MODE_ALL == 0) by (bit_vector);
        SPIModeFlags { bits: 0 }
    }

    /// The set of the flags that `bits` holds, if every bit of `bits` is a
    /// mode flag.
    pub fn from_bits(bits: u32) -> (flags: Option<SPIModeFlags>)
        ensures
            match flags {
                Some(f) => bits & !SPI_MODE_ALL == 0 && f.bits() == bits,
                None => bits & !SPI_MODE_ALL != 0,
            },
    {
        if bits & !SPI_MODE_ALL == 0 {
            Some(SPIModeFlags { bits })
        } else {
            None
        }
    }

    /// The set of the flags that `bits` holds; what is no mode flag in `bits`
    /// is left out.
    pub fn from_bits_truncate(bits: u32) -> (flags: SPIModeFlags)
        ensures
            flags.bits() == bits & SPI_MODE_ALL,
    {
        assert((bits & SPI_MODE_ALL) & !SPI_MODE_ALL == 0) by (bit_vector);
        SPIModeFlags { bits: bits & SPI_MODE_ALL }
    }

    /// The flags of the set, as the bits of one word.
    #[verifier::when_used_as_spec(spec_bits)]
    pub fn bits(&self) -> (bits: u32)
        ensures
            bits == self.spec_bits(),
            bits & !SPI_MODE_ALL == 0,
    {
        proof {
            use_type_invariant(self);
        }
        self.bits
    }

    /// The set of the flags that are in `self` or in `other`.
    pub fn union(self, other: SPIModeFlags) -> (flags: SPIModeFlags)
        ensures
            flags.bits() == self.bits() | other.bits(),
    {
        proof {
            use_type_invariant(self);
            use_type_invariant(other);
        }
        let a = self.bits;
        let b = other.bits;
        assert((a | b) & !SPI_MODE_ALL == 0) by (bit_vector)
            requires
                a & !SPI_MODE_ALL == 0,
                b & !SPI_MODE_ALL == 0,
        ;
        SPIModeFlags { bits: a | b }
    }

    /// Whether every flag of `other` is in `self`.
    pub fn contains(&self, other: SPIModeFlags) -> (b: bool)
        ensures
            b == (self.bits() & other.bits() == other.bits()),
    {
        self.bits & other.bits == other.bits
    }
}

/// The transfer block of one SPI transfer: the transmit buffer and the
/// receive buffer, as far as there are any, and the length of the transfer,
/// which is the length of each buffer there is.
#[allow(non_camel_case_types)]
#[derive(Debug)]
pub struct spi_ioc_transfer<'a, 'b> {
    tx_buf: Option<&'a [u8]>,
    rx_buf: Option<&'b mut [u8]>,
    len: u32,
}

pub type SpidevTransfer<'a, 'b> = spi_ioc_transfer<'a, 'b>;

impl<'a, 'b> spi_ioc_transfer<'a, 'b> {
    #[verifier::type_invariant]
    closed spec fn well_formed(&self) -> bool {
        &&& self.tx_buf matches Some(tx) ==> tx@.len() == self.len
        &&& self.rx_buf matches Some(rx) ==> rx@.len() == self.len
    }

    /// The length of the transfer, in bytes.
    pub closed spec fn spec_len(&self) -> u32 {
        self.len
    }

    /// The bytes to transmit, if the transfer transmits.
    pub closed spec fn tx(&self) -> Option<Seq<u8>> {
        match self.tx_buf {
            Some(tx) => Some(tx@),
            None => None,
        }
    }

    /// What the receive buffer holds before the transfer, if the transfer
    /// receives.
    pub closed spec fn rx(&self) -> Option<Seq<u8>> {
        match self.rx_buf {
            Some(rx) => Some(rx@),
            None => None,
        }
    }

    /// The receive buffer itself, if the transfer receives.
    pub closed spec fn receive_buffer(&self) -> Option<&'b mut [u8]> {
        self.rx_buf
    }

    /// A transfer that receives into `buf`, in its whole length. What is
    /// written into the block's receive buffer is written into `buf`.
    pub fn read(buf: &'b mut [u8]) -> (transfer: Self)
        requires
            old(buf)@.len() <= u32::MAX,
        ensures
            transfer.tx() is None,
            transfer.rx() == Some(old(buf)@),
            transfer.receive_buffer() matches Some(rx) && final(rx)@ == final(buf)@,
            transfer.len() == old(buf)@.len(),
    {
        let len = buf.len() as u32;
        spi_ioc_transfer { tx_buf: None, rx_buf: Some(buf), len }
    }

    /// A transfer that transmits `buf`, in its whole length.
    pub fn write(buf: &'a [u8]) -> (transfer: Self)
        requires
            buf@.len() <= u32::MAX,
        ensures
            transfer.tx() == Some(buf@),
            transfer.rx() is None,
            transfer.receive_buffer() is None,
            transfer.len() == buf@.len(),
    {
        let len = buf.len() as u32;
        spi_ioc_transfer { tx_buf: Some(buf), rx_buf: None, len }
    }

    /// A transfer that transmits `tx_buf` and receives into `rx_buf`. What
    /// is written into the block's receive buffer is written into `rx_buf`.
    ///
    /// The `tx_buf` and `rx_buf` must be the same length.
    ///
    /// # Errors
    ///
    /// Fails with `PreconditionViolated` if the two lengths differ. No
    /// transfer block is made then, so that none can reach a device, and
    /// `rx_buf` stays as it is.
    pub fn read_write(tx_buf: &'a [u8], rx_buf: &'b mut [u8]) -> (r: Result<Self, Error>)
        requires
            tx_buf@.len() <= u32::MAX,
        ensures
            match r {
                Ok(transfer) => {
                    &&& tx_buf@.len() == old(rx_buf)@.len()
                    &&& transfer.tx() == Some(tx_buf@)
                    &&& transfer.rx() == Some(old(rx_buf)@)
                    &&& transfer.receive_buffer() matches Some(rx) && final(rx)@ == final(rx_buf)@
                    &&& transfer.len() == tx_buf@.len()
                },
                Err(error) => {
                    &&& tx_buf@.len() != old(rx_buf)@.len()
                    &&& error == Error::PreconditionViolated
                    &&& final(rx_buf)@ == old(rx_buf)@
                },
            },
    {
        if tx_buf.len() != rx_buf.len() {
            return Err(Error::PreconditionViolated);
        }
        let len = tx_buf.len() as u32;
        Ok(spi_ioc_transfer { tx_buf: Some(tx_buf), rx_buf: Some(rx_buf), len })
    }

    /// The length of the transfer, in bytes.
    #[verifier::when_used_as_spec(spec_len)]
    pub fn len(&self) -> (len: u32)
        ensures
            len == self.spec_len(),
            self.tx() matches Some(tx) ==> tx.len() == len,
            self.rx() matches Some(rx) ==> rx.len() == len,
    {
        proof {
            use_type_invariant(self);
        }
        self.len
    }

    /// Takes the transfer block apart, into the transmit buffer, the receive
    /// buffer and the length. Each buffer that is there has that length, and
    /// the receive buffer is the one that the block was made with.
    pub fn into_parts(self) -> (parts: (Option<&'a [u8]>, Option<&'b mut [u8]>, u32))
        ensures
            parts.2 == self.len(),
            match parts.0 {
                Some(tx) => self.tx() == Some(tx@) && tx@.len() == parts.2,
                None => self.tx() is None,
            },
            match parts.1 {
                Some(rx) => self.rx() == Some(rx@) && rx@.len() == parts.2,
                None => self.rx() is None,
            },
            parts.1 == self.receive_buffer(),
    {
        proof {
            use_type_invariant(&self);
        }
        (self.tx_buf, self.rx_buf, self.len)
    }
}

// IOCTL magic numbers
/// The magic byte of the SPI driver's control calls, the letter `k`.
pub const SPI_IOC_MAGIC: u8 = 0x6b;

pub const SPI_IOC_NR_TRANSFER: u8 = 0;

pub const SPI_IOC_NR_MODE: u8 = 1;

pub const SPI_IOC_NR_LSB_FIRST: u8 = 2;

pub const SPI_IOC_NR_BITS_PER_WORD: u8 = 3;

pub const SPI_IOC_NR_MAX_SPEED_HZ: u8 = 4;

pub const SPI_IOC_NR_MODE32: u8 = 5;

/// The control call of the SPI driver with the number `number`, which moves
/// a payload of the type `payload` the way `access`.
pub open spec fn spi_code(number: u8, access: Access, payload: PayloadType) -> ControlCode {
    ControlCode { magic: SPI_IOC_MAGIC, number, access, payload }
}

/// Whether a mode needs the control call that takes 32 bits: it does as soon
/// as it holds a flag above the lowest eight bits.
pub open spec fn is_wide_mode(bits: u32) -> bool {
    bits & 0xFFFF_FF00 != 0
}

/// The control call that sets the mode `bits`, and its payload: the call for
/// 32 bits with all of `bits` where the mode needs it, and else the call for
/// one byte with the low byte, which then is all of `bits`.
pub open spec fn mode_call(bits: u32) -> (ControlCode, Payload) {
    if is_wide_mode(bits) {
        (spi_code(SPI_IOC_NR_MODE32, Access::Write, PayloadType::U32), Payload::U32(bits))
    } else {
        (spi_code(SPI_IOC_NR_MODE, Access::Write, PayloadType::U8), Payload::U8(bits as u8))
    }
}

/// A mode needs the control call for 32 bits exactly when it does not fit in
/// one byte.
pub proof fn lemma_wide_mode(bits: u32)
    ensures
        is_wide_mode(bits) <==> bits > 0xFF,
{
    assert(bits & 0xFFFF_FF00 != 0 <==> bits > 0xFF) by (bit_vector);
}

/// The path of the character device of the interface `spi_num`.
pub open spec fn spi_device_path(spi_num: u8) -> Seq<char> {
    "/dev/spidev"@ + decimal(spi_num as nat) + ".0"@
}

/// `r` is what comes of one call of `call` with the name `code`, where
/// `call` is to give a value.
pub open spec fn did_get<T, C: FnOnce(ControlCode) -> Result<T, IoFailure>>(
    call: C,
    code: ControlCode,
    operation: Operation,
    r: Result<T, Error>,
) -> bool {
    exists|outcome: Result<T, IoFailure>| #[trigger]
        call.ensures((code,), outcome) && control_result(outcome, operation, r)
}

/// `r` is what comes of one call of `call` with the name `code` and the
/// value `payload`.
pub open spec fn did_set<C: FnOnce(ControlCode, Payload) -> Result<(), IoFailure>>(
    call: C,
    code: ControlCode,
    payload: Payload,
    operation: Operation,
    r: Result<(), Error>,
) -> bool {
    exists|outcome: Result<(), IoFailure>| #[trigger]
        call.ensures((code, payload), outcome) && control_result(outcome, operation, r)
}

/// Represents a SPI interface.
#[derive(Debug)]
pub struct SPI {
    spi_num: u8,
}

impl SPI {
    /// The number of the interface.
    pub closed spec fn spec_spi_num(&self) -> u8 {
        self.spi_num
    }

    /// The number of the interface.
    #[verifier::when_used_as_spec(spec_spi_num)]
    pub fn spi_num(&self) -> (n: u8)
        ensures
            n == self.spec_spi_num(),
    {
        self.spi_num
    }

    /// Creates a new SPI device, by one call of `open` with the path of the
    /// interface's character device, which is to be opened for reading and
    /// writing.
    ///
    /// # Errors
    ///
    /// Fails with `OpenFailed` and the path if `open` fails.
    pub fn new<O: FnOnce(&str) -> Result<(), IoFailure>>(spi_num: u8, open: O) -> (r: Result<
        SPI,
        Error,
    >)
        requires
            forall|p: &str| p@ == spi_device_path(spi_num) ==> #[trigger] open.requires((p,)),
        ensures
            exists|p: &str, outcome: Result<(), IoFailure>|
                p@ == spi_device_path(spi_num) && #[trigger] open.ensures((p,), outcome) && (
                match outcome {
                    Ok(()) => r matches Ok(spi) && spi.spi_num() == spi_num,
                    Err(_) => r matches Err(Error::OpenFailed { path }) && path@
                        == spi_device_path(spi_num),
                }),
    {
        let mut path = String::from_str("/dev/spidev");
        path.append(decimal_string(spi_num as u32).as_str());
        path.append(".0");
        let outcome = open(path.as_str());
        match outcome {
            Ok(()) => Ok(SPI { spi_num }),
            Err(_) => Err(Error::OpenFailed { path }),
        }
    }

    /// Reads the mode, as the byte that the control call for the mode gives.
    ///
    /// # Errors
    ///
    /// Fails with `TransferFailed` if `call` fails.
    pub fn get_mode<C: FnOnce(ControlCode) -> Result<u8, IoFailure>>(&self, call: C) -> (r: Result<
        u8,
        Error,
    >)
        requires
            call.requires((spi_code(SPI_IOC_NR_MODE, Access::Read, PayloadType::U8),)),
        ensures
            did_get(
                call,
                spi_code(SPI_IOC_NR_MODE, Access::Read, PayloadType::U8),
                Operation::SpiGetMode,
                r,
            ),
    {
        let code = ControlCode {
            magic: SPI_IOC_MAGIC,
            number: SPI_IOC_NR_MODE,
            access: Access::Read,
            payload: PayloadType::U8,
        };
        control_outcome(call(code), Operation::SpiGetMode)
    }

    /// Sets the mode, by one control call: the one that takes the mode in 32
    /// bits where `mode` holds a flag above the lowest eight bits, and else
    /// the one that takes it in one byte.
    ///
    /// # Errors
    ///
    /// Fails with `TransferFailed` if `call` fails.
    pub fn set_mode<C: FnOnce(ControlCode, Payload) -> Result<(), IoFailure>>(
        &self,
        mode: SPIModeFlags,
        call: C,
    ) -> (r: Result<(), Error>)
        requires
            call.requires(mode_call(mode.bits())),
        ensures
            did_set(call, mode_call(mode.bits()).0, mode_call(mode.bits()).1, Operation::SpiSetMode, r),
    {
        let bits = mode.bits();
        if (bits & 0xFFFF_FF00) != 0 {
            let code = ControlCode {
                magic: SPI_IOC_MAGIC,
                number: SPI_IOC_NR_MODE32,
                access: Access::Write,
                payload: PayloadType::U32,
            };
            control_outcome(call(code, Payload::U32(bits)), Operation::SpiSetMode)
        } else {
            proof {
                lemma_wide_mode(bits);
            }
            let code = ControlCode {
                magic: SPI_IOC_MAGIC,
                number: SPI_IOC_NR_MODE,
                access: Access::Write,
                payload: PayloadType::U8,
            };
            control_outcome(call(code, Payload::U8(bits as u8)), Operation::SpiSetMode)
        }
    }

    /// Reads the bit order, as the byte that the control call for it gives:
    /// zero where the most significant bit of a word goes first.
    ///
    /// # Errors
    ///
    /// Fails with `TransferFailed` if `call` fails.
    pub fn get_lsb_first<C: FnOnce(ControlCode) -> Result<u8, IoFailure>>(&self, call: C) -> (r:
        Result<u8, Error>)
        requires
            call.requires((spi_code(SPI_IOC_NR_LSB_FIRST, Access::Read, PayloadType::U8),)),
        ensures
            did_get(
                call,
                spi_code(SPI_IOC_NR_LSB_FIRST, Access::Read, PayloadType::U8),
                Operation::SpiGetLsbFirst,
                r,
            ),
    {
        let code = ControlCode {
            magic: SPI_IOC_MAGIC,
            number: SPI_IOC_NR_LSB_FIRST,
            access: Access::Read,
            payload: PayloadType::U8,
        };
        control_outcome(call(code), Operation::SpiGetLsbFirst)
    }

    /// Sets the bit order, by one control call with the byte 1 where the
    /// least significant bit of a word is to go first, and 0 where the most
    /// significant one is.
    ///
    /// # Errors
    ///
    /// Fails with `TransferFailed` if `call` fails.
    pub fn set_lsb_first<C: FnOnce(ControlCode, Payload) -> Result<(), IoFailure>>(
        &self,
        lsb_first: bool,
        call: C,
    ) -> (r: Result<(), Error>)
        requires
            call.requires(
                (
                    spi_code(SPI_IOC_NR_LSB_FIRST, Access::Write, PayloadType::U8),
                    Payload::U8(if lsb_first { 1u8 } else { 0u8 }),
                ),
            ),
        ensures
            did_set(
                call,
                spi_code(SPI_IOC_NR_LSB_FIRST, Access::Write, PayloadType::U8),
                Payload::U8(if lsb_first { 1u8 } else { 0u8 }),
                Operation::SpiSetLsbFirst,
                r,
            ),
    {
        let lsb_first_value: u8 = if lsb_first {
            1
        } else {
            0
        };
        let code = ControlCode {
            magic: SPI_IOC_MAGIC,
            number: SPI_IOC_NR_LSB_FIRST,
            access: Access::Write,
            payload: PayloadType::U8,
        };
        control_outcome(call(code, Payload::U8(lsb_first_value)), Operation::SpiSetLsbFirst)
    }

    /// Reads the number of bits in a word, as the byte that the control call
    /// for it gives.
    ///
    /// # Errors
    ///
    /// Fails with `TransferFailed` if `call` fails.
    pub fn get_bits_per_word<C: FnOnce(ControlCode) -> Result<u8, IoFailure>>(
        &self,
        call: C,
    ) -> (r: Result<u8, Error>)
        requires
            call.requires((spi_code(SPI_IOC_NR_BITS_PER_WORD, Access::Read, PayloadType::U8),)),
        ensures
            did_get(
                call,
                spi_code(SPI_IOC_NR_BITS_PER_WORD, Access::Read, PayloadType::U8),
                Operation::SpiGetBitsPerWord,
                r,
            ),
    {
        let code = ControlCode {
            magic: SPI_IOC_MAGIC,
            number: SPI_IOC_NR_BITS_PER_WORD,
            access: Access::Read,
            payload: PayloadType::U8,
        };
        control_outcome(call(code), Operation::SpiGetBitsPerWord)
    }

    /// Sets the number of bits in a word, by one control call with that
    /// number as a byte.
    ///
    /// # Errors
    ///
    /// Fails with `TransferFailed` if `call` fails.
    pub fn set_bits_per_word<C: FnOnce(ControlCode, Payload) -> Result<(), IoFailure>>(
        &self,
        bits_per_word: u8,
        call: C,
    ) -> (r: Result<(), Error>)
        requires
            call.requires(
                (
                    spi_code(SPI_IOC_NR_BITS_PER_WORD, Access::Write, PayloadType::U8),
                    Payload::U8(bits_per_word),
                ),
            ),
        ensures
            did_set(
                call,
                spi_code(SPI_IOC_NR_BITS_PER_WORD, Access::Write, PayloadType::U8),
                Payload::U8(bits_per_word),
                Operation::SpiSetBitsPerWord,
                r,
            ),
    {
        let code = ControlCode {
            magic: SPI_IOC_MAGIC,
            number: SPI_IOC_NR_BITS_PER_WORD,
            access: Access::Write,
            payload: PayloadType::U8,
        };
        control_outcome(call(code, Payload::U8(bits_per_word)), Operation::SpiSetBitsPerWord)
    }

    /// Reads the highest clock speed, in Hz, as the word of 32 bits that the
    /// control call for it gives.
    ///
    /// # Errors
    ///
    /// Fails with `TransferFailed` if `call` fails.
    pub fn get_max_speed_hz<C: FnOnce(ControlCode) -> Result<u32, IoFailure>>(
        &self,
        call: C,
    ) -> (r: Result<u32, Error>)
        requires
            call.requires((spi_code(SPI_IOC_NR_MAX_SPEED_HZ, Access::Read, PayloadType::U32),)),
        ensures
            did_get(
                call,
                spi_code(SPI_IOC_NR_MAX_SPEED_HZ, Access::Read, PayloadType::U32),
                Operation::SpiGetMaxSpeedHz,
                r,
            ),
    {
        let code = ControlCode {
            magic: SPI_IOC_MAGIC,
            number: SPI_IOC_NR_MAX_SPEED_HZ,
            access: Access::Read,
            payload: PayloadType::U32,
        };
        control_outcome(call(code), Operation::SpiGetMaxSpeedHz)
    }

    /// Sets the highest clock speed, in Hz, by one control call with the
    /// speed as a word of 32 bits.
    ///
    /// # Errors
    ///
    /// Fails with `TransferFailed` if `call` fails.
    pub fn set_max_speed_hz<C: FnOnce(ControlCode, Payload) -> Result<(), IoFailure>>(
        &self,
        max_speed_hz: u32,
        call: C,
    ) -> (r: Result<(), Error>)
        requires
            call.requires(
                (
                    spi_code(SPI_IOC_NR_MAX_SPEED_HZ, Access::Write, PayloadType::U32),
                    Payload::U32(max_speed_hz),
                ),
            ),
        ensures
            did_set(
                call,
                spi_code(SPI_IOC_NR_MAX_SPEED_HZ, Access::Write, PayloadType::U32),
                Payload::U32(max_speed_hz),
                Operation::SpiSetMaxSpeedHz,
                r,
            ),
    {
        let code = ControlCode {
            magic: SPI_IOC_MAGIC,
            number: SPI_IOC_NR_MAX_SPEED_HZ,
            access: Access::Write,
            payload: PayloadType::U32,
        };
        control_outcome(call(code, Payload::U32(max_speed_hz)), Operation::SpiSetMaxSpeedHz)
    }

    /// Makes the transfer that `transfer` describes, by one control call
    /// that gets the transfer block. The kernel writes what it receives into
    /// the block's receive buffer itself; nothing is copied here.
    ///
    /// # Errors
    ///
    /// Fails with `TransferFailed` if `call` fails.
    pub fn transfer<'a, 'b, C: FnOnce(ControlCode, SpidevTransfer<'a, 'b>) -> Result<(), IoFailure>>(
        &self,
        transfer: SpidevTransfer<'a, 'b>,
        call: C,
    ) -> (r: Result<(), Error>)
        requires
            call.requires(
                (spi_code(SPI_IOC_NR_TRANSFER, Access::Write, PayloadType::SpiTransfer), transfer),
            ),
        ensures
            exists|outcome: Result<(), IoFailure>| #[trigger]
                call.ensures(
                    (
                        spi_code(SPI_IOC_NR_TRANSFER, Access::Write, PayloadType::SpiTransfer),
                        transfer,
                    ),
                    outcome,
                ) && control_result(outcome, Operation::SpiTransfer, r),
    {
        let code = ControlCode {
            magic: SPI_IOC_MAGIC,
            number: SPI_IOC_NR_TRANSFER,
            access: Access::Write,
            payload: PayloadType::SpiTransfer,
        };
        control_outcome(call(code, transfer), Operation::SpiTransfer)
    }
}

} // verus!
