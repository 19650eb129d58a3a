use vstd::prelude::*;

use crate::types::SpiTransferStatus;

verus! {

/// Every way a driver operation can fail.
///
/// The taxonomy has four groups: transport faults surfaced by the HID layer
/// (`Hid`, `NonUtf8Path`, `NulCharInPath`), protocol faults found while
/// decoding a response (`CommandCode`, `SubCommandCode`, `InvalidResponse`,
/// `UnknownErrorCode`), caller-input faults found before encoding
/// (`StringSize`, `PayloadSize`), and the chip's own closed set of error
/// codes (the last seven variants).
#[derive(Debug, PartialEq, Eq)]
pub enum Mcp2210Error {
    /// The HID transport failed; carries the transport's description.
    Hid(String),
    /// A device path was not valid UTF-8; carries a lossy rendering of it.
    NonUtf8Path(String),
    /// A device path held an embedded nul byte; carries its byte offset.
    NulCharInPath(usize),
    /// Response byte 0 did not echo the command code that was sent.
    CommandCode { expected: u8, actual: u8 },
    /// Response byte 1 did not echo the sub-command code that was sent.
    SubCommandCode { expected: u8, actual: u8 },
    /// A response field held a value the protocol does not define.
    InvalidResponse(String),
    /// The response's error byte was outside the chip's defined set.
    UnknownErrorCode(u8),
    /// A string field would need more than 29 UTF-16 code units.
    StringSize(usize),
    /// An SPI payload chunk was longer than 60 bytes.
    PayloadSize(usize),
    /// A transfer exchange reported a status the orchestrator cannot accept.
    TransferStatus(SpiTransferStatus),
    /// Chip error 0xFA: an EEPROM write failed.
    EepromWrite,
    /// Chip error 0xFB: access denied.
    AccessDenied,
    /// Chip error 0xFC: access rejected.
    AccessRejected,
    /// Chip error 0xFD: access denied, but retrying is allowed.
    AccessDeniedRetry,
    /// Chip error 0xF7: the SPI bus is not available.
    Unavailable,
    /// Chip error 0xF8: the SPI bus is busy.
    Busy,
    /// Chip error 0xF9: the chip did not recognize the command code sent.
    UnknownCommandCode(u8),
}

/// Error byte value for an EEPROM write failure.
pub const ERR_EEPROM_WRITE: u8 = 0xFA;

/// Error byte value for denied access.
pub const ERR_ACCESS_DENIED: u8 = 0xFB;

/// Error byte value for rejected access.
pub const ERR_ACCESS_REJECTED: u8 = 0xFC;

/// Error byte value for denied access where retrying is allowed.
pub const ERR_ACCESS_DENIED_RETRY: u8 = 0xFD;

/// Error byte value for an unavailable SPI bus.
pub const ERR_UNAVAILABLE: u8 = 0xF7;

/// Error byte value for a busy SPI bus.
pub const ERR_BUSY: u8 = 0xF8;

/// Error byte value for an unrecognized command code.
pub const ERR_UNKNOWN_COMMAND_CODE: u8 = 0xF9;

/// Whether `b` is one of the seven error codes the chip defines.
pub open spec fn is_chip_error_code(b: u8) -> bool {
    ||| b == ERR_UNAVAILABLE
    ||| b == ERR_BUSY
    ||| b == ERR_UNKNOWN_COMMAND_CODE
    ||| b == ERR_EEPROM_WRITE
    ||| b == ERR_ACCESS_DENIED
    ||| b == ERR_ACCESS_REJECTED
    ||| b == ERR_ACCESS_DENIED_RETRY
}

/// The error a nonzero response error byte `b` translates to, when the
/// response echoed command code `cmd`.  A byte outside the chip's closed
/// set maps to `UnknownErrorCode` carrying that exact byte.
pub open spec fn spec_chip_error(b: u8, cmd: u8) -> Mcp2210Error {
    if b == ERR_UNAVAILABLE {
        Mcp2210Error::Unavailable
    } else if b == ERR_BUSY {
        Mcp2210Error::Busy
    } else if b == ERR_UNKNOWN_COMMAND_CODE {
        Mcp2210Error::UnknownCommandCode(cmd)
    } else if b == ERR_EEPROM_WRITE {
        Mcp2210Error::EepromWrite
    } else if b == ERR_ACCESS_DENIED {
        Mcp2210Error::AccessDenied
    } else if b == ERR_ACCESS_REJECTED {
        Mcp2210Error::AccessRejected
    } else if b == ERR_ACCESS_DENIED_RETRY {
        Mcp2210Error::AccessDeniedRetry
    } else {
        Mcp2210Error::UnknownErrorCode(b)
    }
}

/// Translates a nonzero response error byte into the matching error value.
pub fn chip_error(b: u8, cmd: u8) -> (e: Mcp2210Error)
    ensures
        e == spec_chip_error(b, cmd),
{
    if b == ERR_UNAVAILABLE {
        Mcp2210Error::Unavailable
    } else if b == ERR_BUSY {
        Mcp2210Error::Busy
    } else if b == ERR_UNKNOWN_COMMAND_CODE {
        Mcp2210Error::UnknownCommandCode(cmd)
    } else if b == ERR_EEPROM_WRITE {
        Mcp2210Error::EepromWrite
    } else if b == ERR_ACCESS_DENIED {
        Mcp2210Error::AccessDenied
    } else if b == ERR_ACCESS_REJECTED {
        Mcp2210Error::AccessRejected
    } else if b == ERR_ACCESS_DENIED_RETRY {
        Mcp2210Error::AccessDeniedRetry
    } else {
        Mcp2210Error::UnknownErrorCode(b)
    }
}

} // verus!
