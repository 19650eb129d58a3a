use vstd::prelude::*;

verus! {

/// Number of bytes in every command and response packet exchanged with the
/// chip.  Writes additionally carry one leading report-id byte, which the
/// transport layer adds; it is not part of the packet itself.
pub const BUFFER_SIZE: usize = 64;

/// Largest SPI data payload that fits in a single transfer packet.
pub const MAX_SPI_PAYLOAD: usize = 60;

/// Largest number of UTF-16 code units a chip string field can hold.
pub const MAX_STRING_UNITS: usize = 29;

/// Highest SPI bit rate the chip supports, in bits per second.
pub const MAX_BIT_RATE: u32 = 12_000_000;

/// A raw 64-byte command or response packet.
pub type Buffer = [u8; 64];

/// Progress marker the chip reports for a chunked SPI bus transaction.
///
/// The wire encoding is one byte of the transfer response:
/// `0x10` finished, `0x20` started, `0x30` in progress.
#[derive(Clone, Copy, Debug, PartialEq, Eq, Structural)]
pub enum SpiTransferStatus {
    /// The transaction was accepted and has begun; no data to read back yet.
    Started,
    /// The transaction continues; received data may accompany this status.
    InProgress,
    /// The transaction is complete; this is the only success terminal state.
    Finished,
}

/// Status byte value the chip uses for a finished transfer.
pub const STATUS_FINISHED: u8 = 0x10;

/// Status byte value the chip uses for a started transfer.
pub const STATUS_STARTED: u8 = 0x20;

/// Status byte value the chip uses for a transfer still in progress.
pub const STATUS_IN_PROGRESS: u8 = 0x30;

/// Wire encoding of a transfer status, if the byte is one the protocol
/// defines.
pub open spec fn spec_transfer_status(b: u8) -> Option<SpiTransferStatus> {
    if b == STATUS_FINISHED {
        Some(SpiTransferStatus::Finished)
    } else if b == STATUS_STARTED {
        Some(SpiTransferStatus::Started)
    } else if b == STATUS_IN_PROGRESS {
        Some(SpiTransferStatus::InProgress)
    } else {
        None
    }
}

/// Decoded outcome of one SPI transfer packet exchange: the chip's progress
/// marker and the bytes it clocked in from the bus during this exchange.
#[derive(Clone, Debug, PartialEq, Eq)]
pub struct SpiTransferResponse {
    pub status: SpiTransferStatus,
    pub data: Vec<u8>,
}

} // verus!
