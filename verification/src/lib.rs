//! Host-side protocol engine for the MCP2210 USB-to-SPI bridge chip.
//!
//! The chip speaks fixed 64-byte HID command/response packets.  This crate
//! holds the packet codec (encoding typed commands, decoding and validating
//! responses, translating the chip's error codes) and the transfer
//! orchestrator that moves an arbitrarily large byte buffer through the
//! chip's 60-byte-per-packet SPI payload ceiling.  The raw HID transport is
//! an external collaborator, reached only through the [`CommandResponse`]
//! trait.

pub mod cmds;
pub mod codec;
pub mod error;
pub mod laws;
pub mod settings;
pub mod strings;
pub mod transfer;
pub mod types;

pub use crate::error::Mcp2210Error;
pub use crate::types::Buffer;
pub use crate::types::SpiTransferResponse;
pub use crate::types::SpiTransferStatus;
pub use crate::types::BUFFER_SIZE;
pub use crate::types::MAX_BIT_RATE;
pub use crate::types::MAX_SPI_PAYLOAD;
pub use crate::types::MAX_STRING_UNITS;

use vstd::prelude::*;
use vstd::string::StringSliceAdditionalSpecFns;

verus! {

/// Fixed USB vendor id the MCP2210 enumerates with.
pub const DEFAULT_VENDOR_ID: u16 = 0x04D8;

/// Fixed USB product id the MCP2210 enumerates with.
pub const DEFAULT_PRODUCT_ID: u16 = 0x00DE;

/// Whether a discovered device's ids are the MCP2210's fixed default pair.
pub open spec fn spec_is_default_device(vendor_id: u16, product_id: u16) -> bool {
    vendor_id == DEFAULT_VENDOR_ID && product_id == DEFAULT_PRODUCT_ID
}

/// The filter a default device scan applies to a discovered device.
pub fn is_default_device(vendor_id: u16, product_id: u16) -> (r: bool)
    ensures
        r == spec_is_default_device(vendor_id, product_id),
{
    vendor_id == DEFAULT_VENDOR_ID && product_id == DEFAULT_PRODUCT_ID
}

/// Whether the byte sequence holds a nul byte.
pub open spec fn spec_has_nul(bytes: Seq<u8>) -> bool {
    exists|i: int| 0 <= i < bytes.len() && bytes[i] == 0u8
}

/// Checks that a device path can be handed to the HID transport, which
/// takes nul-terminated text: a path with an embedded nul byte is rejected
/// here, with the offset of its first nul, before any transport call is
/// made.
pub fn validate_path(path: &str) -> (r: Result<(), Mcp2210Error>)
    ensures
        r is Ok <==> !spec_has_nul(path.spec_bytes()),
        r matches Err(e) ==> (e matches Mcp2210Error::NulCharInPath(i) && 0 <= i
            < path.spec_bytes().len() && path.spec_bytes()[i as int] == 0 && (forall|j: int|
            0 <= j < i ==> path.spec_bytes()[j] != 0)),
{
    let bytes = path.as_bytes();
    let mut i: usize = 0;
    while i < bytes.len()
        invariant
            i <= bytes@.len(),
            bytes@ == path.spec_bytes(),
            forall|j: int| 0 <= j < i ==> bytes@[j] != 0,
        decreases bytes@.len() - i,
    {
        if bytes[i] == 0 {
            return Err(Mcp2210Error::NulCharInPath(i));
        }
        i = i + 1;
    }
    Ok(())
}

} // verus!
