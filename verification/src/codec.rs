use vstd::prelude::*;

use crate::error::is_chip_error_code;
use crate::error::spec_chip_error;
use crate::error::chip_error;
use crate::error::Mcp2210Error;
use crate::types::spec_transfer_status;
use crate::types::Buffer;
use crate::types::SpiTransferResponse;
use crate::types::MAX_SPI_PAYLOAD;
use crate::types::SpiTransferStatus;
use crate::types::STATUS_FINISHED;
use crate::types::STATUS_IN_PROGRESS;
use crate::types::STATUS_STARTED;
use vstd::slice::slice_subrange;
use vstd::slice::slice_to_vec;

verus! {

/// Command code: read the chip's volatile chip settings.
pub const CMD_GET_CHIP_SETTINGS: u8 = 0x20;

/// Command code: write the chip's volatile chip settings.
pub const CMD_SET_CHIP_SETTINGS: u8 = 0x21;

/// Command code: drive the GPIO pin values.
pub const CMD_SET_GPIO_VALUE: u8 = 0x30;

/// Command code: read the GPIO pin values.
pub const CMD_GET_GPIO_VALUE: u8 = 0x31;

/// Command code: set the GPIO pin directions.
pub const CMD_SET_GPIO_DIRECTION: u8 = 0x32;

/// Command code: read the GPIO pin directions.
pub const CMD_GET_GPIO_DIRECTION: u8 = 0x33;

/// Command code: read the volatile SPI transfer settings.
pub const CMD_GET_SPI_SETTINGS: u8 = 0x40;

/// Command code: write the volatile SPI transfer settings.
pub const CMD_SET_SPI_SETTINGS: u8 = 0x41;

/// Command code: exchange one chunk of SPI bus data.
pub const CMD_SPI_TRANSFER: u8 = 0x42;

/// Command code: read one byte of user EEPROM.
pub const CMD_READ_EEPROM: u8 = 0x50;

/// Command code: write one byte of user EEPROM.
pub const CMD_WRITE_EEPROM: u8 = 0x51;

/// Command code: write a power-up (NVRAM) parameter; byte 1 selects which.
pub const CMD_SET_NVRAM: u8 = 0x60;

/// Command code: read a power-up (NVRAM) parameter; byte 1 selects which.
pub const CMD_GET_NVRAM: u8 = 0x61;

/// Sub-command code: the USB product name string.
pub const SUB_USB_PRODUCT_NAME: u8 = 0x40;

/// Sub-command code: the USB manufacturer name string.
pub const SUB_USB_MANUFACTURER_NAME: u8 = 0x50;

/// A command packet whose first four bytes are the given values and whose
/// remaining bytes are zero.
pub open spec fn spec_command_bytes(code: u8, b1: u8, b2: u8, b3: u8) -> Seq<u8> {
    Seq::new(
        64,
        |i: int|
            if i == 0 {
                code
            } else if i == 1 {
                b1
            } else if i == 2 {
                b2
            } else if i == 3 {
                b3
            } else {
                0u8
            },
    )
}

/// Builds a command packet from its header bytes, zero-padded to 64 bytes.
pub fn command_bytes(code: u8, b1: u8, b2: u8, b3: u8) -> (buf: Buffer)
    ensures
        buf@ == spec_command_bytes(code, b1, b2, b3),
{
    let mut buf: Buffer = [0u8; 64];
    buf[0] = code;
    buf[1] = b1;
    buf[2] = b2;
    buf[3] = b3;
    proof {
        assert(buf@ =~= spec_command_bytes(code, b1, b2, b3));
    }
    buf
}

/// Shared header validation for a response without a sub-command: byte 0
/// must echo the command code, and a nonzero byte 1 is an error byte.
pub open spec fn spec_check_response(expected: u8, res: Seq<u8>) -> Result<(), Mcp2210Error>
    recommends
        res.len() == 64,
{
    if res[0] != expected {
        Err(Mcp2210Error::CommandCode { expected, actual: res[0] })
    } else if res[1] != 0 {
        Err(spec_chip_error(res[1], res[0]))
    } else {
        Ok(())
    }
}

/// Validates the leading identification bytes of a response packet.
pub fn check_response(expected: u8, res: &Buffer) -> (r: Result<(), Mcp2210Error>)
    ensures
        r == spec_check_response(expected, res@),
{
    if res[0] != expected {
        Err((Mcp2210Error::CommandCode { expected, actual: res[0] }))
    } else if res[1] != 0 {
        Err(chip_error(res[1], res[0]))
    } else {
        Ok(())
    }
}

/// Shared header validation for a response with a sub-command: byte 0 must
/// echo the command code; byte 1 is either the sub-command echo or, when a
/// general chip error occurred, an error byte from the chip's closed set.
pub open spec fn spec_check_sub_response(expected: u8, expected_sub: u8, res: Seq<u8>) -> Result<
    (),
    Mcp2210Error,
>
    recommends
        res.len() == 64,
{
    if res[0] != expected {
        Err(Mcp2210Error::CommandCode { expected, actual: res[0] })
    } else if is_chip_error_code(res[1]) {
        Err(spec_chip_error(res[1], res[0]))
    } else if res[1] != expected_sub {
        Err(Mcp2210Error::SubCommandCode { expected: expected_sub, actual: res[1] })
    } else {
        Ok(())
    }
}

/// Validates the identification bytes of a sub-command response packet.
pub fn check_sub_response(expected: u8, expected_sub: u8, res: &Buffer) -> (r: Result<
    (),
    Mcp2210Error,
>)
    ensures
        r == spec_check_sub_response(expected, expected_sub, res@),
{
    if res[0] != expected {
        Err((Mcp2210Error::CommandCode { expected, actual: res[0] }))
    } else if res[1] == 0xF7 || res[1] == 0xF8 || res[1] == 0xF9 || res[1] == 0xFA || res[1] == 0xFB
        || res[1] == 0xFC || res[1] == 0xFD {
        Err(chip_error(res[1], res[0]))
    } else if res[1] != expected_sub {
        Err((Mcp2210Error::SubCommandCode { expected: expected_sub, actual: res[1] }))
    } else {
        Ok(())
    }
}

/// The transfer command packet for one SPI data chunk: the command code,
/// the chunk length in byte 1, the chunk itself from byte 4 on, the rest
/// zero.
pub open spec fn spec_spi_transfer_cmd(data: Seq<u8>) -> Seq<u8>
    recommends
        data.len() <= 60,
{
    Seq::new(
        64,
        |i: int|
            if i == 0 {
                CMD_SPI_TRANSFER
            } else if i == 1 {
                data.len() as u8
            } else if 4 <= i < 4 + data.len() {
                data[i - 4]
            } else {
                0u8
            },
    )
}

/// Encodes one SPI transfer packet.  A chunk longer than 60 bytes is a
/// caller error and is rejected before any buffer is built.
pub fn encode_spi_transfer(data: &[u8]) -> (r: Result<Buffer, Mcp2210Error>)
    ensures
        data@.len() <= 60 ==> (r matches Ok(buf) && buf@ == spec_spi_transfer_cmd(data@)),
        data@.len() > 60 ==> r == Err::<Buffer, Mcp2210Error>(
            Mcp2210Error::PayloadSize(data@.len() as usize),
        ),
{
    if data.len() > MAX_SPI_PAYLOAD {
        return Err(Mcp2210Error::PayloadSize(data.len()));
    }
    let mut buf: Buffer = [0u8; 64];
    buf[0] = CMD_SPI_TRANSFER;
    buf[1] = data.len() as u8;
    let mut i: usize = 0;
    while i < data.len()
        invariant
            i <= data@.len() <= 60,
            buf@.len() == 64,
            buf@[0] == CMD_SPI_TRANSFER,
            buf@[1] == data@.len() as u8,
            forall|j: int| 4 <= j < 4 + i ==> buf@[j] == data@[j - 4],
            forall|j: int| (2 <= j < 4 || 4 + i <= j < 64) ==> buf@[j] == 0u8,
        decreases data@.len() - i,
    {
        buf[4 + i] = data[i];
        i = i + 1;
    }
    proof {
        assert(buf@ =~= spec_spi_transfer_cmd(data@));
    }
    Ok(buf)
}

/// Decodes and validates one SPI transfer response packet.
///
/// After the shared header validation, byte 2 gives how many received bus
/// bytes this packet carries (at most 60, from byte 4 on) and byte 3 is the
/// chip's transfer status; a value outside the defined sets is a structural
/// anomaly.
pub fn decode_spi_transfer_response(res: &Buffer) -> (r: Result<SpiTransferResponse, Mcp2210Error>)
    ensures
        res@[0] != CMD_SPI_TRANSFER ==> r == Err::<SpiTransferResponse, Mcp2210Error>(
            (Mcp2210Error::CommandCode { expected: CMD_SPI_TRANSFER, actual: res@[0] }),
        ),
        res@[0] == CMD_SPI_TRANSFER && res@[1] != 0 ==> r == Err::<SpiTransferResponse, Mcp2210Error>(
            spec_chip_error(res@[1], res@[0]),
        ),
        res@[0] == CMD_SPI_TRANSFER && res@[1] == 0 && (res@[2] > 60 || spec_transfer_status(
            res@[3],
        ) is None) ==> (r matches Err(e) && e is InvalidResponse),
        res@[0] == CMD_SPI_TRANSFER && res@[1] == 0 && res@[2] <= 60 && spec_transfer_status(
            res@[3],
        ) is Some ==> (r matches Ok(resp) && Some(resp.status) == spec_transfer_status(res@[3])
            && resp.data@ == res@.subrange(4, 4 + res@[2] as int)),
{
    match check_response(CMD_SPI_TRANSFER, res) {
        Err(e) => {
            return Err(e);
        },
        Ok(()) => {},
    }
    let count = res[2];
    if count > 60 {
        return Err(Mcp2210Error::InvalidResponse("SPI data length out of range".to_owned()));
    }
    let status = if res[3] == STATUS_FINISHED {
        SpiTransferStatus::Finished
    } else if res[3] == STATUS_STARTED {
        SpiTransferStatus::Started
    } else if res[3] == STATUS_IN_PROGRESS {
        SpiTransferStatus::InProgress
    } else {
        return Err(Mcp2210Error::InvalidResponse("SPI transfer status unknown".to_owned()));
    };
    let data = slice_to_vec(slice_subrange(res.as_slice(), 4, 4 + count as usize));
    Ok(SpiTransferResponse { status, data })
}

/// The GPIO command packet that carries a 16-bit pin mask in bytes 4 and 5,
/// least significant byte first.
pub open spec fn spec_gpio_cmd(code: u8, mask: u16) -> Seq<u8> {
    Seq::new(
        64,
        |i: int|
            if i == 0 {
                code
            } else if i == 4 {
                (mask as int % 256) as u8
            } else if i == 5 {
                (mask as int / 256) as u8
            } else {
                0u8
            },
    )
}

/// Encodes a GPIO command holding a pin mask: pin values for
/// `CMD_SET_GPIO_VALUE`, pin directions for `CMD_SET_GPIO_DIRECTION`.
pub fn encode_gpio_mask(code: u8, mask: u16) -> (buf: Buffer)
    ensures
        buf@ == spec_gpio_cmd(code, mask),
{
    let mut buf: Buffer = [0u8; 64];
    buf[0] = code;
    buf[4] = (mask % 256) as u8;
    buf[5] = (mask / 256) as u8;
    proof {
        assert(buf@ =~= spec_gpio_cmd(code, mask));
    }
    buf
}

/// The 16-bit pin mask a GPIO response carries in bytes 4 and 5.
pub open spec fn spec_gpio_mask(res: Seq<u8>) -> u16
    recommends
        res.len() == 64,
{
    (res[4] as int + res[5] as int * 256) as u16
}

/// Decodes a GPIO response packet into its 16-bit pin mask; `expected` is
/// the GPIO command code that was sent.
pub fn decode_gpio_response(expected: u8, res: &Buffer) -> (r: Result<u16, Mcp2210Error>)
    ensures
        spec_check_response(expected, res@) matches Err(e) ==> r == Err::<u16, Mcp2210Error>(e),
        spec_check_response(expected, res@) is Ok ==> r == Ok::<u16, Mcp2210Error>(
            spec_gpio_mask(res@),
        ),
{
    match check_response(expected, res) {
        Err(e) => {
            return Err(e);
        },
        Ok(()) => {},
    }
    let mask: u16 = res[4] as u16 + (res[5] as u16) * 256;
    Ok(mask)
}

/// Encodes a read of one user EEPROM byte; byte 1 carries the address.
pub fn encode_read_eeprom(addr: u8) -> (buf: Buffer)
    ensures
        buf@ == spec_command_bytes(CMD_READ_EEPROM, addr, 0, 0),
{
    command_bytes(CMD_READ_EEPROM, addr, 0, 0)
}

/// Decodes a read-EEPROM response: byte 2 must echo the address that was
/// read and byte 3 carries the stored value.
pub fn decode_read_eeprom_response(addr: u8, res: &Buffer) -> (r: Result<u8, Mcp2210Error>)
    ensures
        spec_check_response(CMD_READ_EEPROM, res@) matches Err(e) ==> r == Err::<u8, Mcp2210Error>(
            e,
        ),
        spec_check_response(CMD_READ_EEPROM, res@) is Ok && res@[2] != addr ==> (r matches Err(e)
            && e is InvalidResponse),
        spec_check_response(CMD_READ_EEPROM, res@) is Ok && res@[2] == addr ==> r == Ok::<
            u8,
            Mcp2210Error,
        >(res@[3]),
{
    match check_response(CMD_READ_EEPROM, res) {
        Err(e) => {
            return Err(e);
        },
        Ok(()) => {},
    }
    if res[2] != addr {
        return Err(Mcp2210Error::InvalidResponse("EEPROM address echo mismatch".to_owned()));
    }
    Ok(res[3])
}

/// Encodes a write of one user EEPROM byte; byte 1 carries the address and
/// byte 2 the value to store.
pub fn encode_write_eeprom(addr: u8, value: u8) -> (buf: Buffer)
    ensures
        buf@ == spec_command_bytes(CMD_WRITE_EEPROM, addr, value, 0),
{
    command_bytes(CMD_WRITE_EEPROM, addr, value, 0)
}

/// Decodes a write-EEPROM response, which carries no payload beyond the
/// validated header.
pub fn decode_write_eeprom_response(res: &Buffer) -> (r: Result<(), Mcp2210Error>)
    ensures
        r == spec_check_response(CMD_WRITE_EEPROM, res@),
{
    check_response(CMD_WRITE_EEPROM, res)
}

} // verus!
