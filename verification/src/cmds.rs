use vstd::prelude::*;

use crate::codec::command_bytes;
use crate::codec::decode_gpio_response;
use crate::codec::decode_read_eeprom_response;
use crate::codec::decode_write_eeprom_response;
use crate::codec::encode_gpio_mask;
use crate::codec::encode_read_eeprom;
use crate::codec::encode_write_eeprom;
use crate::codec::spec_check_response;
use crate::codec::spec_check_sub_response;
use crate::codec::spec_gpio_mask;
use crate::codec::CMD_GET_GPIO_DIRECTION;
use crate::codec::CMD_GET_GPIO_VALUE;
use crate::codec::CMD_GET_SPI_SETTINGS;
use crate::codec::CMD_READ_EEPROM;
use crate::codec::CMD_SET_GPIO_DIRECTION;
use crate::codec::CMD_SET_GPIO_VALUE;
use crate::codec::CMD_SET_SPI_SETTINGS;
use crate::codec::CMD_WRITE_EEPROM;
use crate::codec::CMD_GET_NVRAM;
use crate::codec::CMD_SET_NVRAM;
use crate::codec::CMD_SET_CHIP_SETTINGS;
use crate::codec::CMD_GET_CHIP_SETTINGS;
use crate::codec::check_response;
use crate::codec::check_sub_response;
use crate::error::Mcp2210Error;
use crate::settings::decode_chip_settings_response;
use crate::settings::decode_spi_settings_response;
use crate::settings::encode_set_chip_settings;
use crate::settings::encode_set_spi_settings;
use crate::settings::spec_chip_settings_match;
use crate::settings::spec_chip_settings_res_valid;
use crate::settings::spec_chip_settings_valid;
use crate::settings::spec_spi_settings_of;
use crate::settings::ChipSettings;
use crate::settings::SpiSettings;
use crate::strings::decode_usb_string_response;
use crate::strings::encode_get_usb_string;
use crate::strings::encode_set_usb_string;
use crate::strings::spec_string_res_valid;
use crate::strings::spec_string_units_of;
use crate::strings::spec_utf16;
use crate::transfer::CommandResponse;
use crate::types::Buffer;

verus! {

/// Reads the GPIO pin values.  A success is the faithfully decoded pin
/// mask of the validated response left in `res`.
pub fn get_gpio_value<T: CommandResponse>(dev: &mut T, res: &mut Buffer) -> (r: Result<
    u16,
    Mcp2210Error,
>)
    ensures
        r matches Ok(v) ==> spec_check_response(CMD_GET_GPIO_VALUE, final(res)@) is Ok && v
            == spec_gpio_mask(final(res)@),
{
    let cmd = command_bytes(CMD_GET_GPIO_VALUE, 0, 0, 0);
    match dev.command_response(&cmd, res) {
        Err(e) => {
            return Err(e);
        },
        Ok(()) => {},
    }
    decode_gpio_response(CMD_GET_GPIO_VALUE, res)
}

/// Drives the GPIO pin values and reads back the mask the chip reports
/// after the write.
pub fn set_gpio_value<T: CommandResponse>(dev: &mut T, mask: u16, res: &mut Buffer) -> (r: Result<
    u16,
    Mcp2210Error,
>)
    ensures
        r matches Ok(v) ==> spec_check_response(CMD_SET_GPIO_VALUE, final(res)@) is Ok && v
            == spec_gpio_mask(final(res)@),
{
    let cmd = encode_gpio_mask(CMD_SET_GPIO_VALUE, mask);
    match dev.command_response(&cmd, res) {
        Err(e) => {
            return Err(e);
        },
        Ok(()) => {},
    }
    decode_gpio_response(CMD_SET_GPIO_VALUE, res)
}

/// Reads the GPIO pin directions.
pub fn get_gpio_direction<T: CommandResponse>(dev: &mut T, res: &mut Buffer) -> (r: Result<
    u16,
    Mcp2210Error,
>)
    ensures
        r matches Ok(v) ==> spec_check_response(CMD_GET_GPIO_DIRECTION, final(res)@) is Ok && v
            == spec_gpio_mask(final(res)@),
{
    let cmd = command_bytes(CMD_GET_GPIO_DIRECTION, 0, 0, 0);
    match dev.command_response(&cmd, res) {
        Err(e) => {
            return Err(e);
        },
        Ok(()) => {},
    }
    decode_gpio_response(CMD_GET_GPIO_DIRECTION, res)
}

/// Sets the GPIO pin directions.
pub fn set_gpio_direction<T: CommandResponse>(
    dev: &mut T,
    mask: u16,
    res: &mut Buffer,
) -> (r: Result<u16, Mcp2210Error>)
    ensures
        r matches Ok(v) ==> spec_check_response(CMD_SET_GPIO_DIRECTION, final(res)@) is Ok && v
            == spec_gpio_mask(final(res)@),
{
    let cmd = encode_gpio_mask(CMD_SET_GPIO_DIRECTION, mask);
    match dev.command_response(&cmd, res) {
        Err(e) => {
            return Err(e);
        },
        Ok(()) => {},
    }
    decode_gpio_response(CMD_SET_GPIO_DIRECTION, res)
}

/// Reads one byte of user EEPROM.  A success is the stored value from a
/// validated response whose address echo matches `addr`.
pub fn read_eeprom<T: CommandResponse>(dev: &mut T, addr: u8, res: &mut Buffer) -> (r: Result<
    u8,
    Mcp2210Error,
>)
    ensures
        r matches Ok(v) ==> spec_check_response(CMD_READ_EEPROM, final(res)@) is Ok
            && final(res)@[2] == addr && v == final(res)@[3],
{
    let cmd = encode_read_eeprom(addr);
    match dev.command_response(&cmd, res) {
        Err(e) => {
            return Err(e);
        },
        Ok(()) => {},
    }
    decode_read_eeprom_response(addr, res)
}

/// Writes one byte of user EEPROM.
pub fn write_eeprom<T: CommandResponse>(
    dev: &mut T,
    addr: u8,
    value: u8,
    res: &mut Buffer,
) -> (r: Result<(), Mcp2210Error>)
    ensures
        r is Ok ==> spec_check_response(CMD_WRITE_EEPROM, final(res)@) is Ok,
{
    let cmd = encode_write_eeprom(addr, value);
    match dev.command_response(&cmd, res) {
        Err(e) => {
            return Err(e);
        },
        Ok(()) => {},
    }
    decode_write_eeprom_response(res)
}

/// Reads the volatile SPI transfer settings.  A success is the faithfully
/// decoded settings value of the validated response left in `res`.
pub fn get_spi_settings<T: CommandResponse>(dev: &mut T, res: &mut Buffer) -> (r: Result<
    SpiSettings,
    Mcp2210Error,
>)
    ensures
        r matches Ok(s) ==> spec_check_response(CMD_GET_SPI_SETTINGS, final(res)@) is Ok
            && final(res)@[20] <= 3 && s == spec_spi_settings_of(final(res)@),
{
    let cmd = command_bytes(CMD_GET_SPI_SETTINGS, 0, 0, 0);
    match dev.command_response(&cmd, res) {
        Err(e) => {
            return Err(e);
        },
        Ok(()) => {},
    }
    decode_spi_settings_response(res)
}

/// Writes the volatile SPI transfer settings.
pub fn set_spi_settings<T: CommandResponse>(
    dev: &mut T,
    settings: &SpiSettings,
    res: &mut Buffer,
) -> (r: Result<(), Mcp2210Error>)
    ensures
        r is Ok ==> spec_check_response(CMD_SET_SPI_SETTINGS, final(res)@) is Ok,
{
    let cmd = encode_set_spi_settings(settings);
    match dev.command_response(&cmd, res) {
        Err(e) => {
            return Err(e);
        },
        Ok(()) => {},
    }
    check_response(CMD_SET_SPI_SETTINGS, res)
}

/// Reads the volatile chip settings.  A success is the faithfully decoded
/// settings value of the validated response left in `res`.
pub fn get_chip_settings<T: CommandResponse>(dev: &mut T, res: &mut Buffer) -> (r: Result<
    ChipSettings,
    Mcp2210Error,
>)
    ensures
        r matches Ok(s) ==> spec_check_response(CMD_GET_CHIP_SETTINGS, final(res)@) is Ok
            && spec_chip_settings_res_valid(final(res)@) && spec_chip_settings_match(
            s,
            final(res)@,
        ),
{
    let cmd = command_bytes(CMD_GET_CHIP_SETTINGS, 0, 0, 0);
    match dev.command_response(&cmd, res) {
        Err(e) => {
            return Err(e);
        },
        Ok(()) => {},
    }
    decode_chip_settings_response(res)
}

/// Writes the volatile chip settings.  A settings value the protocol
/// cannot encode is rejected before any exchange, and that rejection is
/// the only way this command yields `InvalidResponse`: its response
/// carries no structured fields to validate.
pub fn set_chip_settings<T: CommandResponse>(
    dev: &mut T,
    settings: &ChipSettings,
    res: &mut Buffer,
) -> (r: Result<(), Mcp2210Error>)
    ensures
        r is Ok ==> spec_check_response(CMD_SET_CHIP_SETTINGS, final(res)@) is Ok,
        !spec_chip_settings_valid(*settings) ==> (r matches Err(e) && e is InvalidResponse),
        r matches Err(e) ==> (e is InvalidResponse ==> !spec_chip_settings_valid(*settings)),
{
    let cmd = match encode_set_chip_settings(settings) {
        Ok(c) => c,
        Err(e) => {
            return Err(e);
        },
    };
    match dev.command_response(&cmd, res) {
        Err(e) => {
            return Err(e);
        },
        Ok(()) => {},
    }
    check_response(CMD_SET_CHIP_SETTINGS, res)
}

/// Reads the USB descriptor string selected by `sub` as UTF-16 code
/// units.  A success is the faithfully decoded payload of the validated
/// response left in `res`.
pub fn get_usb_string<T: CommandResponse>(dev: &mut T, sub: u8, res: &mut Buffer) -> (r: Result<
    Vec<u16>,
    Mcp2210Error,
>)
    ensures
        r matches Ok(units) ==> spec_check_sub_response(CMD_GET_NVRAM, sub, final(res)@) is Ok
            && spec_string_res_valid(final(res)@) && units@ == spec_string_units_of(final(res)@),
{
    let cmd = encode_get_usb_string(sub);
    match dev.command_response(&cmd, res) {
        Err(e) => {
            return Err(e);
        },
        Ok(()) => {},
    }
    decode_usb_string_response(sub, res)
}

/// Writes the USB descriptor string selected by `sub`.  A string needing
/// more than 29 UTF-16 code units is rejected, with its unit count,
/// before any exchange.
pub fn set_usb_string<T: CommandResponse>(
    dev: &mut T,
    sub: u8,
    s: &str,
    res: &mut Buffer,
) -> (r: Result<(), Mcp2210Error>)
    ensures
        spec_utf16(s@).len() > 29 ==> r == Err::<(), Mcp2210Error>(
            Mcp2210Error::StringSize(spec_utf16(s@).len() as usize),
        ),
        r is Ok ==> spec_utf16(s@).len() <= 29 && spec_check_sub_response(
            CMD_SET_NVRAM,
            sub,
            final(res)@,
        ) is Ok,
        r matches Err(e) ==> (e is StringSize ==> spec_utf16(s@).len() > 29),
{
    let cmd = match encode_set_usb_string(sub, s) {
        Ok(c) => c,
        Err(e) => {
            return Err(e);
        },
    };
    match dev.command_response(&cmd, res) {
        Err(e) => {
            return Err(e);
        },
        Ok(()) => {},
    }
    check_sub_response(CMD_SET_NVRAM, sub, res)
}

} // verus!
