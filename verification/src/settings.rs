use vstd::prelude::*;

use crate::codec::check_response;
use crate::codec::spec_check_response;
use crate::codec::CMD_GET_CHIP_SETTINGS;
use crate::codec::CMD_GET_SPI_SETTINGS;
use crate::codec::CMD_SET_CHIP_SETTINGS;
use crate::codec::CMD_SET_SPI_SETTINGS;
use crate::error::Mcp2210Error;
use crate::types::Buffer;

verus! {

/// The 16-bit value two response bytes carry, least significant first.
pub open spec fn spec_u16_le(lo: u8, hi: u8) -> u16 {
    (lo as int + hi as int * 256) as u16
}

/// The 32-bit value four response bytes carry, least significant first.
pub open spec fn spec_u32_le(b0: u8, b1: u8, b2: u8, b3: u8) -> u32 {
    (b0 as int + b1 as int * 256 + b2 as int * 65536 + b3 as int * 16777216) as u32
}

/// The chip's volatile SPI transfer settings, as one settings packet
/// carries them: every multi-byte field is little-endian on the wire, and
/// the SPI mode is a single byte that the protocol defines only for values
/// 0 through 3.
#[derive(Clone, Copy, Debug, PartialEq, Eq, Structural)]
pub struct SpiSettings {
    /// Bus bit rate in bits per second.
    pub bit_rate: u32,
    /// Chip-select pin levels while the bus is idle.
    pub idle_cs: u16,
    /// Chip-select pin levels while a transfer is active.
    pub active_cs: u16,
    /// Delay from chip-select assertion to the first data byte, in units
    /// of 100 microseconds.
    pub cs_to_data_delay: u16,
    /// Delay from the last data byte to chip-select release, in units of
    /// 100 microseconds.
    pub last_byte_to_cs_delay: u16,
    /// Delay between consecutive data bytes, in units of 100 microseconds.
    pub inter_byte_delay: u16,
    /// Number of bytes in one bus transaction.
    pub bytes_per_transaction: u16,
    /// SPI mode, 0 through 3.
    pub spi_mode: u8,
}

/// Whether a settings value is one the protocol can encode.
pub open spec fn spec_spi_settings_valid(s: SpiSettings) -> bool {
    s.spi_mode <= 3
}

/// The byte at offset `i` of the settings block a settings packet carries
/// at offsets 4 through 20.
pub open spec fn spec_spi_settings_byte(s: SpiSettings, i: int) -> u8 {
    if i == 4 {
        (s.bit_rate as int % 256) as u8
    } else if i == 5 {
        (s.bit_rate as int / 256 % 256) as u8
    } else if i == 6 {
        (s.bit_rate as int / 65536 % 256) as u8
    } else if i == 7 {
        (s.bit_rate as int / 16777216) as u8
    } else if i == 8 {
        (s.idle_cs as int % 256) as u8
    } else if i == 9 {
        (s.idle_cs as int / 256) as u8
    } else if i == 10 {
        (s.active_cs as int % 256) as u8
    } else if i == 11 {
        (s.active_cs as int / 256) as u8
    } else if i == 12 {
        (s.cs_to_data_delay as int % 256) as u8
    } else if i == 13 {
        (s.cs_to_data_delay as int / 256) as u8
    } else if i == 14 {
        (s.last_byte_to_cs_delay as int % 256) as u8
    } else if i == 15 {
        (s.last_byte_to_cs_delay as int / 256) as u8
    } else if i == 16 {
        (s.inter_byte_delay as int % 256) as u8
    } else if i == 17 {
        (s.inter_byte_delay as int / 256) as u8
    } else if i == 18 {
        (s.bytes_per_transaction as int % 256) as u8
    } else if i == 19 {
        (s.bytes_per_transaction as int / 256) as u8
    } else if i == 20 {
        s.spi_mode
    } else {
        0u8
    }
}

/// The command packet that writes the volatile SPI transfer settings.
pub open spec fn spec_set_spi_settings_cmd(s: SpiSettings) -> Seq<u8> {
    Seq::new(
        64,
        |i: int|
            if i == 0 {
                CMD_SET_SPI_SETTINGS
            } else if 4 <= i <= 20 {
                spec_spi_settings_byte(s, i)
            } else {
                0u8
            },
    )
}

/// Encodes a write of the volatile SPI transfer settings.
pub fn encode_set_spi_settings(s: &SpiSettings) -> (buf: Buffer)
    ensures
        buf@ == spec_set_spi_settings_cmd(*s),
{
    let mut buf: Buffer = [0u8; 64];
    buf[0] = CMD_SET_SPI_SETTINGS;
    buf[4] = (s.bit_rate % 256) as u8;
    buf[5] = (s.bit_rate / 256 % 256) as u8;
    buf[6] = (s.bit_rate / 65536 % 256) as u8;
    buf[7] = (s.bit_rate / 16777216) as u8;
    buf[8] = (s.idle_cs % 256) as u8;
    buf[9] = (s.idle_cs / 256) as u8;
    buf[10] = (s.active_cs % 256) as u8;
    buf[11] = (s.active_cs / 256) as u8;
    buf[12] = (s.cs_to_data_delay % 256) as u8;
    buf[13] = (s.cs_to_data_delay / 256) as u8;
    buf[14] = (s.last_byte_to_cs_delay % 256) as u8;
    buf[15] = (s.last_byte_to_cs_delay / 256) as u8;
    buf[16] = (s.inter_byte_delay % 256) as u8;
    buf[17] = (s.inter_byte_delay / 256) as u8;
    buf[18] = (s.bytes_per_transaction % 256) as u8;
    buf[19] = (s.bytes_per_transaction / 256) as u8;
    buf[20] = s.spi_mode;
    proof {
        assert(buf@ =~= spec_set_spi_settings_cmd(*s));
    }
    buf
}

/// The settings value a settings response carries at offsets 4 through 20.
pub open spec fn spec_spi_settings_of(res: Seq<u8>) -> SpiSettings
    recommends
        res.len() == 64,
{
    SpiSettings {
        bit_rate: spec_u32_le(res[4], res[5], res[6], res[7]),
        idle_cs: spec_u16_le(res[8], res[9]),
        active_cs: spec_u16_le(res[10], res[11]),
        cs_to_data_delay: spec_u16_le(res[12], res[13]),
        last_byte_to_cs_delay: spec_u16_le(res[14], res[15]),
        inter_byte_delay: spec_u16_le(res[16], res[17]),
        bytes_per_transaction: spec_u16_le(res[18], res[19]),
        spi_mode: res[20],
    }
}

/// Decodes a read of the volatile SPI transfer settings.  An SPI mode byte
/// above 3 is a value the protocol does not define.
pub fn decode_spi_settings_response(res: &Buffer) -> (r: Result<SpiSettings, Mcp2210Error>)
    ensures
        spec_check_response(CMD_GET_SPI_SETTINGS, res@) matches Err(e) ==> r == Err::<
            SpiSettings,
            Mcp2210Error,
        >(e),
        spec_check_response(CMD_GET_SPI_SETTINGS, res@) is Ok && res@[20] > 3 ==> (r matches Err(e)
            && e is InvalidResponse),
        spec_check_response(CMD_GET_SPI_SETTINGS, res@) is Ok && res@[20] <= 3 ==> r == Ok::<
            SpiSettings,
            Mcp2210Error,
        >(spec_spi_settings_of(res@)),
{
    match check_response(CMD_GET_SPI_SETTINGS, res) {
        Err(e) => {
            return Err(e);
        },
        Ok(()) => {},
    }
    if res[20] > 3 {
        return Err(Mcp2210Error::InvalidResponse("SPI mode out of range".to_owned()));
    }
    Ok(
        SpiSettings {
            bit_rate: res[4] as u32 + res[5] as u32 * 256 + res[6] as u32 * 65536 + res[7] as u32
                * 16777216,
            idle_cs: res[8] as u16 + res[9] as u16 * 256,
            active_cs: res[10] as u16 + res[11] as u16 * 256,
            cs_to_data_delay: res[12] as u16 + res[13] as u16 * 256,
            last_byte_to_cs_delay: res[14] as u16 + res[15] as u16 * 256,
            inter_byte_delay: res[16] as u16 + res[17] as u16 * 256,
            bytes_per_transaction: res[18] as u16 + res[19] as u16 * 256,
            spi_mode: res[20],
        },
    )
}

/// Function a general-purpose pin is assigned to.  The wire encoding is
/// one byte per pin: 0 plain GPIO, 1 chip select, 2 the pin's dedicated
/// alternate function.
#[derive(Clone, Copy, Debug, PartialEq, Eq, Structural)]
pub enum PinMode {
    Gpio,
    ChipSelect,
    Dedicated,
}

/// Wire encoding of a pin designation, if the byte is one the protocol
/// defines.
pub open spec fn spec_pin_mode(b: u8) -> Option<PinMode> {
    if b == 0 {
        Some(PinMode::Gpio)
    } else if b == 1 {
        Some(PinMode::ChipSelect)
    } else if b == 2 {
        Some(PinMode::Dedicated)
    } else {
        None
    }
}

/// The byte a pin designation is encoded as.
pub open spec fn spec_pin_mode_byte(m: PinMode) -> u8 {
    match m {
        PinMode::Gpio => 0u8,
        PinMode::ChipSelect => 1u8,
        PinMode::Dedicated => 2u8,
    }
}

/// The chip's volatile chip settings, as one settings packet carries them:
/// a designation byte for each of the nine general-purpose pins at offsets
/// 4 through 12, the default pin output and direction masks at 13-14 and
/// 15-16, and a packed options byte at 17 (bit 4 remote wakeup, bits 1-3
/// the dedicated-pin interrupt counting mode, bit 0 SPI bus release).
#[derive(Clone, Copy, Debug, PartialEq, Eq)]
pub struct ChipSettings {
    pub gp_designations: [PinMode; 9],
    pub default_gpio_value: u16,
    pub default_gpio_direction: u16,
    pub remote_wakeup: bool,
    pub interrupt_mode: u8,
    pub spi_bus_release: bool,
}

/// Whether a chip settings value is one the protocol can encode: the
/// interrupt counting mode is defined only for values 0 through 4.
pub open spec fn spec_chip_settings_valid(s: ChipSettings) -> bool {
    s.interrupt_mode <= 4
}

/// The packed options byte at offset 17.
pub open spec fn spec_options_byte(s: ChipSettings) -> u8 {
    ((if s.remote_wakeup {
        16int
    } else {
        0int
    }) + s.interrupt_mode as int * 2 + (if s.spi_bus_release {
        1int
    } else {
        0int
    })) as u8
}

/// The byte at offset `i` of the chip settings block a settings packet
/// carries at offsets 4 through 17.
pub open spec fn spec_chip_settings_byte(s: ChipSettings, i: int) -> u8 {
    if 4 <= i <= 12 {
        spec_pin_mode_byte(s.gp_designations@[i - 4])
    } else if i == 13 {
        (s.default_gpio_value as int % 256) as u8
    } else if i == 14 {
        (s.default_gpio_value as int / 256) as u8
    } else if i == 15 {
        (s.default_gpio_direction as int % 256) as u8
    } else if i == 16 {
        (s.default_gpio_direction as int / 256) as u8
    } else if i == 17 {
        spec_options_byte(s)
    } else {
        0u8
    }
}

/// The command packet that writes the volatile chip settings.
pub open spec fn spec_set_chip_settings_cmd(s: ChipSettings) -> Seq<u8> {
    Seq::new(
        64,
        |i: int|
            if i == 0 {
                CMD_SET_CHIP_SETTINGS
            } else if 4 <= i <= 17 {
                spec_chip_settings_byte(s, i)
            } else {
                0u8
            },
    )
}

/// The byte a pin designation is encoded as.
pub fn pin_mode_byte(m: PinMode) -> (b: u8)
    ensures
        b == spec_pin_mode_byte(m),
{
    match m {
        PinMode::Gpio => 0u8,
        PinMode::ChipSelect => 1u8,
        PinMode::Dedicated => 2u8,
    }
}

/// Encodes a write of the volatile chip settings.  An interrupt mode above
/// 4 is a caller error; the protocol defines no byte for it.
pub fn encode_set_chip_settings(s: &ChipSettings) -> (r: Result<Buffer, Mcp2210Error>)
    ensures
        spec_chip_settings_valid(*s) ==> (r matches Ok(buf) && buf@ == spec_set_chip_settings_cmd(
            *s,
        )),
        !spec_chip_settings_valid(*s) ==> (r matches Err(e) && e is InvalidResponse),
{
    if s.interrupt_mode > 4 {
        return Err(Mcp2210Error::InvalidResponse("interrupt mode out of range".to_owned()));
    }
    let mut buf: Buffer = [0u8; 64];
    buf[0] = CMD_SET_CHIP_SETTINGS;
    let mut i: usize = 0;
    while i < 9
        invariant
            i <= 9,
            buf@.len() == 64,
            buf@[0] == CMD_SET_CHIP_SETTINGS,
            forall|j: int| 4 <= j < 4 + i ==> buf@[j] == spec_pin_mode_byte(s.gp_designations@[j - 4]),
            forall|j: int| (1 <= j < 4 || 4 + i <= j < 64) ==> buf@[j] == 0u8,
        decreases 9 - i,
    {
        buf[4 + i] = pin_mode_byte(s.gp_designations[i]);
        i = i + 1;
    }
    buf[13] = (s.default_gpio_value % 256) as u8;
    buf[14] = (s.default_gpio_value / 256) as u8;
    buf[15] = (s.default_gpio_direction % 256) as u8;
    buf[16] = (s.default_gpio_direction / 256) as u8;
    let wakeup: u8 = if s.remote_wakeup {
        16
    } else {
        0
    };
    let release: u8 = if s.spi_bus_release {
        1
    } else {
        0
    };
    buf[17] = wakeup + s.interrupt_mode * 2 + release;
    proof {
        assert(buf@ =~= spec_set_chip_settings_cmd(*s));
    }
    Ok(buf)
}

/// Whether `s` is exactly the chip settings value a valid settings
/// response `res` carries at offsets 4 through 17.
pub open spec fn spec_chip_settings_match(s: ChipSettings, res: Seq<u8>) -> bool
    recommends
        res.len() == 64,
{
    &&& s.gp_designations@ == Seq::new(9, |i: int| spec_pin_mode(res[4 + i]).unwrap())
    &&& s.default_gpio_value == spec_u16_le(res[13], res[14])
    &&& s.default_gpio_direction == spec_u16_le(res[15], res[16])
    &&& s.remote_wakeup == (res[17] as int / 16 % 2 == 1)
    &&& s.interrupt_mode == (res[17] as int / 2 % 8) as u8
    &&& s.spi_bus_release == (res[17] as int % 2 == 1)
}

/// Whether every structural field of a chip settings response holds a
/// value the protocol defines: each pin designation byte is 0 through 2,
/// the options byte uses only its low five bits, and its interrupt mode
/// bits stay at or below 4.
pub open spec fn spec_chip_settings_res_valid(res: Seq<u8>) -> bool
    recommends
        res.len() == 64,
{
    &&& forall|i: int| 4 <= i <= 12 ==> spec_pin_mode(res[i]) is Some
    &&& res[17] < 32
    &&& res[17] as int / 2 % 8 <= 4
}

/// Decodes a read of the volatile chip settings, validating every field
/// against the values the protocol defines.
pub fn decode_chip_settings_response(res: &Buffer) -> (r: Result<ChipSettings, Mcp2210Error>)
    ensures
        spec_check_response(CMD_GET_CHIP_SETTINGS, res@) matches Err(e) ==> r == Err::<
            ChipSettings,
            Mcp2210Error,
        >(e),
        spec_check_response(CMD_GET_CHIP_SETTINGS, res@) is Ok && !spec_chip_settings_res_valid(
            res@,
        ) ==> (r matches Err(e) && e is InvalidResponse),
        spec_check_response(CMD_GET_CHIP_SETTINGS, res@) is Ok && spec_chip_settings_res_valid(res@)
            ==> (r matches Ok(s) && spec_chip_settings_match(s, res@)),
{
    match check_response(CMD_GET_CHIP_SETTINGS, res) {
        Err(e) => {
            return Err(e);
        },
        Ok(()) => {},
    }
    let mut modes: [PinMode; 9] = [PinMode::Gpio; 9];
    let mut i: usize = 0;
    while i < 9
        invariant
            i <= 9,
            res@.len() == 64,
            spec_check_response(CMD_GET_CHIP_SETTINGS, res@) is Ok,
            forall|j: int| 4 <= j < 4 + i ==> spec_pin_mode(res@[j]) is Some,
            forall|j: int| 0 <= j < i ==> Some(modes@[j]) == spec_pin_mode(res@[4 + j]),
        decreases 9 - i,
    {
        let b = res[4 + i];
        let m = if b == 0 {
            PinMode::Gpio
        } else if b == 1 {
            PinMode::ChipSelect
        } else if b == 2 {
            PinMode::Dedicated
        } else {
            return Err(Mcp2210Error::InvalidResponse("pin designation unknown".to_owned()));
        };
        modes[i] = m;
        i = i + 1;
    }
    let options = res[17];
    if options >= 32 || options / 2 % 8 > 4 {
        return Err(Mcp2210Error::InvalidResponse("chip options byte out of range".to_owned()));
    }
    let settings = ChipSettings {
        gp_designations: modes,
        default_gpio_value: res[13] as u16 + res[14] as u16 * 256,
        default_gpio_direction: res[15] as u16 + res[16] as u16 * 256,
        remote_wakeup: options / 16 % 2 == 1,
        interrupt_mode: options / 2 % 8,
        spi_bus_release: options % 2 == 1,
    };
    proof {
        assert(settings.gp_designations@ =~= Seq::new(
            9,
            |j: int| spec_pin_mode(res@[4 + j]).unwrap(),
        ));
    }
    Ok(settings)
}

} // verus!
