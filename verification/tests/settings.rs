use mcp2210::error::Mcp2210Error;
use mcp2210::settings::decode_chip_settings_response;
use mcp2210::settings::decode_spi_settings_response;
use mcp2210::settings::encode_set_chip_settings;
use mcp2210::settings::encode_set_spi_settings;
use mcp2210::settings::ChipSettings;
use mcp2210::settings::PinMode;
use mcp2210::settings::SpiSettings;
use mcp2210::types::Buffer;

fn sample_spi_settings() -> SpiSettings {
    SpiSettings {
        bit_rate: 12_000_000,
        idle_cs: 0x01FF,
        active_cs: 0x0000,
        cs_to_data_delay: 10,
        last_byte_to_cs_delay: 20,
        inter_byte_delay: 30,
        bytes_per_transaction: 1024,
        spi_mode: 3,
    }
}

#[test]
fn spi_settings_encode_layout() {
    let buf = encode_set_spi_settings(&sample_spi_settings());
    assert_eq!(buf[0], 0x41);
    // 12_000_000 = 0x00B71B00, little-endian.
    assert_eq!(&buf[4..8], &[0x00, 0x1B, 0xB7, 0x00]);
    assert_eq!(&buf[8..10], &[0xFF, 0x01]);
    assert_eq!(&buf[10..12], &[0x00, 0x00]);
    assert_eq!(&buf[12..14], &[10, 0]);
    assert_eq!(&buf[14..16], &[20, 0]);
    assert_eq!(&buf[16..18], &[30, 0]);
    assert_eq!(&buf[18..20], &[0x00, 0x04]);
    assert_eq!(buf[20], 3);
    assert!(buf[21..].iter().all(|&b| b == 0));
}

#[test]
fn spi_settings_decode_round_trips_encode() {
    let s = sample_spi_settings();
    let cmd = encode_set_spi_settings(&s);
    let mut res: Buffer = [0u8; 64];
    res[0] = 0x40;
    res[4..21].copy_from_slice(&cmd[4..21]);
    assert_eq!(decode_spi_settings_response(&res), Ok(s));
}

#[test]
fn spi_settings_decode_rejects_mode_above_three() {
    let mut res: Buffer = [0u8; 64];
    res[0] = 0x40;
    res[20] = 4;
    assert!(matches!(
        decode_spi_settings_response(&res),
        Err(Mcp2210Error::InvalidResponse(_))
    ));
}

fn sample_chip_settings() -> ChipSettings {
    ChipSettings {
        gp_designations: [
            PinMode::Gpio,
            PinMode::ChipSelect,
            PinMode::Dedicated,
            PinMode::Gpio,
            PinMode::ChipSelect,
            PinMode::Gpio,
            PinMode::Gpio,
            PinMode::Dedicated,
            PinMode::ChipSelect,
        ],
        default_gpio_value: 0x01AB,
        default_gpio_direction: 0x01CD,
        remote_wakeup: true,
        interrupt_mode: 4,
        spi_bus_release: true,
    }
}

#[test]
fn chip_settings_encode_layout() {
    let buf = encode_set_chip_settings(&sample_chip_settings()).unwrap();
    assert_eq!(buf[0], 0x21);
    assert_eq!(&buf[4..13], &[0, 1, 2, 0, 1, 0, 0, 2, 1]);
    assert_eq!(&buf[13..15], &[0xAB, 0x01]);
    assert_eq!(&buf[15..17], &[0xCD, 0x01]);
    // Options byte: wakeup bit 4, interrupt mode 4 in bits 1-3, release bit 0.
    assert_eq!(buf[17], 16 + 4 * 2 + 1);
    assert!(buf[18..].iter().all(|&b| b == 0));
}

#[test]
fn chip_settings_encode_rejects_interrupt_mode_above_four() {
    let mut s = sample_chip_settings();
    s.interrupt_mode = 5;
    assert!(matches!(
        encode_set_chip_settings(&s),
        Err(Mcp2210Error::InvalidResponse(_))
    ));
}

#[test]
fn chip_settings_decode_round_trips_encode() {
    let s = sample_chip_settings();
    let cmd = encode_set_chip_settings(&s).unwrap();
    let mut res: Buffer = [0u8; 64];
    res[0] = 0x20;
    res[4..18].copy_from_slice(&cmd[4..18]);
    assert_eq!(decode_chip_settings_response(&res), Ok(s));
}

#[test]
fn chip_settings_decode_rejects_unknown_pin_designation() {
    let mut res: Buffer = [0u8; 64];
    res[0] = 0x20;
    res[7] = 3;
    assert!(matches!(
        decode_chip_settings_response(&res),
        Err(Mcp2210Error::InvalidResponse(_))
    ));
}

#[test]
fn chip_settings_decode_rejects_bad_options_byte() {
    let mut res: Buffer = [0u8; 64];
    res[0] = 0x20;
    res[17] = 32;
    assert!(matches!(
        decode_chip_settings_response(&res),
        Err(Mcp2210Error::InvalidResponse(_))
    ));
    res[17] = 5 * 2;
    assert!(matches!(
        decode_chip_settings_response(&res),
        Err(Mcp2210Error::InvalidResponse(_))
    ));
}

#[test]
fn chip_settings_decode_translates_chip_error() {
    let mut res: Buffer = [0u8; 64];
    res[0] = 0x20;
    res[1] = 0xFC;
    assert_eq!(
        decode_chip_settings_response(&res),
        Err(Mcp2210Error::AccessRejected)
    );
}
