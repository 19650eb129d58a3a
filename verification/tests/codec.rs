use mcp2210::codec::check_response;
use mcp2210::codec::check_sub_response;
use mcp2210::codec::command_bytes;
use mcp2210::codec::decode_gpio_response;
use mcp2210::codec::decode_read_eeprom_response;
use mcp2210::codec::decode_spi_transfer_response;
use mcp2210::codec::decode_write_eeprom_response;
use mcp2210::codec::encode_gpio_mask;
use mcp2210::codec::encode_read_eeprom;
use mcp2210::codec::encode_spi_transfer;
use mcp2210::codec::encode_write_eeprom;
use mcp2210::codec::CMD_GET_GPIO_VALUE;
use mcp2210::codec::CMD_SET_GPIO_VALUE;
use mcp2210::codec::CMD_SPI_TRANSFER;
use mcp2210::error::Mcp2210Error;
use mcp2210::types::Buffer;
use mcp2210::types::SpiTransferStatus;

#[test]
fn command_bytes_layout() {
    let buf = command_bytes(0x50, 0x12, 0x34, 0x56);
    assert_eq!(buf[0], 0x50);
    assert_eq!(buf[1], 0x12);
    assert_eq!(buf[2], 0x34);
    assert_eq!(buf[3], 0x56);
    assert!(buf[4..].iter().all(|&b| b == 0));
}

#[test]
fn encode_spi_transfer_layout() {
    let data = [0xAAu8, 0xBB, 0xCC];
    let buf = encode_spi_transfer(&data).unwrap();
    assert_eq!(buf[0], CMD_SPI_TRANSFER);
    assert_eq!(buf[1], 3);
    assert_eq!(buf[2], 0);
    assert_eq!(buf[3], 0);
    assert_eq!(&buf[4..7], &[0xAA, 0xBB, 0xCC]);
    assert!(buf[7..].iter().all(|&b| b == 0));
}

#[test]
fn encode_spi_transfer_rejects_oversized_payload() {
    let data = [0u8; 61];
    assert_eq!(
        encode_spi_transfer(&data),
        Err(Mcp2210Error::PayloadSize(61))
    );
    let max = [0u8; 60];
    assert!(encode_spi_transfer(&max).is_ok());
}

#[test]
fn command_code_mismatch_reports_expected_and_actual() {
    // A response claiming command 0x42 when 0x10 was sent.
    let mut res: Buffer = [0u8; 64];
    res[0] = 0x42;
    assert_eq!(
        check_response(0x10, &res),
        Err(Mcp2210Error::CommandCode {
            expected: 0x10,
            actual: 0x42
        })
    );
}

#[test]
fn sub_command_code_mismatch_reports_expected_and_actual() {
    let mut res: Buffer = [0u8; 64];
    res[0] = 0x61;
    res[1] = 0x50;
    assert_eq!(
        check_sub_response(0x61, 0x40, &res),
        Err(Mcp2210Error::SubCommandCode {
            expected: 0x40,
            actual: 0x50
        })
    );
}

#[test]
fn chip_error_codes_translate_to_named_errors() {
    let cases = [
        (0xF7u8, Mcp2210Error::Unavailable),
        (0xF8, Mcp2210Error::Busy),
        (0xF9, Mcp2210Error::UnknownCommandCode(0x42)),
        (0xFA, Mcp2210Error::EepromWrite),
        (0xFB, Mcp2210Error::AccessDenied),
        (0xFC, Mcp2210Error::AccessRejected),
        (0xFD, Mcp2210Error::AccessDeniedRetry),
    ];
    for (byte, expected) in cases {
        let mut res: Buffer = [0u8; 64];
        res[0] = 0x42;
        res[1] = byte;
        assert_eq!(check_response(0x42, &res), Err(expected));
    }
}

#[test]
fn error_byte_outside_defined_set_is_unknown_error_code() {
    for byte in [0x01u8, 0x7F, 0xF6, 0xFE, 0xFF] {
        let mut res: Buffer = [0u8; 64];
        res[0] = 0x42;
        res[1] = byte;
        assert_eq!(
            check_response(0x42, &res),
            Err(Mcp2210Error::UnknownErrorCode(byte))
        );
    }
}

#[test]
fn spi_transfer_encode_decode_round_trips_identification() {
    let data = [1u8, 2, 3];
    let cmd = encode_spi_transfer(&data).unwrap();
    let mut res: Buffer = [0u8; 64];
    res[0] = cmd[0];
    res[3] = 0x10;
    let decoded = decode_spi_transfer_response(&res).unwrap();
    assert_eq!(decoded.status, SpiTransferStatus::Finished);
    assert_eq!(decoded.data, Vec::<u8>::new());
}

#[test]
fn decode_spi_transfer_response_extracts_data() {
    let mut res: Buffer = [0u8; 64];
    res[0] = 0x42;
    res[2] = 4;
    res[3] = 0x30;
    res[4..8].copy_from_slice(&[9, 8, 7, 6]);
    let decoded = decode_spi_transfer_response(&res).unwrap();
    assert_eq!(decoded.status, SpiTransferStatus::InProgress);
    assert_eq!(decoded.data, vec![9, 8, 7, 6]);
}

#[test]
fn decode_spi_transfer_response_rejects_unknown_status() {
    let mut res: Buffer = [0u8; 64];
    res[0] = 0x42;
    res[3] = 0x77;
    assert!(matches!(
        decode_spi_transfer_response(&res),
        Err(Mcp2210Error::InvalidResponse(_))
    ));
}

#[test]
fn decode_spi_transfer_response_rejects_oversized_count() {
    let mut res: Buffer = [0u8; 64];
    res[0] = 0x42;
    res[2] = 61;
    res[3] = 0x10;
    assert!(matches!(
        decode_spi_transfer_response(&res),
        Err(Mcp2210Error::InvalidResponse(_))
    ));
}

#[test]
fn gpio_mask_encodes_little_endian() {
    let buf = encode_gpio_mask(CMD_SET_GPIO_VALUE, 0x1234);
    assert_eq!(buf[0], CMD_SET_GPIO_VALUE);
    assert_eq!(buf[4], 0x34);
    assert_eq!(buf[5], 0x12);
}

#[test]
fn gpio_response_decodes_little_endian() {
    let mut res: Buffer = [0u8; 64];
    res[0] = CMD_GET_GPIO_VALUE;
    res[4] = 0xCD;
    res[5] = 0xAB;
    assert_eq!(decode_gpio_response(CMD_GET_GPIO_VALUE, &res), Ok(0xABCD));
}

#[test]
fn eeprom_read_round_trip() {
    let cmd = encode_read_eeprom(0x5A);
    assert_eq!(cmd[0], 0x50);
    assert_eq!(cmd[1], 0x5A);
    let mut res: Buffer = [0u8; 64];
    res[0] = 0x50;
    res[2] = 0x5A;
    res[3] = 0x99;
    assert_eq!(decode_read_eeprom_response(0x5A, &res), Ok(0x99));
}

#[test]
fn eeprom_read_rejects_address_echo_mismatch() {
    let mut res: Buffer = [0u8; 64];
    res[0] = 0x50;
    res[2] = 0x11;
    res[3] = 0x99;
    assert!(matches!(
        decode_read_eeprom_response(0x22, &res),
        Err(Mcp2210Error::InvalidResponse(_))
    ));
}

#[test]
fn eeprom_write_reports_write_failure() {
    let cmd = encode_write_eeprom(0x10, 0x77);
    assert_eq!(cmd[0], 0x51);
    assert_eq!(cmd[1], 0x10);
    assert_eq!(cmd[2], 0x77);
    let mut res: Buffer = [0u8; 64];
    res[0] = 0x51;
    res[1] = 0xFA;
    assert_eq!(
        decode_write_eeprom_response(&res),
        Err(Mcp2210Error::EepromWrite)
    );
}
