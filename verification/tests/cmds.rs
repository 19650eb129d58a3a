use mcp2210::cmds::get_gpio_direction;
use mcp2210::cmds::get_gpio_value;
use mcp2210::cmds::get_spi_settings;
use mcp2210::cmds::get_usb_string;
use mcp2210::cmds::read_eeprom;
use mcp2210::cmds::set_chip_settings;
use mcp2210::cmds::set_gpio_direction;
use mcp2210::cmds::set_gpio_value;
use mcp2210::cmds::set_usb_string;
use mcp2210::cmds::write_eeprom;
use mcp2210::codec::SUB_USB_PRODUCT_NAME;
use mcp2210::error::Mcp2210Error;
use mcp2210::settings::ChipSettings;
use mcp2210::settings::PinMode;
use mcp2210::transfer::CommandResponse;
use mcp2210::types::Buffer;

/// A transport that answers with a preset response and records every
/// command packet it is handed.
struct Scripted {
    response: Buffer,
    sent: Vec<Buffer>,
}

impl Scripted {
    fn replying(response: Buffer) -> Scripted {
        Scripted {
            response,
            sent: Vec::new(),
        }
    }
}

impl CommandResponse for Scripted {
    fn command_response(&mut self, cmd: &Buffer, res: &mut Buffer) -> Result<(), Mcp2210Error> {
        self.sent.push(*cmd);
        *res = self.response;
        Ok(())
    }
}

#[test]
fn get_gpio_value_sends_its_command_and_decodes_the_mask() {
    let mut response: Buffer = [0u8; 64];
    response[0] = 0x31;
    response[4] = 0x0F;
    response[5] = 0x01;
    let mut dev = Scripted::replying(response);
    let mut res: Buffer = [0u8; 64];
    assert_eq!(get_gpio_value(&mut dev, &mut res), Ok(0x010F));
    assert_eq!(dev.sent.len(), 1);
    assert_eq!(dev.sent[0][0], 0x31);
}

#[test]
fn set_gpio_value_sends_the_mask_little_endian() {
    let mut response: Buffer = [0u8; 64];
    response[0] = 0x30;
    response[4] = 0x34;
    response[5] = 0x12;
    let mut dev = Scripted::replying(response);
    let mut res: Buffer = [0u8; 64];
    assert_eq!(set_gpio_value(&mut dev, 0x1234, &mut res), Ok(0x1234));
    assert_eq!(dev.sent[0][0], 0x30);
    assert_eq!(dev.sent[0][4], 0x34);
    assert_eq!(dev.sent[0][5], 0x12);
}

#[test]
fn gpio_direction_commands_use_their_codes() {
    let mut response: Buffer = [0u8; 64];
    response[0] = 0x33;
    let mut dev = Scripted::replying(response);
    let mut res: Buffer = [0u8; 64];
    assert_eq!(get_gpio_direction(&mut dev, &mut res), Ok(0));
    assert_eq!(dev.sent[0][0], 0x33);

    let mut response2: Buffer = [0u8; 64];
    response2[0] = 0x32;
    response2[4] = 0xFF;
    let mut dev2 = Scripted::replying(response2);
    assert_eq!(set_gpio_direction(&mut dev2, 0x00FF, &mut res), Ok(0x00FF));
    assert_eq!(dev2.sent[0][0], 0x32);
    assert_eq!(dev2.sent[0][4], 0xFF);
}

#[test]
fn read_eeprom_decodes_the_stored_value() {
    let mut response: Buffer = [0u8; 64];
    response[0] = 0x50;
    response[2] = 0x42;
    response[3] = 0xA5;
    let mut dev = Scripted::replying(response);
    let mut res: Buffer = [0u8; 64];
    assert_eq!(read_eeprom(&mut dev, 0x42, &mut res), Ok(0xA5));
    assert_eq!(dev.sent[0][0], 0x50);
    assert_eq!(dev.sent[0][1], 0x42);
}

#[test]
fn write_eeprom_surfaces_the_chips_write_failure() {
    let mut response: Buffer = [0u8; 64];
    response[0] = 0x51;
    response[1] = 0xFA;
    let mut dev = Scripted::replying(response);
    let mut res: Buffer = [0u8; 64];
    assert_eq!(
        write_eeprom(&mut dev, 0x01, 0x02, &mut res),
        Err(Mcp2210Error::EepromWrite)
    );
    assert_eq!(dev.sent[0][2], 0x02);
}

#[test]
fn get_spi_settings_decodes_the_settings_block() {
    let mut response: Buffer = [0u8; 64];
    response[0] = 0x40;
    response[4..8].copy_from_slice(&[0x00, 0x1B, 0xB7, 0x00]);
    response[20] = 2;
    let mut dev = Scripted::replying(response);
    let mut res: Buffer = [0u8; 64];
    let settings = get_spi_settings(&mut dev, &mut res).unwrap();
    assert_eq!(settings.bit_rate, 12_000_000);
    assert_eq!(settings.spi_mode, 2);
    assert_eq!(dev.sent[0][0], 0x40);
}

#[test]
fn set_chip_settings_rejects_bad_value_before_any_exchange() {
    let mut dev = Scripted::replying([0u8; 64]);
    let mut res: Buffer = [0u8; 64];
    let settings = ChipSettings {
        gp_designations: [PinMode::Gpio; 9],
        default_gpio_value: 0,
        default_gpio_direction: 0,
        remote_wakeup: false,
        interrupt_mode: 5,
        spi_bus_release: false,
    };
    assert!(matches!(
        set_chip_settings(&mut dev, &settings, &mut res),
        Err(Mcp2210Error::InvalidResponse(_))
    ));
    assert!(dev.sent.is_empty());
}

#[test]
fn get_usb_string_decodes_the_units() {
    let mut response: Buffer = [0u8; 64];
    response[0] = 0x61;
    response[1] = SUB_USB_PRODUCT_NAME;
    response[4] = 2 * 2 + 2;
    response[5] = 3;
    response[6] = b'o';
    response[8] = b'k';
    let mut dev = Scripted::replying(response);
    let mut res: Buffer = [0u8; 64];
    let units = get_usb_string(&mut dev, SUB_USB_PRODUCT_NAME, &mut res).unwrap();
    assert_eq!(units, vec![b'o' as u16, b'k' as u16]);
    assert_eq!(dev.sent[0][0], 0x61);
    assert_eq!(dev.sent[0][1], SUB_USB_PRODUCT_NAME);
}

#[test]
fn set_usb_string_rejects_oversize_before_any_exchange() {
    let mut dev = Scripted::replying([0u8; 64]);
    let mut res: Buffer = [0u8; 64];
    let s = "abcdefghijklmnopqrstuvwxyzabcd";
    assert_eq!(
        set_usb_string(&mut dev, SUB_USB_PRODUCT_NAME, s, &mut res),
        Err(Mcp2210Error::StringSize(30))
    );
    assert!(dev.sent.is_empty());
}

#[test]
fn set_usb_string_round_trips_through_the_wire_format() {
    let mut response: Buffer = [0u8; 64];
    response[0] = 0x60;
    response[1] = SUB_USB_PRODUCT_NAME;
    let mut dev = Scripted::replying(response);
    let mut res: Buffer = [0u8; 64];
    set_usb_string(&mut dev, SUB_USB_PRODUCT_NAME, "SPI", &mut res).unwrap();
    let cmd = dev.sent[0];
    assert_eq!(cmd[0], 0x60);
    assert_eq!(cmd[1], SUB_USB_PRODUCT_NAME);
    assert_eq!(cmd[4], 3 * 2 + 2);
    assert_eq!(cmd[5], 3);
    assert_eq!(&cmd[6..12], &[b'S', 0, b'P', 0, b'I', 0]);
}
