use mcp2210::error::Mcp2210Error;
use mcp2210::transfer::spi_transfer;
use mcp2210::transfer::spi_transfer_to_end;
use mcp2210::transfer::spi_transfer_to_end_with_limit;
use mcp2210::transfer::CommandResponse;
use mcp2210::types::Buffer;
use mcp2210::types::SpiTransferStatus;

/// Emulates the chip's full-duplex transfer engine: bytes clocked out in
/// one exchange come back in later exchanges, at most 60 per response, and
/// the engine reports Finished once every byte of the transaction has been
/// returned.  Optionally answers one chosen exchange with a busy error,
/// exactly once, consuming nothing.
struct EchoChip {
    total: usize,
    started: bool,
    pending: Vec<u8>,
    returned: usize,
    busy_at: Option<usize>,
    busy_fired: bool,
    exchanges: usize,
    data_packets: usize,
}

impl EchoChip {
    fn new(total: usize) -> EchoChip {
        EchoChip {
            total,
            started: false,
            pending: Vec::new(),
            returned: 0,
            busy_at: None,
            busy_fired: false,
            exchanges: 0,
            data_packets: 0,
        }
    }

    fn with_busy_at(total: usize, exchange: usize) -> EchoChip {
        let mut chip = EchoChip::new(total);
        chip.busy_at = Some(exchange);
        chip
    }
}

impl CommandResponse for EchoChip {
    fn command_response(&mut self, cmd: &Buffer, res: &mut Buffer) -> Result<(), Mcp2210Error> {
        assert_eq!(cmd[0], 0x42);
        self.exchanges += 1;
        *res = [0u8; 64];
        res[0] = 0x42;
        if self.busy_at == Some(self.exchanges) && !self.busy_fired {
            self.busy_fired = true;
            res[1] = 0xF8;
            return Ok(());
        }
        let len = cmd[1] as usize;
        assert!(len <= 60);
        if len > 0 {
            self.data_packets += 1;
        }
        let give = self.pending.len().min(60);
        res[2] = give as u8;
        for (i, b) in self.pending.drain(..give).enumerate() {
            res[4 + i] = b;
        }
        self.returned += give;
        self.pending.extend_from_slice(&cmd[4..4 + len]);
        res[3] = if !self.started {
            self.started = true;
            0x20
        } else if self.returned == self.total && self.pending.is_empty() {
            0x10
        } else {
            0x30
        };
        Ok(())
    }
}

/// A transport that answers every exchange with the same fixed response.
struct FixedResponse {
    response: Buffer,
    exchanges: usize,
}

impl CommandResponse for FixedResponse {
    fn command_response(&mut self, _cmd: &Buffer, res: &mut Buffer) -> Result<(), Mcp2210Error> {
        self.exchanges += 1;
        *res = self.response;
        Ok(())
    }
}

#[test]
fn small_buffer_goes_out_as_one_packet() {
    let data: Vec<u8> = (0u8..60).collect();
    let mut chip = EchoChip::new(60);
    let mut out = Vec::new();
    spi_transfer_to_end(&mut chip, &data, &mut out).unwrap();
    assert_eq!(out, data);
    assert_eq!(chip.data_packets, 1);
}

#[test]
fn sixty_one_bytes_split_into_two_packets_and_nothing_is_lost() {
    let data: Vec<u8> = (0..61).map(|i| (i % 251) as u8).collect();
    let mut chip = EchoChip::new(61);
    let mut out = Vec::new();
    spi_transfer_to_end(&mut chip, &data, &mut out).unwrap();
    assert_eq!(out, data);
    assert!(chip.data_packets >= 2);
}

#[test]
fn one_busy_packet_costs_exactly_one_extra_exchange() {
    let data: Vec<u8> = (0..150).map(|i| (i % 251) as u8).collect();

    let mut plain = EchoChip::new(150);
    let mut out = Vec::new();
    spi_transfer_to_end(&mut plain, &data, &mut out).unwrap();
    assert_eq!(out.len(), 150);
    assert_eq!(out, data);
    let baseline = plain.exchanges;

    // The third packet is answered "busy" exactly once, then succeeds.
    let mut busy = EchoChip::with_busy_at(150, 3);
    let mut out2 = Vec::new();
    spi_transfer_to_end(&mut busy, &data, &mut out2).unwrap();
    assert_eq!(out2.len(), 150);
    assert_eq!(out2, data);
    assert_eq!(busy.exchanges, baseline + 1);
}

#[test]
fn first_exchange_not_started_fails_immediately() {
    let mut response: Buffer = [0u8; 64];
    response[0] = 0x42;
    response[3] = 0x10;
    let mut transport = FixedResponse {
        response,
        exchanges: 0,
    };
    let mut out = Vec::new();
    let r = spi_transfer_to_end(&mut transport, &[1, 2, 3], &mut out);
    assert_eq!(
        r,
        Err(Mcp2210Error::TransferStatus(SpiTransferStatus::Finished))
    );
    assert_eq!(transport.exchanges, 1);
    assert!(out.is_empty());
}

#[test]
fn busy_on_first_exchange_is_not_retried() {
    let mut response: Buffer = [0u8; 64];
    response[0] = 0x42;
    response[1] = 0xF8;
    let mut transport = FixedResponse {
        response,
        exchanges: 0,
    };
    let mut out = Vec::new();
    let r = spi_transfer_to_end(&mut transport, &[1, 2, 3], &mut out);
    assert_eq!(r, Err(Mcp2210Error::Busy));
    assert_eq!(transport.exchanges, 1);
}

/// A transport whose first exchange reports Started and which then answers
/// every later exchange with a busy error, forever.
struct StartedThenBusy {
    exchanges: usize,
}

impl CommandResponse for StartedThenBusy {
    fn command_response(&mut self, _cmd: &Buffer, res: &mut Buffer) -> Result<(), Mcp2210Error> {
        self.exchanges += 1;
        *res = [0u8; 64];
        res[0] = 0x42;
        if self.exchanges == 1 {
            res[3] = 0x20;
        } else {
            res[1] = 0xF8;
        }
        Ok(())
    }
}

#[test]
fn exchange_budget_exhaustion_fails_as_busy() {
    let mut scripted = StartedThenBusy { exchanges: 0 };
    let mut out = Vec::new();
    let r = spi_transfer_to_end_with_limit(&mut scripted, &[1, 2, 3], &mut out, 5);
    assert_eq!(r, Err(Mcp2210Error::Busy));
    assert_eq!(scripted.exchanges, 6);
    assert!(out.is_empty());
}

/// A transport whose run is: Started, then one data-bearing answer, then a
/// permanent access-denied chip error.
struct ThreeStepError {
    exchanges: usize,
}

impl CommandResponse for ThreeStepError {
    fn command_response(&mut self, _cmd: &Buffer, res: &mut Buffer) -> Result<(), Mcp2210Error> {
        self.exchanges += 1;
        *res = [0u8; 64];
        res[0] = 0x42;
        match self.exchanges {
            1 => res[3] = 0x20,
            2 => {
                res[2] = 4;
                res[3] = 0x30;
                res[4..8].copy_from_slice(&[1, 2, 3, 4]);
            }
            _ => res[1] = 0xFB,
        }
        Ok(())
    }
}

#[test]
fn mid_transfer_error_is_surfaced_and_partial_output_kept() {
    let mut transport = ThreeStepError { exchanges: 0 };
    let mut out = vec![9u8];
    let r = spi_transfer_to_end(&mut transport, &[0u8; 100], &mut out);
    assert_eq!(r, Err(Mcp2210Error::AccessDenied));
    assert_eq!(transport.exchanges, 3);
    // What earlier exchanges appended stays; nothing is rolled back.
    assert_eq!(out, vec![9, 1, 2, 3, 4]);
}

#[test]
fn transfer_appends_to_existing_output() {
    let data: Vec<u8> = (0u8..10).collect();
    let mut chip = EchoChip::new(10);
    let mut out = vec![0xEEu8, 0xFF];
    spi_transfer_to_end(&mut chip, &data, &mut out).unwrap();
    assert_eq!(&out[..2], &[0xEE, 0xFF]);
    assert_eq!(&out[2..], &data[..]);
}

#[test]
fn single_exchange_rejects_oversized_chunk() {
    let mut chip = EchoChip::new(0);
    let mut res: Buffer = [0u8; 64];
    let data = [0u8; 61];
    assert_eq!(
        spi_transfer(&mut chip, &data, &mut res),
        Err(Mcp2210Error::PayloadSize(61))
    );
    assert_eq!(chip.exchanges, 0);
}

#[test]
fn empty_buffer_still_performs_a_transfer() {
    let mut chip = EchoChip::new(0);
    let mut out = Vec::new();
    spi_transfer_to_end(&mut chip, &[], &mut out).unwrap();
    assert!(out.is_empty());
    assert!(chip.exchanges >= 2);
}
