use vstd::prelude::*;

use crate::codec::spec_check_response;
use crate::codec::spec_check_sub_response;
use crate::codec::spec_spi_transfer_cmd;
use crate::codec::CMD_SPI_TRANSFER;
use crate::codec::SUB_USB_MANUFACTURER_NAME;
use crate::codec::SUB_USB_PRODUCT_NAME;
use crate::error::is_chip_error_code;
use crate::error::Mcp2210Error;
use crate::settings::spec_chip_settings_byte;
use crate::settings::spec_chip_settings_match;
use crate::settings::spec_chip_settings_res_valid;
use crate::settings::spec_chip_settings_valid;
use crate::settings::spec_pin_mode;
use crate::settings::spec_pin_mode_byte;
use crate::settings::spec_spi_settings_byte;
use crate::settings::spec_spi_settings_of;
use crate::settings::spec_u16_le;
use crate::settings::spec_u32_le;
use crate::settings::ChipSettings;
use crate::settings::SpiSettings;
use crate::strings::spec_string_cmd;
use crate::strings::spec_string_res_valid;
use crate::strings::spec_string_units_of;
use crate::transfer::spec_chunk_at;

verus! {

/// Law: a successful response that echoes the command code of the command
/// that produced it passes the shared header check.  Every encoder writes
/// its command code into byte 0, so the identification byte round-trips
/// for every command family.
pub proof fn lemma_command_id_round_trip(expected: u8, res: Seq<u8>)
    requires
        res.len() == 64,
        res[0] == expected,
        res[1] == 0,
    ensures
        spec_check_response(expected, res) is Ok,
{
}

/// Law: the identification byte of an encoded SPI transfer command
/// round-trips.  A response that echoes byte 0 of the command never fails
/// the header check with a command-code mismatch.
pub proof fn lemma_spi_command_id_round_trip(data: Seq<u8>, res: Seq<u8>)
    requires
        data.len() <= 60,
        res.len() == 64,
        res[0] == spec_spi_transfer_cmd(data)[0],
    ensures
        !(spec_check_response(CMD_SPI_TRANSFER, res) matches Err(e) && e is CommandCode),
{
    assert(spec_spi_transfer_cmd(data)[0] == CMD_SPI_TRANSFER);
}

/// Law: the identification bytes of an encoded USB string command
/// round-trip.  A response that echoes bytes 0 and 1 of the command never
/// fails the header check with a command-code or sub-command-code
/// mismatch.
pub proof fn lemma_string_command_id_round_trip(sub: u8, units: Seq<u16>, res: Seq<u8>)
    requires
        sub == SUB_USB_PRODUCT_NAME || sub == SUB_USB_MANUFACTURER_NAME,
        units.len() <= 29,
        res.len() == 64,
        res[0] == spec_string_cmd(sub, units)[0],
        res[1] == spec_string_cmd(sub, units)[1],
    ensures
        !(spec_check_sub_response(spec_string_cmd(sub, units)[0], sub, res) matches Err(e) && (
        e is CommandCode || e is SubCommandCode)),
{
    assert(spec_string_cmd(sub, units)[1] == sub);
    assert(!is_chip_error_code(sub));
}

/// Law: a response whose error byte is nonzero and outside the chip's
/// seven defined error codes decodes to `UnknownErrorCode` carrying that
/// exact byte.  (A zero byte is the success marker and decodes to no error
/// at all.)
pub proof fn lemma_unknown_error_code(expected: u8, res: Seq<u8>)
    requires
        res.len() == 64,
        res[0] == expected,
        res[1] != 0,
        !is_chip_error_code(res[1]),
    ensures
        spec_check_response(expected, res) == Err::<(), Mcp2210Error>(
            Mcp2210Error::UnknownErrorCode(res[1]),
        ),
{
}

/// The chunks a transfer walks an outgoing buffer in: successive pieces of
/// at most 60 bytes, in order.  An empty buffer still takes one (empty)
/// exchange, so it is one empty chunk.
pub open spec fn spec_chunks(data: Seq<u8>) -> Seq<Seq<u8>>
    decreases data.len(),
{
    if data.len() <= 60 {
        seq![data]
    } else {
        seq![data.take(60)] + spec_chunks(data.skip(60))
    }
}

/// The concatenation of a sequence of chunks.
pub open spec fn spec_concat(chunks: Seq<Seq<u8>>) -> Seq<u8>
    decreases chunks.len(),
{
    if chunks.len() == 0 {
        Seq::empty()
    } else {
        chunks[0] + spec_concat(chunks.drop_first())
    }
}

/// Law: splitting a buffer for transfer loses and reorders nothing.  Every
/// chunk respects the 60-byte packet ceiling, chunk `k` is exactly the
/// slice the orchestrator sends with its cursor at byte `60 * k`, their
/// concatenation is the whole buffer, a buffer that fits one packet takes
/// exactly one chunk, and a longer one takes at least two.
pub proof fn lemma_chunks(data: Seq<u8>)
    ensures
        forall|i: int|
            0 <= i < spec_chunks(data).len() ==> (#[trigger] spec_chunks(data)[i]).len() <= 60,
        forall|i: int|
            0 <= i < spec_chunks(data).len() ==> #[trigger] spec_chunks(data)[i] == spec_chunk_at(
                data,
                60 * i,
            ),
        spec_concat(spec_chunks(data)) == data,
        data.len() <= 60 ==> spec_chunks(data).len() == 1,
        data.len() > 60 ==> spec_chunks(data).len() >= 2,
    decreases data.len(),
{
    if data.len() <= 60 {
        let chunks = spec_chunks(data);
        assert(chunks == seq![data]);
        assert(chunks.drop_first() =~= Seq::<Seq<u8>>::empty());
        assert(spec_concat(chunks) == data + spec_concat(Seq::<Seq<u8>>::empty()));
        assert(spec_concat(chunks) =~= data);
        assert(chunks[0] =~= spec_chunk_at(data, 0));
    } else {
        let rest = spec_chunks(data.skip(60));
        let chunks = spec_chunks(data);
        lemma_chunks(data.skip(60));
        assert(chunks == seq![data.take(60)] + rest);
        assert(chunks[0] == data.take(60));
        assert(chunks.drop_first() =~= rest);
        assert(spec_concat(chunks) == data.take(60) + spec_concat(rest));
        assert(spec_concat(chunks) =~= data);
        assert forall|i: int| 0 <= i < chunks.len() implies (#[trigger] chunks[i]).len() <= 60 by {
            if i == 0 {
                assert(chunks[0].len() == 60);
            } else {
                assert(chunks[i] == rest[i - 1]);
            }
        }
        assert forall|i: int| 0 <= i < chunks.len() implies #[trigger] chunks[i] == spec_chunk_at(
            data,
            60 * i,
        ) by {
            if i == 0 {
                assert(chunks[0] =~= spec_chunk_at(data, 0));
            } else {
                assert(chunks[i] == rest[i - 1]);
                assert(rest[i - 1] == spec_chunk_at(data.skip(60), 60 * (i - 1)));
                lemma_chunk_count_bound(data.skip(60), i - 1);
                lemma_chunk_at_shift(data, 60 * (i - 1));
                assert(60 * (i - 1) + 60 == 60 * i);
            }
        }
    }
}

/// A chunk index stays within the buffer: chunk `k` exists only while at
/// least `60 * k` bytes precede it.
proof fn lemma_chunk_count_bound(data: Seq<u8>, k: int)
    requires
        0 <= k < spec_chunks(data).len(),
    ensures
        60 * k <= data.len(),
    decreases data.len(),
{
    if data.len() > 60 && k >= 1 {
        lemma_chunk_count_bound(data.skip(60), k - 1);
    }
}

/// The chunk at a cursor is unmoved by cutting the first packet's worth of
/// bytes off the front: the orchestrator's cursor and the split-model's
/// indices name the same slices.
proof fn lemma_chunk_at_shift(data: Seq<u8>, p: int)
    requires
        0 <= p <= data.len() - 60,
    ensures
        spec_chunk_at(data.skip(60), p) == spec_chunk_at(data, p + 60),
{
    let s = data.skip(60);
    if s.len() - p >= 60 {
        assert(s.subrange(p, p + 60) =~= data.subrange(p + 60, p + 60 + 60));
    } else {
        assert(s.subrange(p, s.len() as int) =~= data.subrange(p + 60, data.len() as int));
    }
}

/// Splitting a 16-bit value into its two little-endian bytes and reading
/// them back is the identity.
pub proof fn lemma_u16_le_round_trip(v: u16)
    ensures
        spec_u16_le((v as int % 256) as u8, (v as int / 256) as u8) == v,
{
}

/// Splitting a 32-bit value into its four little-endian bytes and reading
/// them back is the identity.
pub proof fn lemma_u32_le_round_trip(v: u32)
    ensures
        spec_u32_le(
            (v as int % 256) as u8,
            (v as int / 256 % 256) as u8,
            (v as int / 65536 % 256) as u8,
            (v as int / 16777216) as u8,
        ) == v,
{
    let n = v as int;
    assert(n % 256 + (n / 256 % 256) * 256 + (n / 65536 % 256) * 65536 + (n / 16777216)
        * 16777216 == n) by (nonlinear_arith)
        requires
            0 <= n < 0x1_0000_0000,
    ;
}

/// Law: the SPI transfer settings round-trip through the packet bytes.  A
/// response that carries the settings block of an encoded set-settings
/// command decodes to exactly the settings that were encoded.
pub proof fn lemma_spi_settings_round_trip(s: SpiSettings, res: Seq<u8>)
    requires
        res.len() == 64,
        forall|i: int| 4 <= i <= 20 ==> res[i] == spec_spi_settings_byte(s, i),
    ensures
        spec_spi_settings_of(res) == s,
{
    lemma_u32_le_round_trip(s.bit_rate);
    lemma_u16_le_round_trip(s.idle_cs);
    lemma_u16_le_round_trip(s.active_cs);
    lemma_u16_le_round_trip(s.cs_to_data_delay);
    lemma_u16_le_round_trip(s.last_byte_to_cs_delay);
    lemma_u16_le_round_trip(s.inter_byte_delay);
    lemma_u16_le_round_trip(s.bytes_per_transaction);
}

/// Law: the chip settings round-trip through the packet bytes.  A response
/// that carries the settings block of an encoded set-settings command is
/// structurally valid and decodes to exactly the settings that were
/// encoded.
pub proof fn lemma_chip_settings_round_trip(s: ChipSettings, res: Seq<u8>)
    requires
        res.len() == 64,
        spec_chip_settings_valid(s),
        forall|i: int| 4 <= i <= 17 ==> res[i] == spec_chip_settings_byte(s, i),
    ensures
        spec_chip_settings_res_valid(res),
        spec_chip_settings_match(s, res),
{
    assert forall|i: int| 4 <= i <= 12 implies spec_pin_mode(res[i]) is Some by {
        assert(res[i] == spec_pin_mode_byte(s.gp_designations@[i - 4]));
    }
    let b = res[17] as int;
    let w: int = if s.remote_wakeup {
        1int
    } else {
        0int
    };
    let r: int = if s.spi_bus_release {
        1int
    } else {
        0int
    };
    assert(b == w * 16 + s.interrupt_mode * 2 + r);
    assert(b / 16 % 2 == w && b / 2 % 8 == s.interrupt_mode && b % 2 == r) by (nonlinear_arith)
        requires
            b == w * 16 + s.interrupt_mode * 2 + r,
            0 <= w <= 1,
            0 <= r <= 1,
            0 <= s.interrupt_mode <= 4,
    ;
    lemma_u16_le_round_trip(s.default_gpio_value);
    lemma_u16_le_round_trip(s.default_gpio_direction);
    assert forall|i: int| 0 <= i < 9 implies spec_pin_mode(res[4 + i]) == Some(
        s.gp_designations@[i],
    ) by {
        assert(res[4 + i] == spec_pin_mode_byte(s.gp_designations@[i]));
    }
    assert(s.gp_designations@ =~= Seq::new(9, |i: int| spec_pin_mode(res[4 + i]).unwrap()));
}

/// Law: a USB string payload round-trips through the packet bytes.  The
/// descriptor block an encoded set-string command carries is structurally
/// valid and decodes back to exactly the code units that were encoded.
pub proof fn lemma_string_payload_round_trip(sub: u8, units: Seq<u16>)
    requires
        units.len() <= 29,
    ensures
        spec_string_res_valid(spec_string_cmd(sub, units)),
        spec_string_units_of(spec_string_cmd(sub, units)) == units,
{
    let res = spec_string_cmd(sub, units);
    let n = units.len() as int;
    assert(res[4] == (n * 2 + 2) as u8);
    assert((res[4] as int - 2) / 2 == n);
    assert forall|k: int| 0 <= k < n implies spec_u16_le(res[6 + 2 * k], res[7 + 2 * k])
        == units[k] by {
        assert((6 + 2 * k - 6) % 2 == 0 && (6 + 2 * k - 6) / 2 == k);
        assert((7 + 2 * k - 6) % 2 == 1 && (7 + 2 * k - 6) / 2 == k);
        assert(res[6 + 2 * k] == (units[k] as int % 256) as u8);
        assert(res[7 + 2 * k] == (units[k] as int / 256) as u8);
        lemma_u16_le_round_trip(units[k]);
    }
    assert(spec_string_units_of(res) =~= units);
}

} // verus!
