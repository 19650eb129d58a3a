use vstd::prelude::*;

use crate::codec::check_sub_response;
use crate::codec::command_bytes;
use crate::codec::spec_check_sub_response;
use crate::codec::spec_command_bytes;
use crate::codec::CMD_GET_NVRAM;
use crate::codec::CMD_SET_NVRAM;
use crate::codec::SUB_USB_MANUFACTURER_NAME;
use crate::codec::SUB_USB_PRODUCT_NAME;
use crate::error::Mcp2210Error;
use crate::settings::spec_u16_le;
use crate::types::Buffer;
use crate::types::MAX_STRING_UNITS;

verus! {

/// The UTF-16 code units that encode one character: the character's scalar
/// value itself inside the basic plane, a surrogate pair above it.
pub open spec fn spec_utf16_char(c: char) -> Seq<u16> {
    let v = c as u32;
    if v < 0x10000 {
        seq![v as u16]
    } else {
        seq![
            (0xD800 + (v as int - 0x10000) / 0x400) as u16,
            (0xDC00 + (v as int - 0x10000) % 0x400) as u16,
        ]
    }
}

/// The UTF-16 encoding of a character sequence.
pub open spec fn spec_utf16(s: Seq<char>) -> Seq<u16>
    decreases s.len(),
{
    if s.len() == 0 {
        Seq::empty()
    } else {
        spec_utf16_char(s[0]) + spec_utf16(s.drop_first())
    }
}

/// Appending one character appends exactly its own code units.
pub proof fn lemma_utf16_push(s: Seq<char>, c: char)
    ensures
        spec_utf16(s.push(c)) == spec_utf16(s) + spec_utf16_char(c),
    decreases s.len(),
{
    if s.len() == 0 {
        assert(s.push(c)[0] == c);
        assert(s.push(c).drop_first() =~= Seq::<char>::empty());
        assert(spec_utf16(s.push(c)) == spec_utf16_char(c) + spec_utf16(Seq::<char>::empty()));
        assert(spec_utf16(Seq::<char>::empty()) == Seq::<u16>::empty());
        assert(spec_utf16(s) == Seq::<u16>::empty());
        assert(spec_utf16(s.push(c)) =~= spec_utf16(s) + spec_utf16_char(c));
    } else {
        assert(s.push(c)[0] == s[0]);
        assert(s.push(c).drop_first() =~= s.drop_first().push(c));
        assert(spec_utf16(s.push(c)) == spec_utf16_char(s[0]) + spec_utf16(
            s.drop_first().push(c),
        ));
        lemma_utf16_push(s.drop_first(), c);
        assert(spec_utf16(s) == spec_utf16_char(s[0]) + spec_utf16(s.drop_first()));
        assert(spec_utf16(s.push(c)) =~= spec_utf16(s) + spec_utf16_char(c));
    }
}

/// Computes the UTF-16 encoding of a string.
pub fn utf16_units(s: &str) -> (units: Vec<u16>)
    ensures
        units@ == spec_utf16(s@),
{
    let mut units: Vec<u16> = Vec::new();
    for c in it: s.chars()
        invariant
            it.seq() == s@,
            units@ == spec_utf16(s@.take(it.index() as int)),
    {
        proof {
            vstd::utf8::char_is_scalar(c);
            assert(s@.take(it.index() as int).push(c) =~= s@.take(it.index() as int + 1));
            lemma_utf16_push(s@.take(it.index() as int), c);
        }
        let v = c as u32;
        if v < 0x10000 {
            units.push(v as u16);
        } else {
            let off = v - 0x10000;
            units.push(0xD800 + (off / 0x400) as u16);
            units.push(0xDC00 + (off % 0x400) as u16);
        }
    }
    proof {
        assert(s@.take(s@.len() as int) =~= s@);
    }
    units
}

/// The packet that writes one of the chip's USB descriptor strings: the
/// command and sub-command codes, the descriptor length byte `2n + 2` and
/// the fixed descriptor type byte 3, then the code units little-endian
/// from byte 6 on.
pub open spec fn spec_string_cmd(sub: u8, units: Seq<u16>) -> Seq<u8>
    recommends
        units.len() <= 29,
{
    Seq::new(
        64,
        |i: int|
            if i == 0 {
                CMD_SET_NVRAM
            } else if i == 1 {
                sub
            } else if i == 4 {
                (units.len() * 2 + 2) as u8
            } else if i == 5 {
                3u8
            } else if 6 <= i < 6 + 2 * units.len() {
                if (i - 6) % 2 == 0 {
                    (units[(i - 6) / 2] as int % 256) as u8
                } else {
                    (units[(i - 6) / 2] as int / 256) as u8
                }
            } else {
                0u8
            },
    )
}

/// Encodes a write of the USB descriptor string selected by `sub`.  A
/// string needing more than 29 UTF-16 code units is a caller error,
/// rejected with its unit count before any buffer is built.
pub fn encode_set_usb_string(sub: u8, s: &str) -> (r: Result<Buffer, Mcp2210Error>)
    ensures
        spec_utf16(s@).len() <= 29 ==> (r matches Ok(buf) && buf@ == spec_string_cmd(
            sub,
            spec_utf16(s@),
        )),
        spec_utf16(s@).len() > 29 ==> r == Err::<Buffer, Mcp2210Error>(
            Mcp2210Error::StringSize(spec_utf16(s@).len() as usize),
        ),
{
    let units = utf16_units(s);
    if units.len() > MAX_STRING_UNITS {
        return Err(Mcp2210Error::StringSize(units.len()));
    }
    let mut buf: Buffer = [0u8; 64];
    buf[0] = CMD_SET_NVRAM;
    buf[1] = sub;
    buf[4] = (units.len() * 2 + 2) as u8;
    buf[5] = 3;
    let mut k: usize = 0;
    while k < units.len()
        invariant
            k <= units@.len() <= 29,
            buf@.len() == 64,
            buf@[0] == CMD_SET_NVRAM,
            buf@[1] == sub,
            buf@[4] == (units@.len() * 2 + 2) as u8,
            buf@[5] == 3u8,
            forall|j: int|
                6 <= j < 6 + 2 * k ==> buf@[j] == (if (j - 6) % 2 == 0 {
                    (units@[(j - 6) / 2] as int % 256) as u8
                } else {
                    (units@[(j - 6) / 2] as int / 256) as u8
                }),
            forall|j: int| (2 <= j < 4 || 6 + 2 * k <= j < 64) ==> buf@[j] == 0u8,
        decreases units@.len() - k,
    {
        let u = units[k];
        buf[6 + 2 * k] = (u % 256) as u8;
        buf[6 + 2 * k + 1] = (u / 256) as u8;
        k = k + 1;
    }
    proof {
        assert(buf@ =~= spec_string_cmd(sub, spec_utf16(s@)));
    }
    Ok(buf)
}

/// Encodes a write of the chip's USB product name string.
pub fn encode_set_usb_product_name(s: &str) -> (r: Result<Buffer, Mcp2210Error>)
    ensures
        spec_utf16(s@).len() <= 29 ==> (r matches Ok(buf) && buf@ == spec_string_cmd(
            SUB_USB_PRODUCT_NAME,
            spec_utf16(s@),
        )),
        spec_utf16(s@).len() > 29 ==> r == Err::<Buffer, Mcp2210Error>(
            Mcp2210Error::StringSize(spec_utf16(s@).len() as usize),
        ),
{
    encode_set_usb_string(SUB_USB_PRODUCT_NAME, s)
}

/// Encodes a write of the chip's USB manufacturer name string.
pub fn encode_set_usb_manufacturer_name(s: &str) -> (r: Result<Buffer, Mcp2210Error>)
    ensures
        spec_utf16(s@).len() <= 29 ==> (r matches Ok(buf) && buf@ == spec_string_cmd(
            SUB_USB_MANUFACTURER_NAME,
            spec_utf16(s@),
        )),
        spec_utf16(s@).len() > 29 ==> r == Err::<Buffer, Mcp2210Error>(
            Mcp2210Error::StringSize(spec_utf16(s@).len() as usize),
        ),
{
    encode_set_usb_string(SUB_USB_MANUFACTURER_NAME, s)
}

/// Encodes a read of the USB descriptor string selected by `sub`.
pub fn encode_get_usb_string(sub: u8) -> (buf: Buffer)
    ensures
        buf@ == spec_command_bytes(CMD_GET_NVRAM, sub, 0, 0),
{
    command_bytes(CMD_GET_NVRAM, sub, 0, 0)
}

/// Whether a USB string response's descriptor fields hold values the
/// protocol defines: an even length byte that covers its own two bytes and
/// at most 29 code units, and the fixed descriptor type byte 3.
pub open spec fn spec_string_res_valid(res: Seq<u8>) -> bool
    recommends
        res.len() == 64,
{
    &&& res[4] >= 2
    &&& res[4] as int % 2 == 0
    &&& (res[4] as int - 2) / 2 <= 29
    &&& res[5] == 3
}

/// The code units a valid USB string response carries.
pub open spec fn spec_string_units_of(res: Seq<u8>) -> Seq<u16>
    recommends
        res.len() == 64,
        spec_string_res_valid(res),
{
    Seq::new(((res[4] as int - 2) / 2) as nat, |k: int| spec_u16_le(res[6 + 2 * k], res[7 + 2 * k]))
}

/// Decodes a read of the USB descriptor string selected by `expected_sub`
/// into the string's UTF-16 code units.
pub fn decode_usb_string_response(expected_sub: u8, res: &Buffer) -> (r: Result<
    Vec<u16>,
    Mcp2210Error,
>)
    ensures
        spec_check_sub_response(CMD_GET_NVRAM, expected_sub, res@) matches Err(e) ==> r == Err::<
            Vec<u16>,
            Mcp2210Error,
        >(e),
        spec_check_sub_response(CMD_GET_NVRAM, expected_sub, res@) is Ok && !spec_string_res_valid(
            res@,
        ) ==> (r matches Err(e) && e is InvalidResponse),
        spec_check_sub_response(CMD_GET_NVRAM, expected_sub, res@) is Ok && spec_string_res_valid(
            res@,
        ) ==> (r matches Ok(units) && units@ == spec_string_units_of(res@)),
{
    match check_sub_response(CMD_GET_NVRAM, expected_sub, res) {
        Err(e) => {
            return Err(e);
        },
        Ok(()) => {},
    }
    let len_byte = res[4];
    if len_byte < 2 || len_byte % 2 != 0 || (len_byte - 2) / 2 > 29 || res[5] != 3 {
        return Err(Mcp2210Error::InvalidResponse("string descriptor header invalid".to_owned()));
    }
    let n = ((len_byte - 2) / 2) as usize;
    let mut units: Vec<u16> = Vec::new();
    let mut k: usize = 0;
    while k < n
        invariant
            k <= n,
            res@.len() == 64,
            n == (res@[4] as int - 2) / 2,
            n <= 29,
            units@.len() == k as int,
            forall|j: int| 0 <= j < k ==> units@[j] == spec_u16_le(res@[6 + 2 * j], res@[7 + 2 * j]),
        decreases n - k,
    {
        let u: u16 = res[6 + 2 * k] as u16 + (res[7 + 2 * k] as u16) * 256;
        units.push(u);
        k = k + 1;
    }
    proof {
        assert(units@ =~= spec_string_units_of(res@));
    }
    Ok(units)
}

} // verus!
