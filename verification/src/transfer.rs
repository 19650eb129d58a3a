use vstd::prelude::*;

use crate::codec::decode_spi_transfer_response;
use crate::codec::encode_spi_transfer;
use crate::codec::spec_spi_transfer_cmd;
use crate::codec::CMD_SPI_TRANSFER;
use crate::error::spec_chip_error;
use crate::error::Mcp2210Error;
use crate::error::ERR_BUSY;
use crate::types::spec_transfer_status;
use crate::types::Buffer;
use crate::types::SpiTransferResponse;
use crate::types::SpiTransferStatus;
use vstd::slice::slice_subrange;

verus! {

/// The one capability the engine needs from the HID transport: exchange one
/// 64-byte command packet for one 64-byte response packet, blocking until
/// exactly one report has been written and one has been read.
///
/// The ghost `exchanges` log records every exchange performed over the
/// transport, as the pair of the command sent and the response received;
/// the orchestrator's contract is stated over it.  Implementations live
/// outside this crate (the real HID device, or a test double) and are not
/// themselves verified; the engine relies on a failing exchange reporting
/// a transport fault and exchanging nothing, which mirrors the HID layer's
/// own error type.  The bytes of a successful response are deliberately
/// unconstrained: the engine validates them itself.
pub trait CommandResponse {
    /// The log of every exchange this transport has performed: each entry
    /// is one command packet and the response packet it returned.  This is
    /// a specification-level account: implementations outside the verified
    /// world need not provide it, and the default stands for a transport
    /// with no recorded history.
    open spec fn exchanges(&self) -> Seq<(Seq<u8>, Seq<u8>)> {
        Seq::empty()
    }

    /// Sends `cmd` and overwrites `res` with the packet read back.
    fn command_response(&mut self, cmd: &Buffer, res: &mut Buffer) -> (r: Result<
        (),
        Mcp2210Error,
    >)
        ensures
            r matches Err(e) ==> e is Hid,
            r is Ok ==> final(self).exchanges() == old(self).exchanges().push(
                (cmd@, final(res)@),
            ),
            r is Err ==> final(self).exchanges() == old(self).exchanges(),
    ;
}

/// Whether a response packet is one the transfer decode accepts: command
/// echo, success error byte, a data count within the packet ceiling, and a
/// defined status byte.
pub open spec fn spec_spi_response_ok(res: Seq<u8>) -> bool
    recommends
        res.len() == 64,
{
    &&& res[0] == CMD_SPI_TRANSFER
    &&& res[1] == 0
    &&& res[2] <= 60
    &&& spec_transfer_status(res[3]) is Some
}

/// Whether a response packet reports the busy chip error, the one answer
/// the orchestrator's loop swallows and retries.
pub open spec fn spec_spi_busy(res: Seq<u8>) -> bool
    recommends
        res.len() == 64,
{
    res[0] == CMD_SPI_TRANSFER && res[1] == ERR_BUSY
}

/// The received-data field of an accepted transfer response.
pub open spec fn spec_spi_data(res: Seq<u8>) -> Seq<u8>
    recommends
        res.len() == 64,
        spec_spi_response_ok(res),
{
    res.subrange(4, 4 + res[2] as int)
}

/// The status of an accepted transfer response.
pub open spec fn spec_spi_status(res: Seq<u8>) -> SpiTransferStatus
    recommends
        res.len() == 64,
        spec_spi_response_ok(res),
{
    spec_transfer_status(res[3]).unwrap()
}

/// Whether `e` is exactly the error the transfer decode yields for `res`.
pub open spec fn spec_spi_error_matches(e: Mcp2210Error, res: Seq<u8>) -> bool
    recommends
        res.len() == 64,
{
    if res[0] != CMD_SPI_TRANSFER {
        e == (Mcp2210Error::CommandCode { expected: CMD_SPI_TRANSFER, actual: res[0] })
    } else if res[1] != 0 {
        e == spec_chip_error(res[1], res[0])
    } else if res[2] > 60 || spec_transfer_status(res[3]) is None {
        e is InvalidResponse
    } else {
        false
    }
}

/// Performs one SPI transfer packet exchange: encodes `data` (at most 60
/// bytes), sends it, and decodes the response left in `res`.
///
/// The contract fixes the outcome for every value the transport can hand
/// back: a success is the faithfully decoded, validated response; a
/// non-transport failure is exactly the decode error of the logged
/// response; and the exchange log grows by exactly the packet pair that
/// was exchanged, or not at all when the transport itself failed.
pub fn spi_transfer<T: CommandResponse>(dev: &mut T, data: &[u8], res: &mut Buffer) -> (r: Result<
    SpiTransferResponse,
    Mcp2210Error,
>)
    ensures
        data@.len() > 60 ==> r == Err::<SpiTransferResponse, Mcp2210Error>(
            Mcp2210Error::PayloadSize(data@.len() as usize),
        ) && final(dev).exchanges() == old(dev).exchanges(),
        r matches Err(e) && e is PayloadSize ==> data@.len() > 60,
        data@.len() <= 60 ==> (r matches Ok(resp) ==> final(dev).exchanges() == old(
            dev,
        ).exchanges().push((spec_spi_transfer_cmd(data@), final(res)@)) && spec_spi_response_ok(
            final(res)@,
        ) && resp.status == spec_spi_status(final(res)@) && resp.data@ == spec_spi_data(
            final(res)@,
        )),
        data@.len() <= 60 ==> (r matches Err(e) ==> (if e is Hid {
            final(dev).exchanges() == old(dev).exchanges()
        } else {
            final(dev).exchanges() == old(dev).exchanges().push(
                (spec_spi_transfer_cmd(data@), final(res)@),
            ) && spec_spi_error_matches(e, final(res)@)
        })),
        r matches Err(e) ==> !(e is TransferStatus),
{
    let cmd = match encode_spi_transfer(data) {
        Ok(c) => c,
        Err(e) => {
            return Err(e);
        },
    };
    match dev.command_response(&cmd, res) {
        Ok(()) => {},
        Err(e) => {
            return Err(e);
        },
    }
    decode_spi_transfer_response(res)
}

/// The chunk of `data` the orchestrator sends when its cursor stands at
/// `pos`: the next 60 bytes, or whatever less is left (the empty drain
/// chunk once the buffer is exhausted).
pub open spec fn spec_chunk_at(data: Seq<u8>, pos: int) -> Seq<u8>
    recommends
        0 <= pos <= data.len(),
{
    if data.len() - pos >= 60 {
        data.subrange(pos, pos + 60)
    } else {
        data.subrange(pos, data.len() as int)
    }
}

/// The orchestrator's loop state while it replays a recorded run: the
/// input cursor and the output gathered so far, or one of the ways a run
/// ends.  `Violated` marks a log entry whose command is not the chunk the
/// loop sends at its cursor; the orchestrator proves it never arises.
pub enum LoopState {
    Running { pos: int, out: Seq<u8> },
    Done { out: Seq<u8> },
    Failed { out: Seq<u8>, res: Seq<u8> },
    Violated,
}

/// One step of the orchestrator's loop, replayed over a logged exchange:
/// a busy answer repeats the same chunk without advancing or appending; an
/// accepted answer appends its data field and advances the cursor past the
/// chunk just sent, ending the run when its status is `Finished`; any
/// other answer ends the run carrying the offending response.
pub open spec fn spec_loop_step(data: Seq<u8>, st: LoopState, entry: (Seq<u8>, Seq<u8>)) -> LoopState {
    match st {
        LoopState::Running { pos, out } => {
            if entry.0 != spec_spi_transfer_cmd(spec_chunk_at(data, pos)) {
                LoopState::Violated
            } else if spec_spi_busy(entry.1) {
                st
            } else if spec_spi_response_ok(entry.1) {
                let out2 = out + spec_spi_data(entry.1);
                if spec_spi_status(entry.1) == SpiTransferStatus::Finished {
                    LoopState::Done { out: out2 }
                } else {
                    LoopState::Running { pos: pos + spec_chunk_at(data, pos).len(), out: out2 }
                }
            } else {
                LoopState::Failed { out, res: entry.1 }
            }
        },
        _ => st,
    }
}

/// The loop state after replaying a whole sequence of logged exchanges.
pub open spec fn spec_loop_fold(data: Seq<u8>, st: LoopState, entries: Seq<(Seq<u8>, Seq<u8>)>) -> LoopState
    decreases entries.len(),
{
    if entries.len() == 0 {
        st
    } else {
        spec_loop_fold(data, spec_loop_step(data, st, entries[0]), entries.drop_first())
    }
}

/// Replaying one more exchange folds as one more step.
pub proof fn lemma_loop_fold_push(
    data: Seq<u8>,
    st: LoopState,
    entries: Seq<(Seq<u8>, Seq<u8>)>,
    entry: (Seq<u8>, Seq<u8>),
)
    ensures
        spec_loop_fold(data, st, entries.push(entry)) == spec_loop_step(
            data,
            spec_loop_fold(data, st, entries),
            entry,
        ),
    decreases entries.len(),
{
    if entries.len() == 0 {
        assert(entries.push(entry)[0] == entry);
        assert(entries.push(entry).drop_first() =~= Seq::<(Seq<u8>, Seq<u8>)>::empty());
        assert(spec_loop_fold(data, st, entries) == st);
        assert(spec_loop_fold(data, spec_loop_step(data, st, entry), entries.push(entry).drop_first())
            == spec_loop_step(data, st, entry));
    } else {
        assert(entries.push(entry)[0] == entries[0]);
        assert(entries.push(entry).drop_first() =~= entries.drop_first().push(entry));
        assert(spec_loop_fold(data, st, entries) == spec_loop_fold(
            data,
            spec_loop_step(data, st, entries[0]),
            entries.drop_first(),
        ));
        lemma_loop_fold_push(data, spec_loop_step(data, st, entries[0]), entries.drop_first(), entry);
    }
}

/// The loop state a transfer run begins in, once the starting exchange has
/// carried the first chunk: the cursor stands past that chunk and nothing
/// has been gathered (a `Started` answer returns no data).
pub open spec fn spec_loop_init(data: Seq<u8>) -> LoopState {
    LoopState::Running { pos: spec_chunk_at(data, 0).len() as int, out: Seq::<u8>::empty() }
}

/// What a whole transfer call did, stated over the exchanges it performed
/// (`new`), the bytes it appended to the output (`appended`) and its
/// result.  The starting exchange carries the first chunk of `data` and
/// must decode to `Started`; the loop's exchanges then replay through
/// [`spec_loop_fold`], so a success is exactly a run whose last answer is
/// `Finished` and whose decoded data fields, concatenated in exchange
/// order, are the appended bytes.
pub open spec fn spec_transfer_outcome(
    data: Seq<u8>,
    new: Seq<(Seq<u8>, Seq<u8>)>,
    appended: Seq<u8>,
    r: Result<(), Mcp2210Error>,
) -> bool {
    &&& new.len() >= 1 ==> new[0].0 == spec_spi_transfer_cmd(spec_chunk_at(data, 0))
    &&& new.len() >= 2 ==> spec_spi_response_ok(new[0].1) && spec_spi_status(new[0].1)
        == SpiTransferStatus::Started
    &&& match r {
        Ok(u) => new.len() >= 2 && spec_loop_fold(data, spec_loop_init(data), new.skip(1)) == (
        LoopState::Done { out: appended }),
        Err(e) => {
            if new.len() == 0 {
                // The starting exchange itself failed in the transport.
                &&& e is Hid
                &&& appended == Seq::<u8>::empty()
            } else if !spec_spi_response_ok(new[0].1) {
                // The starting exchange decoded to an error, surfaced
                // unchanged; a busy start is not retried.
                &&& new.len() == 1
                &&& spec_spi_error_matches(e, new[0].1)
                &&& appended == Seq::<u8>::empty()
            } else if spec_spi_status(new[0].1) != SpiTransferStatus::Started {
                // A failed start: exactly one exchange, nothing appended.
                &&& new.len() == 1
                &&& e == Mcp2210Error::TransferStatus(spec_spi_status(new[0].1))
                &&& appended == Seq::<u8>::empty()
            } else {
                match spec_loop_fold(data, spec_loop_init(data), new.skip(1)) {
                    // A transport fault mid-run, or the exchange budget
                    // ran out (which fails as busy).
                    LoopState::Running { pos, out } => out == appended && (e is Hid || e
                        == Mcp2210Error::Busy),
                    // A later exchange decoded to a non-busy error,
                    // surfaced unchanged; what was gathered stays.
                    LoopState::Failed { out, res } => out == appended && spec_spi_error_matches(
                        e,
                        res,
                    ),
                    LoopState::Done { out } => false,
                    LoopState::Violated => false,
                }
            }
        },
    }
}

/// Moves `data` through the chip's 60-byte-per-packet SPI payload ceiling
/// and appends every byte received back from the bus, in order, to `buf`,
/// attempting at most `limit` packet exchanges after the starting one.
///
/// The first exchange must report `Started`; any other status fails at once
/// with `TransferStatus` and nothing is retried.  Each later exchange sends
/// the next chunk (or an empty drain packet once `data` is exhausted); a
/// `Busy` chip error resends the same chunk without advancing, any other
/// failure is surfaced, and a `Finished` status ends the transfer
/// successfully.  Bytes appended before a failure are kept.  If the
/// exchange budget runs out before the chip reports `Finished`, the
/// transfer fails as `Busy`.
///
/// [`spec_transfer_outcome`] states all of this over the transport's
/// exchange log: which packets went out, in what order, and how the result
/// and the appended bytes follow from the responses.
pub fn spi_transfer_to_end_with_limit<T: CommandResponse>(
    dev: &mut T,
    data: &[u8],
    buf: &mut Vec<u8>,
    limit: u64,
) -> (r: Result<(), Mcp2210Error>)
    ensures
        final(buf)@.len() >= old(buf)@.len(),
        final(buf)@.subrange(0, old(buf)@.len() as int) == old(buf)@,
        final(dev).exchanges().len() >= old(dev).exchanges().len(),
        final(dev).exchanges().subrange(0, old(dev).exchanges().len() as int) == old(
            dev,
        ).exchanges(),
        spec_transfer_outcome(
            data@,
            final(dev).exchanges().skip(old(dev).exchanges().len() as int),
            final(buf)@.skip(old(buf)@.len() as int),
            r,
        ),
        r matches Err(e) ==> (e matches Mcp2210Error::TransferStatus(s) ==> s
            != SpiTransferStatus::Started),
{
    let ghost n0: int = old(dev).exchanges().len() as int;
    let ghost out0: int = old(buf)@.len() as int;
    let mut res: Buffer = [0u8; 64];
    let first_len: usize = if data.len() < 60 {
        data.len()
    } else {
        60
    };
    proof {
        assert(data@.subrange(0, first_len as int) =~= spec_chunk_at(data@, 0));
    }
    let first = match spi_transfer(dev, slice_subrange(data, 0, first_len), &mut res) {
        Ok(f) => f,
        Err(e) => {
            proof {
                let newl = dev.exchanges().skip(n0);
                if !(e is Hid) {
                    assert(newl =~= seq![(spec_spi_transfer_cmd(spec_chunk_at(data@, 0)), res@)]);
                }
                assert(buf@.skip(out0) =~= Seq::<u8>::empty());
                assert(buf@.subrange(0, out0) =~= buf@);
            }
            return Err(e);
        },
    };
    let ghost first_res: Seq<u8> = res@;
    proof {
        assert(dev.exchanges().skip(n0) =~= seq![
            (spec_spi_transfer_cmd(spec_chunk_at(data@, 0)), first_res),
        ]);
        assert(buf@.skip(out0) =~= Seq::<u8>::empty());
        assert(buf@.subrange(0, out0) =~= buf@);
    }
    if first.status != SpiTransferStatus::Started {
        return Err(Mcp2210Error::TransferStatus(first.status));
    }
    let mut pos: usize = first_len;
    let mut remaining: u64 = limit;
    loop
        invariant
            pos <= data@.len(),
            buf@.len() >= out0,
            out0 == old(buf)@.len() as int,
            n0 == old(dev).exchanges().len() as int,
            buf@.subrange(0, out0) == old(buf)@,
            dev.exchanges().len() >= n0 + 1,
            dev.exchanges().subrange(0, n0) == old(dev).exchanges(),
            dev.exchanges()[n0].0 == spec_spi_transfer_cmd(spec_chunk_at(data@, 0)),
            dev.exchanges()[n0].1 == first_res,
            spec_spi_response_ok(first_res),
            spec_spi_status(first_res) == SpiTransferStatus::Started,
            spec_loop_fold(data@, spec_loop_init(data@), dev.exchanges().skip(n0 + 1)) == (
            LoopState::Running { pos: pos as int, out: buf@.skip(out0) }),
        decreases remaining,
    {
        if remaining == 0 {
            proof {
                lemma_new_log_shape(old(dev).exchanges(), dev.exchanges(), first_res, n0);
            }
            return Err(Mcp2210Error::Busy);
        }
        remaining = remaining - 1;
        let len: usize = if data.len() - pos < 60 {
            data.len() - pos
        } else {
            60
        };
        proof {
            assert(data@.subrange(pos as int, pos as int + len as int) =~= spec_chunk_at(
                data@,
                pos as int,
            ));
        }
        let ghost log_before: Seq<(Seq<u8>, Seq<u8>)> = dev.exchanges();
        let ghost out_before: Seq<u8> = buf@.skip(out0);
        match spi_transfer(dev, slice_subrange(data, pos, pos + len), &mut res) {
            Ok(mut chunk) => {
                proof {
                    assert(dev.exchanges().subrange(0, n0) =~= log_before.subrange(0, n0));
                    assert(dev.exchanges()[n0] == log_before[n0]);
                    assert(dev.exchanges().skip(n0 + 1) =~= log_before.skip(n0 + 1).push(
                        (spec_spi_transfer_cmd(spec_chunk_at(data@, pos as int)), res@),
                    ));
                    lemma_loop_fold_push(
                        data@,
                        spec_loop_init(data@),
                        log_before.skip(n0 + 1),
                        (spec_spi_transfer_cmd(spec_chunk_at(data@, pos as int)), res@),
                    );
                }
                pos = pos + len;
                buf.append(&mut chunk.data);
                proof {
                    assert(buf@.subrange(0, out0) =~= old(buf)@);
                    assert(buf@.skip(out0) =~= out_before + spec_spi_data(res@));
                    lemma_new_log_shape(old(dev).exchanges(), dev.exchanges(), first_res, n0);
                }
                if chunk.status == SpiTransferStatus::Finished {
                    return Ok(());
                }
            },
            Err(e) => {
                match e {
                    Mcp2210Error::Busy => {
                        proof {
                            assert(dev.exchanges().subrange(0, n0) =~= log_before.subrange(0, n0));
                            assert(dev.exchanges()[n0] == log_before[n0]);
                            assert(dev.exchanges().skip(n0 + 1) =~= log_before.skip(n0 + 1).push(
                                (spec_spi_transfer_cmd(spec_chunk_at(data@, pos as int)), res@),
                            ));
                            lemma_loop_fold_push(
                                data@,
                                spec_loop_init(data@),
                                log_before.skip(n0 + 1),
                                (spec_spi_transfer_cmd(spec_chunk_at(data@, pos as int)), res@),
                            );
                        }
                    },
                    other => {
                        proof {
                            if !(other is Hid) {
                                assert(dev.exchanges().subrange(0, n0) =~= log_before.subrange(
                                    0,
                                    n0,
                                ));
                                assert(dev.exchanges()[n0] == log_before[n0]);
                                assert(dev.exchanges().skip(n0 + 1) =~= log_before.skip(
                                    n0 + 1,
                                ).push(
                                    (spec_spi_transfer_cmd(spec_chunk_at(data@, pos as int)), res@),
                                ));
                                lemma_loop_fold_push(
                                    data@,
                                    spec_loop_init(data@),
                                    log_before.skip(n0 + 1),
                                    (spec_spi_transfer_cmd(spec_chunk_at(data@, pos as int)), res@),
                                );
                            }
                            lemma_new_log_shape(old(dev).exchanges(), dev.exchanges(), first_res, n0);
                        }
                        return Err(other);
                    },
                }
            },
        }
    }
}

/// The exchanges a call added, seen from inside the loop: the starting
/// entry stands first, and the rest are the loop's own, so facts indexed
/// from the old log's end translate to facts about the new segment.
proof fn lemma_new_log_shape(
    old_log: Seq<(Seq<u8>, Seq<u8>)>,
    log: Seq<(Seq<u8>, Seq<u8>)>,
    first_res: Seq<u8>,
    n0: int,
)
    requires
        n0 == old_log.len(),
        log.len() >= n0 + 1,
        log.subrange(0, n0) == old_log,
        log[n0].1 == first_res,
    ensures
        log.skip(n0).len() == log.len() - n0,
        log.skip(n0)[0].1 == first_res,
        log.skip(n0)[0] == log[n0],
        log.skip(n0).skip(1) =~= log.skip(n0 + 1),
{
    assert(log.skip(n0).skip(1) =~= log.skip(n0 + 1));
}

/// [`spi_transfer_to_end_with_limit`] with an exchange budget that no real
/// transfer can exhaust.
///
/// The chip's protocol asks for an unbounded tight poll while the bus is
/// busy, which is a latent starvation risk; this entry point keeps that
/// behavior for every practical purpose, and the `_with_limit` form exposes
/// a real cap for callers that want one.
pub fn spi_transfer_to_end<T: CommandResponse>(
    dev: &mut T,
    data: &[u8],
    buf: &mut Vec<u8>,
) -> (r: Result<(), Mcp2210Error>)
    ensures
        final(buf)@.len() >= old(buf)@.len(),
        final(buf)@.subrange(0, old(buf)@.len() as int) == old(buf)@,
        final(dev).exchanges().len() >= old(dev).exchanges().len(),
        final(dev).exchanges().subrange(0, old(dev).exchanges().len() as int) == old(
            dev,
        ).exchanges(),
        spec_transfer_outcome(
            data@,
            final(dev).exchanges().skip(old(dev).exchanges().len() as int),
            final(buf)@.skip(old(buf)@.len() as int),
            r,
        ),
        r matches Err(e) ==> (e matches Mcp2210Error::TransferStatus(s) ==> s
            != SpiTransferStatus::Started),
{
    spi_transfer_to_end_with_limit(dev, data, buf, u64::MAX)
}

} // verus!
