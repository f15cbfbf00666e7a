//! Driver for the SoC's I2C controllers in master mode: 7- and 10-bit target
//! addresses, standard (~100 kbit/s) and fast (~400 kbit/s) modes, 64-byte
//! transmit and receive FIFOs, DMA handshaking.
//!
//! Every operation takes the register handle it works through; its contract
//! states the register accesses it makes (see [`protocol`]).
pub mod consts;
pub mod instances;
pub mod protocol;

pub use consts::{
    I2cAddressMode, I2cError, I2cSpeed, I2C_DEFAULT_TIMEOUT, I2C_RX_FIFO_DEPTH, I2C_TX_FIFO_DEPTH,
};
pub use instances::{
    I2cClockConfig, I2cInstance, I2C0_BASE, I2C1_BASE, I2C2_BASE, I2C3_BASE, I2C4_BASE,
    RTCSYS_I2C_BASE,
};

use consts::{IC_CON, IC_TAR, IC_DATA_CMD, IC_SS_SCL_HCNT, IC_SS_SCL_LCNT, IC_FS_SCL_HCNT, IC_FS_SCL_LCNT, IC_INTR_MASK, IC_RAW_INTR_STAT, IC_RX_TL, IC_TX_TL, IC_CLR_INTR, IC_CLR_RX_OVER, IC_CLR_TX_OVER, IC_CLR_TX_ABRT, IC_ENABLE, IC_STATUS, IC_TXFLR, IC_RXFLR, IC_SDA_HOLD, IC_DMA_CR, IC_DMA_TDLR, IC_DMA_RDLR, IC_SDA_SETUP, IC_ENABLE_STATUS, IC_FS_SPKLEN, CON_10BITADDR_MASTER, TAR_ADDR_MASK, DATA_CMD_DAT_MASK, DATA_CMD_READ, DATA_CMD_STOP, DATA_CMD_RESTART, STATUS_ACTIVITY, STATUS_TFNF, STATUS_TFE, STATUS_RFNE, RAW_RX_OVER, RAW_TX_OVER, RAW_TX_ABRT, ENABLE_STATUS_IC_EN, DMA_CR_RDMAE, DMA_CR_TDMAE};
use instances::instance_base;
use protocol::{limit, disabled_ops, init_writes, target_ops, tx_step, tx_all, tx_stalled, busy_round, status_probe, wait_rounds, status_wait, check_ops, write_cmds, read_cmds, rx_split, rx_step, rx_all, rx_fail_split, rx_fail, rx_stalled};
use crate::mmio::{bits_rw, lemma_extend, read_at, read_next, BusOp, Mmio, RegisterBus};
use vstd::prelude::*;

verus! {

/// A transmit phase that stalled on a full FIFO.
pub open spec fn tx_timed_out(ops: Seq<BusOp>, base: usize, cmds: Seq<u32>) -> bool {
    exists|i: int, n: int| #[trigger] tx_stalled(ops, base, cmds, i, n)
}

/// A read phase that failed with `e` after filling a prefix of `got`; the
/// rest of the buffer kept its old contents.
pub open spec fn rx_failed_with(
    ops: Seq<BusOp>,
    base: usize,
    cmds: Seq<u32>,
    old_buf: Seq<u8>,
    got: Seq<u8>,
    e: I2cError,
) -> bool {
    exists|i: int, n: int| #[trigger] rx_stalled(ops, base, cmds, got, e, i, n) && got.skip(i) == old_buf.skip(i)
}

/// A write transfer split at `a` (end of addressing), `b` (end of the data
/// bytes) and `c` (end of the completion wait).
pub open spec fn write_split(
    ops: Seq<BusOp>,
    base: usize,
    addr: u16,
    mode: I2cAddressMode,
    cmds: Seq<u32>,
    r: Result<(), I2cError>,
    a: int,
    b: int,
    c: int,
) -> bool {
    &&& 0 <= a
    &&& a + 1 <= b <= c <= ops.len()
    &&& target_ops(ops.take(a), base, addr, mode)
    &&& ops[a] == BusOp::Write32 { base, offset: IC_ENABLE, value: 1 }
    &&& {
        ||| (b == c && c == ops.len() && r == Err::<(), I2cError>(I2cError::Timeout) && tx_timed_out(
            ops.subrange(a + 1, b),
            base,
            cmds,
        ))
        ||| (tx_all(ops.subrange(a + 1, b), base, cmds) && c == ops.len() && (r matches Err(e) && status_wait(
            ops.subrange(b, c),
            base,
            true,
            Some(e),
        )))
        ||| (tx_all(ops.subrange(a + 1, b), base, cmds) && status_wait(ops.subrange(b, c), base, true, None)
            && check_ops(ops.skip(c), base, r))
    }
}

/// A read transfer split at `a` (end of addressing) and `b` (end of the
/// byte reads).
pub open spec fn read_split(
    ops: Seq<BusOp>,
    base: usize,
    addr: u16,
    mode: I2cAddressMode,
    cmds: Seq<u32>,
    old_buf: Seq<u8>,
    got: Seq<u8>,
    r: Result<(), I2cError>,
    a: int,
    b: int,
) -> bool {
    &&& 0 <= a
    &&& a + 1 <= b <= ops.len()
    &&& target_ops(ops.take(a), base, addr, mode)
    &&& ops[a] == BusOp::Write32 { base, offset: IC_ENABLE, value: 1 }
    &&& {
        ||| (rx_all(ops.subrange(a + 1, b), base, cmds, got) && check_ops(ops.skip(b), base, r))
        ||| (b == ops.len() && (r matches Err(e) && rx_failed_with(
            ops.subrange(a + 1, b),
            base,
            cmds,
            old_buf,
            got,
            e,
        )))
    }
}

/// A write-then-read transfer of `wdata` and then `old_buf.len()` bytes,
/// split at `a` (end of addressing), `b` (end of the written bytes) and `c`
/// (end of the byte reads).
pub open spec fn write_read_split(
    ops: Seq<BusOp>,
    base: usize,
    addr: u16,
    mode: I2cAddressMode,
    wdata: Seq<u8>,
    old_buf: Seq<u8>,
    got: Seq<u8>,
    r: Result<(), I2cError>,
    a: int,
    b: int,
    c: int,
) -> bool {
    let wcmds = write_cmds(wdata, false);
    let rcmds = read_cmds(old_buf.len(), wdata.len() > 0);
    &&& 0 <= a
    &&& a + 1 <= b <= c <= ops.len()
    &&& target_ops(ops.take(a), base, addr, mode)
    &&& ops[a] == BusOp::Write32 { base, offset: IC_ENABLE, value: 1 }
    &&& {
        ||| (b == c && c == ops.len() && got == old_buf && r == Err::<(), I2cError>(I2cError::Timeout)
            && tx_timed_out(ops.subrange(a + 1, b), base, wcmds))
        ||| (tx_all(ops.subrange(a + 1, b), base, wcmds) && rx_all(ops.subrange(b, c), base, rcmds, got)
            && check_ops(ops.skip(c), base, r))
        ||| (tx_all(ops.subrange(a + 1, b), base, wcmds) && c == ops.len() && (r matches Err(e)
            && rx_failed_with(ops.subrange(b, c), base, rcmds, old_buf, got, e)))
    }
}

/// The pieces of a transfer: addressing up to `ta`, the enable write `w`
/// (ending `t1`), then three phases ending at `t2`, `t3` and `t4`.
proof fn lemma_transfer(
    t0: Seq<BusOp>,
    ta: Seq<BusOp>,
    t1: Seq<BusOp>,
    t2: Seq<BusOp>,
    t3: Seq<BusOp>,
    t4: Seq<BusOp>,
    w: BusOp,
)
    requires
        t0.len() <= ta.len(),
        ta.take(t0.len() as int) == t0,
        t1 == ta.push(w),
        t1.len() <= t2.len() <= t3.len() <= t4.len(),
        t2.take(t1.len() as int) == t1,
        t3.take(t2.len() as int) == t2,
        t4.take(t3.len() as int) == t3,
    ensures
        ({
            let ops = t4.skip(t0.len() as int);
            let a = ta.len() - t0.len();
            let b = t2.len() - t0.len();
            let c = t3.len() - t0.len();
            &&& t4.take(t0.len() as int) == t0
            &&& ops.take(a) == ta.skip(t0.len() as int)
            &&& ops[a] == w
            &&& ops.subrange(a + 1, b) == t2.skip(t1.len() as int)
            &&& ops.subrange(b, c) == t3.skip(t2.len() as int)
            &&& ops.skip(c) == t4.skip(t3.len() as int)
        }),
{
    assert(t1.take(ta.len() as int) =~= ta);
    lemma_extend(ta, t1, t2);
    crate::mmio::lemma_segments(t0, ta, t2, t3, t4);
    let ops = t4.skip(t0.len() as int);
    let a = ta.len() - t0.len();
    let b = t2.len() - t0.len();
    let c = t3.len() - t0.len();
    assert(ops[a] == t2[ta.len() as int]);
    assert(t2[ta.len() as int] == t1[ta.len() as int]);
    assert(ops.subrange(a + 1, b) =~= t2.skip(t1.len() as int));
    assert(t4.take(t0.len() as int) == t0);
    assert(ops.take(a) == ta.skip(t0.len() as int));
    assert(ops.subrange(b, c) == t3.skip(t2.len() as int));
    assert(ops.skip(c) == t4.skip(t3.len() as int));
}

/// `after` is `before` followed by the accesses of `init`: disabling, the
/// configuration writes, and the read that clears all interrupts.
pub open spec fn init_trace(
    before: Seq<BusOp>,
    after: Seq<BusOp>,
    base: usize,
    speed: I2cSpeed,
    cfg: I2cClockConfig,
) -> bool {
    let n0 = before.len() as int;
    &&& after.len() >= n0 + 14
    &&& after.take(n0) == before
    &&& disabled_ops(after.subrange(n0, after.len() - 12), base)
    &&& after.subrange(after.len() - 12, after.len() - 1) == init_writes(base, speed, cfg)
    &&& crate::mmio::is_read32_of(after.last(), base, IC_CLR_INTR)
}

/// An I2C controller.
pub struct I2c {
    base: usize,
    instance: I2cInstance,
    speed: I2cSpeed,
    clock_config: I2cClockConfig,
}

/// A zero written to IC_ENABLE, then polls until the controller reports
/// itself off (at most the poll limit; it goes on either way).
fn disable<B: RegisterBus>(mmio: &mut Mmio<B>, base: usize)
    ensures
        old(mmio).trace().len() <= final(mmio).trace().len(),
        final(mmio).trace().take(old(mmio).trace().len() as int) == old(mmio).trace(),
        disabled_ops(final(mmio).trace().skip(old(mmio).trace().len() as int), base),
{
    mmio.write32(base, IC_ENABLE, 0);
    let ghost t1 = mmio.trace();
    assert(t1.take(old(mmio).trace().len() as int) =~= old(mmio).trace());
    let _ = mmio.poll32_until_clear(base, IC_ENABLE_STATUS, ENABLE_STATUS_IC_EN, I2C_DEFAULT_TIMEOUT);
    proof {
        lemma_extend(old(mmio).trace(), t1, mmio.trace());
        let seg = mmio.trace().skip(old(mmio).trace().len() as int);
        assert(seg.skip(1) =~= mmio.trace().skip(t1.len() as int));
    }
}

/// Waits for room in the transmit FIFO, then writes `cmd` to IC_DATA_CMD;
/// says whether it did.
fn send_cmd<B: RegisterBus>(mmio: &mut Mmio<B>, base: usize, cmd: u32) -> (sent: bool)
    ensures
        final(mmio).trace().len() > old(mmio).trace().len(),
        old(mmio).trace().len() <= final(mmio).trace().len(),
        final(mmio).trace().take(old(mmio).trace().len() as int) == old(mmio).trace(),
        sent ==> tx_step(final(mmio).trace().skip(old(mmio).trace().len() as int), base, cmd),
        !sent ==> polled_until_set_fail(final(mmio).trace().skip(old(mmio).trace().len() as int), base),
{
    let ok = mmio.poll32_until_set(base, IC_STATUS, STATUS_TFNF, I2C_DEFAULT_TIMEOUT);
    if !ok {
        return false;
    }
    let ghost t1 = mmio.trace();
    mmio.write32(base, IC_DATA_CMD, cmd);
    proof {
        let seg = mmio.trace().skip(old(mmio).trace().len() as int);
        assert(mmio.trace().take(old(mmio).trace().len() as int) =~= old(mmio).trace());
        assert(seg.drop_last() =~= t1.subrange(old(mmio).trace().len() as int, t1.len() as int));
    }
    true
}

/// A poll of IC_STATUS that never saw room in the transmit FIFO.
pub open spec fn polled_until_set_fail(ops: Seq<BusOp>, base: usize) -> bool {
    crate::mmio::polled_until_set(ops, base, IC_STATUS, STATUS_TFNF, limit(), false)
}

/// Reads IC_STATUS until the wait is done (bus idle with an empty transmit
/// FIFO when `complete`, else a received byte); a transmit abort seen in
/// IC_RAW_INTR_STAT is cleared and reported, and the wait gives up after
/// the poll limit.
fn wait_status<B: RegisterBus>(mmio: &mut Mmio<B>, base: usize, complete: bool) -> (r: Result<(), I2cError>)
    ensures
        old(mmio).trace().len() <= final(mmio).trace().len(),
        final(mmio).trace().take(old(mmio).trace().len() as int) == old(mmio).trace(),
        status_wait(
            final(mmio).trace().skip(old(mmio).trace().len() as int),
            base,
            complete,
            match r {
                Ok(_) => None,
                Err(e) => Some(e),
            },
        ),
{
    let ghost ts = mmio.trace();
    let ghost mut rounds: Seq<Seq<BusOp>> = Seq::empty();
    let mut k: u32 = 0;
    while k < I2C_DEFAULT_TIMEOUT
        invariant
            ts == old(mmio).trace(),
            k <= I2C_DEFAULT_TIMEOUT,
            rounds.len() == k,
            mmio.trace() == ts + rounds.flatten(),
            forall|j: int| 0 <= j < rounds.len() ==> #[trigger] busy_round(rounds[j], base, complete),
        decreases I2C_DEFAULT_TIMEOUT - k,
    {
        let ghost tk = mmio.trace();
        let s1 = mmio.read32(base, IC_STATUS);
        let done = if complete {
            if s1 & STATUS_ACTIVITY != 0 {
                false
            } else {
                let s2 = mmio.read32(base, IC_STATUS);
                s2 & STATUS_TFE != 0
            }
        } else {
            s1 & STATUS_RFNE != 0
        };
        let ghost probe = mmio.trace().skip(tk.len() as int);
        assert(status_probe(probe, base, complete, done)) by {
            assert(probe[0] == BusOp::Read32 { base, offset: IC_STATUS, value: s1 });
            if probe.len() == 2 {
                assert(probe[1] == mmio.trace()[tk.len() + 1int]);
            }
        }
        if done {
            proof {
                let ops = mmio.trace().skip(ts.len() as int);
                let n = rounds.flatten().len();
                assert(ops.take(n as int) =~= rounds.flatten());
                assert(ops.skip(n as int) =~= probe);
                assert(wait_rounds(ops, base, complete, rounds, None));
            }
            return Ok(());
        }
        let ghost tp = mmio.trace();
        let raw = mmio.read32(base, IC_RAW_INTR_STAT);
        if raw & RAW_TX_ABRT != 0 {
            let _ = mmio.read32(base, IC_CLR_TX_ABRT);
            proof {
                let ops = mmio.trace().skip(ts.len() as int);
                let n = rounds.flatten().len();
                let tail = ops.skip(n as int);
                assert(ops.take(n as int) =~= rounds.flatten());
                assert(tail =~= mmio.trace().skip(tk.len() as int));
                assert(tail.take(tail.len() - 2) =~= probe);
                assert(tail[tail.len() - 2] == BusOp::Read32 { base, offset: IC_RAW_INTR_STAT, value: raw });
                assert(read_at(tail, tail.len() - 2) == raw);
                assert(wait_rounds(ops, base, complete, rounds, Some(I2cError::TxAbort)));
            }
            return Err(I2cError::TxAbort);
        }
        proof {
            let r = mmio.trace().skip(tk.len() as int);
            assert(r.drop_last() =~= probe);
            assert(r.last() == BusOp::Read32 { base, offset: IC_RAW_INTR_STAT, value: raw });
            assert(read_at(r, r.len() - 1) == raw);
            assert(busy_round(r, base, complete));
            rounds.lemma_flatten_push(r);
            assert(mmio.trace() =~= ts + rounds.push(r).flatten());
            rounds = rounds.push(r);
        }
        k = k + 1;
    }
    proof {
        let ops = mmio.trace().skip(ts.len() as int);
        let n = rounds.flatten().len();
        assert(ops.take(n as int) =~= rounds.flatten());
        assert(ops.skip(n as int) =~= Seq::<BusOp>::empty());
        assert(wait_rounds(ops, base, complete, rounds, Some(I2cError::Timeout)));
    }
    Err(I2cError::Timeout)
}

/// Waits for the bus to go idle with an empty transmit FIFO (see
/// [`wait_status`]).
fn wait_transfer_complete<B: RegisterBus>(mmio: &mut Mmio<B>, base: usize) -> (r: Result<(), I2cError>)
    ensures
        old(mmio).trace().len() <= final(mmio).trace().len(),
        final(mmio).trace().take(old(mmio).trace().len() as int) == old(mmio).trace(),
        status_wait(
            final(mmio).trace().skip(old(mmio).trace().len() as int),
            base,
            true,
            match r {
                Ok(_) => None,
                Err(e) => Some(e),
            },
        ),
{
    wait_status(mmio, base, true)
}

/// Waits for a byte in the receive FIFO (see [`wait_status`]).
fn wait_rx_fifo_not_empty<B: RegisterBus>(mmio: &mut Mmio<B>, base: usize) -> (r: Result<(), I2cError>)
    ensures
        old(mmio).trace().len() <= final(mmio).trace().len(),
        final(mmio).trace().take(old(mmio).trace().len() as int) == old(mmio).trace(),
        status_wait(
            final(mmio).trace().skip(old(mmio).trace().len() as int),
            base,
            false,
            match r {
                Ok(_) => None,
                Err(e) => Some(e),
            },
        ),
{
    wait_status(mmio, base, false)
}

/// Reads IC_RAW_INTR_STAT and reports (and clears) a transmit abort, a
/// receive overflow or a transmit overflow, in that order.
fn check_errors<B: RegisterBus>(mmio: &mut Mmio<B>, base: usize) -> (r: Result<(), I2cError>)
    ensures
        old(mmio).trace().len() <= final(mmio).trace().len(),
        final(mmio).trace().take(old(mmio).trace().len() as int) == old(mmio).trace(),
        check_ops(final(mmio).trace().skip(old(mmio).trace().len() as int), base, r),
{
    let raw = mmio.read32(base, IC_RAW_INTR_STAT);
    let r = if raw & RAW_TX_ABRT != 0 {
        let _ = mmio.read32(base, IC_CLR_TX_ABRT);
        Err(I2cError::TxAbort)
    } else if raw & RAW_RX_OVER != 0 {
        let _ = mmio.read32(base, IC_CLR_RX_OVER);
        Err(I2cError::RxOverflow)
    } else if raw & RAW_TX_OVER != 0 {
        let _ = mmio.read32(base, IC_CLR_TX_OVER);
        Err(I2cError::TxOverflow)
    } else {
        Ok(())
    };
    proof {
        let ops = mmio.trace().skip(old(mmio).trace().len() as int);
        assert(mmio.trace().take(old(mmio).trace().len() as int) =~= old(mmio).trace());
        assert(ops[0] == BusOp::Read32 { base, offset: IC_RAW_INTR_STAT, value: raw });
    }
    r
}

/// Writes the commands for `data` (STOP on the last byte when `stop`), each
/// after a wait for room in the transmit FIFO; stops at a full FIFO.
fn send_all<B: RegisterBus>(mmio: &mut Mmio<B>, base: usize, data: &[u8], stop: bool) -> (r: Result<(), I2cError>)
    ensures
        old(mmio).trace().len() <= final(mmio).trace().len(),
        final(mmio).trace().take(old(mmio).trace().len() as int) == old(mmio).trace(),
        r is Ok ==> tx_all(final(mmio).trace().skip(old(mmio).trace().len() as int), base, write_cmds(data@, stop)),
        r is Err ==> r == Err::<(), I2cError>(I2cError::Timeout) && tx_timed_out(
            final(mmio).trace().skip(old(mmio).trace().len() as int),
            base,
            write_cmds(data@, stop),
        ),
{
    let ghost ts = mmio.trace();
    let ghost cmds = write_cmds(data@, stop);
    let len = data.len();
    let mut i: usize = 0;
    proof {
        assert(mmio.trace().take(ts.len() as int) =~= ts);
        assert(cmds.take(0) =~= Seq::<u32>::empty());
        assert(mmio.trace().skip(ts.len() as int) =~= Seq::<BusOp>::empty());
    }
    while i < len
        invariant
            ts == old(mmio).trace(),
            cmds == write_cmds(data@, stop),
            len == data.len(),
            i <= len,
            ts.len() <= mmio.trace().len(),
            mmio.trace().take(ts.len() as int) == ts,
            tx_all(mmio.trace().skip(ts.len() as int), base, cmds.take(i as int)),
        decreases len - i,
    {
        let cmd = (data[i] as u32) | (if stop && i == len - 1 { DATA_CMD_STOP } else { 0 });
        assert(cmd == cmds[i as int]);
        let ghost t1 = mmio.trace();
        let sent = send_cmd(mmio, base, cmd);
        proof {
            lemma_extend(ts, t1, mmio.trace());
        }
        if !sent {
            proof {
                let ops = mmio.trace().skip(ts.len() as int);
                let n = t1.len() - ts.len();
                assert(ops.take(n) =~= t1.skip(ts.len() as int));
                assert(ops.skip(n) =~= mmio.trace().skip(t1.len() as int));
                assert(tx_stalled(ops, base, cmds, i as int, n));
            }
            return Err(I2cError::Timeout);
        }
        proof {
            let ops = mmio.trace().skip(ts.len() as int);
            let n = t1.len() - ts.len();
            assert(ops.take(n) =~= t1.skip(ts.len() as int));
            assert(ops.skip(n) =~= mmio.trace().skip(t1.len() as int));
            assert(cmds.take(i + 1).drop_last() =~= cmds.take(i as int));
            assert(tx_step(ops.skip(n), base, cmds.take(i + 1).last()));
        }
        i = i + 1;
    }
    proof {
        assert(cmds.take(len as int) =~= cmds);
    }
    Ok(())
}

/// Issues one read command and waits for its byte; returns the byte.
fn read_byte<B: RegisterBus>(mmio: &mut Mmio<B>, base: usize, cmd: u32) -> (r: Result<u8, I2cError>)
    ensures
        old(mmio).trace().len() <= final(mmio).trace().len(),
        final(mmio).trace().take(old(mmio).trace().len() as int) == old(mmio).trace(),
        r matches Ok(v) ==> rx_step(final(mmio).trace().skip(old(mmio).trace().len() as int), base, cmd, v),
        r matches Err(e) ==> rx_fail(final(mmio).trace().skip(old(mmio).trace().len() as int), base, cmd, e),
{
    let ghost t0 = mmio.trace();
    let sent = send_cmd(mmio, base, cmd);
    if !sent {
        proof {
            let seg = mmio.trace().skip(t0.len() as int);
            assert(rx_fail_split(seg, base, cmd, I2cError::Timeout, seg.len() as int));
        }
        return Err(I2cError::Timeout);
    }
    let ghost t1 = mmio.trace();
    let w = wait_rx_fifo_not_empty(mmio, base);
    proof {
        lemma_extend(t0, t1, mmio.trace());
    }
    match w {
        Err(e) => {
            proof {
                let seg = mmio.trace().skip(t0.len() as int);
                let p = t1.len() - t0.len() - 1;
                assert(seg.take(p + 1) =~= t1.skip(t0.len() as int));
                assert(seg.skip(p + 1) =~= mmio.trace().skip(t1.len() as int));
                assert(rx_fail_split(seg, base, cmd, e, p));
            }
            Err(e)
        },
        Ok(()) => {
            let ghost t2 = mmio.trace();
            let v = mmio.read32(base, IC_DATA_CMD);
            let byte = (v & DATA_CMD_DAT_MASK) as u8;
            proof {
                assert(mmio.trace().take(t2.len() as int) =~= t2);
                lemma_extend(t0, t2, mmio.trace());
                let seg = mmio.trace().skip(t0.len() as int);
                let p = t1.len() - t0.len() - 1;
                assert(seg.take(p + 1) =~= t1.skip(t0.len() as int));
                assert(seg.subrange(p + 1, seg.len() - 1) =~= t2.skip(t1.len() as int));
                assert(seg.last() == BusOp::Read32 { base, offset: IC_DATA_CMD, value: v });
                assert(crate::mmio::read_at(seg, seg.len() - 1) == v);
                assert(1 <= p < seg.len() - 1);
                assert(tx_step(seg.take(p + 1), base, cmd));
                assert(status_wait(seg.subrange(p + 1, seg.len() - 1), base, false, None));
                assert(rx_split(seg, base, cmd, byte, p));
            }
            Ok(byte)
        },
    }
}

/// Reads `buffer.len()` bytes into `buffer` with the read commands of
/// [`read_cmds`]; stops at the first failed byte.
#[verifier::rlimit(40)]
fn read_all<B: RegisterBus>(mmio: &mut Mmio<B>, base: usize, buffer: &mut [u8], restart: bool) -> (r: Result<(), I2cError>)
    ensures
        old(mmio).trace().len() <= final(mmio).trace().len(),
        final(buffer)@.len() == old(buffer)@.len(),
        old(mmio).trace().len() <= final(mmio).trace().len(),
        final(mmio).trace().take(old(mmio).trace().len() as int) == old(mmio).trace(),
        r is Ok ==> rx_all(
            final(mmio).trace().skip(old(mmio).trace().len() as int),
            base,
            read_cmds(old(buffer)@.len(), restart),
            final(buffer)@,
        ),
        r matches Err(e) ==> rx_failed_with(
            final(mmio).trace().skip(old(mmio).trace().len() as int),
            base,
            read_cmds(old(buffer)@.len(), restart),
            old(buffer)@,
            final(buffer)@,
            e,
        ),
{
    let ghost ts = mmio.trace();
    let ghost b0 = buffer@;
    let len = buffer.len();
    let ghost cmds = read_cmds(len as nat, restart);
    let mut i: usize = 0;
    proof {
        assert(mmio.trace().take(ts.len() as int) =~= ts);
        assert(cmds.take(0) =~= Seq::<u32>::empty());
        assert(buffer@.take(0) =~= Seq::<u8>::empty());
        assert(mmio.trace().skip(ts.len() as int) =~= Seq::<BusOp>::empty());
    }
    while i < len
        invariant
            ts == old(mmio).trace(),
            b0 == old(buffer)@,
            len == b0.len(),
            cmds == read_cmds(len as nat, restart),
            buffer@.len() == len,
            i <= len,
            ts.len() <= mmio.trace().len(),
            mmio.trace().take(ts.len() as int) == ts,
            rx_all(mmio.trace().skip(ts.len() as int), base, cmds.take(i as int), buffer@.take(i as int)),
            buffer@.skip(i as int) == b0.skip(i as int),
        decreases len - i,
    {
        let cmd = DATA_CMD_READ | (if restart && i == 0 { DATA_CMD_RESTART } else { 0 }) | (if i == len - 1 {
            DATA_CMD_STOP
        } else {
            0
        });
        assert(cmd == cmds[i as int]);
        let ghost t1 = mmio.trace();
        let ghost bi = buffer@;
        let r = read_byte(mmio, base, cmd);
        proof {
            lemma_extend(ts, t1, mmio.trace());
        }
        match r {
            Err(e) => {
                proof {
                    let ops = mmio.trace().skip(ts.len() as int);
                    let n = t1.len() - ts.len();
                    assert(ops.take(n) =~= t1.skip(ts.len() as int));
                    assert(ops.skip(n) =~= mmio.trace().skip(t1.len() as int));
                    assert(rx_stalled(ops, base, cmds, buffer@, e, i as int, n));
                }
                return Err(e);
            },
            Ok(v) => {
                buffer[i] = v;
                proof {
                    let ops = mmio.trace().skip(ts.len() as int);
                    let n = t1.len() - ts.len();
                    assert(ops.take(n) =~= t1.skip(ts.len() as int));
                    assert(ops.skip(n) =~= mmio.trace().skip(t1.len() as int));
                    assert(cmds.take(i + 1).drop_last() =~= cmds.take(i as int));
                    assert(buffer@.take(i + 1).drop_last() =~= bi.take(i as int));
                    assert(rx_step(ops.skip(n), base, cmds.take(i + 1).last(), buffer@.take(i + 1).last()));
                    assert forall|k: int| 0 <= k < buffer@.skip(i + 1).len() implies #[trigger] buffer@.skip(i + 1)[k] == b0.skip(i + 1)[k] by {
                        assert(bi.skip(i as int)[k + 1] == b0.skip(i as int)[k + 1]);
                    }
                    assert(buffer@.skip(i + 1) =~= b0.skip(i + 1));
                }
                i = i + 1;
            },
        }
    }
    proof {
        assert(cmds.take(len as int) =~= cmds);
        assert(buffer@.take(len as int) =~= buffer@);
    }
    Ok(())
}

impl I2c {
    pub closed spec fn base(&self) -> usize {
        self.base
    }

    pub closed spec fn instance_spec(&self) -> I2cInstance {
        self.instance
    }

    pub closed spec fn speed_spec(&self) -> I2cSpeed {
        self.speed
    }

    pub closed spec fn clock(&self) -> I2cClockConfig {
        self.clock_config
    }

    /// The driver of `instance`, in fast mode with the 100 MHz timing.
    pub fn new(instance: I2cInstance) -> (d: Self)
        ensures
            d.base() == instance_base(instance),
            d.instance_spec() == instance,
            d.speed_spec() == I2cSpeed::Fast,
            d.clock() == I2cClockConfig::clk_100mhz_spec(),
    {
        I2c {
            base: instance.base_address(),
            instance,
            speed: I2cSpeed::Fast,
            clock_config: I2cClockConfig::clk_100mhz(),
        }
    }

    /// A driver for the controller at `base`, known as `instance`.
    pub fn from_base_address(base: usize, instance: I2cInstance) -> (d: Self)
        ensures
            d.base() == base,
            d.instance_spec() == instance,
            d.speed_spec() == I2cSpeed::Fast,
            d.clock() == I2cClockConfig::clk_100mhz_spec(),
    {
        I2c { base, instance, speed: I2cSpeed::Fast, clock_config: I2cClockConfig::clk_100mhz() }
    }

    pub fn set_clock_config(&mut self, config: I2cClockConfig)
        ensures
            final(self).clock() == config,
            final(self).base() == old(self).base(),
            final(self).instance_spec() == old(self).instance_spec(),
            final(self).speed_spec() == old(self).speed_spec(),
    {
        self.clock_config = config;
    }

    pub fn instance(&self) -> (i: I2cInstance)
        ensures
            i == self.instance_spec(),
    {
        self.instance
    }

    pub fn speed(&self) -> (s: I2cSpeed)
        ensures
            s == self.speed_spec(),
    {
        self.speed
    }

    /// Whether IC_ENABLE_STATUS reports the controller on.
    pub fn is_enabled<B: RegisterBus>(&self, mmio: &mut Mmio<B>) -> (on: bool)
        ensures
            read_next(old(mmio).trace(), final(mmio).trace(), self.base(), IC_ENABLE_STATUS),
            on == (crate::mmio::read_at(final(mmio).trace(), old(mmio).trace().len() as int)
                & ENABLE_STATUS_IC_EN != 0),
    {
        let v = mmio.read32(self.base, IC_ENABLE_STATUS);
        assert(crate::mmio::read_at(mmio.trace(), old(mmio).trace().len() as int) == v);
        v & ENABLE_STATUS_IC_EN != 0
    }

    /// Sets up the controller as a master in `speed` mode with the clock
    /// configuration's timing: disables it, writes IC_CON, the SCL counts,
    /// the SDA hold and setup, the spike length, zero FIFO thresholds and
    /// interrupt mask, and clears all interrupts.
    pub fn init<B: RegisterBus>(&mut self, mmio: &mut Mmio<B>, speed: I2cSpeed)
        ensures
            final(self).speed_spec() == speed,
            final(self).base() == old(self).base(),
            final(self).instance_spec() == old(self).instance_spec(),
            final(self).clock() == old(self).clock(),
            init_trace(old(mmio).trace(), final(mmio).trace(), old(self).base(), speed, old(self).clock()),
    {
        self.speed = speed;
        let base = self.base;
        let cfg = self.clock_config;
        disable(mmio, base);
        let ghost t1 = mmio.trace();
        let con: u32 = match speed {
            I2cSpeed::Standard => 0x63,
            I2cSpeed::Fast => 0x65,
        };
        mmio.write32(base, IC_CON, con);
        self.configure_scl_timing(mmio);
        mmio.write32(base, IC_SDA_HOLD, cfg.sda_hold as u32);
        mmio.write32(base, IC_SDA_SETUP, (cfg.sda_setup as u32) & 1);
        mmio.write32(base, IC_FS_SPKLEN, cfg.fs_spklen as u32);
        mmio.write32(base, IC_RX_TL, 0);
        mmio.write32(base, IC_TX_TL, 0);
        mmio.write32(base, IC_INTR_MASK, 0);
        let _ = mmio.read32(base, IC_CLR_INTR);
        proof {
            let t = mmio.trace();
            let n0 = old(mmio).trace().len() as int;
            assert(t1.len() == t.len() - 12);
            assert(t.take(t1.len() as int) =~= t1);
            lemma_extend(old(mmio).trace(), t1, t);
            assert(t.subrange(n0, t.len() - 12) =~= t1.skip(n0));
            assert(t.subrange(t.len() - 12, t.len() - 1) =~= init_writes(base, speed, cfg));
        }
    }

    /// Writes the standard and fast mode SCL high and low counts.
    fn configure_scl_timing<B: RegisterBus>(&self, mmio: &mut Mmio<B>)
        ensures
            final(mmio).trace() == old(mmio).trace() + seq![
                BusOp::Write32 { base: self.base(), offset: IC_SS_SCL_HCNT, value: self.clock().ss_scl_hcnt as u32 },
                BusOp::Write32 { base: self.base(), offset: IC_SS_SCL_LCNT, value: self.clock().ss_scl_lcnt as u32 },
                BusOp::Write32 { base: self.base(), offset: IC_FS_SCL_HCNT, value: self.clock().fs_scl_hcnt as u32 },
                BusOp::Write32 { base: self.base(), offset: IC_FS_SCL_LCNT, value: self.clock().fs_scl_lcnt as u32 },
            ],
    {
        let c = self.clock_config;
        mmio.write32(self.base, IC_SS_SCL_HCNT, c.ss_scl_hcnt as u32);
        mmio.write32(self.base, IC_SS_SCL_LCNT, c.ss_scl_lcnt as u32);
        mmio.write32(self.base, IC_FS_SCL_HCNT, c.fs_scl_hcnt as u32);
        mmio.write32(self.base, IC_FS_SCL_LCNT, c.fs_scl_lcnt as u32);
        assert(mmio.trace() =~= old(mmio).trace() + seq![
            BusOp::Write32 { base: self.base(), offset: IC_SS_SCL_HCNT, value: self.clock().ss_scl_hcnt as u32 },
            BusOp::Write32 { base: self.base(), offset: IC_SS_SCL_LCNT, value: self.clock().ss_scl_lcnt as u32 },
            BusOp::Write32 { base: self.base(), offset: IC_FS_SCL_HCNT, value: self.clock().fs_scl_hcnt as u32 },
            BusOp::Write32 { base: self.base(), offset: IC_FS_SCL_LCNT, value: self.clock().fs_scl_lcnt as u32 },
        ]);
    }

    /// Programs the target address (and the addressing mode) with the
    /// controller disabled, enabling it again if it was on.
    fn set_target_address<B: RegisterBus>(&self, mmio: &mut Mmio<B>, addr: u16, mode: I2cAddressMode)
        ensures
            old(mmio).trace().len() <= final(mmio).trace().len(),
            final(mmio).trace().take(old(mmio).trace().len() as int) == old(mmio).trace(),
            target_ops(final(mmio).trace().skip(old(mmio).trace().len() as int), self.base(), addr, mode),
    {
        let base = self.base;
        let ghost t0 = mmio.trace();
        let was_enabled = self.is_enabled(mmio);
        let ghost t1 = mmio.trace();
        if was_enabled {
            disable(mmio, base);
        }
        let ghost t2 = mmio.trace();
        mmio.update_bits32(base, IC_CON, CON_10BITADDR_MASTER, mode == I2cAddressMode::TenBit);
        let ghost t3 = mmio.trace();
        mmio.write32(base, IC_TAR, (addr as u32) & TAR_ADDR_MASK);
        if was_enabled {
            mmio.write32(base, IC_ENABLE, 1);
        }
        proof {
            let t = mmio.trace();
            assert(t1.take(t0.len() as int) =~= t0);
            if !was_enabled {
                assert(t2.take(t1.len() as int) =~= t1);
            }
            lemma_extend(t0, t1, t2);
            assert(t3.take(t2.len() as int) =~= t2);
            lemma_extend(t0, t2, t3);
            assert(t.take(t3.len() as int) =~= t3);
            lemma_extend(t0, t3, t);
            let ops = t.skip(t0.len() as int);
            let m = t2.len() - t0.len();
            assert(t.take(t0.len() as int) =~= t0);
            assert(ops[0] == t1[t0.len() as int]);
            assert(crate::mmio::read_at(ops, 0) == crate::mmio::read_at(t1, t0.len() as int));
            if was_enabled {
                assert(ops.len() == m + 4);
                assert(ops.subrange(1, m) =~= t2.skip(t1.len() as int));
            } else {
                assert(ops.len() == m + 3);
            }
            assert(ops[m] == t3[t2.len() as int]);
            assert(crate::mmio::read_at(ops, m) == crate::mmio::read_at(t3, t2.len() as int));
            assert(ops[m + 1] == t3[t2.len() + 1int]);
        }
    }

    /// Writes `data` to the 7-bit address `addr`.
    pub fn write<B: RegisterBus>(&self, mmio: &mut Mmio<B>, addr: u8, data: &[u8]) -> (r: Result<(), I2cError>)
        ensures
            data@.len() == 0 ==> r is Ok && final(mmio).trace() == old(mmio).trace(),
            old(mmio).trace().len() <= final(mmio).trace().len(),
            data@.len() > 0 ==> final(mmio).trace().take(old(mmio).trace().len() as int) == old(mmio).trace()
                && exists|a: int, b: int, c: int|
                #[trigger] write_split(
                    final(mmio).trace().skip(old(mmio).trace().len() as int),
                    self.base(),
                    addr as u16,
                    I2cAddressMode::SevenBit,
                    write_cmds(data@, true),
                    r,
                    a,
                    b,
                    c,
                ),
    {
        self.write_with_mode(mmio, addr as u16, I2cAddressMode::SevenBit, data)
    }

    /// Writes `data` to `addr` in addressing mode `mode`: addresses the
    /// target, enables the controller, writes the bytes (STOP after the
    /// last), waits for the bus to go idle and checks for errors.  Nothing
    /// is done for empty `data`.
    pub fn write_with_mode<B: RegisterBus>(&self, mmio: &mut Mmio<B>, addr: u16, mode: I2cAddressMode, data: &[u8]) -> (r: Result<(), I2cError>)
        ensures
            data@.len() == 0 ==> r is Ok && final(mmio).trace() == old(mmio).trace(),
            old(mmio).trace().len() <= final(mmio).trace().len(),
            data@.len() > 0 ==> final(mmio).trace().take(old(mmio).trace().len() as int) == old(mmio).trace()
                && exists|a: int, b: int, c: int|
                #[trigger] write_split(
                    final(mmio).trace().skip(old(mmio).trace().len() as int),
                    self.base(),
                    addr,
                    mode,
                    write_cmds(data@, true),
                    r,
                    a,
                    b,
                    c,
                ),
    {
        if data.len() == 0 {
            return Ok(());
        }
        let base = self.base;
        let ghost t0 = mmio.trace();
        let ghost cmds = write_cmds(data@, true);
        self.set_target_address(mmio, addr, mode);
        let ghost ta = mmio.trace();
        mmio.write32(base, IC_ENABLE, 1);
        let ghost t1 = mmio.trace();
        let sent = send_all(mmio, base, data, true);
        let ghost t2 = mmio.trace();
        let ghost a = ta.len() - t0.len();
        let ghost b = t2.len() - t0.len();
        if sent.is_err() {
            proof {
                assert(t2.take(t2.len() as int) =~= t2);
                lemma_transfer(t0, ta, t1, t2, t2, t2, BusOp::Write32 { base, offset: IC_ENABLE, value: 1 });
                assert(write_split(t2.skip(t0.len() as int), base, addr, mode, cmds, sent, a, b, b));
            }
            return sent;
        }
        let w = wait_transfer_complete(mmio, base);
        let ghost t3 = mmio.trace();
        let ghost c = t3.len() - t0.len();
        if w.is_err() {
            proof {
                assert(t3.take(t3.len() as int) =~= t3);
                lemma_transfer(t0, ta, t1, t2, t3, t3, BusOp::Write32 { base, offset: IC_ENABLE, value: 1 });
                assert(write_split(t3.skip(t0.len() as int), base, addr, mode, cmds, w, a, b, c));
            }
            return w;
        }
        let r = check_errors(mmio, base);
        proof {
            let t4 = mmio.trace();
            lemma_transfer(t0, ta, t1, t2, t3, t4, BusOp::Write32 { base, offset: IC_ENABLE, value: 1 });
            let ops = t4.skip(t0.len() as int);
            assert(target_ops(ops.take(a), base, addr, mode));
            assert(tx_all(ops.subrange(a + 1, b), base, cmds));
            assert(status_wait(ops.subrange(b, c), base, true, None));
            assert(check_ops(ops.skip(c), base, r));
            assert(write_split(t4.skip(t0.len() as int), base, addr, mode, cmds, r, a, b, c));
        }
        r
    }

    /// Reads `buffer.len()` bytes from the 7-bit address `addr`.
    pub fn read<B: RegisterBus>(&self, mmio: &mut Mmio<B>, addr: u8, buffer: &mut [u8]) -> (r: Result<(), I2cError>)
        ensures
            final(buffer)@.len() == old(buffer)@.len(),
            old(buffer)@.len() == 0 ==> r is Ok && final(mmio).trace() == old(mmio).trace(),
            old(mmio).trace().len() <= final(mmio).trace().len(),
            old(buffer)@.len() > 0 ==> final(mmio).trace().take(old(mmio).trace().len() as int) == old(mmio).trace()
                && exists|a: int, b: int|
                #[trigger] read_split(
                    final(mmio).trace().skip(old(mmio).trace().len() as int),
                    self.base(),
                    addr as u16,
                    I2cAddressMode::SevenBit,
                    read_cmds(old(buffer)@.len(), false),
                    old(buffer)@,
                    final(buffer)@,
                    r,
                    a,
                    b,
                ),
    {
        self.read_with_mode(mmio, addr as u16, I2cAddressMode::SevenBit, buffer)
    }

    /// Reads `buffer.len()` bytes from `addr` in addressing mode `mode`:
    /// addresses the target, enables the controller, issues a read command
    /// per byte (STOP on the last) and stores each received byte, then
    /// checks for errors.  Nothing is done for an empty buffer.
    pub fn read_with_mode<B: RegisterBus>(&self, mmio: &mut Mmio<B>, addr: u16, mode: I2cAddressMode, buffer: &mut [u8]) -> (r: Result<(), I2cError>)
        ensures
            final(buffer)@.len() == old(buffer)@.len(),
            old(buffer)@.len() == 0 ==> r is Ok && final(mmio).trace() == old(mmio).trace(),
            old(mmio).trace().len() <= final(mmio).trace().len(),
            old(buffer)@.len() > 0 ==> final(mmio).trace().take(old(mmio).trace().len() as int) == old(mmio).trace()
                && exists|a: int, b: int|
                #[trigger] read_split(
                    final(mmio).trace().skip(old(mmio).trace().len() as int),
                    self.base(),
                    addr,
                    mode,
                    read_cmds(old(buffer)@.len(), false),
                    old(buffer)@,
                    final(buffer)@,
                    r,
                    a,
                    b,
                ),
    {
        if buffer.len() == 0 {
            return Ok(());
        }
        let base = self.base;
        let ghost t0 = mmio.trace();
        let ghost b0 = buffer@;
        let ghost cmds = read_cmds(b0.len(), false);
        self.set_target_address(mmio, addr, mode);
        let ghost ta = mmio.trace();
        mmio.write32(base, IC_ENABLE, 1);
        let ghost t1 = mmio.trace();
        let got = read_all(mmio, base, buffer, false);
        let ghost t2 = mmio.trace();
        let ghost a = ta.len() - t0.len();
        let ghost b = t2.len() - t0.len();
        if got.is_err() {
            proof {
                assert(t2.take(t2.len() as int) =~= t2);
                lemma_transfer(t0, ta, t1, t2, t2, t2, BusOp::Write32 { base, offset: IC_ENABLE, value: 1 });
                assert(read_split(t2.skip(t0.len() as int), base, addr, mode, cmds, b0, buffer@, got, a, b));
            }
            return got;
        }
        let r = check_errors(mmio, base);
        proof {
            let t3 = mmio.trace();
            assert(t3.take(t3.len() as int) =~= t3);
            lemma_transfer(t0, ta, t1, t2, t3, t3, BusOp::Write32 { base, offset: IC_ENABLE, value: 1 });
            assert(read_split(t3.skip(t0.len() as int), base, addr, mode, cmds, b0, buffer@, r, a, b));
        }
        r
    }

    /// Writes `write_data` then reads `read_buffer.len()` bytes from the
    /// 7-bit address `addr`, with a RESTART between (a register read).
    pub fn write_read<B: RegisterBus>(
        &self,
        mmio: &mut Mmio<B>,
        addr: u8,
        write_data: &[u8],
        read_buffer: &mut [u8],
    ) -> (r: Result<(), I2cError>)
        ensures
            final(read_buffer)@.len() == old(read_buffer)@.len(),
            write_data@.len() == 0 && old(read_buffer)@.len() == 0 ==> r is Ok && final(mmio).trace() == old(mmio).trace(),
            old(mmio).trace().len() <= final(mmio).trace().len(),
            write_data@.len() > 0 || old(read_buffer)@.len() > 0 ==> final(mmio).trace().take(
                old(mmio).trace().len() as int,
            ) == old(mmio).trace() && exists|a: int, b: int, c: int|
                #[trigger] write_read_split(
                    final(mmio).trace().skip(old(mmio).trace().len() as int),
                    self.base(),
                    addr as u16,
                    I2cAddressMode::SevenBit,
                    write_data@,
                    old(read_buffer)@,
                    final(read_buffer)@,
                    r,
                    a,
                    b,
                    c,
                ),
    {
        self.write_read_with_mode(mmio, addr as u16, I2cAddressMode::SevenBit, write_data, read_buffer)
    }

    /// Writes `write_data` (no STOP) then reads `read_buffer.len()` bytes
    /// from `addr` in mode `mode`; the first read command carries a RESTART
    /// when something was written, the last a STOP; then checks for errors.
    /// Nothing is done when both are empty.
    pub fn write_read_with_mode<B: RegisterBus>(
        &self,
        mmio: &mut Mmio<B>,
        addr: u16,
        mode: I2cAddressMode,
        write_data: &[u8],
        read_buffer: &mut [u8],
    ) -> (r: Result<(), I2cError>)
        ensures
            final(read_buffer)@.len() == old(read_buffer)@.len(),
            write_data@.len() == 0 && old(read_buffer)@.len() == 0 ==> r is Ok && final(mmio).trace() == old(mmio).trace(),
            old(mmio).trace().len() <= final(mmio).trace().len(),
            write_data@.len() > 0 || old(read_buffer)@.len() > 0 ==> final(mmio).trace().take(
                old(mmio).trace().len() as int,
            ) == old(mmio).trace() && exists|a: int, b: int, c: int|
                #[trigger] write_read_split(
                    final(mmio).trace().skip(old(mmio).trace().len() as int),
                    self.base(),
                    addr,
                    mode,
                    write_data@,
                    old(read_buffer)@,
                    final(read_buffer)@,
                    r,
                    a,
                    b,
                    c,
                ),
    {
        if write_data.len() == 0 && read_buffer.len() == 0 {
            return Ok(());
        }
        let base = self.base;
        let ghost t0 = mmio.trace();
        let ghost b0 = read_buffer@;
        let ghost wcmds = write_cmds(write_data@, false);
        let ghost rcmds = read_cmds(b0.len(), write_data@.len() > 0);
        self.set_target_address(mmio, addr, mode);
        let ghost ta = mmio.trace();
        mmio.write32(base, IC_ENABLE, 1);
        let ghost t1 = mmio.trace();
        let sent = send_all(mmio, base, write_data, false);
        let ghost t2 = mmio.trace();
        let ghost a = ta.len() - t0.len();
        let ghost b = t2.len() - t0.len();
        if sent.is_err() {
            proof {
                assert(t2.take(t2.len() as int) =~= t2);
                lemma_transfer(t0, ta, t1, t2, t2, t2, BusOp::Write32 { base, offset: IC_ENABLE, value: 1 });
                assert(write_read_split(t2.skip(t0.len() as int), base, addr, mode, write_data@, b0, read_buffer@, sent, a, b, b));
            }
            return sent;
        }
        let got = read_all(mmio, base, read_buffer, write_data.len() > 0);
        let ghost t3 = mmio.trace();
        let ghost c = t3.len() - t0.len();
        if got.is_err() {
            proof {
                assert(t3.take(t3.len() as int) =~= t3);
                lemma_transfer(t0, ta, t1, t2, t3, t3, BusOp::Write32 { base, offset: IC_ENABLE, value: 1 });
                assert(write_read_split(t3.skip(t0.len() as int), base, addr, mode, write_data@, b0, read_buffer@, got, a, b, c));
            }
            return got;
        }
        let r = check_errors(mmio, base);
        proof {
            let t4 = mmio.trace();
            lemma_transfer(t0, ta, t1, t2, t3, t4, BusOp::Write32 { base, offset: IC_ENABLE, value: 1 });
            assert(write_read_split(t4.skip(t0.len() as int), base, addr, mode, write_data@, b0, read_buffer@, r, a, b, c));
        }
        r
    }

    /// The transmit FIFO level (IC_TXFLR, 7 bits).
    pub fn tx_fifo_level<B: RegisterBus>(&self, mmio: &mut Mmio<B>) -> (level: u8)
        ensures
            read_next(old(mmio).trace(), final(mmio).trace(), self.base(), IC_TXFLR),
            level == (crate::mmio::read_at(final(mmio).trace(), old(mmio).trace().len() as int) & 0x7f) as u8,
    {
        let v = mmio.read32(self.base, IC_TXFLR);
        assert(crate::mmio::read_at(mmio.trace(), old(mmio).trace().len() as int) == v);
        (v & 0x7f) as u8
    }

    /// The receive FIFO level (IC_RXFLR, 7 bits).
    pub fn rx_fifo_level<B: RegisterBus>(&self, mmio: &mut Mmio<B>) -> (level: u8)
        ensures
            read_next(old(mmio).trace(), final(mmio).trace(), self.base(), IC_RXFLR),
            level == (crate::mmio::read_at(final(mmio).trace(), old(mmio).trace().len() as int) & 0x7f) as u8,
    {
        let v = mmio.read32(self.base, IC_RXFLR);
        assert(crate::mmio::read_at(mmio.trace(), old(mmio).trace().len() as int) == v);
        (v & 0x7f) as u8
    }

    /// IC_RAW_INTR_STAT as read.
    pub fn raw_interrupt_status<B: RegisterBus>(&self, mmio: &mut Mmio<B>) -> (v: u32)
        ensures
            final(mmio).trace() == old(mmio).trace().push(BusOp::Read32 { base: self.base(), offset: IC_RAW_INTR_STAT, value: v }),
    {
        mmio.read32(self.base, IC_RAW_INTR_STAT)
    }

    /// Clears all interrupts (a read of IC_CLR_INTR).
    pub fn clear_all_interrupts<B: RegisterBus>(&self, mmio: &mut Mmio<B>)
        ensures
            read_next(old(mmio).trace(), final(mmio).trace(), self.base(), IC_CLR_INTR),
    {
        let _ = mmio.read32(self.base, IC_CLR_INTR);
    }

    /// Sets IC_DMA_CR's transmit DMA enable.
    pub fn enable_tx_dma<B: RegisterBus>(&self, mmio: &mut Mmio<B>)
        ensures
            bits_rw(old(mmio).trace(), final(mmio).trace(), self.base(), IC_DMA_CR, DMA_CR_TDMAE, true),
    {
        mmio.update_bits32(self.base, IC_DMA_CR, DMA_CR_TDMAE, true);
    }

    /// Sets IC_DMA_CR's receive DMA enable.
    pub fn enable_rx_dma<B: RegisterBus>(&self, mmio: &mut Mmio<B>)
        ensures
            bits_rw(old(mmio).trace(), final(mmio).trace(), self.base(), IC_DMA_CR, DMA_CR_RDMAE, true),
    {
        mmio.update_bits32(self.base, IC_DMA_CR, DMA_CR_RDMAE, true);
    }

    /// Clears both DMA enables of IC_DMA_CR.
    pub fn disable_dma<B: RegisterBus>(&self, mmio: &mut Mmio<B>)
        ensures
            bits_rw(old(mmio).trace(), final(mmio).trace(), self.base(), IC_DMA_CR, DMA_CR_TDMAE | DMA_CR_RDMAE, false),
    {
        mmio.update_bits32(self.base, IC_DMA_CR, DMA_CR_TDMAE | DMA_CR_RDMAE, false);
    }

    /// Sets the transmit DMA data level (IC_DMA_TDLR, 6 bits).
    pub fn set_dma_tx_level<B: RegisterBus>(&self, mmio: &mut Mmio<B>, level: u8)
        ensures
            final(mmio).trace() == old(mmio).trace().push(BusOp::Write32 { base: self.base(), offset: IC_DMA_TDLR, value: (level as u32) & 0x3f }),
    {
        mmio.write32(self.base, IC_DMA_TDLR, (level as u32) & 0x3f);
    }

    /// Sets the receive DMA data level (IC_DMA_RDLR, 6 bits).
    pub fn set_dma_rx_level<B: RegisterBus>(&self, mmio: &mut Mmio<B>, level: u8)
        ensures
            final(mmio).trace() == old(mmio).trace().push(BusOp::Write32 { base: self.base(), offset: IC_DMA_RDLR, value: (level as u32) & 0x3f }),
    {
        mmio.write32(self.base, IC_DMA_RDLR, (level as u32) & 0x3f);
    }
}

pub fn i2c0() -> (d: I2c)
    ensures
        d.base() == I2C0_BASE,
        d.instance_spec() == I2cInstance::I2c0,
{
    I2c::new(I2cInstance::I2c0)
}

pub fn i2c1() -> (d: I2c)
    ensures
        d.base() == I2C1_BASE,
        d.instance_spec() == I2cInstance::I2c1,
{
    I2c::new(I2cInstance::I2c1)
}

pub fn i2c2() -> (d: I2c)
    ensures
        d.base() == I2C2_BASE,
        d.instance_spec() == I2cInstance::I2c2,
{
    I2c::new(I2cInstance::I2c2)
}

pub fn i2c3() -> (d: I2c)
    ensures
        d.base() == I2C3_BASE,
        d.instance_spec() == I2cInstance::I2c3,
{
    I2c::new(I2cInstance::I2c3)
}

pub fn i2c4() -> (d: I2c)
    ensures
        d.base() == I2C4_BASE,
        d.instance_spec() == I2cInstance::I2c4,
{
    I2c::new(I2cInstance::I2c4)
}

pub fn rtcsys_i2c() -> (d: I2c)
    ensures
        d.base() == RTCSYS_I2C_BASE,
        d.instance_spec() == I2cInstance::RtcsysI2c,
{
    I2c::new(I2cInstance::RtcsysI2c)
}

} // verus!
