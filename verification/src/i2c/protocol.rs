//! The register-level protocol of the I2C master, as predicates over the
//! accesses that a transfer makes (see [`crate::mmio`]).
//!
//! A transfer is a sequence of phases: addressing the target, the command
//! bytes (each preceded by a wait for room in the transmit FIFO, each read
//! followed by a wait for the received byte), a wait for the bus to go idle,
//! and a final check of the raw interrupt status.  Every wait is bounded by
//! [`I2C_DEFAULT_TIMEOUT`] status reads.
use super::consts::{IC_CON, IC_TAR, IC_DATA_CMD, IC_SS_SCL_HCNT, IC_SS_SCL_LCNT, IC_FS_SCL_HCNT, IC_FS_SCL_LCNT, IC_INTR_MASK, IC_RAW_INTR_STAT, IC_RX_TL, IC_TX_TL, IC_CLR_RX_OVER, IC_CLR_TX_OVER, IC_CLR_TX_ABRT, IC_ENABLE, IC_STATUS, IC_SDA_HOLD, IC_SDA_SETUP, IC_ENABLE_STATUS, IC_FS_SPKLEN, CON_10BITADDR_MASTER, TAR_ADDR_MASK, DATA_CMD_DAT_MASK, DATA_CMD_READ, DATA_CMD_STOP, DATA_CMD_RESTART, STATUS_ACTIVITY, STATUS_TFNF, STATUS_TFE, STATUS_RFNE, RAW_RX_OVER, RAW_TX_OVER, RAW_TX_ABRT, ENABLE_STATUS_IC_EN, I2C_DEFAULT_TIMEOUT, I2cError, I2cSpeed, I2cAddressMode};
use crate::mmio::{is_read32_of, polled_until_clear, polled_until_set, read_at, BusOp};
use vstd::prelude::*;

verus! {

/// The poll limit as an integer.
pub open spec fn limit() -> int {
    I2C_DEFAULT_TIMEOUT as int
}

/// Disabling: a zero written to IC_ENABLE, then polls of IC_ENABLE_STATUS
/// until the controller reports itself off or the limit is reached (the
/// driver goes on either way).
pub open spec fn disabled_ops(ops: Seq<BusOp>, base: usize) -> bool {
    &&& ops.len() >= 2
    &&& ops[0] == BusOp::Write32 { base, offset: IC_ENABLE, value: 0 }
    &&& (polled_until_clear(ops.skip(1), base, IC_ENABLE_STATUS, ENABLE_STATUS_IC_EN, limit(), true)
        || polled_until_clear(ops.skip(1), base, IC_ENABLE_STATUS, ENABLE_STATUS_IC_EN, limit(), false))
}

/// IC_CON as `init` writes it: master mode, the speed field, RESTART
/// allowed, slave disabled, 7-bit addressing.
pub open spec fn con_value(speed: I2cSpeed) -> u32 {
    match speed {
        I2cSpeed::Standard => 0x63,
        I2cSpeed::Fast => 0x65,
    }
}

/// The writes that `init` makes after disabling the controller.
pub open spec fn init_writes(base: usize, speed: I2cSpeed, cfg: super::I2cClockConfig) -> Seq<BusOp> {
    seq![
        BusOp::Write32 { base, offset: IC_CON, value: con_value(speed) },
        BusOp::Write32 { base, offset: IC_SS_SCL_HCNT, value: cfg.ss_scl_hcnt as u32 },
        BusOp::Write32 { base, offset: IC_SS_SCL_LCNT, value: cfg.ss_scl_lcnt as u32 },
        BusOp::Write32 { base, offset: IC_FS_SCL_HCNT, value: cfg.fs_scl_hcnt as u32 },
        BusOp::Write32 { base, offset: IC_FS_SCL_LCNT, value: cfg.fs_scl_lcnt as u32 },
        BusOp::Write32 { base, offset: IC_SDA_HOLD, value: cfg.sda_hold as u32 },
        BusOp::Write32 { base, offset: IC_SDA_SETUP, value: (cfg.sda_setup as u32) & 1 },
        BusOp::Write32 { base, offset: IC_FS_SPKLEN, value: cfg.fs_spklen as u32 },
        BusOp::Write32 { base, offset: IC_RX_TL, value: 0 },
        BusOp::Write32 { base, offset: IC_TX_TL, value: 0 },
        BusOp::Write32 { base, offset: IC_INTR_MASK, value: 0 },
    ]
}

/// Addressing the target: IC_ENABLE_STATUS is read; an enabled controller
/// is disabled first and enabled again at the end; IC_CON's 10-bit master
/// bit is set for `TenBit` and cleared otherwise (read-modify-write), and
/// IC_TAR gets the address field.
pub open spec fn target_ops(ops: Seq<BusOp>, base: usize, addr: u16, mode: I2cAddressMode) -> bool {
    let en = read_at(ops, 0) & ENABLE_STATUS_IC_EN != 0;
    let m = if en { ops.len() - 4 } else { ops.len() - 3 };
    let con = read_at(ops, m);
    &&& ops.len() >= 4
    &&& is_read32_of(ops[0], base, IC_ENABLE_STATUS)
    &&& if en { m >= 3 && disabled_ops(ops.subrange(1, m), base) } else { m == 1 }
    &&& is_read32_of(ops[m], base, IC_CON)
    &&& ops[m + 1] == BusOp::Write32 {
        base,
        offset: IC_CON,
        value: if mode == I2cAddressMode::TenBit { con | CON_10BITADDR_MASTER } else { con & !CON_10BITADDR_MASTER },
    }
    &&& ops[m + 2] == BusOp::Write32 { base, offset: IC_TAR, value: (addr as u32) & TAR_ADDR_MASK }
    &&& en ==> ops[m + 3] == BusOp::Write32 { base, offset: IC_ENABLE, value: 1 }
}

/// One command byte written: polls of IC_STATUS until the transmit FIFO has
/// room, then the command written to IC_DATA_CMD.
pub open spec fn tx_step(seg: Seq<BusOp>, base: usize, cmd: u32) -> bool {
    &&& seg.len() >= 2
    &&& polled_until_set(seg.drop_last(), base, IC_STATUS, STATUS_TFNF, limit(), true)
    &&& seg.last() == BusOp::Write32 { base, offset: IC_DATA_CMD, value: cmd }
}

/// All of `cmds` written, in order, each as a [`tx_step`].
pub open spec fn tx_all(ops: Seq<BusOp>, base: usize, cmds: Seq<u32>) -> bool
    decreases cmds.len(),
{
    if cmds.len() == 0 {
        ops.len() == 0
    } else {
        exists|n: int|
            0 <= n < ops.len() && tx_all(ops.take(n), base, cmds.drop_last()) && #[trigger] tx_step(
                ops.skip(n),
                base,
                cmds.last(),
            )
    }
}

/// The first `i` commands written, then a transmit FIFO that stayed full
/// for the whole poll starting at `n`.
pub open spec fn tx_stalled(ops: Seq<BusOp>, base: usize, cmds: Seq<u32>, i: int, n: int) -> bool {
    &&& 0 <= i < cmds.len()
    &&& 0 <= n < ops.len()
    &&& tx_all(ops.take(n), base, cmds.take(i))
    &&& polled_until_set(ops.skip(n), base, IC_STATUS, STATUS_TFNF, limit(), false)
}

/// The IC_STATUS reads of one round of a status wait, and whether they
/// found it done: a completion wait reads IC_STATUS for bus activity and,
/// when the bus is idle, reads it again for an empty transmit FIFO; a
/// receive wait reads it once for a received byte.
pub open spec fn status_probe(p: Seq<BusOp>, base: usize, complete: bool, done: bool) -> bool {
    if complete {
        ||| (p.len() == 1 && is_read32_of(p[0], base, IC_STATUS) && read_at(p, 0) & STATUS_ACTIVITY != 0 && !done)
        ||| (p.len() == 2 && is_read32_of(p[0], base, IC_STATUS) && read_at(p, 0) & STATUS_ACTIVITY == 0
            && is_read32_of(p[1], base, IC_STATUS) && done == (read_at(p, 1) & STATUS_TFE != 0))
    } else {
        p.len() == 1 && is_read32_of(p[0], base, IC_STATUS) && done == (read_at(p, 0) & STATUS_RFNE != 0)
    }
}

/// A round of a status wait that went on: the status reads found it not
/// done, then IC_RAW_INTR_STAT was read and showed no transmit abort.
pub open spec fn busy_round(r: Seq<BusOp>, base: usize, complete: bool) -> bool {
    &&& r.len() >= 2
    &&& status_probe(r.drop_last(), base, complete, false)
    &&& is_read32_of(r.last(), base, IC_RAW_INTR_STAT)
    &&& read_at(r, r.len() - 1) & RAW_TX_ABRT == 0
}

/// How a status wait ends after `k` busy rounds with `fail`: done at the
/// next status reads (`None`), a transmit abort (cleared by a read of
/// IC_CLR_TX_ABRT), or the limit of rounds reached (`Timeout`).
pub open spec fn wait_end(tail: Seq<BusOp>, base: usize, complete: bool, k: int, fail: Option<I2cError>) -> bool {
    match fail {
        None => k < limit() && status_probe(tail, base, complete, true),
        Some(I2cError::TxAbort) => {
            &&& k < limit()
            &&& tail.len() >= 3
            &&& status_probe(tail.take(tail.len() - 2), base, complete, false)
            &&& is_read32_of(tail[tail.len() - 2], base, IC_RAW_INTR_STAT)
            &&& read_at(tail, tail.len() - 2) & RAW_TX_ABRT != 0
            &&& is_read32_of(tail[tail.len() - 1], base, IC_CLR_TX_ABRT)
        },
        Some(I2cError::Timeout) => k == limit() && tail.len() == 0,
        Some(_) => false,
    }
}

/// `ops` is the busy rounds `rounds` of a status wait followed by its end
/// with `fail`.
pub open spec fn wait_rounds(ops: Seq<BusOp>, base: usize, complete: bool, rounds: Seq<Seq<BusOp>>, fail: Option<I2cError>) -> bool {
    let n = rounds.flatten().len();
    &&& rounds.len() <= limit()
    &&& forall|j: int| 0 <= j < rounds.len() ==> #[trigger] busy_round(rounds[j], base, complete)
    &&& n <= ops.len()
    &&& ops.take(n as int) == rounds.flatten()
    &&& wait_end(ops.skip(n as int), base, complete, rounds.len() as int, fail)
}

/// `ops` is a status wait that ended with `fail` (`None`: done).
pub open spec fn status_wait(ops: Seq<BusOp>, base: usize, complete: bool, fail: Option<I2cError>) -> bool {
    exists|rounds: Seq<Seq<BusOp>>| #[trigger] wait_rounds(ops, base, complete, rounds, fail)
}

/// The final error check: IC_RAW_INTR_STAT read; a transmit abort, a
/// receive overflow or a transmit overflow (in that order of precedence)
/// is cleared by a read of its clear register and reported.
pub open spec fn check_ops(ops: Seq<BusOp>, base: usize, res: Result<(), I2cError>) -> bool {
    let v = read_at(ops, 0);
    &&& ops.len() >= 1
    &&& is_read32_of(ops[0], base, IC_RAW_INTR_STAT)
    &&& if v & RAW_TX_ABRT != 0 {
        ops.len() == 2 && is_read32_of(ops[1], base, IC_CLR_TX_ABRT) && res == Err::<(), I2cError>(I2cError::TxAbort)
    } else if v & RAW_RX_OVER != 0 {
        ops.len() == 2 && is_read32_of(ops[1], base, IC_CLR_RX_OVER) && res == Err::<(), I2cError>(I2cError::RxOverflow)
    } else if v & RAW_TX_OVER != 0 {
        ops.len() == 2 && is_read32_of(ops[1], base, IC_CLR_TX_OVER) && res == Err::<(), I2cError>(I2cError::TxOverflow)
    } else {
        ops.len() == 1 && res is Ok
    }
}

/// The commands that write `data`: each byte, STOP on the last one when
/// `stop`.
pub open spec fn write_cmds(data: Seq<u8>, stop: bool) -> Seq<u32> {
    Seq::new(
        data.len(),
        |i: int| (data[i] as u32) | (if stop && i == data.len() - 1 { DATA_CMD_STOP } else { 0 }),
    )
}

/// The commands that read `len` bytes: read commands, RESTART on the first
/// one when `restart`, STOP on the last one.
pub open spec fn read_cmds(len: nat, restart: bool) -> Seq<u32> {
    Seq::new(
        len,
        |i: int|
            DATA_CMD_READ | (if restart && i == 0 { DATA_CMD_RESTART } else { 0 }) | (if i == len - 1 {
                DATA_CMD_STOP
            } else {
                0
            }),
    )
}

/// One byte read: the read command written as a [`tx_step`] that ends at
/// `p`, a receive wait that succeeded, and IC_DATA_CMD read; `byte` is the
/// data field of that read.
pub open spec fn rx_split(seg: Seq<BusOp>, base: usize, cmd: u32, byte: u8, p: int) -> bool {
    &&& 1 <= p < seg.len() - 1
    &&& tx_step(seg.take(p + 1), base, cmd)
    &&& status_wait(seg.subrange(p + 1, seg.len() - 1), base, false, None)
    &&& is_read32_of(seg.last(), base, IC_DATA_CMD)
    &&& byte == (read_at(seg, seg.len() - 1) & DATA_CMD_DAT_MASK) as u8
}

pub open spec fn rx_step(seg: Seq<BusOp>, base: usize, cmd: u32, byte: u8) -> bool {
    exists|p: int| #[trigger] rx_split(seg, base, cmd, byte, p)
}

/// All of `cmds` issued as byte reads, in order, that received `bytes`.
pub open spec fn rx_all(ops: Seq<BusOp>, base: usize, cmds: Seq<u32>, bytes: Seq<u8>) -> bool
    decreases cmds.len(),
{
    &&& bytes.len() == cmds.len()
    &&& if cmds.len() == 0 {
        ops.len() == 0
    } else {
        exists|n: int|
            0 <= n < ops.len() && rx_all(ops.take(n), base, cmds.drop_last(), bytes.drop_last())
                && #[trigger] rx_step(ops.skip(n), base, cmds.last(), bytes.last())
    }
}

/// A byte read that failed with `e`: the transmit FIFO stayed full
/// (`Timeout`), or the command went out at `p` and the receive wait failed.
pub open spec fn rx_fail_split(seg: Seq<BusOp>, base: usize, cmd: u32, e: I2cError, p: int) -> bool {
    ||| (p == seg.len() && polled_until_set(seg, base, IC_STATUS, STATUS_TFNF, limit(), false) && e == I2cError::Timeout)
    ||| (1 <= p < seg.len() && tx_step(seg.take(p + 1), base, cmd) && status_wait(seg.skip(p + 1), base, false, Some(e)))
}

pub open spec fn rx_fail(seg: Seq<BusOp>, base: usize, cmd: u32, e: I2cError) -> bool {
    exists|p: int| #[trigger] rx_fail_split(seg, base, cmd, e, p)
}

/// The first `i` reads done into `got`, then read `i` failed with `e` from
/// `n` on.
pub open spec fn rx_stalled(ops: Seq<BusOp>, base: usize, cmds: Seq<u32>, got: Seq<u8>, e: I2cError, i: int, n: int) -> bool {
    &&& 0 <= i < cmds.len()
    &&& 0 <= n <= ops.len()
    &&& rx_all(ops.take(n), base, cmds.take(i), got.take(i))
    &&& rx_fail(ops.skip(n), base, cmds[i], e)
}

} // verus!
